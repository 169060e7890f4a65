use greentic_session::mapping::{telegram_update_to_session_key, webhook_to_session_key};

#[test]
fn stable_hash() {
    let key1 = telegram_update_to_session_key("bot", "chat", "user");
    let key2 = telegram_update_to_session_key("bot", "chat", "user");
    assert_eq!(key1, key2);
    assert_ne!(key1, telegram_update_to_session_key("bot", "chat", "user2"));
    let webhook = webhook_to_session_key("crm", "ticket", "42");
    assert_eq!(webhook, webhook_to_session_key("crm", "ticket", "42"));
}

#[test]
fn telegram_key_is_sha256_hex_of_joined_fields() {
    let key = telegram_update_to_session_key("bot", "chat", "user");
    assert_eq!(
        key.as_str(),
        "cd049376205f9b558a9efca590634fdbeb5330a2693405251e8ebe96dbea2fe8"
    );
}

#[test]
fn webhook_key_is_sha256_hex_of_joined_fields() {
    let key = webhook_to_session_key("crm", "ticket", "42");
    assert_eq!(
        key.as_str(),
        "9e1d895a280b0fec2827860d32d810a44ea9ae7b97d1bed3fc9b586de7f6de49"
    );
}

#[test]
fn derived_keys_are_64_lowercase_hex_characters() {
    let key = telegram_update_to_session_key("bot", "chat", "user");
    assert_eq!(key.as_str().len(), 64);
    assert!(key
        .as_str()
        .chars()
        .all(|c| c.is_ascii_digit() || ('a'..='f').contains(&c)));
}
