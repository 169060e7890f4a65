use greentic_session::mapping::{telegram_update_to_session_key, webhook_to_session_key};

#[test]
fn deterministic_telegram_mapping() {
    let key1 = telegram_update_to_session_key("bot42", "chat9001", "user5");
    let key2 = telegram_update_to_session_key("bot42", "chat9001", "user5");
    assert_eq!(key1, key2);
}

#[test]
fn deterministic_webhook_mapping() {
    let a = webhook_to_session_key("crm", "ticket", "1234");
    let b = webhook_to_session_key("crm", "ticket", "1234");
    assert_eq!(a, b);
    let c = webhook_to_session_key("crm", "ticket", "12345");
    assert_ne!(a, c);
}
