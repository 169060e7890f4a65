use greentic_session::model::{
    Cas, Session, SessionCursor, SessionId, SessionKey, SessionMeta,
};
use greentic_session::redis_store::{
    CasScriptOutcome, RedisSessionStore, cas_outcome_to_result, interpret_cas_reply,
};
use greentic_session::ids::{EnvId, TenantId, UserId};
use greentic_session::tenant::TenantCtx;
use greentic_session::ErrorCode;

#[test]
fn cas_tokens_progress() {
    assert_eq!(Cas::initial().value(), 1);
    assert_eq!(Cas::none().value(), 0);
    assert_eq!(Cas(1).next(), Cas(2));
    assert_eq!(Cas(u64::MAX).next(), Cas(0), "the counter wraps at the limit");
}

#[test]
fn expires_at_follows_updated_at_plus_ttl() {
    let session = Session {
        id: SessionId::new(),
        key: SessionKey::new("exp".to_string()),
        cursor: SessionCursor {
            flow_id: "flow".into(),
            node_id: "node".into(),
            wait_reason: None,
            outbox_seq: 0,
        },
        meta: SessionMeta {
            tenant_id: "tenant".into(),
            team_id: None,
            user_id: None,
        },
        outbox: vec![],
        updated_at: 1000,
        ttl_secs: 2,
    };
    assert_eq!(session.expires_at(), Some(3000));

    let mut immortal = session;
    immortal.ttl_secs = 0;
    assert_eq!(immortal.expires_at(), None);
}

#[test]
fn session_ids_render_as_uuid_text() {
    let id = SessionId::new();
    assert_eq!(id.as_str().len(), 36);
    let other = SessionId::new();
    assert_ne!(id.as_str(), other.as_str(), "fresh identifiers differ");
}

#[test]
fn cas_script_reply_interpretation() {
    assert_eq!(interpret_cas_reply(0, 7).unwrap(), CasScriptOutcome::Missing);
    assert_eq!(
        interpret_cas_reply(1, 7).unwrap(),
        CasScriptOutcome::Conflict(7)
    );
    assert_eq!(
        interpret_cas_reply(2, 8).unwrap(),
        CasScriptOutcome::Committed(8)
    );
    let err = interpret_cas_reply(3, 0).expect_err("unknown status is a protocol violation");
    assert_eq!(err.code, ErrorCode::Internal);
}

#[test]
fn cas_outcome_maps_to_caller_result() {
    assert_eq!(cas_outcome_to_result(CasScriptOutcome::Missing), Err(Cas(0)));
    assert_eq!(
        cas_outcome_to_result(CasScriptOutcome::Conflict(5)),
        Err(Cas(5))
    );
    assert_eq!(
        cas_outcome_to_result(CasScriptOutcome::Committed(6)),
        Ok(Cas(6))
    );
}

#[test]
fn redis_key_grammar() {
    let client = redis::Client::open("redis://127.0.0.1/").expect("parse url");
    let store = RedisSessionStore::new(client);
    let key = SessionKey::new("abc".to_string());
    assert_eq!(
        store.session_entry_key(&key),
        "greentic:session:session:abc"
    );
    assert_eq!(store.cas_lookup_key(&key), "greentic:session:lookup:abc");
    assert_eq!(
        store.cas_primary_key("tenant-1", &key),
        "greentic:session:tenant-1:abc"
    );

    let ctx = TenantCtx::new(
        EnvId::new("dev".to_string()),
        TenantId::new("tenant-1".to_string()),
    );
    let user = UserId::new("user-9".to_string());
    assert_eq!(
        store.user_lookup_key(&ctx, &user),
        "greentic:session:waits:user:dev:tenant-1:-:user-9",
        "an absent team reads as a literal dash"
    );
    assert_eq!(
        store.legacy_user_key(&ctx, &user),
        "greentic:session:user:dev:tenant-1:-:user-9",
        "the legacy mapping lives apart from the wait set"
    );
    assert_eq!(
        store.scope_lookup_key(&ctx, &user, "beef"),
        "greentic:session:waits:scope:dev:tenant-1:-:user-9:beef"
    );
}
