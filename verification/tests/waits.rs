use greentic_session::ids::{EnvId, FlowId, TeamId, TenantId, UserId};
use greentic_session::inmemory::InMemorySessionStore;
use greentic_session::model::SessionKey;
use greentic_session::session_data::{ReplyScope, SessionCursor, SessionData};
use greentic_session::tenant::TenantCtx;
use greentic_session::ErrorCode;

fn ctx(user: &str) -> TenantCtx {
    TenantCtx::new(
        EnvId::new("dev".to_string()),
        TenantId::new("tenant-a".to_string()),
    )
    .with_team(Some(TeamId::new("team-a".to_string())))
    .with_user(Some(UserId::new(user.to_string())))
}

fn data(ctx: &TenantCtx) -> SessionData {
    SessionData {
        tenant_ctx: ctx.clone(),
        flow_id: FlowId::new("flow.wait".to_string()),
        pack_id: None,
        cursor: SessionCursor::new("node.wait".to_string()),
        context_json: "{}".into(),
    }
}

fn scope(conversation: &str) -> ReplyScope {
    ReplyScope {
        conversation: conversation.to_string(),
        thread: None,
        reply_to: None,
        correlation: None,
    }
}

#[test]
fn register_and_find_wait_by_scope() {
    let mut store = InMemorySessionStore::new();
    let ctx = ctx("user-1");
    let user = ctx.user_id.clone().unwrap();
    let key = SessionKey::new("wait-1".to_string());

    store
        .register_wait_at(&ctx, &user, &scope("chat-1"), &key, data(&ctx), Some(60), 0)
        .expect("register succeeds");

    let found = store
        .find_wait_by_scope_at(&ctx, &user, &scope("chat-1"), 10)
        .expect("lookup")
        .expect("wait present");
    assert_eq!(found, key);

    let other = store
        .find_wait_by_scope_at(&ctx, &user, &scope("chat-2"), 10)
        .expect("lookup");
    assert!(other.is_none(), "a different scope routes nowhere");
}

#[test]
fn ambiguous_user_lookup_is_rejected() {
    let mut store = InMemorySessionStore::new();
    let ctx = ctx("user-1");
    let user = ctx.user_id.clone().unwrap();

    store
        .register_wait_at(
            &ctx,
            &user,
            &scope("chat-1"),
            &SessionKey::new("wait-a".to_string()),
            data(&ctx),
            None,
            0,
        )
        .expect("first wait");
    store
        .register_wait_at(
            &ctx,
            &user,
            &scope("chat-2"),
            &SessionKey::new("wait-b".to_string()),
            data(&ctx),
            None,
            0,
        )
        .expect("second wait");

    let err = store
        .find_by_user_at(&ctx, &user, 10)
        .expect_err("two waits make the lookup ambiguous");
    assert_eq!(err.code, ErrorCode::InvalidInput);
    assert!(
        err.message.contains("multiple waits"),
        "message should say the lookup is ambiguous: {}",
        err.message
    );
}

#[test]
fn single_wait_routes_find_by_user() {
    let mut store = InMemorySessionStore::new();
    let ctx = ctx("user-1");
    let user = ctx.user_id.clone().unwrap();
    let key = SessionKey::new("wait-solo".to_string());

    store
        .register_wait_at(&ctx, &user, &scope("chat-1"), &key, data(&ctx), None, 0)
        .expect("register");

    let (found, payload) = store
        .find_by_user_at(&ctx, &user, 10)
        .expect("lookup")
        .expect("wait present");
    assert_eq!(found, key);
    assert_eq!(payload.cursor.node_pointer, "node.wait");
}

#[test]
fn expired_wait_is_pruned_on_lookup() {
    let mut store = InMemorySessionStore::new();
    let ctx = ctx("user-1");
    let user = ctx.user_id.clone().unwrap();
    let key = SessionKey::new("wait-ttl".to_string());

    store
        .register_wait_at(&ctx, &user, &scope("chat-1"), &key, data(&ctx), Some(1), 0)
        .expect("register");

    assert!(store
        .find_wait_by_scope_at(&ctx, &user, &scope("chat-1"), 2000)
        .expect("lookup")
        .is_none());
    // The session record itself was purged along with the indices.
    assert!(store.get_session_at(&key, 0).expect("get").is_none());
    assert!(store
        .list_waits_for_user_at(&ctx, &user, 0)
        .expect("list")
        .is_empty());
}

#[test]
fn removed_session_heals_wait_indices() {
    let mut store = InMemorySessionStore::new();
    let ctx = ctx("user-1");
    let user = ctx.user_id.clone().unwrap();
    let key = SessionKey::new("wait-removed".to_string());

    store
        .register_wait_at(&ctx, &user, &scope("chat-1"), &key, data(&ctx), None, 0)
        .expect("register");
    store.remove_session(&key).expect("remove");

    assert!(store
        .list_waits_for_user_at(&ctx, &user, 10)
        .expect("list")
        .is_empty());
    assert!(store
        .find_wait_by_scope_at(&ctx, &user, &scope("chat-1"), 10)
        .expect("lookup")
        .is_none());
}

#[test]
fn list_waits_reports_only_live_matching_sessions() {
    let mut store = InMemorySessionStore::new();
    let ctx = ctx("user-1");
    let user = ctx.user_id.clone().unwrap();

    let keep = SessionKey::new("wait-keep".to_string());
    let lapse = SessionKey::new("wait-lapse".to_string());
    store
        .register_wait_at(&ctx, &user, &scope("chat-1"), &keep, data(&ctx), None, 0)
        .expect("register keep");
    store
        .register_wait_at(&ctx, &user, &scope("chat-2"), &lapse, data(&ctx), Some(1), 0)
        .expect("register lapse");

    let listed = store
        .list_waits_for_user_at(&ctx, &user, 5000)
        .expect("list");
    assert_eq!(listed.len(), 1);
    assert_eq!(listed[0], keep);
}

#[test]
fn register_wait_requires_session_user() {
    let mut store = InMemorySessionStore::new();
    let caller = ctx("user-1");
    let user = caller.user_id.clone().unwrap();
    let userless = caller.clone().with_user(None);
    // The caller aligns with the stored context, but the data names no user.
    let err = store
        .register_wait_at(
            &ctx("user-1").with_user(None),
            &user,
            &scope("chat-1"),
            &SessionKey::new("wait-x".to_string()),
            data(&userless),
            None,
            0,
        )
        .expect_err("a wait needs the session user");
    assert_eq!(err.code, ErrorCode::InvalidInput);
}

#[test]
fn clear_wait_is_silent_when_absent() {
    let mut store = InMemorySessionStore::new();
    let ctx = ctx("user-1");
    let user = ctx.user_id.clone().unwrap();
    store
        .clear_wait(&ctx, &user, &scope("chat-1"))
        .expect("silent");

    let key = SessionKey::new("wait-clear".to_string());
    store
        .register_wait_at(&ctx, &user, &scope("chat-1"), &key, data(&ctx), None, 0)
        .expect("register");
    store
        .clear_wait(&ctx, &user, &scope("chat-1"))
        .expect("clear");
    assert!(store
        .find_wait_by_scope_at(&ctx, &user, &scope("chat-1"), 10)
        .expect("lookup")
        .is_none());
}

#[test]
fn scope_hash_is_stable_and_field_sensitive() {
    let base = ReplyScope {
        conversation: "chat-1".to_string(),
        thread: Some("topic-9".to_string()),
        reply_to: Some("msg-3".to_string()),
        correlation: Some("cid-7".to_string()),
    };
    assert_eq!(
        base.scope_hash(),
        "5251e2c9eb975466809eecbe51be7aa8dc7785ad05cb393a8f47a3a2f42cc544"
    );
    let mut altered = base.clone();
    altered.reply_to = Some("msg-4".to_string());
    assert_ne!(base.scope_hash(), altered.scope_hash());
}
