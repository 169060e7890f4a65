use greentic_session::ids::{EnvId, FlowId, TeamId, TenantId, UserId};
use greentic_session::inmemory::InMemorySessionStore;
use greentic_session::session_data::{SessionCursor, SessionData};
use greentic_session::tenant::TenantCtx;
use greentic_session::{ErrorCode, SessionBackend, SessionBackendConfig, create_session_store};

fn ctx(team: &str, user: Option<&str>) -> TenantCtx {
    let env = EnvId::new("dev".to_string());
    let tenant = TenantId::new("tenant-a".to_string());
    let team_id = TeamId::new(team.to_string());
    let ctx = TenantCtx::new(env, tenant).with_team(Some(team_id));
    match user {
        Some(user) => ctx.with_user(Some(UserId::new(user.to_string()))),
        None => ctx.with_user(None),
    }
}

fn data(ctx: &TenantCtx) -> SessionData {
    SessionData {
        tenant_ctx: ctx.clone(),
        flow_id: FlowId::new("flow.ctx".to_string()),
        pack_id: None,
        cursor: SessionCursor::new("node.start".to_string()),
        context_json: "{}".into(),
    }
}

fn inmemory() -> InMemorySessionStore {
    match create_session_store(SessionBackendConfig::InMemory)
        .expect("factory should build in-memory store")
    {
        SessionBackend::InMemory(store) => store,
        SessionBackend::Redis(_) => panic!("expected the in-memory backend"),
    }
}

#[test]
fn create_session_rejects_team_mismatch() {
    let mut store = inmemory();
    let caller_ctx = ctx("team-a", Some("user-1"));
    let stored_ctx = ctx("team-b", Some("user-1"));
    let err = store
        .create_session(&caller_ctx, data(&stored_ctx))
        .expect_err("team mismatch should be rejected");
    assert_eq!(err.code, ErrorCode::InvalidInput);
    assert!(
        err.message.contains("team"),
        "mismatch reason should mention team: {}",
        err.message
    );
}

#[test]
fn update_rejects_context_changes() {
    let mut store = inmemory();
    let base_ctx = ctx("team-a", Some("user-1"));
    let mut stored = data(&base_ctx);
    let key = store
        .create_session(&base_ctx, stored.clone())
        .expect("create succeeds");

    stored.tenant_ctx = stored
        .tenant_ctx
        .clone()
        .with_team(Some(TeamId::new("team-b".to_string())));
    let err = store
        .update_session(&key, stored)
        .expect_err("team change should be rejected");
    assert_eq!(err.code, ErrorCode::InvalidInput);
}

#[test]
fn find_by_user_enforces_scope_and_user() {
    let mut store = inmemory();
    let base_ctx = ctx("team-a", Some("user-1"));
    let key = store
        .create_session(&base_ctx, data(&base_ctx))
        .expect("create succeeds");

    // Wrong team should not retrieve the session.
    let other_team_ctx = ctx("team-b", Some("user-1"));
    let found = store
        .find_by_user(
            &other_team_ctx,
            other_team_ctx.user_id.as_ref().expect("user present"),
        )
        .expect("lookup")
        .is_some();
    assert!(!found, "lookup should respect team boundary");

    // Wrong user should not retrieve the session.
    let other_user = UserId::new("user-2".to_string());
    assert!(
        store
            .find_by_user(&base_ctx, &other_user)
            .expect("lookup")
            .is_none(),
        "lookup should respect user binding"
    );

    // Happy path still returns the session.
    let found = store
        .find_by_user(&base_ctx, base_ctx.user_id.as_ref().expect("user present"))
        .expect("lookup")
        .expect("should find session");
    assert_eq!(found.0, key);
}

#[test]
fn update_rejects_user_introduction() {
    let mut store = inmemory();
    let base_ctx = ctx("team-a", None);
    let key = store
        .create_session(&base_ctx, data(&base_ctx))
        .expect("create succeeds");

    let with_user_ctx = ctx("team-a", Some("user-9"));
    let err = store
        .update_session(&key, data(&with_user_ctx))
        .expect_err("introducing a user should be rejected");
    assert_eq!(err.code, ErrorCode::InvalidInput);
    assert!(
        err.message.contains("user"),
        "mismatch reason should mention user: {}",
        err.message
    );
}
