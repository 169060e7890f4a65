use greentic_session::ids::{EnvId, FlowId, TenantId, UserId};
use greentic_session::inmemory::InMemorySessionStore;
use greentic_session::session_data::{SessionCursor, SessionData};
use greentic_session::tenant::TenantCtx;
use greentic_session::{ErrorCode, SessionKey};

fn tenant_ctx(user: &str) -> TenantCtx {
    let env = EnvId::new("dev".to_string());
    let tenant = TenantId::new("tenant-a".to_string());
    TenantCtx::new(env, tenant).with_user(Some(UserId::new(user.to_string())))
}

fn sample_data(ctx: &TenantCtx, node: &str, state: &str) -> SessionData {
    SessionData {
        tenant_ctx: ctx.clone(),
        flow_id: FlowId::new("flow-alpha".to_string()),
        pack_id: None,
        cursor: SessionCursor::new(node.to_string()),
        context_json: state.to_string(),
    }
}

#[test]
fn create_get_update_remove_flow_session() {
    let mut store = InMemorySessionStore::new();
    let ctx = tenant_ctx("user-42");
    let data = sample_data(&ctx, "node.enter", "{\"step\":1}");

    let key = store
        .create_session(&ctx, data.clone())
        .expect("session created");
    let snapshot = store
        .get_session(&key)
        .expect("get session")
        .expect("data present");
    assert_eq!(snapshot.context_json, data.context_json);

    let found = store
        .find_by_user(&ctx, ctx.user_id.as_ref().unwrap())
        .expect("lookup")
        .expect("user session");
    assert_eq!(found.0, key);

    let updated_ctx = ctx.clone().with_user(ctx.user_id.clone());
    let updated = sample_data(&updated_ctx, "node.wait", "{\"step\":2}");
    store
        .update_session(&key, updated.clone())
        .expect("update succeeds");
    let after = store
        .get_session(&key)
        .expect("get after update")
        .expect("present after update");
    assert_eq!(after.cursor.node_pointer, "node.wait");

    store.remove_session(&key).expect("remove succeeds");
    let missing = store.get_session(&key).expect("get after delete");
    assert!(missing.is_none());
}

#[test]
fn update_of_missing_session_is_not_found() {
    let mut store = InMemorySessionStore::new();
    let ctx = tenant_ctx("user-1");
    let key = SessionKey::new("k1".to_string());
    let err = store
        .update_session(&key, sample_data(&ctx, "node", "{}"))
        .expect_err("update of a missing key must fail");
    assert_eq!(err.code, ErrorCode::NotFound);
    assert_eq!(err.message, "session k1 was not found");
}

#[test]
fn remove_of_missing_session_is_not_found() {
    let mut store = InMemorySessionStore::new();
    let key = SessionKey::new("k2".to_string());
    let err = store
        .remove_session(&key)
        .expect_err("remove of a missing key must fail");
    assert_eq!(err.code, ErrorCode::NotFound);
}
