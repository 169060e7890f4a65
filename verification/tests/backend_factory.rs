use greentic_session::ids::{EnvId, FlowId, TenantId, UserId};
use greentic_session::session_data::{SessionCursor, SessionData};
use greentic_session::tenant::TenantCtx;
use greentic_session::{
    ErrorCode, SessionBackend, SessionBackendConfig, SessionStore, create_session_store,
};

fn ctx(user: &str) -> TenantCtx {
    let env = EnvId::new("dev".to_string());
    let tenant = TenantId::new("tenant-a".to_string());
    TenantCtx::new(env, tenant).with_user(Some(UserId::new(user.to_string())))
}

#[test]
fn factory_returns_inmemory_store() {
    let mut store = match create_session_store(SessionBackendConfig::InMemory)
        .expect("factory should build in-memory store")
    {
        SessionBackend::InMemory(store) => store,
        SessionBackend::Redis(_) => panic!("expected the in-memory backend"),
    };
    let ctx = ctx("user-007");
    let data = SessionData {
        tenant_ctx: ctx.clone(),
        flow_id: FlowId::new("flow.demo".to_string()),
        pack_id: None,
        cursor: SessionCursor::new("node.start".to_string()),
        context_json: "{}".into(),
    };

    let key = store
        .create_session(&ctx, data.clone())
        .expect("create succeeds");
    let fetched = store
        .get_session(&key)
        .expect("get succeeds")
        .expect("session exists");
    assert_eq!(fetched.cursor.node_pointer, data.cursor.node_pointer);
}

#[test]
fn factory_builds_redis_handle_with_default_namespace() {
    let backend = create_session_store(SessionBackendConfig::RedisUrl(
        "redis://127.0.0.1/".to_string(),
    ))
    .expect("a well-formed URL parses without touching the network");
    match backend {
        SessionBackend::Redis(store) => assert_eq!(store.namespace(), "greentic:session"),
        SessionBackend::InMemory(_) => panic!("expected the redis backend"),
    }
}

#[test]
fn factory_surfaces_bad_url_as_unavailable() {
    let err = create_session_store(SessionBackendConfig::RedisUrl("not-a-url".to_string()))
        .err()
        .expect("an unparsable URL must fail");
    assert_eq!(err.code, ErrorCode::Unavailable);
}

#[test]
fn factory_honors_custom_namespace() {
    let backend = create_session_store(SessionBackendConfig::RedisUrlWithNamespace {
        url: "redis://127.0.0.1/".to_string(),
        namespace: "acme:sessions".to_string(),
    })
    .expect("a well-formed URL parses without touching the network");
    match backend {
        SessionBackend::Redis(store) => assert_eq!(store.namespace(), "acme:sessions"),
        SessionBackend::InMemory(_) => panic!("expected the redis backend"),
    }
}

fn exercise_store<S: SessionStore>(store: &mut S, ctx: &TenantCtx, data: SessionData) {
    let key = store.create_session(ctx, data).expect("create succeeds");
    assert!(store.get_session(&key).expect("get succeeds").is_some());
    store.remove_session(&key).expect("remove succeeds");
    assert!(store.get_session(&key).expect("get succeeds").is_none());
}

#[test]
fn store_trait_dispatches_to_inmemory_backend() {
    let mut store = match create_session_store(SessionBackendConfig::InMemory)
        .expect("factory should build in-memory store")
    {
        SessionBackend::InMemory(store) => store,
        SessionBackend::Redis(_) => panic!("expected the in-memory backend"),
    };
    let ctx = ctx("user-dyn");
    let data = SessionData {
        tenant_ctx: ctx.clone(),
        flow_id: FlowId::new("flow.dyn".to_string()),
        pack_id: None,
        cursor: SessionCursor::new("node.start".to_string()),
        context_json: "{}".into(),
    };
    exercise_store(&mut store, &ctx, data);
}
