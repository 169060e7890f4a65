use greentic_session::inmemory::InMemorySessionStore;
use greentic_session::model::{
    OutboxEntry, Session, SessionCursor, SessionId, SessionKey, SessionMeta,
};

fn sample_session(key: &str, ttl_secs: u32) -> Session {
    Session {
        id: SessionId::new(),
        key: SessionKey(key.to_owned()),
        cursor: SessionCursor {
            flow_id: "flow".into(),
            node_id: "node".into(),
            wait_reason: None,
            outbox_seq: 0,
        },
        meta: SessionMeta {
            tenant_id: "tenant-a".into(),
            team_id: Some("team-1".into()),
            user_id: Some("user-1".into()),
        },
        outbox: vec![OutboxEntry {
            seq: 1,
            payload_sha256: [0; 32],
            created_at: 0,
        }],
        updated_at: 0,
        ttl_secs,
    }
}

#[test]
fn inmemory_touch_extends_ttl() {
    let mut store = InMemorySessionStore::new();
    let session = sample_session("inmemory-touch", 1);
    let key = session.key.clone();

    // Written at instant 0 with a one-second TTL: the record would die at
    // 1000. Touched at 500 with a three-second TTL, it lives until 3500.
    store.put_at(session, 0).expect("put");

    assert!(store.touch_at(&key, Some(3), 500).expect("touch"));

    assert!(store.get_at(&key, 2000).expect("get").is_some());

    assert!(store.get_at(&key, 4000).expect("get").is_none());
}

#[test]
fn expired_record_is_purged_on_read() {
    let mut store = InMemorySessionStore::new();
    let session = sample_session("expire-purge", 1);
    let key = session.key.clone();

    store.put_at(session, 0).expect("put");
    assert!(store.get_at(&key, 999).expect("get").is_some());
    assert!(store.get_at(&key, 1000).expect("get").is_none());
    // The entry was removed, so even an earlier instant finds nothing.
    assert!(store.get_at(&key, 0).expect("get").is_none());
}

#[test]
fn zero_ttl_never_expires() {
    let mut store = InMemorySessionStore::new();
    let session = sample_session("immortal", 0);
    let key = session.key.clone();

    store.put_at(session, 0).expect("put");
    assert!(store.get_at(&key, u64::MAX).expect("get").is_some());
}

#[test]
fn touch_with_no_ttl_makes_record_permanent() {
    let mut store = InMemorySessionStore::new();
    let session = sample_session("persist", 1);
    let key = session.key.clone();

    store.put_at(session, 0).expect("put");
    assert!(store.touch_at(&key, None, 500).expect("touch"));
    assert!(store.get_at(&key, u64::MAX).expect("get").is_some());
}

#[test]
fn touch_of_expired_record_reports_absent() {
    let mut store = InMemorySessionStore::new();
    let session = sample_session("gone", 1);
    let key = session.key.clone();

    store.put_at(session, 0).expect("put");
    assert!(!store.touch_at(&key, Some(3), 5000).expect("touch"));
    assert!(store.get_at(&key, 0).expect("get").is_none());
}

#[test]
fn sweep_drops_expired_and_keeps_live_records() {
    let mut store = InMemorySessionStore::new();
    let mortal = sample_session("sweep-mortal", 1);
    let immortal = sample_session("sweep-immortal", 0);
    let mortal_key = mortal.key.clone();
    let immortal_key = immortal.key.clone();

    store.put_at(mortal, 0).expect("put mortal");
    store.put_at(immortal, 0).expect("put immortal");

    store.sweep_expired_at(5000);

    assert!(
        store.get_at(&mortal_key, 0).expect("get").is_none(),
        "the expired record was removed by the sweep"
    );
    assert!(store.get_at(&immortal_key, 5000).expect("get").is_some());
}

#[test]
fn delete_reports_liveness() {
    let mut store = InMemorySessionStore::new();
    let session = sample_session("delete-live", 1);
    let key = session.key.clone();

    store.put_at(session, 0).expect("put");
    assert!(store.delete_at(&key, 500).expect("delete"));
    assert!(!store.delete_at(&key, 500).expect("delete"));

    let session = sample_session("delete-live", 1);
    store.put_at(session, 0).expect("put");
    assert!(
        !store.delete_at(&key, 5000).expect("delete"),
        "an expired record counts as absent"
    );
}
