use greentic_session::inmemory::InMemorySessionStore;
use greentic_session::model::{
    OutboxEntry, Session, SessionCursor, SessionId, SessionKey, SessionMeta,
};

fn duplicate_session(key: &str) -> Session {
    let base_entry = OutboxEntry {
        seq: 1,
        payload_sha256: [1; 32],
        created_at: 0,
    };
    let mut outbox = vec![base_entry, base_entry];
    outbox.push(OutboxEntry {
        seq: 2,
        payload_sha256: [2; 32],
        created_at: 0,
    });

    Session {
        id: SessionId::new(),
        key: SessionKey(key.to_owned()),
        cursor: SessionCursor {
            flow_id: "flow".into(),
            node_id: "node".into(),
            wait_reason: None,
            outbox_seq: 0,
        },
        meta: SessionMeta {
            tenant_id: "tenant-dedupe".into(),
            team_id: None,
            user_id: None,
        },
        outbox,
        updated_at: 0,
        ttl_secs: 30,
    }
}

#[test]
fn inmemory_dedupes_outbox() {
    let mut store = InMemorySessionStore::new();
    let session = duplicate_session("dedupe-memory");
    let key = session.key.clone();

    let _ = store.put(session).expect("put");
    let (stored, _) = store.get(&key).expect("get").expect("present");
    assert_eq!(stored.outbox.len(), 2, "duplicate entry should be removed");
}

#[test]
fn dedupe_keeps_first_occurrence_in_order() {
    let mut session = duplicate_session("dedupe-order");
    session.normalize();
    assert_eq!(session.outbox.len(), 2);
    assert_eq!(session.outbox[0].seq, 1);
    assert_eq!(session.outbox[0].payload_sha256, [1; 32]);
    assert_eq!(session.outbox[1].seq, 2);
    assert_eq!(session.outbox[1].payload_sha256, [2; 32]);
}

#[test]
fn normalize_is_idempotent() {
    let mut once = duplicate_session("dedupe-idem");
    once.normalize();
    let mut twice = once.clone();
    twice.normalize();
    assert_eq!(once.outbox, twice.outbox);
}

#[test]
fn equal_seq_with_distinct_payloads_is_kept() {
    let mut session = duplicate_session("dedupe-distinct");
    session.outbox.push(OutboxEntry {
        seq: 1,
        payload_sha256: [9; 32],
        created_at: 0,
    });
    session.normalize();
    assert_eq!(session.outbox.len(), 3, "same seq with a new payload is a new effect");
}
