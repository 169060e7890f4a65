use greentic_session::error::ErrorCode;
use greentic_session::inmemory::InMemorySessionStore;
use greentic_session::model::{
    OutboxEntry, Session, SessionCursor, SessionId, SessionKey, SessionMeta,
};
use sha2::{Digest, Sha256};

fn base_session(key_suffix: &str) -> Session {
    Session {
        id: SessionId::new(),
        key: SessionKey(format!("cas-{key_suffix}")),
        cursor: SessionCursor {
            flow_id: "flow".into(),
            node_id: "node".into(),
            wait_reason: None,
            outbox_seq: 0,
        },
        meta: SessionMeta {
            tenant_id: "tenant-cas".into(),
            team_id: None,
            user_id: None,
        },
        outbox: vec![],
        updated_at: 0,
        ttl_secs: 30,
    }
}

fn new_outbox(seq: u64) -> OutboxEntry {
    let mut hasher = Sha256::new();
    hasher.update(seq.to_be_bytes());
    let digest = hasher.finalize();
    let mut payload = [0u8; 32];
    payload.copy_from_slice(&digest);
    OutboxEntry {
        seq,
        payload_sha256: payload,
        created_at: 0,
    }
}

#[test]
fn inmemory_cas_conflict_propagates_latest() {
    let mut store = InMemorySessionStore::new();
    let session = base_session("memory");
    let key = session.key.clone();

    let cas = store.put(session.clone()).expect("initial put");
    let (snapshot, current) = store.get(&key).expect("get").expect("present");
    assert_eq!(cas, current);

    let mut writer_a = snapshot.clone();
    writer_a.cursor.outbox_seq = 1;
    writer_a.outbox.push(new_outbox(1));

    let cas_a = store
        .update_cas(writer_a.clone(), current)
        .expect("update cas a")
        .expect("cas match");

    let mut writer_b = snapshot;
    writer_b.cursor.outbox_seq = 2;
    writer_b.outbox.push(new_outbox(2));

    match store.update_cas(writer_b, current).expect("update cas b") {
        Ok(_) => panic!("writer B update should have failed due to CAS mismatch"),
        Err(current_cas) => assert_eq!(current_cas, cas_a),
    }

    let (final_session, final_cas) = store.get(&key).expect("get").expect("present");
    assert_eq!(final_cas, cas_a);
    assert_eq!(final_session.cursor.outbox_seq, 1);
}

#[test]
fn update_cas_on_missing_key_reports_sentinel() {
    let mut store = InMemorySessionStore::new();
    let session = base_session("absent");
    match store
        .update_cas(session, greentic_session::model::Cas(1))
        .expect("update cas")
    {
        Ok(_) => panic!("update of an absent record should not commit"),
        Err(current) => assert_eq!(current.value(), 0),
    }
}

#[test]
fn update_cas_rejects_tenant_metadata_change() {
    let mut store = InMemorySessionStore::new();
    let session = base_session("fence");
    let key = session.key.clone();
    store.put(session).expect("put");
    let (snapshot, current) = store.get(&key).expect("get").expect("present");

    let mut intruder = snapshot;
    intruder.meta.tenant_id = "tenant-other".into();
    let err = store
        .update_cas(intruder, current)
        .expect_err("tenant change should be rejected");
    assert_eq!(err.code, ErrorCode::InvalidInput);
    assert!(err.message.contains("tenant"), "message names the field: {}", err.message);
}

#[test]
fn put_on_same_key_bumps_token() {
    let mut store = InMemorySessionStore::new();
    let session = base_session("bump");
    let key = session.key.clone();
    assert_eq!(store.put(session.clone()).expect("first put").value(), 1);
    assert_eq!(store.put(session).expect("second put").value(), 2);
    let (_, current) = store.get(&key).expect("get").expect("present");
    assert_eq!(current.value(), 2);
}
