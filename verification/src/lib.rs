//! Multi-tenant session store for pausing and resuming long-running
//! conversational flows.
//!
//! The crate keeps a durable snapshot of each in-flight flow (tenant context,
//! cursor, serialized state, outbox of effects) behind a primary key, routes
//! inbound connector events back to the paused session, and guards every write
//! with a tenant-context fence and a compare-and-set protocol.

pub mod alist;
pub mod digest;
pub mod error;
pub mod ids;
pub mod inmemory;
pub mod mapping;
pub mod model;
pub mod redis_store;
mod runtime;
pub mod session_data;
pub mod store;
pub mod tenant;

pub use error::{ErrorCode, GreenticError, SessionResult};
pub use model::SessionKey;
pub use session_data::SessionData;
pub use store::SessionStore;

use vstd::prelude::*;

use crate::inmemory::InMemorySessionStore;
use crate::redis_store::RedisSessionStore;

verus! {

/// Configuration for selecting a session backend.
#[derive(Debug)]
pub enum SessionBackendConfig {
    /// In-memory store for tests or single-node development.
    InMemory,
    /// Redis-backed store using the default namespace.
    RedisUrl(String),
    /// Redis-backed store with a custom namespace prefix.
    RedisUrlWithNamespace { url: String, namespace: String },
}

/// A constructed session backend.
pub enum SessionBackend {
    /// The in-memory store, ready for use.
    InMemory(InMemorySessionStore),
    /// The Redis store handle; the embedding application drives its
    /// networked operations.
    Redis(RedisSessionStore),
}

/// Creates a session backend from the provided configuration. An in-memory
/// backend starts well-formed and empty. Factory failure (an unparsable
/// Redis URL) surfaces as `Unavailable`.
pub fn create_session_store(config: SessionBackendConfig) -> (r: SessionResult<SessionBackend>)
    ensures
        config is InMemory ==> r is Ok && r->Ok_0 is InMemory,
        ({
            match r {
                Ok(SessionBackend::InMemory(s)) => s.wf() && crate::inmemory::empty_store(s@),
                Ok(SessionBackend::Redis(s)) => s@ == (match config {
                    SessionBackendConfig::RedisUrlWithNamespace { url: _, namespace: ns } => ns@,
                    _ => crate::redis_store::spec_default_namespace(),
                }),
                Err(e) => !(config is InMemory) && e.code == ErrorCode::Unavailable,
            }
        }),
{
    match config {
        SessionBackendConfig::InMemory => Ok(SessionBackend::InMemory(InMemorySessionStore::new())),
        SessionBackendConfig::RedisUrl(url) => {
            match RedisSessionStore::from_url(url.as_str()) {
                Ok(store) => Ok(SessionBackend::Redis(store)),
                Err(e) => Err(e),
            }
        },
        SessionBackendConfig::RedisUrlWithNamespace { url, namespace } => {
            match RedisSessionStore::from_url_with_namespace(url.as_str(), namespace) {
                Ok(store) => Ok(SessionBackend::Redis(store)),
                Err(e) => Err(e),
            }
        },
    }
}

} // verus!
