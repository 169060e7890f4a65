//! Abstract session storage interface for the routing family.
//!
//! `SessionData` captures the tenant context, flow identifier, cursor and
//! serialized execution state of an in-flight flow. A backend stores that
//! payload so runners can pause, persist, and resume consistently after new
//! input arrives. Each backend exposes its state as an abstract `model` and
//! its internal invariant as `inv`; the method contracts below say, over
//! that model, exactly what the in-memory operations guarantee, so generic
//! callers lose nothing.

use vstd::prelude::*;

use crate::error::{ErrorCode, SessionResult};
use crate::ids::UserId;
use crate::inmemory::{
    InMemorySessionStore, SessionEntryV, StoreV, clocked_find_by_user, clocked_get_session,
    spec_mapping_key, spec_user_key,
};
use crate::model::SessionKey;
use crate::session_data::SessionData;
use crate::tenant::{TenantCtx, align_fail_reason, aligned, mismatch_message, preserve_fail_reason,
    preserved};

verus! {

/// Persistent session storage interface for the routing family.
pub trait SessionStore: Sized {
    /// The backend's internal invariant, established by its constructor and
    /// preserved by every operation.
    spec fn inv(&self) -> bool;

    /// The backend's state as the abstract store model.
    spec fn model(&self) -> StoreV;

    /// Creates a new session associated with the supplied tenant context
    /// and returns its key.
    fn create_session(&mut self, ctx: &TenantCtx, data: SessionData) -> (r: SessionResult<
        SessionKey,
    >)
        requires
            old(self).inv(),
        ensures
            final(self).inv(),
            r is Ok <==> aligned(ctx@, data@.tenant_ctx),
            r is Err ==> final(self).model() == old(self).model() && r->Err_0.code
                == ErrorCode::InvalidInput && r->Err_0.message@ == mismatch_message(
                align_fail_reason(ctx@, data@.tenant_ctx),
                data@.tenant_ctx,
                ctx@,
            ),
            r is Ok ==> ({
                let k = r->Ok_0@;
                let entry = SessionEntryV {
                    data: data@,
                    expires_at: None,
                    wait_user: None,
                    scope_key: None,
                };
                final(self).model() == (StoreV {
                    sessions: old(self).model().sessions.insert(k, entry),
                    user_index: match spec_mapping_key(Some(ctx@), data@) {
                        Some(uk) => old(self).model().user_index.insert(uk, k),
                        None => old(self).model().user_index,
                    },
                    ..old(self).model()
                })
            }),
    ;

    /// Fetches the session payload for the provided key, if it exists.
    fn get_session(&mut self, key: &SessionKey) -> (r: SessionResult<Option<SessionData>>)
        requires
            old(self).inv(),
        ensures
            final(self).inv(),
            r is Ok,
            exists|now: u64| clocked_get_session(old(self).model(), final(self).model(), key@, r, now),
    ;

    /// Replaces the session payload for the provided key.
    fn update_session(&mut self, key: &SessionKey, data: SessionData) -> (r: SessionResult<()>)
        requires
            old(self).inv(),
        ensures
            final(self).inv(),
            ({
                let m = old(self).model().sessions;
                if !m.contains_key(key@) {
                    &&& final(self).model() == old(self).model()
                    &&& r is Err && r->Err_0.code == ErrorCode::NotFound
                } else if !preserved(m[key@].data.tenant_ctx, data@.tenant_ctx) {
                    &&& final(self).model() == old(self).model()
                    &&& r is Err && r->Err_0.code == ErrorCode::InvalidInput
                    &&& r->Err_0.message@ == mismatch_message(
                        preserve_fail_reason(m[key@].data.tenant_ctx, data@.tenant_ctx),
                        m[key@].data.tenant_ctx,
                        data@.tenant_ctx,
                    )
                } else {
                    &&& r is Ok
                    &&& final(self).model().sessions.contains_key(key@)
                    &&& final(self).model().sessions[key@].data == data@
                }
            }),
    ;

    /// Removes the session entry and clears any lookup indices.
    fn remove_session(&mut self, key: &SessionKey) -> (r: SessionResult<()>)
        requires
            old(self).inv(),
        ensures
            final(self).inv(),
            r is Ok <==> old(self).model().sessions.contains_key(key@),
            r is Err ==> r->Err_0.code == ErrorCode::NotFound,
            !final(self).model().sessions.contains_key(key@),
    ;

    /// Finds the active session bound to the specified tenant and user
    /// combination. Two or more registered waits make the lookup ambiguous.
    fn find_by_user(&mut self, ctx: &TenantCtx, user: &UserId) -> (r: SessionResult<
        Option<(SessionKey, SessionData)>,
    >)
        requires
            old(self).inv(),
        ensures
            final(self).inv(),
            ({
                let uk = spec_user_key(ctx@, user@);
                r is Err <==> old(self).model().user_waits.contains_key(uk) && old(
                    self,
                ).model().user_waits[uk].len() >= 2
            }),
            r is Err ==> r->Err_0.code == ErrorCode::InvalidInput,
            exists|now: u64| clocked_find_by_user(
                old(self).model(),
                final(self).model(),
                ctx@,
                user@,
                r,
                now,
            ),
    ;
}

impl SessionStore for InMemorySessionStore {
    open spec fn inv(&self) -> bool {
        self.wf()
    }

    open spec fn model(&self) -> StoreV {
        self@
    }

    fn create_session(&mut self, ctx: &TenantCtx, data: SessionData) -> (r: SessionResult<
        SessionKey,
    >) {
        InMemorySessionStore::create_session(self, ctx, data)
    }

    fn get_session(&mut self, key: &SessionKey) -> (r: SessionResult<Option<SessionData>>) {
        let r = InMemorySessionStore::get_session(self, key);
        proof {
            let now = choose|now: u64| clocked_get_session(old(self)@, self@, key@, r, now);
            assert(clocked_get_session(old(self).model(), self.model(), key@, r, now));
        }
        r
    }

    fn update_session(&mut self, key: &SessionKey, data: SessionData) -> (r: SessionResult<()>) {
        InMemorySessionStore::update_session(self, key, data)
    }

    fn remove_session(&mut self, key: &SessionKey) -> (r: SessionResult<()>) {
        InMemorySessionStore::remove_session(self, key)
    }

    fn find_by_user(&mut self, ctx: &TenantCtx, user: &UserId) -> (r: SessionResult<
        Option<(SessionKey, SessionData)>,
    >) {
        let r = InMemorySessionStore::find_by_user(self, ctx, user);
        proof {
            let now = choose|now: u64| clocked_find_by_user(old(self)@, self@, ctx@, user@, r, now);
            assert(clocked_find_by_user(old(self).model(), self.model(), ctx@, user@, r, now));
        }
        r
    }
}

} // verus!
