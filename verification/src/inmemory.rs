//! In-memory session backend.
//!
//! One store carries both operation families: the strong-consistency family
//! (`get` / `put` / `update_cas` / `delete` / `touch`, guarded by a
//! compare-and-set token) and the routing family (`create_session`,
//! `get_session`, `update_session`, `remove_session`, `find_by_user`, plus
//! scope-based waits). Expiry is lazy: a lookup that observes an expired
//! entry removes it and reports "not found"; there is no background sweeper.
//!
//! Every public operation exists in a `*_at` form taking the current time as
//! an argument — that form carries the exact contract — and in a convenience
//! form that reads the wall clock and delegates.

use vstd::prelude::*;

use crate::alist::{AList, StoreKey};
use crate::error::{ErrorCode, GreenticError, SessionResult, invalid_argument, not_found_for,
    not_found_message};
use crate::ids::UserId;
use crate::model::{Cas, CasEntry, CasEntryV, Session, SessionKey, SessionV, dedupe,
    meta_fail_reason, meta_preserved, opt_string_eq, sat_add_u64, spec_cas_next, spec_expires_at};
use crate::runtime::now_unix_millis;
use crate::session_data::{SessionData, SessionDataV, ReplyScope};
use crate::tenant::{TenantCtx, TenantCtxV, aligned, align_fail_reason, ensure_alignment,
    ensure_ctx_preserved, mismatch_message, norm_team, norm_user, ov, preserved,
    preserve_fail_reason};

verus! {

/// Mathematical image of a user lookup key.
#[verifier::ext_equal]
pub ghost struct UserKeyV {
    pub env: Seq<char>,
    pub tenant: Seq<char>,
    pub team: Option<Seq<char>>,
    pub user: Seq<char>,
}

/// Secondary-index key binding a user within `(env, tenant, normalized
/// team)`.
#[derive(Debug)]
pub struct UserLookupKey {
    env: String,
    tenant: String,
    team: Option<String>,
    user: String,
}

impl View for UserLookupKey {
    type V = UserKeyV;

    closed spec fn view(&self) -> UserKeyV {
        UserKeyV { env: self.env@, tenant: self.tenant@, team: ov(self.team), user: self.user@ }
    }
}

/// The user lookup key a context and user map to.
pub open spec fn spec_user_key(c: TenantCtxV, user: Seq<char>) -> UserKeyV {
    UserKeyV { env: c.env, tenant: c.tenant, team: norm_team(c), user }
}

/// Clones an optional string, preserving its text.
fn dup_opt_string(o: &Option<String>) -> (r: Option<String>)
    ensures
        ov(r) == ov(*o),
{
    match o {
        Some(s) => Some(s.clone()),
        None => None,
    }
}

impl StoreKey for UserLookupKey {
    fn key_eq(&self, other: &Self) -> (r: bool) {
        self.env.eq(&other.env) && self.tenant.eq(&other.tenant) && opt_string_eq(
            &self.team,
            &other.team,
        ) && self.user.eq(&other.user)
    }

    fn dup(&self) -> (r: Self) {
        self.clone()
    }
}

impl Clone for UserLookupKey {
    fn clone(&self) -> (r: Self)
        ensures
            r@ == self@,
    {
        UserLookupKey {
            env: self.env.clone(),
            tenant: self.tenant.clone(),
            team: dup_opt_string(&self.team),
            user: self.user.clone(),
        }
    }
}

impl UserLookupKey {
    /// Builds the lookup key for a user under the context's environment,
    /// tenant and normalized team.
    pub fn from_ctx(ctx: &TenantCtx, user: &UserId) -> (r: UserLookupKey)
        ensures
            r@ == spec_user_key(ctx@, user@),
    {
        let team: Option<String> = match ctx.normalize_team() {
            Some(t) => Some(t.0.clone()),
            None => None,
        };
        UserLookupKey {
            env: ctx.env.0.clone(),
            tenant: ctx.tenant_id.0.clone(),
            team,
            user: user.0.clone(),
        }
    }
}

/// Mathematical image of a scope lookup key.
#[verifier::ext_equal]
pub ghost struct ScopeKeyV {
    pub user_key: UserKeyV,
    pub scope_hash: Seq<char>,
}

/// Secondary-index key binding a reply scope under a user lookup key.
#[derive(Debug)]
pub struct ScopeLookupKey {
    user_key: UserLookupKey,
    scope_hash: String,
}

impl View for ScopeLookupKey {
    type V = ScopeKeyV;

    closed spec fn view(&self) -> ScopeKeyV {
        ScopeKeyV { user_key: self.user_key@, scope_hash: self.scope_hash@ }
    }
}

impl StoreKey for ScopeLookupKey {
    fn key_eq(&self, other: &Self) -> (r: bool) {
        self.user_key.key_eq(&other.user_key) && self.scope_hash.eq(&other.scope_hash)
    }

    fn dup(&self) -> (r: Self) {
        self.clone()
    }
}

impl Clone for ScopeLookupKey {
    fn clone(&self) -> (r: Self)
        ensures
            r@ == self@,
    {
        ScopeLookupKey {
            user_key: self.user_key.clone(),
            scope_hash: self.scope_hash.clone(),
        }
    }
}

/// Mathematical image of a stored routing-family entry.
#[verifier::ext_equal]
pub ghost struct SessionEntryV {
    pub data: SessionDataV,
    pub expires_at: Option<u64>,
    pub wait_user: Option<UserKeyV>,
    pub scope_key: Option<ScopeKeyV>,
}

/// A stored routing-family session with its expiry and the index entries
/// that point back at it.
pub struct SessionEntry {
    pub data: SessionData,
    pub expires_at: Option<u64>,
    pub wait_user: Option<UserLookupKey>,
    pub scope_key: Option<ScopeLookupKey>,
}

impl View for SessionEntry {
    type V = SessionEntryV;

    open spec fn view(&self) -> SessionEntryV {
        SessionEntryV {
            data: self.data@,
            expires_at: self.expires_at,
            wait_user: match self.wait_user {
                Some(k) => Some(k@),
                None => None,
            },
            scope_key: match self.scope_key {
                Some(k) => Some(k@),
                None => None,
            },
        }
    }
}

/// Mathematical image of a scope-index entry.
#[verifier::ext_equal]
pub ghost struct ScopeEntryV {
    pub session_key: Seq<char>,
    pub expires_at: Option<u64>,
}

/// A scope-index entry: the session a scope routes to, with its expiry.
pub struct ScopeEntry {
    pub session_key: String,
    pub expires_at: Option<u64>,
}

impl View for ScopeEntry {
    type V = ScopeEntryV;

    open spec fn view(&self) -> ScopeEntryV {
        ScopeEntryV { session_key: self.session_key@, expires_at: self.expires_at }
    }
}

/// The key sequence with every occurrence of one key text removed.
pub open spec fn without_key(keys: Seq<Seq<char>>, key: Seq<char>) -> Seq<Seq<char>> {
    keys.filter(|k: Seq<char>| k != key)
}

/// A set of session keys, stored as their text.
pub struct KeySet {
    keys: Vec<String>,
}

impl View for KeySet {
    type V = Seq<Seq<char>>;

    closed spec fn view(&self) -> Seq<Seq<char>> {
        Seq::new(self.keys@.len(), |i: int| self.keys@[i]@)
    }
}

impl KeySet {
    /// Creates an empty key set.
    pub fn new() -> (r: KeySet)
        ensures
            r@ == Seq::<Seq<char>>::empty(),
    {
        let r = KeySet { keys: Vec::new() };
        proof {
            assert(r@ =~= Seq::<Seq<char>>::empty());
        }
        r
    }

    /// The number of keys held.
    pub fn len(&self) -> (r: usize)
        ensures
            r == self@.len(),
    {
        self.keys.len()
    }

    /// The key at an index, as text.
    pub fn index(&self, i: usize) -> (r: &String)
        requires
            i < self@.len(),
        ensures
            r@ == self@[i as int],
    {
        &self.keys[i]
    }

    /// Whether the set holds the given key text.
    pub fn contains(&self, key: &String) -> (r: bool)
        ensures
            r == self@.contains(key@),
    {
        let n = self.keys.len();
        let mut i: usize = 0;
        while i < n
            invariant
                i <= n,
                n == self@.len(),
                forall|t: int| 0 <= t < i ==> self@[t] != key@,
            decreases n - i,
        {
            if self.keys[i].eq(key) {
                proof {
                    assert(self@[i as int] == key@);
                }
                return true;
            }
            i += 1;
        }
        proof {
            if self@.contains(key@) {
                let t = choose|t: int| 0 <= t < self@.len() && self@[t] == key@;
            }
        }
        false
    }

    /// Adds the key text if it is not yet present.
    pub fn add(&mut self, key: String)
        ensures
            final(self)@ == (if old(self)@.contains(key@) {
                old(self)@
            } else {
                old(self)@.push(key@)
            }),
    {
        if !self.contains(&key) {
            self.keys.push(key);
            proof {
                assert(final(self)@ =~= old(self)@.push(key@));
            }
        }
    }

    /// Removes every occurrence of the key text.
    pub fn discard(&mut self, key: &String)
        ensures
            final(self)@ == without_key(old(self)@, key@),
    {
        let n = self.keys.len();
        let mut kept: Vec<String> = Vec::new();
        let mut i: usize = 0;
        proof {
            assert(without_key(old(self)@.take(0), key@) =~= Seq::<Seq<char>>::empty());
            assert(Seq::new(kept@.len(), |t: int| kept@[t]@) =~= Seq::<Seq<char>>::empty());
        }
        while i < n
            invariant
                i <= n,
                n == self@.len(),
                *self == *old(self),
                Seq::new(kept@.len(), |t: int| kept@[t]@) == without_key(
                    old(self)@.take(i as int),
                    key@,
                ),
            decreases n - i,
        {
            let ghost pre = old(self)@.take(i as int);
            proof {
                assert(old(self)@.take(i + 1).drop_last() =~= pre);
                assert(old(self)@.take(i + 1).last() == self@[i as int]);
                reveal_with_fuel(Seq::filter, 2);
            }
            if !self.keys[i].eq(key) {
                kept.push(self.keys[i].clone());
                proof {
                    assert(Seq::new(kept@.len(), |t: int| kept@[t]@) =~= without_key(
                        old(self)@.take(i + 1),
                        key@,
                    ));
                }
            } else {
                proof {
                    assert(without_key(old(self)@.take(i + 1), key@) =~= without_key(pre, key@));
                }
            }
            i += 1;
        }
        proof {
            assert(old(self)@.take(n as int) =~= old(self)@);
        }
        self.keys = kept;
    }
}

/// Whether an entry with the given deadline is still live at `now`.
pub open spec fn spec_live(expires_at: Option<u64>, now: u64) -> bool {
    match expires_at {
        Some(t) => now < t,
        None => true,
    }
}

/// Whether an entry with the given deadline is still live at `now`.
pub(crate) fn entry_live(expires_at: Option<u64>, now: u64) -> (r: bool)
    ensures
        r == spec_live(expires_at, now),
{
    match expires_at {
        Some(t) => now < t,
        None => true,
    }
}

/// Mathematical image of the whole store.
#[verifier::ext_equal]
pub ghost struct StoreV {
    pub sessions: Map<Seq<char>, SessionEntryV>,
    pub user_index: Map<UserKeyV, Seq<char>>,
    pub user_waits: Map<UserKeyV, Seq<Seq<char>>>,
    pub scope_index: Map<ScopeKeyV, ScopeEntryV>,
    pub cas: Map<Seq<char>, CasEntryV>,
}

/// In-memory implementation of both operation families, backed by
/// association lists with map views.
pub struct InMemorySessionStore {
    sessions: AList<String, SessionEntry>,
    user_index: AList<UserLookupKey, SessionKey>,
    user_waits: AList<UserLookupKey, KeySet>,
    scope_index: AList<ScopeLookupKey, ScopeEntry>,
    cas_entries: AList<String, CasEntry>,
    last_sweep: u64,
}

impl View for InMemorySessionStore {
    type V = StoreV;

    closed spec fn view(&self) -> StoreV {
        StoreV {
            sessions: self.sessions@,
            user_index: self.user_index@,
            user_waits: self.user_waits@,
            scope_index: self.scope_index@,
            cas: self.cas_entries@,
        }
    }
}

impl Default for InMemorySessionStore {
    fn default() -> (r: Self)
        ensures
            r.wf(),
            empty_store(r@),
    {
        InMemorySessionStore::new()
    }
}

impl InMemorySessionStore {
    /// Well-formedness of the backing lists.
    pub closed spec fn wf(&self) -> bool {
        &&& self.sessions.wf()
        &&& self.user_index.wf()
        &&& self.user_waits.wf()
        &&& self.scope_index.wf()
        &&& self.cas_entries.wf()
    }

    /// Constructs an empty store.
    pub fn new() -> (r: Self)
        ensures
            r.wf(),
            empty_store(r@),
    {
        InMemorySessionStore {
            sessions: AList::new(),
            user_index: AList::new(),
            user_waits: AList::new(),
            scope_index: AList::new(),
            cas_entries: AList::new(),
            last_sweep: 0,
        }
    }
}

/// A session as it is stored by a write at `now`: outbox deduplicated,
/// `updated_at` set to the write instant.
pub open spec fn normalized_at(s: SessionV, now: u64) -> SessionV {
    SessionV { outbox: dedupe(s.outbox), updated_at: now, ..s }
}

/// The entry a write of `s` at `now` stores.
pub open spec fn stored_entry(s: SessionV, now: u64, cas: u64) -> CasEntryV {
    let ns = normalized_at(s, now);
    CasEntryV { session: ns, cas, expires_at: spec_expires_at(ns) }
}

/// The token a `put` at `now` assigns: the successor of the live entry's
/// token, or the initial token when the key is absent or expired.
pub open spec fn spec_put_cas(m: Map<Seq<char>, CasEntryV>, key: Seq<char>, now: u64) -> u64 {
    if m.contains_key(key) && spec_live(m[key].expires_at, now) {
        spec_cas_next(m[key].cas)
    } else {
        1
    }
}

/// The outcome of a read at `now`: the live entry, with expired entries
/// pruned.
#[verifier::ext_equal]
pub ghost struct CasReadStep {
    pub cas: Map<Seq<char>, CasEntryV>,
    pub found: Option<(SessionV, u64)>,
}

/// What `get` observes and leaves behind.
pub open spec fn spec_get(m: Map<Seq<char>, CasEntryV>, key: Seq<char>, now: u64) -> CasReadStep {
    if m.contains_key(key) {
        if spec_live(m[key].expires_at, now) {
            CasReadStep { cas: m, found: Some((m[key].session, m[key].cas)) }
        } else {
            CasReadStep { cas: m.remove(key), found: None }
        }
    } else {
        CasReadStep { cas: m, found: None }
    }
}

/// The verdict of a conditional write.
pub ghost enum CasVerdict {
    /// The expected token matched; the new token is carried.
    Applied(u64),
    /// Another writer got there first; the current token is carried.
    Conflict(u64),
    /// No live record exists under the key.
    Absent,
    /// The write tried to change the immutable tenant metadata.
    Fenced,
}

/// The outcome of a conditional write at `now`.
#[verifier::ext_equal]
pub ghost struct CasWriteStep {
    pub cas: Map<Seq<char>, CasEntryV>,
    pub verdict: CasVerdict,
}

/// What `update_cas` decides and leaves behind: read, compare, write, as one
/// atomic step on the entry.
pub open spec fn spec_update_cas(
    m: Map<Seq<char>, CasEntryV>,
    s: SessionV,
    expected: u64,
    now: u64,
) -> CasWriteStep {
    if !m.contains_key(s.key) {
        CasWriteStep { cas: m, verdict: CasVerdict::Absent }
    } else if !spec_live(m[s.key].expires_at, now) {
        CasWriteStep { cas: m.remove(s.key), verdict: CasVerdict::Absent }
    } else if m[s.key].cas != expected {
        CasWriteStep { cas: m, verdict: CasVerdict::Conflict(m[s.key].cas) }
    } else if !meta_preserved(m[s.key].session.meta, s.meta) {
        CasWriteStep { cas: m, verdict: CasVerdict::Fenced }
    } else {
        let c = spec_cas_next(expected);
        CasWriteStep {
            cas: m.insert(s.key, stored_entry(s, now, c)),
            verdict: CasVerdict::Applied(c),
        }
    }
}

/// The deadline a `touch` at `now` assigns.
pub open spec fn spec_touch_deadline(ttl_secs: Option<u32>, now: u64) -> Option<u64> {
    match ttl_secs {
        Some(t) => Some(sat_add_u64(now, (t * 1000) as u64)),
        None => None,
    }
}

/// The outcome of a `touch` or `delete` at `now`.
#[verifier::ext_equal]
pub ghost struct CasMarkStep {
    pub cas: Map<Seq<char>, CasEntryV>,
    pub hit: bool,
}

/// What `touch` does: reset the live entry's deadline, prune an expired one.
pub open spec fn spec_touch(
    m: Map<Seq<char>, CasEntryV>,
    key: Seq<char>,
    ttl_secs: Option<u32>,
    now: u64,
) -> CasMarkStep {
    if m.contains_key(key) {
        if spec_live(m[key].expires_at, now) {
            CasMarkStep {
                cas: m.insert(
                    key,
                    CasEntryV { expires_at: spec_touch_deadline(ttl_secs, now), ..m[key] },
                ),
                hit: true,
            }
        } else {
            CasMarkStep { cas: m.remove(key), hit: false }
        }
    } else {
        CasMarkStep { cas: m, hit: false }
    }
}

/// What `delete` does: remove the entry, reporting whether a live one was
/// present.
pub open spec fn spec_delete(m: Map<Seq<char>, CasEntryV>, key: Seq<char>, now: u64) -> CasMarkStep {
    if m.contains_key(key) {
        CasMarkStep { cas: m.remove(key), hit: spec_live(m[key].expires_at, now) }
    } else {
        CasMarkStep { cas: m, hit: false }
    }
}

impl InMemorySessionStore {
    /// Fetches the live session and its token at the given instant; an
    /// expired entry is pruned and reported absent.
    pub fn get_at(&mut self, key: &SessionKey, now: u64) -> (r: SessionResult<
        Option<(Session, Cas)>,
    >)
        requires
            old(self).wf(),
        ensures
            final(self).wf(),
            final(self)@ == (StoreV { cas: spec_get(old(self)@.cas, key@, now).cas, ..old(self)@ }),
            ({
                let found = spec_get(old(self)@.cas, key@, now).found;
                match (r, found) {
                    (Ok(Some((s, c))), Some(f)) => s@ == f.0 && c.0 == f.1,
                    (Ok(None), None) => true,
                    _ => false,
                }
            }),
    {
        let mut expired = false;
        let mut hit: Option<(Session, Cas)> = None;
        match self.cas_entries.get(&key.0) {
            Some(e) => {
                if entry_live(e.expires_at, now) {
                    hit = Some((e.session.clone(), Cas(e.cas)));
                } else {
                    expired = true;
                }
            },
            None => {},
        }
        if expired {
            self.cas_entries.remove(&key.0);
        }
        Ok(hit)
    }

    /// Fetches the live session and its token, reading the wall clock: the
    /// call behaves exactly as `get_at` at the instant the clock returned.
    pub fn get(&mut self, key: &SessionKey) -> (r: SessionResult<Option<(Session, Cas)>>)
        requires
            old(self).wf(),
        ensures
            final(self).wf(),
            r is Ok,
            exists|now: u64| clocked_get(old(self)@, final(self)@, key@, r, now),
    {
        let now = now_unix_millis();
        let r = self.get_at(key, now);
        proof {
            assert(clocked_get(old(self)@, self@, key@, r, now));
        }
        r
    }

    /// Stores the session at the given instant, normalizing it first. The
    /// token bumps when a live record existed, else starts at the initial
    /// value. Last write wins.
    pub fn put_at(&mut self, session: Session, now: u64) -> (r: SessionResult<Cas>)
        requires
            old(self).wf(),
        ensures
            final(self).wf(),
            ({
                let token = spec_put_cas(old(self)@.cas, session@.key, now);
                &&& final(self)@ == (StoreV {
                    cas: old(self)@.cas.insert(session@.key, stored_entry(session@, now, token)),
                    ..old(self)@
                })
                &&& r == Ok::<Cas, GreenticError>(Cas(token))
            }),
    {
        let key_text = session.key.0.clone();
        let mut token: u64 = 1;
        match self.cas_entries.get(&key_text) {
            Some(e) => {
                if entry_live(e.expires_at, now) {
                    token = Cas(e.cas).next().value();
                }
            },
            None => {},
        }
        let mut s = session;
        s.normalize();
        s.updated_at = now;
        let expires = s.expires_at();
        self.cas_entries.insert(key_text, CasEntry { session: s, cas: token, expires_at: expires });
        Ok(Cas(token))
    }

    /// Removes every expired strong-consistency entry at the given
    /// instant: no live entry is touched, no expired one survives, and
    /// nothing is invented.
    pub fn sweep_expired_at(&mut self, now: u64)
        requires
            old(self).wf(),
        ensures
            final(self).wf(),
            final(self)@.sessions == old(self)@.sessions,
            final(self)@.user_index == old(self)@.user_index,
            final(self)@.user_waits == old(self)@.user_waits,
            final(self)@.scope_index == old(self)@.scope_index,
            sweep_rel(old(self)@.cas, final(self)@.cas, now),
    {
        let keys = self.cas_entries.keys();
        let n = keys.len();
        let mut i: usize = 0;
        while i < n
            invariant
                i <= n,
                n == keys@.len(),
                self.wf(),
                self@.sessions == old(self)@.sessions,
                self@.user_index == old(self)@.user_index,
                self@.user_waits == old(self)@.user_waits,
                self@.scope_index == old(self)@.scope_index,
                forall|k: Seq<char>| #[trigger] self@.cas.contains_key(k)
                    ==> old(self)@.cas.contains_key(k) && self@.cas[k] == old(self)@.cas[k],
                forall|k: Seq<char>| old(self)@.cas.contains_key(k) && spec_live(
                    #[trigger] old(self)@.cas[k].expires_at,
                    now,
                ) ==> self@.cas.contains_key(k),
                forall|t: int| 0 <= t < i ==> !(self@.cas.contains_key(#[trigger] keys@[t]@)
                    && !spec_live(self@.cas[keys@[t]@].expires_at, now)),
                forall|k: Seq<char>| old(self)@.cas.contains_key(k) <==> exists|t: int|
                    0 <= t < keys@.len() && #[trigger] keys@[t]@ == k,
            decreases n - i,
        {
            let expired = match self.cas_entries.get(&keys[i]) {
                Some(e) => !entry_live(e.expires_at, now),
                None => false,
            };
            if expired {
                self.cas_entries.remove(&keys[i]);
            }
            i += 1;
        }
        proof {
            assert forall|k: Seq<char>| #[trigger] self@.cas.contains_key(k) implies spec_live(
                old(self)@.cas[k].expires_at,
                now,
            ) by {
                let t = choose|t: int| 0 <= t < keys@.len() && #[trigger] keys@[t]@ == k;
                assert(!(self@.cas.contains_key(keys@[t]@) && !spec_live(
                    self@.cas[keys@[t]@].expires_at,
                    now,
                )));
            }
        }
    }

    /// Runs the opportunistic sweep when at least a minute has passed
    /// since the last one.
    fn maybe_sweep(&mut self, now: u64)
        requires
            old(self).wf(),
        ensures
            final(self).wf(),
            final(self)@.sessions == old(self)@.sessions,
            final(self)@.user_index == old(self)@.user_index,
            final(self)@.user_waits == old(self)@.user_waits,
            final(self)@.scope_index == old(self)@.scope_index,
            final(self)@.cas == old(self)@.cas || sweep_rel(old(self)@.cas, final(self)@.cas, now),
    {
        if now >= self.last_sweep.saturating_add(60000) {
            self.sweep_expired_at(now);
            self.last_sweep = now;
        }
    }

    /// Stores the session, reading the wall clock. At most once a minute
    /// the write also sweeps expired entries opportunistically; the write
    /// itself behaves exactly as `put_at` on the possibly swept map.
    pub fn put(&mut self, session: Session) -> (r: SessionResult<Cas>)
        requires
            old(self).wf(),
        ensures
            final(self).wf(),
            r is Ok,
            exists|now: u64, swept: Map<Seq<char>, CasEntryV>| clocked_put(
                old(self)@,
                final(self)@,
                session@,
                r,
                now,
                swept,
            ),
    {
        let ghost sv = session@;
        let now = now_unix_millis();
        self.maybe_sweep(now);
        let ghost mid = self@.cas;
        let r = self.put_at(session, now);
        proof {
            assert(clocked_put(old(self)@, self@, sv, r, now, mid));
        }
        r
    }

    /// Conditionally replaces the session at the given instant: the write
    /// applies only when the expected token matches the live entry's, and the
    /// immutable tenant metadata cannot change.
    pub fn update_cas_at(&mut self, session: Session, expected: Cas, now: u64) -> (r: SessionResult<
        Result<Cas, Cas>,
    >)
        requires
            old(self).wf(),
        ensures
            final(self).wf(),
            final(self)@ == (StoreV {
                cas: spec_update_cas(old(self)@.cas, session@, expected.0, now).cas,
                ..old(self)@
            }),
            ({
                let st = spec_update_cas(old(self)@.cas, session@, expected.0, now);
                match st.verdict {
                    CasVerdict::Applied(c) => r == Ok::<Result<Cas, Cas>, GreenticError>(
                        Ok::<Cas, Cas>(Cas(c)),
                    ),
                    CasVerdict::Conflict(c) => r == Ok::<Result<Cas, Cas>, GreenticError>(
                        Err::<Cas, Cas>(Cas(c)),
                    ),
                    CasVerdict::Absent => r == Ok::<Result<Cas, Cas>, GreenticError>(
                        Err::<Cas, Cas>(Cas(0)),
                    ),
                    CasVerdict::Fenced => r is Err && r->Err_0.code == ErrorCode::InvalidInput
                        && r->Err_0.message@ == meta_fail_reason(
                        old(self)@.cas[session@.key].session.meta,
                        session@.meta,
                    ),
                }
            }),
    {
        let key_text = session.key.0.clone();
        let mut present = false;
        let mut live = false;
        let mut current: u64 = 0;
        let mut stored_meta: Option<crate::model::SessionMeta> = None;
        match self.cas_entries.get(&key_text) {
            Some(e) => {
                present = true;
                if entry_live(e.expires_at, now) {
                    live = true;
                    current = e.cas;
                    stored_meta = Some(e.session.meta.clone());
                }
            },
            None => {},
        }
        if !present {
            return Ok(Err(Cas::none()));
        }
        if !live {
            self.cas_entries.remove(&key_text);
            return Ok(Err(Cas::none()));
        }
        if current != expected.value() {
            return Ok(Err(Cas(current)));
        }
        match stored_meta {
            Some(existing) => {
                match crate::model::ensure_meta_preserved(&existing, &session.meta) {
                    Ok(()) => {},
                    Err(e) => {
                        return Err(e);
                    },
                }
            },
            None => {},
        }
        let next = expected.next();
        let mut s = session;
        s.normalize();
        s.updated_at = now;
        let expires = s.expires_at();
        self.cas_entries.insert(
            key_text,
            CasEntry { session: s, cas: next.value(), expires_at: expires },
        );
        Ok(Ok(next))
    }

    /// Conditionally replaces the session, reading the wall clock: the
    /// call behaves exactly as `update_cas_at` at the instant the clock
    /// returned, and the metadata fence holds whatever that instant was.
    pub fn update_cas(&mut self, session: Session, expected: Cas) -> (r: SessionResult<
        Result<Cas, Cas>,
    >)
        requires
            old(self).wf(),
        ensures
            final(self).wf(),
            r is Err ==> r->Err_0.code == ErrorCode::InvalidInput && r->Err_0.message@
                == meta_fail_reason(
                old(self)@.cas[session@.key].session.meta,
                session@.meta,
            ),
            exists|now: u64| clocked_update_cas(
                old(self)@,
                final(self)@,
                session@,
                expected.0,
                r,
                now,
            ),
    {
        let ghost sv = session@;
        let now = now_unix_millis();
        let r = self.update_cas_at(session, expected, now);
        proof {
            assert(clocked_update_cas(old(self)@, self@, sv, expected.0, r, now));
        }
        r
    }

    /// Removes the entry at the given instant; reports whether a live entry
    /// was present.
    pub fn delete_at(&mut self, key: &SessionKey, now: u64) -> (r: SessionResult<bool>)
        requires
            old(self).wf(),
        ensures
            final(self).wf(),
            final(self)@ == (StoreV {
                cas: spec_delete(old(self)@.cas, key@, now).cas,
                ..old(self)@
            }),
            r == Ok::<bool, GreenticError>(spec_delete(old(self)@.cas, key@, now).hit),
    {
        let mut hit = false;
        match self.cas_entries.get(&key.0) {
            Some(e) => {
                hit = entry_live(e.expires_at, now);
            },
            None => {},
        }
        self.cas_entries.remove(&key.0);
        Ok(hit)
    }

    /// Removes the entry, reading the wall clock: the call behaves exactly
    /// as `delete_at` at the instant the clock returned.
    pub fn delete(&mut self, key: &SessionKey) -> (r: SessionResult<bool>)
        requires
            old(self).wf(),
        ensures
            final(self).wf(),
            r is Ok,
            exists|now: u64| clocked_delete(old(self)@, final(self)@, key@, r, now),
    {
        let now = now_unix_millis();
        let r = self.delete_at(key, now);
        proof {
            assert(clocked_delete(old(self)@, self@, key@, r, now));
        }
        r
    }

    /// Resets the live entry's deadline at the given instant: a concrete TTL
    /// sets `now + ttl`, none makes the entry permanent. Reports whether a
    /// live entry was present; an expired one is pruned.
    pub fn touch_at(&mut self, key: &SessionKey, ttl_secs: Option<u32>, now: u64) -> (r:
        SessionResult<bool>)
        requires
            old(self).wf(),
        ensures
            final(self).wf(),
            final(self)@ == (StoreV {
                cas: spec_touch(old(self)@.cas, key@, ttl_secs, now).cas,
                ..old(self)@
            }),
            r == Ok::<bool, GreenticError>(spec_touch(old(self)@.cas, key@, ttl_secs, now).hit),
    {
        let mut expired = false;
        let mut live_entry: Option<CasEntry> = None;
        match self.cas_entries.get(&key.0) {
            Some(e) => {
                if entry_live(e.expires_at, now) {
                    live_entry = Some(
                        CasEntry {
                            session: e.session.clone(),
                            cas: e.cas,
                            expires_at: e.expires_at,
                        },
                    );
                } else {
                    expired = true;
                }
            },
            None => {},
        }
        if expired {
            self.cas_entries.remove(&key.0);
            return Ok(false);
        }
        match live_entry {
            Some(mut e) => {
                let deadline = match ttl_secs {
                    Some(t) => Some(now.saturating_add((t as u64) * 1000)),
                    None => None,
                };
                e.expires_at = deadline;
                self.cas_entries.insert(key.0.clone(), e);
                Ok(true)
            },
            None => Ok(false),
        }
    }

    /// Resets the live entry's deadline, reading the wall clock: the call
    /// behaves exactly as `touch_at` at the instant the clock returned.
    pub fn touch(&mut self, key: &SessionKey, ttl_secs: Option<u32>) -> (r: SessionResult<bool>)
        requires
            old(self).wf(),
        ensures
            final(self).wf(),
            r is Ok,
            exists|now: u64| clocked_touch(old(self)@, final(self)@, key@, ttl_secs, r, now),
    {
        let now = now_unix_millis();
        let r = self.touch_at(key, ttl_secs, now);
        proof {
            assert(clocked_touch(old(self)@, self@, key@, ttl_secs, r, now));
        }
        r
    }
}

impl Clone for KeySet {
    fn clone(&self) -> (r: Self)
        ensures
            r@ == self@,
    {
        let n = self.keys.len();
        let mut keys: Vec<String> = Vec::new();
        let mut i: usize = 0;
        while i < n
            invariant
                i <= n,
                n == self.keys@.len(),
                keys@.len() == i as int,
                forall|t: int| 0 <= t < i ==> keys@[t]@ == self.keys@[t]@,
            decreases n - i,
        {
            keys.push(self.keys[i].clone());
            i += 1;
        }
        let r = KeySet { keys };
        proof {
            assert(r@ =~= self@);
        }
        r
    }
}

/// The context and user under which a write records its user mapping: the
/// data's own context when it names a user, else the caller's context when
/// that names one.
pub open spec fn mapping_source_spec(
    ctx_hint: Option<TenantCtxV>,
    data: SessionDataV,
) -> Option<(TenantCtxV, Seq<char>)> {
    if norm_user(data.tenant_ctx) is Some {
        Some((data.tenant_ctx, norm_user(data.tenant_ctx)->0))
    } else {
        match ctx_hint {
            Some(c) => if norm_user(c) is Some {
                Some((c, norm_user(c)->0))
            } else {
                None
            },
            None => None,
        }
    }
}

/// The user-index key a write records, preferring the user named by the
/// data's own context and falling back to the caller's context.
pub open spec fn spec_mapping_key(
    ctx_hint: Option<TenantCtxV>,
    data: SessionDataV,
) -> Option<UserKeyV> {
    match mapping_source_spec(ctx_hint, data) {
        Some(p) => Some(spec_user_key(p.0, p.1)),
        None => None,
    }
}

/// The context and user under which a write records its user mapping. The
/// same rule drives every backend's user index.
pub fn mapping_source(ctx_hint: Option<&TenantCtx>, data: &SessionData) -> (r: Option<
    (TenantCtx, UserId),
>)
    ensures
        ({
            let s = mapping_source_spec(
                match ctx_hint {
                    Some(c) => Some(c@),
                    None => None,
                },
                data@,
            );
            match (r, s) {
                (Some(p), Some(q)) => p.0@ == q.0 && p.1@ == q.1,
                (None, None) => true,
                _ => false,
            }
        }),
{
    match data.tenant_ctx.normalize_user() {
        Some(u) => Some((data.tenant_ctx.clone(), u.clone())),
        None => match ctx_hint {
            Some(c) => match c.normalize_user() {
                Some(u) => Some((c.clone(), u.clone())),
                None => None,
            },
            None => None,
        },
    }
}

/// The user-index map after forgetting a mapping derived from the data, but
/// only where it still points at the removed session.
pub open spec fn spec_purge_user_mapping(
    ui: Map<UserKeyV, Seq<char>>,
    data: SessionDataV,
    key: Seq<char>,
) -> Map<UserKeyV, Seq<char>> {
    match spec_mapping_key(None, data) {
        Some(lk) => if ui.contains_key(lk) && ui[lk] == key {
            ui.remove(lk)
        } else {
            ui
        },
        None => ui,
    }
}

/// The wait sets after discarding a session key from its recorded user set.
pub open spec fn spec_purge_wait_user(
    uw: Map<UserKeyV, Seq<Seq<char>>>,
    wait_user: Option<UserKeyV>,
    key: Seq<char>,
) -> Map<UserKeyV, Seq<Seq<char>>> {
    match wait_user {
        Some(uk) => if uw.contains_key(uk) {
            uw.insert(uk, without_key(uw[uk], key))
        } else {
            uw
        },
        None => uw,
    }
}

/// The scope index after forgetting the entry recorded for a session, but
/// only where it still points at the removed session.
pub open spec fn spec_purge_scope(
    si: Map<ScopeKeyV, ScopeEntryV>,
    scope_key: Option<ScopeKeyV>,
    key: Seq<char>,
) -> Map<ScopeKeyV, ScopeEntryV> {
    match scope_key {
        Some(sk) => if si.contains_key(sk) && si[sk].session_key == key {
            si.remove(sk)
        } else {
            si
        },
        None => si,
    }
}

/// The store after a routing-family session is destroyed: the record goes,
/// and every index entry that still points at it is purged.
pub open spec fn spec_drop_session(v: StoreV, key: Seq<char>) -> StoreV {
    if v.sessions.contains_key(key) {
        let e = v.sessions[key];
        StoreV {
            sessions: v.sessions.remove(key),
            user_index: spec_purge_user_mapping(v.user_index, e.data, key),
            user_waits: spec_purge_wait_user(v.user_waits, e.wait_user, key),
            scope_index: spec_purge_scope(v.scope_index, e.scope_key, key),
            ..v
        }
    } else {
        v
    }
}

/// Whether a stored session's context satisfies a caller's fence: same
/// environment, tenant and normalized team, and when the stored context
/// names a user it must be the queried one.
pub open spec fn session_ctx_matches(stored: TenantCtxV, c: TenantCtxV, u: Seq<char>) -> bool {
    &&& stored.env == c.env
    &&& stored.tenant == c.tenant
    &&& norm_team(stored) == norm_team(c)
    &&& (norm_user(stored) is Some ==> norm_user(stored) == Some(u))
}

impl InMemorySessionStore {
    /// Computes the user-index key for the data, with an optional caller
    /// context as fallback.
    fn mapping_key(ctx_hint: Option<&TenantCtx>, data: &SessionData) -> (r: Option<UserLookupKey>)
        ensures
            ov(r) == spec_mapping_key(
                match ctx_hint {
                    Some(c) => Some(c@),
                    None => None,
                },
                data@,
            ),
    {
        match mapping_source(ctx_hint, data) {
            Some((c, u)) => Some(UserLookupKey::from_ctx(&c, &u)),
            None => None,
        }
    }

    /// Destroys a stored session and purges every index entry that still
    /// points at it.
    fn drop_session(&mut self, key_text: &String)
        requires
            old(self).wf(),
        ensures
            final(self).wf(),
            final(self)@ == spec_drop_session(old(self)@, key_text@),
    {
        let mut present = false;
        let mut lookup: Option<UserLookupKey> = None;
        let mut wait_user: Option<UserLookupKey> = None;
        let mut scope_key: Option<ScopeLookupKey> = None;
        match self.sessions.get(key_text) {
            Some(e) => {
                present = true;
                lookup = InMemorySessionStore::mapping_key(None, &e.data);
                wait_user = match &e.wait_user {
                    Some(k) => Some(k.clone()),
                    None => None,
                };
                scope_key = match &e.scope_key {
                    Some(k) => Some(k.clone()),
                    None => None,
                };
            },
            None => {},
        }
        if !present {
            return ;
        }
        self.sessions.remove(key_text);
        match lookup {
            Some(lk) => {
                let mut hit = false;
                match self.user_index.get(&lk) {
                    Some(sk) => {
                        hit = sk.0.eq(key_text);
                    },
                    None => {},
                }
                if hit {
                    self.user_index.remove(&lk);
                }
            },
            None => {},
        }
        match wait_user {
            Some(uk) => {
                let mut set_copy: Option<KeySet> = None;
                match self.user_waits.get(&uk) {
                    Some(s) => {
                        set_copy = Some(s.clone());
                    },
                    None => {},
                }
                match set_copy {
                    Some(mut s) => {
                        s.discard(key_text);
                        self.user_waits.insert(uk, s);
                    },
                    None => {},
                }
            },
            None => {},
        }
        match scope_key {
            Some(sk) => {
                let mut hit = false;
                match self.scope_index.get(&sk) {
                    Some(se) => {
                        hit = se.session_key.eq(key_text);
                    },
                    None => {},
                }
                if hit {
                    self.scope_index.remove(&sk);
                }
            },
            None => {},
        }
    }

    /// Creates a new session under a fresh random key. The caller's context
    /// must align with the context embedded in the data; on success the
    /// user index learns the session when a user is named.
    pub fn create_session(&mut self, ctx: &TenantCtx, data: SessionData) -> (r: SessionResult<
        SessionKey,
    >)
        requires
            old(self).wf(),
        ensures
            final(self).wf(),
            r is Ok <==> aligned(ctx@, data@.tenant_ctx),
            r is Err ==> final(self)@ == old(self)@ && r->Err_0.code == ErrorCode::InvalidInput
                && r->Err_0.message@ == mismatch_message(
                align_fail_reason(ctx@, data@.tenant_ctx),
                data@.tenant_ctx,
                ctx@,
            ),
            r is Ok ==> ({
                let k = r->Ok_0@;
                let entry = SessionEntryV {
                    data: data@,
                    expires_at: None,
                    wait_user: None,
                    scope_key: None,
                };
                &&& k.len() == 36
                &&& final(self)@ == (StoreV {
                    sessions: old(self)@.sessions.insert(k, entry),
                    user_index: match spec_mapping_key(Some(ctx@), data@) {
                        Some(uk) => old(self)@.user_index.insert(uk, k),
                        None => old(self)@.user_index,
                    },
                    ..old(self)@
                })
            }),
    {
        match ensure_alignment(ctx, &data.tenant_ctx) {
            Err(e) => {
                return Err(e);
            },
            Ok(()) => {},
        }
        let key = SessionKey::new(crate::runtime::fresh_uuid_text());
        let lookup = InMemorySessionStore::mapping_key(Some(ctx), &data);
        self.sessions.insert(
            key.0.clone(),
            SessionEntry { data, expires_at: None, wait_user: None, scope_key: None },
        );
        match lookup {
            Some(lk) => {
                self.user_index.insert(lk, key.clone());
            },
            None => {},
        }
        Ok(key)
    }

    /// Fetches the live session payload at the given instant; an expired
    /// entry is destroyed and reported absent.
    pub fn get_session_at(&mut self, key: &SessionKey, now: u64) -> (r: SessionResult<
        Option<SessionData>,
    >)
        requires
            old(self).wf(),
        ensures
            final(self).wf(),
            ({
                let m = old(self)@.sessions;
                if m.contains_key(key@) && spec_live(m[key@].expires_at, now) {
                    &&& final(self)@ == old(self)@
                    &&& r is Ok && r->Ok_0 is Some && (r->Ok_0)->0@ == m[key@].data
                } else if m.contains_key(key@) {
                    &&& final(self)@ == spec_drop_session(old(self)@, key@)
                    &&& r == Ok::<Option<SessionData>, GreenticError>(None)
                } else {
                    &&& final(self)@ == old(self)@
                    &&& r == Ok::<Option<SessionData>, GreenticError>(None)
                }
            }),
    {
        let mut expired = false;
        let mut found: Option<SessionData> = None;
        match self.sessions.get(&key.0) {
            Some(e) => {
                if entry_live(e.expires_at, now) {
                    found = Some(e.data.clone());
                } else {
                    expired = true;
                }
            },
            None => {},
        }
        if expired {
            self.drop_session(&key.0);
            return Ok(None);
        }
        Ok(found)
    }

    /// Fetches the session payload, reading the wall clock: the call
    /// behaves exactly as `get_session_at` at the instant the clock
    /// returned.
    pub fn get_session(&mut self, key: &SessionKey) -> (r: SessionResult<Option<SessionData>>)
        requires
            old(self).wf(),
        ensures
            final(self).wf(),
            r is Ok,
            exists|now: u64| clocked_get_session(old(self)@, final(self)@, key@, r, now),
    {
        let now = now_unix_millis();
        let r = self.get_session_at(key, now);
        proof {
            assert(clocked_get_session(old(self)@, self@, key@, r, now));
        }
        r
    }

    /// Replaces the session payload under an existing key. The stored
    /// context is immutable: environment, tenant, normalized team and user
    /// cannot change. The user index follows the new data.
    pub fn update_session(&mut self, key: &SessionKey, data: SessionData) -> (r: SessionResult<()>)
        requires
            old(self).wf(),
        ensures
            final(self).wf(),
            ({
                let m = old(self)@.sessions;
                if !m.contains_key(key@) {
                    &&& final(self)@ == old(self)@
                    &&& r is Err && r->Err_0.code == ErrorCode::NotFound
                    &&& r->Err_0.message@ == not_found_message(key@)
                } else if !preserved(m[key@].data.tenant_ctx, data@.tenant_ctx) {
                    &&& final(self)@ == old(self)@
                    &&& r is Err && r->Err_0.code == ErrorCode::InvalidInput
                    &&& r->Err_0.message@ == mismatch_message(
                        preserve_fail_reason(m[key@].data.tenant_ctx, data@.tenant_ctx),
                        m[key@].data.tenant_ctx,
                        data@.tenant_ctx,
                    )
                } else {
                    let prev = m[key@];
                    let entry = SessionEntryV { data: data@, ..prev };
                    let ui = spec_purge_user_mapping(old(self)@.user_index, prev.data, key@);
                    &&& r is Ok
                    &&& final(self)@ == (StoreV {
                        sessions: old(self)@.sessions.insert(key@, entry),
                        user_index: match spec_mapping_key(None, data@) {
                            Some(uk) => ui.insert(uk, key@),
                            None => ui,
                        },
                        ..old(self)@
                    })
                }
            }),
    {
        let mut prev: Option<SessionEntry> = None;
        match self.sessions.get(&key.0) {
            Some(e) => {
                prev = Some(
                    SessionEntry {
                        data: e.data.clone(),
                        expires_at: e.expires_at,
                        wait_user: match &e.wait_user {
                            Some(k) => Some(k.clone()),
                            None => None,
                        },
                        scope_key: match &e.scope_key {
                            Some(k) => Some(k.clone()),
                            None => None,
                        },
                    },
                );
            },
            None => {},
        }
        let previous = match prev {
            Some(p) => p,
            None => {
                return Err(not_found_for(key.0.as_str()));
            },
        };
        match ensure_ctx_preserved(&previous.data.tenant_ctx, &data.tenant_ctx) {
            Err(e) => {
                return Err(e);
            },
            Ok(()) => {},
        }
        let new_lookup = InMemorySessionStore::mapping_key(None, &data);
        self.sessions.insert(
            key.0.clone(),
            SessionEntry {
                data,
                expires_at: previous.expires_at,
                wait_user: match &previous.wait_user {
                    Some(k) => Some(k.clone()),
                    None => None,
                },
                scope_key: match &previous.scope_key {
                    Some(k) => Some(k.clone()),
                    None => None,
                },
            },
        );
        match InMemorySessionStore::mapping_key(None, &previous.data) {
            Some(lk) => {
                let mut hit = false;
                match self.user_index.get(&lk) {
                    Some(sk) => {
                        hit = sk.0.eq(&key.0);
                    },
                    None => {},
                }
                if hit {
                    self.user_index.remove(&lk);
                }
            },
            None => {},
        }
        match new_lookup {
            Some(uk) => {
                self.user_index.insert(uk, key.clone());
            },
            None => {},
        }
        Ok(())
    }

    /// Removes the session and every index entry that still points at it.
    pub fn remove_session(&mut self, key: &SessionKey) -> (r: SessionResult<()>)
        requires
            old(self).wf(),
        ensures
            final(self).wf(),
            final(self)@ == spec_drop_session(old(self)@, key@),
            r is Ok <==> old(self)@.sessions.contains_key(key@),
            r is Err ==> r->Err_0.code == ErrorCode::NotFound && r->Err_0.message@
                == not_found_message(key@),
    {
        let mut present = false;
        match self.sessions.get(&key.0) {
            Some(_) => {
                present = true;
            },
            None => {},
        }
        if !present {
            return Err(not_found_for(key.0.as_str()));
        }
        self.drop_session(&key.0);
        Ok(())
    }
}

/// Whether a wait pointing at `key` may be reported to a caller presenting
/// `c` for user `u`: the session exists, is live, and its context matches.
pub open spec fn wait_matches(v: StoreV, c: TenantCtxV, u: Seq<char>, key: Seq<char>, now: u64) -> bool {
    &&& v.sessions.contains_key(key)
    &&& spec_live(v.sessions[key].expires_at, now)
    &&& session_ctx_matches(v.sessions[key].data.tenant_ctx, c, u)
}

/// Whether a wait registration is admissible: the caller aligns with the
/// data, the data names exactly the waiting user, and the caller's user (if
/// any) is that user.
pub open spec fn wait_aligned(c: TenantCtxV, d: TenantCtxV, u: Seq<char>) -> bool {
    &&& aligned(c, d)
    &&& norm_user(d) == Some(u)
    &&& (norm_user(c) is Some ==> norm_user(c) == Some(u))
}

/// The store after a wait registration: the session record is written with
/// the wait's TTL, the scope entry points at it, the user set learns it, and
/// a session previously bound to the same scope loses its set membership.
pub open spec fn spec_register_wait(
    v: StoreV,
    c: TenantCtxV,
    u: Seq<char>,
    sh: Seq<char>,
    key: Seq<char>,
    d: SessionDataV,
    ttl_secs: Option<u32>,
    now: u64,
) -> StoreV {
    let uk = spec_user_key(c, u);
    let sk = ScopeKeyV { user_key: uk, scope_hash: sh };
    let deadline = spec_touch_deadline(ttl_secs, now);
    let uw0 = if v.scope_index.contains_key(sk) && v.scope_index[sk].session_key != key {
        spec_purge_wait_user(v.user_waits, Some(uk), v.scope_index[sk].session_key)
    } else {
        v.user_waits
    };
    let uw1 = if uw0.contains_key(uk) {
        uw0.insert(
            uk,
            if uw0[uk].contains(key) {
                uw0[uk]
            } else {
                uw0[uk].push(key)
            },
        )
    } else {
        uw0.insert(uk, seq![key])
    };
    StoreV {
        sessions: v.sessions.insert(
            key,
            SessionEntryV { data: d, expires_at: deadline, wait_user: Some(uk), scope_key: Some(sk) },
        ),
        scope_index: v.scope_index.insert(
            sk,
            ScopeEntryV { session_key: key, expires_at: deadline },
        ),
        user_waits: uw1,
        ..v
    }
}

/// The outcome of a scope lookup.
#[verifier::ext_equal]
pub ghost struct ScopeFindStep {
    pub store: StoreV,
    pub found: Option<Seq<char>>,
}

/// What a scope lookup observes and leaves behind: the key when everything
/// checks out, pruning of whatever was stale otherwise.
pub open spec fn spec_find_wait_by_scope(
    v: StoreV,
    c: TenantCtxV,
    u: Seq<char>,
    sh: Seq<char>,
    now: u64,
) -> ScopeFindStep {
    let uk = spec_user_key(c, u);
    let sk = ScopeKeyV { user_key: uk, scope_hash: sh };
    if !v.scope_index.contains_key(sk) {
        ScopeFindStep { store: v, found: None }
    } else {
        let se = v.scope_index[sk];
        let key = se.session_key;
        if spec_live(se.expires_at, now) && wait_matches(v, c, u, key, now) {
            ScopeFindStep { store: v, found: Some(key) }
        } else {
            let v1 = StoreV {
                scope_index: v.scope_index.remove(sk),
                user_waits: spec_purge_wait_user(v.user_waits, Some(uk), key),
                ..v
            };
            let v2 = if v1.sessions.contains_key(key) && !spec_live(
                v1.sessions[key].expires_at,
                now,
            ) {
                spec_drop_session(v1, key)
            } else {
                v1
            };
            ScopeFindStep { store: v2, found: None }
        }
    }
}

/// The store after a wait is cleared: the scope entry goes, and the session
/// it pointed at leaves the user's set. Silent when no wait exists.
pub open spec fn spec_clear_wait(v: StoreV, c: TenantCtxV, u: Seq<char>, sh: Seq<char>) -> StoreV {
    let uk = spec_user_key(c, u);
    let sk = ScopeKeyV { user_key: uk, scope_hash: sh };
    if v.scope_index.contains_key(sk) {
        StoreV {
            scope_index: v.scope_index.remove(sk),
            user_waits: spec_purge_wait_user(v.user_waits, Some(uk), v.scope_index[sk].session_key),
            ..v
        }
    } else {
        v
    }
}

/// The outcome of a by-user lookup.
pub ghost enum FindOutcome {
    /// A single matching session was found.
    Found(Seq<char>, SessionDataV),
    /// No matching session exists; stale state was pruned.
    Missing,
    /// More than one wait is registered: the lookup is ambiguous.
    Ambiguous,
}

/// The outcome of a by-user lookup, with the store it leaves behind.
#[verifier::ext_equal]
pub ghost struct FindStep {
    pub store: StoreV,
    pub outcome: FindOutcome,
}

/// What a by-user lookup observes and leaves behind. A user with two or
/// more registered waits cannot be routed without a scope; a single wait is
/// validated like a scope lookup; otherwise the legacy one-entry user index
/// decides, pruned on any mismatch.
pub open spec fn spec_find_by_user(v: StoreV, c: TenantCtxV, u: Seq<char>, now: u64) -> FindStep {
    let uk = spec_user_key(c, u);
    if v.user_waits.contains_key(uk) && v.user_waits[uk].len() >= 2 {
        FindStep { store: v, outcome: FindOutcome::Ambiguous }
    } else if v.user_waits.contains_key(uk) && v.user_waits[uk].len() == 1 {
        let key = v.user_waits[uk][0];
        if wait_matches(v, c, u, key, now) {
            FindStep { store: v, outcome: FindOutcome::Found(key, v.sessions[key].data) }
        } else if v.sessions.contains_key(key) && !spec_live(v.sessions[key].expires_at, now) {
            FindStep { store: spec_drop_session(v, key), outcome: FindOutcome::Missing }
        } else {
            FindStep {
                store: StoreV {
                    user_waits: spec_purge_wait_user(v.user_waits, Some(uk), key),
                    ..v
                },
                outcome: FindOutcome::Missing,
            }
        }
    } else if !v.user_index.contains_key(uk) {
        FindStep { store: v, outcome: FindOutcome::Missing }
    } else {
        let key = v.user_index[uk];
        if wait_matches(v, c, u, key, now) {
            FindStep { store: v, outcome: FindOutcome::Found(key, v.sessions[key].data) }
        } else if v.sessions.contains_key(key) && !spec_live(v.sessions[key].expires_at, now) {
            let d = spec_drop_session(v, key);
            FindStep {
                store: StoreV { user_index: d.user_index.remove(uk), ..d },
                outcome: FindOutcome::Missing,
            }
        } else {
            FindStep {
                store: StoreV { user_index: v.user_index.remove(uk), ..v },
                outcome: FindOutcome::Missing,
            }
        }
    }
}

/// The outcome of sifting a user's wait set.
#[verifier::ext_equal]
pub ghost struct SiftStep {
    pub store: StoreV,
    pub kept: Seq<Seq<char>>,
}

/// What listing a user's waits observes and leaves behind: each key of the
/// set, front to back, is kept when its session matches and pruned
/// otherwise.
pub open spec fn spec_sift_waits(
    v: StoreV,
    c: TenantCtxV,
    u: Seq<char>,
    keys: Seq<Seq<char>>,
    now: u64,
) -> SiftStep
    decreases keys.len(),
{
    if keys.len() == 0 {
        SiftStep { store: v, kept: Seq::empty() }
    } else {
        let key = keys[0];
        let uk = spec_user_key(c, u);
        if wait_matches(v, c, u, key, now) {
            let s = spec_sift_waits(v, c, u, keys.drop_first(), now);
            SiftStep { store: s.store, kept: seq![key] + s.kept }
        } else {
            let v1 = if v.sessions.contains_key(key) && !spec_live(
                v.sessions[key].expires_at,
                now,
            ) {
                spec_drop_session(v, key)
            } else {
                StoreV { user_waits: spec_purge_wait_user(v.user_waits, Some(uk), key), ..v }
            };
            let s = spec_sift_waits(v1, c, u, keys.drop_first(), now);
            SiftStep { store: s.store, kept: s.kept }
        }
    }
}

/// Whether a stored context satisfies a caller's query fence.
pub fn ctx_matches_query(stored: &TenantCtx, ctx: &TenantCtx, user: &UserId) -> (r: bool)
    ensures
        r == session_ctx_matches(stored@, ctx@, user@),
{
    if !stored.env.0.eq(&ctx.env.0) {
        return false;
    }
    if !stored.tenant_id.0.eq(&ctx.tenant_id.0) {
        return false;
    }
    if !crate::tenant::opt_team_eq(stored.normalize_team(), ctx.normalize_team()) {
        return false;
    }
    match stored.normalize_user() {
        Some(su) => su.0.eq(&user.0),
        None => true,
    }
}

impl InMemorySessionStore {
    /// Removes a key from a user's wait set, if the set exists.
    fn discard_wait(&mut self, uk: &UserLookupKey, key_text: &String)
        requires
            old(self).wf(),
        ensures
            final(self).wf(),
            final(self)@ == (StoreV {
                user_waits: spec_purge_wait_user(old(self)@.user_waits, Some(uk@), key_text@),
                ..old(self)@
            }),
    {
        let mut set_copy: Option<KeySet> = None;
        match self.user_waits.get(uk) {
            Some(s) => {
                set_copy = Some(s.clone());
            },
            None => {},
        }
        match set_copy {
            Some(mut s) => {
                s.discard(key_text);
                self.user_waits.insert(uk.clone(), s);
            },
            None => {},
        }
    }

    /// Checks that a wait registration names the right user: the data must
    /// carry exactly the waiting user, and the caller's user, when named,
    /// must be the same.
    pub fn ensure_wait_user(ctx: &TenantCtx, data: &SessionData, user: &UserId) -> (r:
        SessionResult<()>)
        ensures
            r is Ok <==> (norm_user(data@.tenant_ctx) == Some(user@) && (norm_user(ctx@) is Some
                ==> norm_user(ctx@) == Some(user@))),
            r is Err ==> r->Err_0.code == ErrorCode::InvalidInput,
    {
        let user_ok = match data.tenant_ctx.normalize_user() {
            Some(du) => du.0.eq(&user.0),
            None => false,
        };
        if !user_ok {
            return Err(
                invalid_argument("wait registration requires the session user".to_owned()),
            );
        }
        let caller_ok = match ctx.normalize_user() {
            Some(cu) => cu.0.eq(&user.0),
            None => true,
        };
        if !caller_ok {
            return Err(invalid_argument("wait user must match the caller's user".to_owned()));
        }
        Ok(())
    }

    /// Registers a wait: stores the session under the key with the wait's
    /// TTL, points the scope at it, and adds it to the user's wait set. A
    /// session previously bound to the same scope loses its membership.
    /// The data must align with the caller and name exactly the waiting
    /// user.
    pub fn register_wait_at(
        &mut self,
        ctx: &TenantCtx,
        user: &UserId,
        scope: &ReplyScope,
        key: &SessionKey,
        data: SessionData,
        ttl_secs: Option<u32>,
        now: u64,
    ) -> (r: SessionResult<()>)
        requires
            old(self).wf(),
        ensures
            final(self).wf(),
            r is Ok <==> wait_aligned(ctx@, data@.tenant_ctx, user@),
            r is Err ==> final(self)@ == old(self)@ && r->Err_0.code == ErrorCode::InvalidInput,
            r is Ok ==> final(self)@ == spec_register_wait(
                old(self)@,
                ctx@,
                user@,
                crate::session_data::spec_scope_hash(scope@),
                key@,
                data@,
                ttl_secs,
                now,
            ),
    {
        match ensure_alignment(ctx, &data.tenant_ctx) {
            Err(e) => {
                return Err(e);
            },
            Ok(()) => {},
        }
        match InMemorySessionStore::ensure_wait_user(ctx, &data, user) {
            Err(e) => {
                return Err(e);
            },
            Ok(()) => {},
        }
        let uk = UserLookupKey::from_ctx(ctx, user);
        let sh = scope.scope_hash();
        let sk = ScopeLookupKey { user_key: uk.clone(), scope_hash: sh };
        let deadline = match ttl_secs {
            Some(t) => Some(now.saturating_add((t as u64) * 1000)),
            None => None,
        };
        let mut displaced: Option<String> = None;
        match self.scope_index.get(&sk) {
            Some(se) => {
                if !se.session_key.eq(&key.0) {
                    displaced = Some(se.session_key.clone());
                }
            },
            None => {},
        }
        match displaced {
            Some(old_key) => {
                self.discard_wait(&uk, &old_key);
            },
            None => {},
        }
        self.sessions.insert(
            key.0.clone(),
            SessionEntry {
                data,
                expires_at: deadline,
                wait_user: Some(uk.clone()),
                scope_key: Some(sk.clone()),
            },
        );
        self.scope_index.insert(
            sk,
            ScopeEntry { session_key: key.0.clone(), expires_at: deadline },
        );
        let mut set: KeySet = match self.user_waits.get(&uk) {
            Some(s) => s.clone(),
            None => KeySet::new(),
        };
        set.add(key.0.clone());
        self.user_waits.insert(uk, set);
        Ok(())
    }

    /// Registers a wait, reading the wall clock: the call behaves exactly
    /// as `register_wait_at` at the instant the clock returned.
    pub fn register_wait(
        &mut self,
        ctx: &TenantCtx,
        user: &UserId,
        scope: &ReplyScope,
        key: &SessionKey,
        data: SessionData,
        ttl_secs: Option<u32>,
    ) -> (r: SessionResult<()>)
        requires
            old(self).wf(),
        ensures
            final(self).wf(),
            r is Ok <==> wait_aligned(ctx@, data@.tenant_ctx, user@),
            r is Err ==> final(self)@ == old(self)@ && r->Err_0.code == ErrorCode::InvalidInput,
            exists|now: u64| clocked_register_wait(
                old(self)@,
                final(self)@,
                ctx@,
                user@,
                crate::session_data::spec_scope_hash(scope@),
                key@,
                data@,
                ttl_secs,
                r,
                now,
            ),
    {
        let ghost dv = data@;
        let now = now_unix_millis();
        let r = self.register_wait_at(ctx, user, scope, key, data, ttl_secs, now);
        proof {
            assert(clocked_register_wait(
                old(self)@,
                self@,
                ctx@,
                user@,
                crate::session_data::spec_scope_hash(scope@),
                key@,
                dv,
                ttl_secs,
                r,
                now,
            ));
        }
        r
    }

    /// Routes a reply scope to its waiting session at the given instant.
    /// Anything stale along the way — an expired scope entry, a missing or
    /// expired session, a tenant mismatch — is pruned, and the lookup
    /// reports nothing; a mismatch is never an error.
    pub fn find_wait_by_scope_at(
        &mut self,
        ctx: &TenantCtx,
        user: &UserId,
        scope: &ReplyScope,
        now: u64,
    ) -> (r: SessionResult<Option<SessionKey>>)
        requires
            old(self).wf(),
        ensures
            final(self).wf(),
            ({
                let st = spec_find_wait_by_scope(
                    old(self)@,
                    ctx@,
                    user@,
                    crate::session_data::spec_scope_hash(scope@),
                    now,
                );
                &&& final(self)@ == st.store
                &&& match (r, st.found) {
                    (Ok(Some(k)), Some(f)) => k@ == f,
                    (Ok(None), None) => true,
                    _ => false,
                }
            }),
    {
        let uk = UserLookupKey::from_ctx(ctx, user);
        let sh = scope.scope_hash();
        let sk = ScopeLookupKey { user_key: uk.clone(), scope_hash: sh };
        let mut probe: Option<(String, Option<u64>)> = None;
        match self.scope_index.get(&sk) {
            Some(se) => {
                probe = Some((se.session_key.clone(), se.expires_at));
            },
            None => {},
        }
        let (key_text, se_expires) = match probe {
            Some(p) => p,
            None => {
                return Ok(None);
            },
        };
        let se_live = entry_live(se_expires, now);
        let mut sess_match = false;
        let mut sess_expired = false;
        match self.sessions.get(&key_text) {
            Some(e) => {
                if entry_live(e.expires_at, now) {
                    sess_match = ctx_matches_query(&e.data.tenant_ctx, ctx, user);
                } else {
                    sess_expired = true;
                }
            },
            None => {},
        }
        if se_live && sess_match {
            return Ok(Some(SessionKey::new(key_text)));
        }
        self.scope_index.remove(&sk);
        self.discard_wait(&uk, &key_text);
        if sess_expired {
            self.drop_session(&key_text);
        }
        Ok(None)
    }

    /// Routes a reply scope to its waiting session, reading the wall
    /// clock: the call behaves exactly as `find_wait_by_scope_at` at the
    /// instant the clock returned.
    pub fn find_wait_by_scope(
        &mut self,
        ctx: &TenantCtx,
        user: &UserId,
        scope: &ReplyScope,
    ) -> (r: SessionResult<Option<SessionKey>>)
        requires
            old(self).wf(),
        ensures
            final(self).wf(),
            r is Ok,
            exists|now: u64| clocked_find_wait_by_scope(
                old(self)@,
                final(self)@,
                ctx@,
                user@,
                crate::session_data::spec_scope_hash(scope@),
                r,
                now,
            ),
    {
        let now = now_unix_millis();
        let r = self.find_wait_by_scope_at(ctx, user, scope, now);
        proof {
            assert(clocked_find_wait_by_scope(
                old(self)@,
                self@,
                ctx@,
                user@,
                crate::session_data::spec_scope_hash(scope@),
                r,
                now,
            ));
        }
        r
    }

    /// Clears the wait registered for a scope, silently when none exists.
    /// The session record itself stays.
    pub fn clear_wait(&mut self, ctx: &TenantCtx, user: &UserId, scope: &ReplyScope) -> (r:
        SessionResult<()>)
        requires
            old(self).wf(),
        ensures
            final(self).wf(),
            r is Ok,
            final(self)@ == spec_clear_wait(
                old(self)@,
                ctx@,
                user@,
                crate::session_data::spec_scope_hash(scope@),
            ),
    {
        let uk = UserLookupKey::from_ctx(ctx, user);
        let sh = scope.scope_hash();
        let sk = ScopeLookupKey { user_key: uk.clone(), scope_hash: sh };
        let mut pointed: Option<String> = None;
        match self.scope_index.get(&sk) {
            Some(se) => {
                pointed = Some(se.session_key.clone());
            },
            None => {},
        }
        match pointed {
            Some(key_text) => {
                self.scope_index.remove(&sk);
                self.discard_wait(&uk, &key_text);
            },
            None => {},
        }
        Ok(())
    }

    /// Finds the session bound to a user at the given instant. Two or more
    /// registered waits make the lookup ambiguous; a single wait is
    /// validated and pruned like a scope lookup; otherwise the legacy user
    /// index decides.
    pub fn find_by_user_at(&mut self, ctx: &TenantCtx, user: &UserId, now: u64) -> (r:
        SessionResult<Option<(SessionKey, SessionData)>>)
        requires
            old(self).wf(),
        ensures
            final(self).wf(),
            ({
                let st = spec_find_by_user(old(self)@, ctx@, user@, now);
                &&& final(self)@ == st.store
                &&& match (r, st.outcome) {
                    (Ok(Some((k, d))), FindOutcome::Found(fk, fd)) => k@ == fk && d@ == fd,
                    (Ok(None), FindOutcome::Missing) => true,
                    (Err(e), FindOutcome::Ambiguous) => e.code == ErrorCode::InvalidInput
                        && e.message@
                        == "multiple waits registered for user; scope is required"@,
                    _ => false,
                }
            }),
    {
        let uk = UserLookupKey::from_ctx(ctx, user);
        let mut wait_count: usize = 0;
        let mut wait_key: Option<String> = None;
        match self.user_waits.get(&uk) {
            Some(s) => {
                wait_count = s.len();
                if wait_count == 1 {
                    wait_key = Some(s.index(0).clone());
                }
            },
            None => {},
        }
        if wait_count >= 2 {
            return Err(
                invalid_argument("multiple waits registered for user; scope is required".to_owned()),
            );
        }
        match wait_key {
            Some(key_text) => {
                let mut found: Option<SessionData> = None;
                let mut sess_expired = false;
                match self.sessions.get(&key_text) {
                    Some(e) => {
                        if entry_live(e.expires_at, now) {
                            if ctx_matches_query(&e.data.tenant_ctx, ctx, user) {
                                found = Some(e.data.clone());
                            }
                        } else {
                            sess_expired = true;
                        }
                    },
                    None => {},
                }
                match found {
                    Some(d) => {
                        return Ok(Some((SessionKey::new(key_text), d)));
                    },
                    None => {},
                }
                if sess_expired {
                    self.drop_session(&key_text);
                    return Ok(None);
                }
                self.discard_wait(&uk, &key_text);
                return Ok(None);
            },
            None => {},
        }
        let mut stored: Option<String> = None;
        match self.user_index.get(&uk) {
            Some(sk) => {
                stored = Some(sk.0.clone());
            },
            None => {},
        }
        let key_text = match stored {
            Some(k) => k,
            None => {
                return Ok(None);
            },
        };
        let mut found: Option<SessionData> = None;
        let mut sess_expired = false;
        match self.sessions.get(&key_text) {
            Some(e) => {
                if entry_live(e.expires_at, now) {
                    if ctx_matches_query(&e.data.tenant_ctx, ctx, user) {
                        found = Some(e.data.clone());
                    }
                } else {
                    sess_expired = true;
                }
            },
            None => {},
        }
        match found {
            Some(d) => {
                return Ok(Some((SessionKey::new(key_text), d)));
            },
            None => {},
        }
        if sess_expired {
            self.drop_session(&key_text);
            self.user_index.remove(&uk);
            return Ok(None);
        }
        self.user_index.remove(&uk);
        Ok(None)
    }

    /// Finds the session bound to a user, reading the wall clock: the call
    /// behaves exactly as `find_by_user_at` at the instant the clock
    /// returned, and the ambiguity verdict does not depend on that instant.
    pub fn find_by_user(&mut self, ctx: &TenantCtx, user: &UserId) -> (r: SessionResult<
        Option<(SessionKey, SessionData)>,
    >)
        requires
            old(self).wf(),
        ensures
            final(self).wf(),
            ({
                let uk = spec_user_key(ctx@, user@);
                r is Err <==> old(self)@.user_waits.contains_key(uk)
                    && old(self)@.user_waits[uk].len() >= 2
            }),
            r is Err ==> r->Err_0.code == ErrorCode::InvalidInput && r->Err_0.message@
                == "multiple waits registered for user; scope is required"@,
            exists|now: u64| clocked_find_by_user(old(self)@, final(self)@, ctx@, user@, r, now),
    {
        let now = now_unix_millis();
        let r = self.find_by_user_at(ctx, user, now);
        proof {
            assert(clocked_find_by_user(old(self)@, self@, ctx@, user@, r, now));
        }
        r
    }

    /// Lists the live, matching waits of a user at the given instant,
    /// pruning every stale entry encountered.
    pub fn list_waits_for_user_at(&mut self, ctx: &TenantCtx, user: &UserId, now: u64) -> (r:
        SessionResult<Vec<SessionKey>>)
        requires
            old(self).wf(),
        ensures
            final(self).wf(),
            ({
                let keys = if old(self)@.user_waits.contains_key(spec_user_key(ctx@, user@)) {
                    old(self)@.user_waits[spec_user_key(ctx@, user@)]
                } else {
                    Seq::empty()
                };
                let st = spec_sift_waits(old(self)@, ctx@, user@, keys, now);
                &&& final(self)@ == st.store
                &&& r is Ok
                &&& Seq::new(r->Ok_0@.len(), |t: int| r->Ok_0@[t]@) == st.kept
            }),
    {
        let uk = UserLookupKey::from_ctx(ctx, user);
        let snapshot: KeySet = match self.user_waits.get(&uk) {
            Some(s) => s.clone(),
            None => KeySet::new(),
        };
        let ghost keys = snapshot@;
        let n = snapshot.len();
        let mut kept: Vec<SessionKey> = Vec::new();
        let mut i: usize = 0;
        proof {
            assert(keys.skip(0) =~= keys);
            assert(Seq::new(kept@.len(), |t: int| kept@[t]@) =~= Seq::<Seq<char>>::empty());
        }
        while i < n
            invariant
                i <= n,
                n == keys.len(),
                self.wf(),
                snapshot@ == keys,
                uk@ == spec_user_key(ctx@, user@),
                spec_sift_waits(old(self)@, ctx@, user@, keys, now) == ({
                    let s = spec_sift_waits(self@, ctx@, user@, keys.skip(i as int), now);
                    SiftStep {
                        store: s.store,
                        kept: Seq::new(kept@.len(), |t: int| kept@[t]@) + s.kept,
                    }
                }),
            decreases n - i,
        {
            let ghost pre_store = self@;
            let ghost pre_kept = Seq::new(kept@.len(), |t: int| kept@[t]@);
            let key_text = snapshot.index(i).clone();
            proof {
                assert(keys.skip(i as int)[0] == keys[i as int]);
                assert(keys.skip(i as int).drop_first() =~= keys.skip(i + 1));
            }
            let mut is_match = false;
            let mut sess_expired = false;
            match self.sessions.get(&key_text) {
                Some(e) => {
                    if entry_live(e.expires_at, now) {
                        is_match = ctx_matches_query(&e.data.tenant_ctx, ctx, user);
                    } else {
                        sess_expired = true;
                    }
                },
                None => {},
            }
            if is_match {
                kept.push(SessionKey::new(key_text));
                proof {
                    let rest = spec_sift_waits(self@, ctx@, user@, keys.skip(i as int + 1), now);
                    assert(wait_matches(pre_store, ctx@, user@, keys[i as int], now));
                    assert(spec_sift_waits(pre_store, ctx@, user@, keys.skip(i as int), now)
                        == SiftStep { store: rest.store, kept: seq![keys[i as int]] + rest.kept });
                    assert(Seq::new(kept@.len(), |t: int| kept@[t]@) =~= pre_kept.push(
                        keys[i as int],
                    ));
                    assert(pre_kept + (seq![keys[i as int]] + rest.kept) =~= pre_kept.push(
                        keys[i as int],
                    ) + rest.kept);
                }
            } else if sess_expired {
                self.drop_session(&key_text);
                proof {
                    let rest = spec_sift_waits(self@, ctx@, user@, keys.skip(i as int + 1), now);
                    assert(!wait_matches(pre_store, ctx@, user@, keys[i as int], now));
                    assert(spec_sift_waits(pre_store, ctx@, user@, keys.skip(i as int), now)
                        == SiftStep { store: rest.store, kept: rest.kept });
                }
            } else {
                self.discard_wait(&uk, &key_text);
                proof {
                    let rest = spec_sift_waits(self@, ctx@, user@, keys.skip(i as int + 1), now);
                    assert(!wait_matches(pre_store, ctx@, user@, keys[i as int], now));
                    assert(spec_sift_waits(pre_store, ctx@, user@, keys.skip(i as int), now)
                        == SiftStep { store: rest.store, kept: rest.kept });
                }
            }
            i += 1;
        }
        proof {
            assert(keys.skip(n as int) =~= Seq::<Seq<char>>::empty());
        }
        Ok(kept)
    }

    /// Lists the live, matching waits of a user, reading the wall clock:
    /// the call behaves exactly as `list_waits_for_user_at` at the instant
    /// the clock returned.
    pub fn list_waits_for_user(&mut self, ctx: &TenantCtx, user: &UserId) -> (r: SessionResult<
        Vec<SessionKey>,
    >)
        requires
            old(self).wf(),
        ensures
            final(self).wf(),
            r is Ok,
            exists|now: u64| clocked_list_waits(old(self)@, final(self)@, ctx@, user@, r, now),
    {
        let now = now_unix_millis();
        let r = self.list_waits_for_user_at(ctx, user, now);
        proof {
            assert(clocked_list_waits(old(self)@, self@, ctx@, user@, r, now));
        }
        r
    }
}


/// The store contains nothing at all.
pub open spec fn empty_store(v: StoreV) -> bool {
    &&& v.sessions == Map::<Seq<char>, SessionEntryV>::empty()
    &&& v.user_index == Map::<UserKeyV, Seq<char>>::empty()
    &&& v.user_waits == Map::<UserKeyV, Seq<Seq<char>>>::empty()
    &&& v.scope_index == Map::<ScopeKeyV, ScopeEntryV>::empty()
    &&& v.cas == Map::<Seq<char>, CasEntryV>::empty()
}

/// Relates a token map to the same map swept at `now`: every surviving
/// entry is an unchanged live entry of the old map, and every live entry
/// survives.
pub open spec fn sweep_rel(
    pre: Map<Seq<char>, CasEntryV>,
    post: Map<Seq<char>, CasEntryV>,
    now: u64,
) -> bool {
    &&& forall|k: Seq<char>| #[trigger] post.contains_key(k) ==> pre.contains_key(k) && post[k]
        == pre[k] && spec_live(pre[k].expires_at, now)
    &&& forall|k: Seq<char>| pre.contains_key(k) && spec_live(
        #[trigger] pre[k].expires_at,
        now,
    ) ==> post.contains_key(k)
}

/// How the clock-reading `get` behaved, had the clock read `now`.
pub open spec fn clocked_get(
    pre: StoreV,
    post: StoreV,
    key: Seq<char>,
    r: SessionResult<Option<(Session, Cas)>>,
    now: u64,
) -> bool {
    let st = spec_get(pre.cas, key, now);
    &&& post == (StoreV { cas: st.cas, ..pre })
    &&& match (r, st.found) {
        (Ok(Some((s, c))), Some(f)) => s@ == f.0 && c.0 == f.1,
        (Ok(None), None) => true,
        _ => false,
    }
}

/// How the clock-reading `put` behaved, had the clock read `now` and the
/// opportunistic sweep left the token map as `swept`.
pub open spec fn clocked_put(
    pre: StoreV,
    post: StoreV,
    s: SessionV,
    r: SessionResult<Cas>,
    now: u64,
    swept: Map<Seq<char>, CasEntryV>,
) -> bool {
    let token = spec_put_cas(swept, s.key, now);
    &&& (swept == pre.cas || sweep_rel(pre.cas, swept, now))
    &&& post == (StoreV { cas: swept.insert(s.key, stored_entry(s, now, token)), ..pre })
    &&& r == Ok::<Cas, GreenticError>(Cas(token))
}

/// How the clock-reading `update_cas` behaved, had the clock read `now`.
pub open spec fn clocked_update_cas(
    pre: StoreV,
    post: StoreV,
    s: SessionV,
    expected: u64,
    r: SessionResult<Result<Cas, Cas>>,
    now: u64,
) -> bool {
    let st = spec_update_cas(pre.cas, s, expected, now);
    &&& post == (StoreV { cas: st.cas, ..pre })
    &&& match st.verdict {
        CasVerdict::Applied(c) => r == Ok::<Result<Cas, Cas>, GreenticError>(
            Ok::<Cas, Cas>(Cas(c)),
        ),
        CasVerdict::Conflict(c) => r == Ok::<Result<Cas, Cas>, GreenticError>(
            Err::<Cas, Cas>(Cas(c)),
        ),
        CasVerdict::Absent => r == Ok::<Result<Cas, Cas>, GreenticError>(
            Err::<Cas, Cas>(Cas(0)),
        ),
        CasVerdict::Fenced => r is Err && r->Err_0.code == ErrorCode::InvalidInput
            && r->Err_0.message@ == meta_fail_reason(pre.cas[s.key].session.meta, s.meta),
    }
}

/// How the clock-reading `delete` behaved, had the clock read `now`.
pub open spec fn clocked_delete(
    pre: StoreV,
    post: StoreV,
    key: Seq<char>,
    r: SessionResult<bool>,
    now: u64,
) -> bool {
    let st = spec_delete(pre.cas, key, now);
    &&& post == (StoreV { cas: st.cas, ..pre })
    &&& r == Ok::<bool, GreenticError>(st.hit)
}

/// How the clock-reading `touch` behaved, had the clock read `now`.
pub open spec fn clocked_touch(
    pre: StoreV,
    post: StoreV,
    key: Seq<char>,
    ttl_secs: Option<u32>,
    r: SessionResult<bool>,
    now: u64,
) -> bool {
    let st = spec_touch(pre.cas, key, ttl_secs, now);
    &&& post == (StoreV { cas: st.cas, ..pre })
    &&& r == Ok::<bool, GreenticError>(st.hit)
}

/// How the clock-reading `get_session` behaved, had the clock read `now`.
pub open spec fn clocked_get_session(
    pre: StoreV,
    post: StoreV,
    key: Seq<char>,
    r: SessionResult<Option<SessionData>>,
    now: u64,
) -> bool {
    let m = pre.sessions;
    if m.contains_key(key) && spec_live(m[key].expires_at, now) {
        &&& post == pre
        &&& r is Ok && r->Ok_0 is Some && (r->Ok_0)->0@ == m[key].data
    } else if m.contains_key(key) {
        &&& post == spec_drop_session(pre, key)
        &&& r == Ok::<Option<SessionData>, GreenticError>(None)
    } else {
        &&& post == pre
        &&& r == Ok::<Option<SessionData>, GreenticError>(None)
    }
}

/// How the clock-reading `register_wait` behaved, had the clock read
/// `now`.
pub open spec fn clocked_register_wait(
    pre: StoreV,
    post: StoreV,
    c: TenantCtxV,
    u: Seq<char>,
    sh: Seq<char>,
    key: Seq<char>,
    d: SessionDataV,
    ttl_secs: Option<u32>,
    r: SessionResult<()>,
    now: u64,
) -> bool {
    &&& (r is Ok <==> wait_aligned(c, d.tenant_ctx, u))
    &&& (r is Err ==> post == pre && r->Err_0.code == ErrorCode::InvalidInput)
    &&& (r is Ok ==> post == spec_register_wait(pre, c, u, sh, key, d, ttl_secs, now))
}

/// How the clock-reading `find_wait_by_scope` behaved, had the clock read
/// `now`.
pub open spec fn clocked_find_wait_by_scope(
    pre: StoreV,
    post: StoreV,
    c: TenantCtxV,
    u: Seq<char>,
    sh: Seq<char>,
    r: SessionResult<Option<SessionKey>>,
    now: u64,
) -> bool {
    let st = spec_find_wait_by_scope(pre, c, u, sh, now);
    &&& post == st.store
    &&& match (r, st.found) {
        (Ok(Some(k)), Some(f)) => k@ == f,
        (Ok(None), None) => true,
        _ => false,
    }
}

/// How the clock-reading `find_by_user` behaved, had the clock read `now`.
pub open spec fn clocked_find_by_user(
    pre: StoreV,
    post: StoreV,
    c: TenantCtxV,
    u: Seq<char>,
    r: SessionResult<Option<(SessionKey, SessionData)>>,
    now: u64,
) -> bool {
    let st = spec_find_by_user(pre, c, u, now);
    &&& post == st.store
    &&& match (r, st.outcome) {
        (Ok(Some((k, d))), FindOutcome::Found(fk, fd)) => k@ == fk && d@ == fd,
        (Ok(None), FindOutcome::Missing) => true,
        (Err(e), FindOutcome::Ambiguous) => e.code == ErrorCode::InvalidInput && e.message@
            == "multiple waits registered for user; scope is required"@,
        _ => false,
    }
}

/// How the clock-reading `list_waits_for_user` behaved, had the clock read
/// `now`.
pub open spec fn clocked_list_waits(
    pre: StoreV,
    post: StoreV,
    c: TenantCtxV,
    u: Seq<char>,
    r: SessionResult<Vec<SessionKey>>,
    now: u64,
) -> bool {
    let keys = if pre.user_waits.contains_key(spec_user_key(c, u)) {
        pre.user_waits[spec_user_key(c, u)]
    } else {
        Seq::empty()
    };
    let st = spec_sift_waits(pre, c, u, keys, now);
    &&& post == st.store
    &&& r is Ok
    &&& Seq::new(r->Ok_0@.len(), |t: int| r->Ok_0@[t]@) == st.kept
}

/// Compare-and-set writes on one key admit a single winner. When a live
/// record carries token `c` and two writers each read it, the writer whose
/// conditional write lands first commits and gets token `c + 1`; the second
/// writer's attempt with the stale expectation is refused with exactly that
/// token, changes nothing, and a read afterwards sees the winner's record
/// under token `c + 1`.
pub proof fn lemma_cas_single_winner(
    m: Map<Seq<char>, CasEntryV>,
    a: SessionV,
    b: SessionV,
    expected: u64,
    now1: u64,
    now2: u64,
)
    requires
        b.key == a.key,
        m.contains_key(a.key),
        spec_live(m[a.key].expires_at, now1),
        m[a.key].cas == expected,
        meta_preserved(m[a.key].session.meta, a.meta),
        spec_live(spec_update_cas(m, a, expected, now1).cas[a.key].expires_at, now2),
    ensures
        spec_update_cas(m, a, expected, now1).verdict == CasVerdict::Applied(
            spec_cas_next(expected),
        ),
        ({
            let m1 = spec_update_cas(m, a, expected, now1).cas;
            &&& spec_update_cas(m1, b, expected, now2).verdict == CasVerdict::Conflict(
                spec_cas_next(expected),
            )
            &&& spec_update_cas(m1, b, expected, now2).cas == m1
            &&& spec_get(m1, a.key, now2).found == Some(
                (normalized_at(a, now1), spec_cas_next(expected)),
            )
        }),
{
    let m1 = spec_update_cas(m, a, expected, now1).cas;
    assert(m1[a.key] == stored_entry(a, now1, spec_cas_next(expected)));
    assert(spec_cas_next(expected) != expected);
}

/// Every wait a scope lookup reports points at a session that exists, is
/// live, and whose tenant context matches the caller's fence: the index
/// never hands out a stale or foreign reference.
pub proof fn lemma_scope_lookup_reports_live_match(
    v: StoreV,
    c: TenantCtxV,
    u: Seq<char>,
    sh: Seq<char>,
    now: u64,
    k: Seq<char>,
)
    requires
        spec_find_wait_by_scope(v, c, u, sh, now).found == Some(k),
    ensures
        wait_matches(spec_find_wait_by_scope(v, c, u, sh, now).store, c, u, k, now),
{
}

/// Every session a by-user lookup reports exists, is live, and carries a
/// matching tenant context.
pub proof fn lemma_user_lookup_reports_live_match(
    v: StoreV,
    c: TenantCtxV,
    u: Seq<char>,
    now: u64,
    k: Seq<char>,
    d: SessionDataV,
)
    requires
        spec_find_by_user(v, c, u, now).outcome == FindOutcome::Found(k, d),
    ensures
        wait_matches(spec_find_by_user(v, c, u, now).store, c, u, k, now),
        d == spec_find_by_user(v, c, u, now).store.sessions[k].data,
{
}

/// Sifting a wait set never disturbs a matching session: its record, and
/// hence its verdict, survives every prune the sift performs.
pub proof fn lemma_sift_preserves_match(
    v: StoreV,
    c: TenantCtxV,
    u: Seq<char>,
    keys: Seq<Seq<char>>,
    now: u64,
    k: Seq<char>,
)
    requires
        wait_matches(v, c, u, k, now),
    ensures
        spec_sift_waits(v, c, u, keys, now).store.sessions.contains_key(k),
        spec_sift_waits(v, c, u, keys, now).store.sessions[k] == v.sessions[k],
        wait_matches(spec_sift_waits(v, c, u, keys, now).store, c, u, k, now),
    decreases keys.len(),
{
    if keys.len() > 0 {
        let key = keys[0];
        if wait_matches(v, c, u, key, now) {
            lemma_sift_preserves_match(v, c, u, keys.drop_first(), now, k);
        } else {
            let uk = spec_user_key(c, u);
            let v1 = if v.sessions.contains_key(key) && !spec_live(
                v.sessions[key].expires_at,
                now,
            ) {
                spec_drop_session(v, key)
            } else {
                StoreV { user_waits: spec_purge_wait_user(v.user_waits, Some(uk), key), ..v }
            };
            assert(key != k);
            assert(v1.sessions.contains_key(k) && v1.sessions[k] == v.sessions[k]);
            lemma_sift_preserves_match(v1, c, u, keys.drop_first(), now, k);
        }
    }
}

/// Every key that listing a user's waits reports points, in the store the
/// listing leaves behind, at a session that exists, is live, and carries a
/// matching tenant context.
pub proof fn lemma_sift_reported_waits_match(
    v: StoreV,
    c: TenantCtxV,
    u: Seq<char>,
    keys: Seq<Seq<char>>,
    now: u64,
)
    ensures
        forall|t: int|
            0 <= t < spec_sift_waits(v, c, u, keys, now).kept.len() ==> wait_matches(
                spec_sift_waits(v, c, u, keys, now).store,
                c,
                u,
                #[trigger] spec_sift_waits(v, c, u, keys, now).kept[t],
                now,
            ),
    decreases keys.len(),
{
    if keys.len() > 0 {
        let key = keys[0];
        let st = spec_sift_waits(v, c, u, keys, now);
        if wait_matches(v, c, u, key, now) {
            let s = spec_sift_waits(v, c, u, keys.drop_first(), now);
            lemma_sift_reported_waits_match(v, c, u, keys.drop_first(), now);
            lemma_sift_preserves_match(v, c, u, keys.drop_first(), now, key);
            assert forall|t: int| 0 <= t < st.kept.len() implies wait_matches(
                st.store,
                c,
                u,
                #[trigger] st.kept[t],
                now,
            ) by {
                if t == 0 {
                    assert(st.kept[0] == key);
                } else {
                    assert(st.kept[t] == s.kept[t - 1]);
                }
            }
        } else {
            let uk = spec_user_key(c, u);
            let v1 = if v.sessions.contains_key(key) && !spec_live(
                v.sessions[key].expires_at,
                now,
            ) {
                spec_drop_session(v, key)
            } else {
                StoreV { user_waits: spec_purge_wait_user(v.user_waits, Some(uk), key), ..v }
            };
            lemma_sift_reported_waits_match(v1, c, u, keys.drop_first(), now);
            let s = spec_sift_waits(v1, c, u, keys.drop_first(), now);
            assert forall|t: int| 0 <= t < st.kept.len() implies wait_matches(
                st.store,
                c,
                u,
                #[trigger] st.kept[t],
                now,
            ) by {
                assert(st.kept[t] == s.kept[t]);
            }
        }
    }
}

/// Touching a live record with a longer TTL keeps it alive past its old
/// deadline: a read at any instant before the new deadline still finds it,
/// with its session and token unchanged.
pub proof fn lemma_touch_extends_ttl(
    m: Map<Seq<char>, CasEntryV>,
    key: Seq<char>,
    t: u32,
    now1: u64,
    now2: u64,
)
    requires
        m.contains_key(key),
        spec_live(m[key].expires_at, now1),
        now2 < sat_add_u64(now1, (t * 1000) as u64),
    ensures
        spec_touch(m, key, Some(t), now1).hit,
        spec_get(spec_touch(m, key, Some(t), now1).cas, key, now2).found == Some(
            (m[key].session, m[key].cas),
        ),
{
    let m1 = spec_touch(m, key, Some(t), now1).cas;
    assert(m1[key] == (CasEntryV { expires_at: Some(sat_add_u64(now1, (t * 1000) as u64)), ..m[key] }));
}

} // verus!
