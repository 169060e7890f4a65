//! The strong-consistency session record: `Session`, its outbox, and the
//! compare-and-set token.
//!
//! Every write normalizes the record: the outbox keeps the first occurrence
//! of each `(seq, payload_sha256)` pair and drops the rest, preserving order,
//! and `ttl_secs == 0` keeps meaning "never expire".

use vstd::prelude::*;

use crate::runtime::fresh_uuid_text;

verus! {

/// Unique identifier for a session record, rendered as UUID text.
#[derive(Debug)]
pub struct SessionId(pub String);

impl View for SessionId {
    type V = Seq<char>;

    open spec fn view(&self) -> Seq<char> {
        self.0@
    }
}

impl Clone for SessionId {
    fn clone(&self) -> (r: Self)
        ensures
            r@ == self@,
    {
        SessionId(self.0.clone())
    }
}

impl SessionId {
    /// Generates a fresh session identifier.
    pub fn new() -> (r: SessionId)
        ensures
            r@.len() == 36,
    {
        SessionId(fresh_uuid_text())
    }

    /// Borrows the identifier text.
    pub fn as_str(&self) -> (r: &str)
        ensures
            r@ == self@,
    {
        self.0.as_str()
    }
}

impl Default for SessionId {
    fn default() -> (r: Self)
        ensures
            r@.len() == 36,
    {
        SessionId::new()
    }
}

/// Stable primary key of a session, either random or derived from connector
/// event fields.
#[derive(Debug, Hash)]
pub struct SessionKey(pub String);

impl View for SessionKey {
    type V = Seq<char>;

    open spec fn view(&self) -> Seq<char> {
        self.0@
    }
}

impl Clone for SessionKey {
    fn clone(&self) -> (r: Self)
        ensures
            r@ == self@,
    {
        SessionKey(self.0.clone())
    }
}

impl PartialEq for SessionKey {
    fn eq(&self, other: &Self) -> (r: bool) {
        self.0 == other.0
    }
}

impl vstd::std_specs::cmp::PartialEqSpecImpl for SessionKey {
    open spec fn obeys_eq_spec() -> bool {
        true
    }

    open spec fn eq_spec(&self, other: &Self) -> bool {
        self.0@ == other.0@
    }
}

impl Eq for SessionKey {

}

impl SessionKey {
    /// Wraps the provided text as a session key.
    pub fn new(value: String) -> (r: SessionKey)
        ensures
            r@ == value@,
    {
        SessionKey(value)
    }

    /// Borrows the underlying key as `&str`.
    pub fn as_str(&self) -> (r: &str)
        ensures
            r@ == self@,
    {
        self.0.as_str()
    }
}

/// Mathematical image of a resumable cursor.
#[verifier::ext_equal]
pub ghost struct SessionCursorV {
    pub flow_id: Seq<char>,
    pub node_id: Seq<char>,
    pub wait_reason: Option<Seq<char>>,
    pub outbox_seq: u64,
}

/// Cursor tracking where to resume a flow.
#[derive(Debug)]
pub struct SessionCursor {
    /// Flow being executed.
    pub flow_id: String,
    /// Node currently owning the session.
    pub node_id: String,
    /// Optional wait reason emitted by the node.
    pub wait_reason: Option<String>,
    /// Monotonic outbox sequence counter.
    pub outbox_seq: u64,
}

impl View for SessionCursor {
    type V = SessionCursorV;

    open spec fn view(&self) -> SessionCursorV {
        SessionCursorV {
            flow_id: self.flow_id@,
            node_id: self.node_id@,
            wait_reason: crate::tenant::ov(self.wait_reason),
            outbox_seq: self.outbox_seq,
        }
    }
}

/// Clones an optional string, preserving its text.
pub(crate) fn clone_opt_string(o: &Option<String>) -> (r: Option<String>)
    ensures
        crate::tenant::ov(r) == crate::tenant::ov(*o),
{
    match o {
        Some(s) => Some(s.clone()),
        None => None,
    }
}

impl Clone for SessionCursor {
    fn clone(&self) -> (r: Self)
        ensures
            r@ == self@,
    {
        SessionCursor {
            flow_id: self.flow_id.clone(),
            node_id: self.node_id.clone(),
            wait_reason: clone_opt_string(&self.wait_reason),
            outbox_seq: self.outbox_seq,
        }
    }
}

/// Mathematical image of an outbox entry.
#[verifier::ext_equal]
pub ghost struct OutboxEntryV {
    pub seq: u64,
    pub payload: Seq<u8>,
    pub created_at: u64,
}

/// One effect produced by a flow, deduplicated by `(seq, payload hash)`.
#[derive(Clone, Copy, Debug, PartialEq, Eq)]
pub struct OutboxEntry {
    /// Sequence number assigned by the flow.
    pub seq: u64,
    /// SHA-256 digest of the effect payload.
    pub payload_sha256: [u8; 32],
    /// Creation instant, milliseconds since the Unix epoch.
    pub created_at: u64,
}

impl View for OutboxEntry {
    type V = OutboxEntryV;

    open spec fn view(&self) -> OutboxEntryV {
        OutboxEntryV { seq: self.seq, payload: self.payload_sha256@, created_at: self.created_at }
    }
}

/// Mathematical image of session metadata.
#[verifier::ext_equal]
pub ghost struct SessionMetaV {
    pub tenant_id: Seq<char>,
    pub team_id: Option<Seq<char>>,
    pub user_id: Option<Seq<char>>,
}

/// Tenant metadata embedded in a strong-consistency session record.
#[derive(Debug)]
pub struct SessionMeta {
    /// Owning tenant.
    pub tenant_id: String,
    /// Optional owning team.
    pub team_id: Option<String>,
    /// Optional owning user.
    pub user_id: Option<String>,
}

impl View for SessionMeta {
    type V = SessionMetaV;

    open spec fn view(&self) -> SessionMetaV {
        SessionMetaV {
            tenant_id: self.tenant_id@,
            team_id: crate::tenant::ov(self.team_id),
            user_id: crate::tenant::ov(self.user_id),
        }
    }
}

impl Clone for SessionMeta {
    fn clone(&self) -> (r: Self)
        ensures
            r@ == self@,
    {
        SessionMeta {
            tenant_id: self.tenant_id.clone(),
            team_id: clone_opt_string(&self.team_id),
            user_id: clone_opt_string(&self.user_id),
        }
    }
}

/// Mathematical image of a session record.
#[verifier::ext_equal]
pub ghost struct SessionV {
    pub id: Seq<char>,
    pub key: Seq<char>,
    pub cursor: SessionCursorV,
    pub meta: SessionMetaV,
    pub outbox: Seq<OutboxEntryV>,
    pub updated_at: u64,
    pub ttl_secs: u32,
}

/// The views of a sequence of outbox entries.
pub open spec fn outbox_views(s: Seq<OutboxEntry>) -> Seq<OutboxEntryV> {
    Seq::new(s.len(), |i: int| s[i]@)
}

/// A durable snapshot of an in-flight flow.
#[derive(Debug)]
pub struct Session {
    /// Unique record identifier.
    pub id: SessionId,
    /// Primary key used for routing.
    pub key: SessionKey,
    /// Resumable position in the flow graph.
    pub cursor: SessionCursor,
    /// Tenant metadata fencing every write.
    pub meta: SessionMeta,
    /// Effects to apply on resume, first-wins deduplicated.
    pub outbox: Vec<OutboxEntry>,
    /// Last write instant, milliseconds since the Unix epoch.
    pub updated_at: u64,
    /// Seconds until expiry; zero means "never expire".
    pub ttl_secs: u32,
}

impl View for Session {
    type V = SessionV;

    open spec fn view(&self) -> SessionV {
        SessionV {
            id: self.id@,
            key: self.key@,
            cursor: self.cursor@,
            meta: self.meta@,
            outbox: outbox_views(self.outbox@),
            updated_at: self.updated_at,
            ttl_secs: self.ttl_secs,
        }
    }
}

impl Clone for Session {
    fn clone(&self) -> (r: Self)
        ensures
            r@ == self@,
    {
        let mut outbox: Vec<OutboxEntry> = Vec::new();
        let n = self.outbox.len();
        let mut i: usize = 0;
        while i < n
            invariant
                i <= n,
                n == self.outbox.len(),
                outbox@.len() == i as int,
                forall|t: int| 0 <= t < i ==> outbox@[t] == self.outbox@[t],
            decreases n - i,
        {
            outbox.push(self.outbox[i]);
            i += 1;
        }
        let r = Session {
            id: self.id.clone(),
            key: self.key.clone(),
            cursor: self.cursor.clone(),
            meta: self.meta.clone(),
            outbox,
            updated_at: self.updated_at,
            ttl_secs: self.ttl_secs,
        };
        proof {
            assert(outbox_views(r.outbox@) =~= outbox_views(self.outbox@));
            assert(r@ =~= self@);
        }
        r
    }
}

/// The identity of an outbox entry for deduplication purposes.
pub open spec fn entry_key(e: OutboxEntryV) -> (u64, Seq<u8>) {
    (e.seq, e.payload)
}

/// Whether some entry in the sequence carries the given identity.
pub open spec fn outbox_has_key(s: Seq<OutboxEntryV>, k: (u64, Seq<u8>)) -> bool {
    exists|i: int| 0 <= i < s.len() && entry_key(s[i]) == k
}

/// First-wins deduplication by `(seq, payload hash)`, preserving order.
pub open spec fn dedupe(s: Seq<OutboxEntryV>) -> Seq<OutboxEntryV>
    decreases s.len(),
{
    if s.len() == 0 {
        Seq::empty()
    } else {
        let prev = dedupe(s.drop_last());
        if outbox_has_key(prev, entry_key(s.last())) {
            prev
        } else {
            prev.push(s.last())
        }
    }
}

/// No two entries of the sequence share an identity.
pub open spec fn outbox_nodups(s: Seq<OutboxEntryV>) -> bool {
    forall|i: int, j: int|
        0 <= i < j < s.len() ==> entry_key(s[i]) != entry_key(s[j])
}

/// Deduplication keeps exactly the identities of the input: no effect is
/// lost and none is invented.
pub proof fn lemma_dedupe_same_keys(s: Seq<OutboxEntryV>, k: (u64, Seq<u8>))
    ensures
        outbox_has_key(dedupe(s), k) <==> outbox_has_key(s, k),
    decreases s.len(),
{
    if s.len() > 0 {
        let t = s.drop_last();
        lemma_dedupe_same_keys(t, k);
        if outbox_has_key(t, k) {
            let i = choose|i: int| 0 <= i < t.len() && entry_key(t[i]) == k;
            assert(s[i] == t[i]);
            assert(outbox_has_key(s, k));
        }
        if entry_key(s.last()) == k {
            assert(entry_key(s[s.len() - 1]) == k);
            assert(outbox_has_key(s, k));
        }
        if outbox_has_key(s, k) {
            let i = choose|i: int| 0 <= i < s.len() && entry_key(s[i]) == k;
            if i < s.len() - 1 {
                assert(t[i] == s[i]);
                assert(outbox_has_key(t, k));
            } else {
                assert(entry_key(s.last()) == k);
            }
            let prev = dedupe(t);
            if outbox_has_key(prev, entry_key(s.last())) {
                assert(dedupe(s) == prev);
                assert(outbox_has_key(dedupe(s), k));
            } else {
                assert(dedupe(s) == prev.push(s.last()));
                if outbox_has_key(prev, k) {
                    let j = choose|j: int| 0 <= j < prev.len() && entry_key(prev[j]) == k;
                    assert(prev.push(s.last())[j] == prev[j]);
                    assert(outbox_has_key(dedupe(s), k));
                } else {
                    assert(entry_key(s.last()) == k);
                    assert(prev.push(s.last())[prev.len() as int] == s.last());
                    assert(outbox_has_key(dedupe(s), k));
                }
            }
        }
        if outbox_has_key(dedupe(s), k) {
            let prev = dedupe(t);
            let i = choose|i: int| 0 <= i < dedupe(s).len() && entry_key(dedupe(s)[i]) == k;
            if outbox_has_key(prev, entry_key(s.last())) {
                assert(outbox_has_key(prev, k));
            } else {
                if i < prev.len() {
                    assert(prev.push(s.last())[i] == prev[i]);
                    assert(outbox_has_key(prev, k));
                } else {
                    assert(prev.push(s.last())[i] == s.last());
                    assert(entry_key(s.last()) == k);
                    assert(outbox_has_key(s, k));
                }
            }
        }
    }
}

/// The deduplicated outbox has no duplicate identities.
pub proof fn lemma_dedupe_nodups(s: Seq<OutboxEntryV>)
    ensures
        outbox_nodups(dedupe(s)),
    decreases s.len(),
{
    if s.len() > 0 {
        let t = s.drop_last();
        lemma_dedupe_nodups(t);
        let prev = dedupe(t);
        if !outbox_has_key(prev, entry_key(s.last())) {
            let d = prev.push(s.last());
            assert forall|i: int, j: int| 0 <= i < j < d.len() implies entry_key(d[i])
                != entry_key(d[j]) by {
                if j < prev.len() {
                    assert(d[i] == prev[i] && d[j] == prev[j]);
                } else {
                    assert(d[j] == s.last());
                    assert(d[i] == prev[i]);
                    assert(!outbox_has_key(prev, entry_key(s.last())));
                    if entry_key(prev[i]) == entry_key(s.last()) {
                        assert(outbox_has_key(prev, entry_key(s.last())));
                    }
                }
            }
        }
    }
}

/// Deduplicating a sequence without duplicates leaves it unchanged.
pub proof fn lemma_dedupe_of_nodups(s: Seq<OutboxEntryV>)
    requires
        outbox_nodups(s),
    ensures
        dedupe(s) == s,
    decreases s.len(),
{
    if s.len() == 0 {
        assert(dedupe(s) =~= s);
    } else {
        let t = s.drop_last();
        assert(outbox_nodups(t)) by {
            assert forall|i: int, j: int| 0 <= i < j < t.len() implies entry_key(t[i])
                != entry_key(t[j]) by {
                assert(t[i] == s[i] && t[j] == s[j]);
            }
        }
        lemma_dedupe_of_nodups(t);
        assert(!outbox_has_key(t, entry_key(s.last()))) by {
            if outbox_has_key(t, entry_key(s.last())) {
                let i = choose|i: int| 0 <= i < t.len() && entry_key(t[i]) == entry_key(s.last());
                assert(entry_key(s[i]) == entry_key(s[s.len() - 1]));
            }
        }
        assert(dedupe(s) == t.push(s.last()));
        assert(t.push(s.last()) =~= s);
    }
}

/// Whether index `j` is the first occurrence of its identity in the
/// sequence.
pub open spec fn is_first_occurrence(s: Seq<OutboxEntryV>, j: int) -> bool {
    &&& 0 <= j < s.len()
    &&& forall|t: int| 0 <= t < j ==> entry_key(s[t]) != entry_key(s[j])
}

/// The deduplicated outbox consists of exactly the input's first
/// occurrences: every kept entry is the first of its identity, and every
/// first occurrence is kept.
pub proof fn lemma_dedupe_first_occurrences(s: Seq<OutboxEntryV>)
    ensures
        forall|i: int|
            0 <= i < dedupe(s).len() ==> exists|j: int|
                is_first_occurrence(s, j) && s[j] == #[trigger] dedupe(s)[i],
        forall|j: int| #[trigger] is_first_occurrence(s, j) ==> dedupe(s).contains(s[j]),
    decreases s.len(),
{
    if s.len() > 0 {
        let t = s.drop_last();
        lemma_dedupe_first_occurrences(t);
        let prev = dedupe(t);
        let d = dedupe(s);
        assert forall|i: int| 0 <= i < d.len() implies exists|j: int|
            is_first_occurrence(s, j) && s[j] == #[trigger] d[i] by {
            if i < prev.len() {
                assert(prev[i] == d[i]);
                let j = choose|j: int| is_first_occurrence(t, j) && t[j] == prev[i];
                assert(t[j] == s[j]);
                assert forall|u: int| 0 <= u < j implies entry_key(s[u]) != entry_key(s[j]) by {
                    assert(s[u] == t[u]);
                }
                assert(is_first_occurrence(s, j) && s[j] == d[i]);
                assert(exists|w: int| is_first_occurrence(s, w) && s[w] == d[i]);
            } else {
                assert(d[i] == s.last());
                assert(!outbox_has_key(prev, entry_key(s.last())));
                lemma_dedupe_same_keys(t, entry_key(s.last()));
                let j = s.len() - 1;
                assert forall|u: int| 0 <= u < j implies entry_key(s[u]) != entry_key(s[j]) by {
                    assert(s[u] == t[u]);
                    if entry_key(t[u]) == entry_key(s.last()) {
                        assert(outbox_has_key(t, entry_key(s.last())));
                    }
                }
                assert(is_first_occurrence(s, j) && s[j] == d[i]);
                assert(exists|w: int| is_first_occurrence(s, w) && s[w] == d[i]);
            }
        }
        assert forall|j: int| #[trigger] is_first_occurrence(s, j) implies d.contains(s[j]) by {
            if j < s.len() - 1 {
                assert(t[j] == s[j]);
                assert forall|u: int| 0 <= u < j implies entry_key(t[u]) != entry_key(t[j]) by {
                    assert(s[u] == t[u]);
                }
                assert(is_first_occurrence(t, j));
                assert(prev.contains(t[j]));
                let i = choose|i: int| 0 <= i < prev.len() && prev[i] == t[j];
                if outbox_has_key(prev, entry_key(s.last())) {
                    assert(d[i] == t[j]);
                } else {
                    assert(d[i] == prev[i]);
                }
                assert(d.contains(s[j]));
            } else {
                assert(!outbox_has_key(t, entry_key(s.last()))) by {
                    if outbox_has_key(t, entry_key(s.last())) {
                        let u = choose|u: int|
                            0 <= u < t.len() && entry_key(t[u]) == entry_key(s.last());
                        assert(entry_key(s[u]) == entry_key(s[j]));
                    }
                }
                lemma_dedupe_same_keys(t, entry_key(s.last()));
                assert(d == prev.push(s.last()));
                assert(d[prev.len() as int] == s.last());
                assert(d.contains(s[j]));
            }
        }
    }
}

/// Normalization is idempotent: deduplicating twice equals deduplicating
/// once.
pub proof fn lemma_dedupe_idempotent(s: Seq<OutboxEntryV>)
    ensures
        dedupe(dedupe(s)) == dedupe(s),
{
    lemma_dedupe_nodups(s);
    lemma_dedupe_of_nodups(dedupe(s));
}

/// Compares two 32-byte digests.
pub(crate) fn bytes32_eq(a: &[u8; 32], b: &[u8; 32]) -> (r: bool)
    ensures
        r == (a@ == b@),
{
    let mut i: usize = 0;
    while i < 32
        invariant
            i <= 32,
            forall|t: int| 0 <= t < i ==> a@[t] == b@[t],
        decreases 32 - i,
    {
        if a[i] != b[i] {
            return false;
        }
        i += 1;
    }
    proof {
        assert(a@ =~= b@);
    }
    true
}

/// Whether some entry of the vector carries the given identity.
fn outbox_vec_has_key(v: &Vec<OutboxEntry>, seq_no: u64, payload: &[u8; 32]) -> (r: bool)
    ensures
        r == outbox_has_key(outbox_views(v@), (seq_no, payload@)),
{
    let n = v.len();
    let mut j: usize = 0;
    while j < n
        invariant
            j <= n,
            n == v@.len(),
            forall|t: int| 0 <= t < j ==> entry_key(outbox_views(v@)[t]) != (seq_no, payload@),
        decreases n - j,
    {
        if v[j].seq == seq_no && bytes32_eq(&v[j].payload_sha256, payload) {
            proof {
                assert(entry_key(outbox_views(v@)[j as int]) == (seq_no, payload@));
            }
            return true;
        }
        proof {
            assert(entry_key(outbox_views(v@)[j as int]) != (seq_no, payload@));
        }
        j += 1;
    }
    false
}

/// Saturating addition on `u64`.
pub open spec fn sat_add_u64(a: u64, b: u64) -> u64 {
    if a + b > u64::MAX {
        u64::MAX
    } else {
        (a + b) as u64
    }
}

/// The expiry deadline of a session: `updated_at + ttl_secs`, or none when
/// the TTL is zero.
pub open spec fn spec_expires_at(s: SessionV) -> Option<u64> {
    if s.ttl_secs == 0 {
        None
    } else {
        Some(sat_add_u64(s.updated_at, (s.ttl_secs * 1000) as u64))
    }
}

impl Session {
    /// Returns the tenant identifier for convenience.
    pub fn tenant_id(&self) -> (r: &str)
        ensures
            r@ == self@.meta.tenant_id,
    {
        self.meta.tenant_id.as_str()
    }

    /// Deduplicates the outbox by `(seq, payload_sha256)` while maintaining
    /// first-wins ordering.
    pub fn dedupe_outbox(&mut self)
        ensures
            final(self)@ == (SessionV { outbox: dedupe(old(self)@.outbox), ..old(self)@ }),
    {
        let mut result: Vec<OutboxEntry> = Vec::new();
        let n = self.outbox.len();
        let mut i: usize = 0;
        proof {
            assert(outbox_views(self.outbox@).take(0) =~= Seq::<OutboxEntryV>::empty());
        }
        while i < n
            invariant
                i <= n,
                *self == *old(self),
                n == self.outbox@.len(),
                outbox_views(result@) == dedupe(outbox_views(self.outbox@).take(i as int)),
            decreases n - i,
        {
            let ghost pre = outbox_views(self.outbox@).take(i as int);
            let ghost full = outbox_views(self.outbox@);
            let e = self.outbox[i];
            proof {
                assert(full.take(i + 1).drop_last() =~= pre);
                assert(full.take(i + 1).last() == e@);
            }
            if !outbox_vec_has_key(&result, e.seq, &e.payload_sha256) {
                result.push(e);
                proof {
                    assert(outbox_views(result@) =~= dedupe(pre).push(e@));
                }
            }
            i += 1;
        }
        proof {
            assert(outbox_views(self.outbox@).take(n as int) =~= outbox_views(self.outbox@));
        }
        self.outbox = result;
        proof {
            assert(final(self)@ =~= SessionV { outbox: dedupe(old(self)@.outbox), ..old(self)@ });
        }
    }

    /// Applies in-place cleanup: outbox deduplication and TTL normalization
    /// (a zero TTL stays zero, meaning "never expire").
    pub fn normalize(&mut self)
        ensures
            final(self)@ == (SessionV { outbox: dedupe(old(self)@.outbox), ..old(self)@ }),
    {
        self.dedupe_outbox();
    }

    /// Returns the computed expiry deadline based on `updated_at` plus
    /// `ttl_secs`, or `None` when the record never expires.
    pub fn expires_at(&self) -> (r: Option<u64>)
        ensures
            r == spec_expires_at(self@),
    {
        if self.ttl_secs == 0 {
            return None;
        }
        let ttl_ms: u64 = (self.ttl_secs as u64) * 1000;
        Some(self.updated_at.saturating_add(ttl_ms))
    }
}

/// Compare-and-set token; increments on each successful write.
#[derive(Clone, Copy, Debug, PartialEq, Eq, Structural)]
pub struct Cas(pub u64);

impl Cas {
    /// Initial token assigned to newly created records.
    pub fn initial() -> (r: Cas)
        ensures
            r.0 == 1,
    {
        Cas(1)
    }

    /// Sentinel token reported when the record is absent.
    pub fn none() -> (r: Cas)
        ensures
            r.0 == 0,
    {
        Cas(0)
    }

    /// Returns the raw counter.
    pub fn value(self) -> (r: u64)
        ensures
            r == self.0,
    {
        self.0
    }

    /// Produces the next token, wrapping at the numeric limit.
    pub fn next(self) -> (r: Cas)
        ensures
            r.0 == spec_cas_next(self.0),
    {
        if self.0 == u64::MAX {
            Cas(0)
        } else {
            Cas(self.0 + 1)
        }
    }
}

/// The successor of a CAS counter, wrapping at the numeric limit.
pub open spec fn spec_cas_next(c: u64) -> u64 {
    if c == u64::MAX {
        0
    } else {
        (c + 1) as u64
    }
}

/// Compares two optional strings by text.
pub(crate) fn opt_string_eq(a: &Option<String>, b: &Option<String>) -> (r: bool)
    ensures
        r == (crate::tenant::ov(*a) == crate::tenant::ov(*b)),
{
    match (a, b) {
        (None, None) => true,
        (Some(x), Some(y)) => x.eq(y),
        _ => false,
    }
}

/// Whether a write keeps the immutable tenant metadata of a stored record:
/// tenant, team and user can neither change nor appear nor disappear.
pub open spec fn meta_preserved(existing: SessionMetaV, candidate: SessionMetaV) -> bool {
    &&& existing.tenant_id == candidate.tenant_id
    &&& existing.team_id == candidate.team_id
    &&& existing.user_id == candidate.user_id
}

/// The reason text reported when `meta_preserved` fails.
pub open spec fn meta_fail_reason(existing: SessionMetaV, candidate: SessionMetaV) -> Seq<char> {
    if existing.tenant_id != candidate.tenant_id {
        "tenant cannot change for an existing session"@
    } else if existing.team_id != candidate.team_id {
        "team cannot change for an existing session"@
    } else {
        "user cannot change for an existing session"@
    }
}

/// Checks metadata immutability for a conditional write replacing
/// `existing` with `candidate`. Returns `Ok` exactly when nothing of the
/// tenant metadata changes; the error names what the write tried to change.
pub(crate) fn ensure_meta_preserved(existing: &SessionMeta, candidate: &SessionMeta) -> (r:
    crate::error::SessionResult<()>)
    ensures
        r is Ok <==> meta_preserved(existing@, candidate@),
        r is Err ==> r->Err_0.code == crate::error::ErrorCode::InvalidInput,
        r is Err ==> r->Err_0.message@ == meta_fail_reason(existing@, candidate@),
{
    if !existing.tenant_id.eq(&candidate.tenant_id) {
        return Err(
            crate::error::invalid_argument(
                "tenant cannot change for an existing session".to_owned(),
            ),
        );
    }
    if !opt_string_eq(&existing.team_id, &candidate.team_id) {
        return Err(
            crate::error::invalid_argument("team cannot change for an existing session".to_owned()),
        );
    }
    if !opt_string_eq(&existing.user_id, &candidate.user_id) {
        return Err(
            crate::error::invalid_argument("user cannot change for an existing session".to_owned()),
        );
    }
    Ok(())
}

/// Mathematical image of a stored strong-consistency entry.
#[verifier::ext_equal]
pub ghost struct CasEntryV {
    pub session: SessionV,
    pub cas: u64,
    pub expires_at: Option<u64>,
}

/// A stored strong-consistency record: the session, its current token, and
/// its expiry deadline.
pub struct CasEntry {
    pub session: Session,
    pub cas: u64,
    pub expires_at: Option<u64>,
}

impl View for CasEntry {
    type V = CasEntryV;

    open spec fn view(&self) -> CasEntryV {
        CasEntryV { session: self.session@, cas: self.cas, expires_at: self.expires_at }
    }
}

} // verus!
