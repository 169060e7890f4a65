//! Redis-backed session store: connection handle, key grammar, and the
//! interpretation of the server-side compare-and-set script's reply.
//!
//! Two layouts share a configurable namespace prefix. The routing layout
//! keeps the JSON session under `NS:session:<key>`, the user wait set under
//! `NS:waits:user:<env>:<tenant>:<team|->:<user>`, and the scope pointer
//! under the same path extended with the scope hash. The strong-consistency
//! layout keeps `{cas, session}` envelopes under `NS:<tenant>:<key>` with a
//! tenant lookup side-index under `NS:lookup:<key>`.
//!
//! The networked operations themselves live with the embedding application;
//! everything they decide with — which key to read, what a script status
//! means — is computed and verified here.

use vstd::prelude::*;

use crate::error::{ErrorCode, GreenticError, SessionResult};
use crate::ids::UserId;
use crate::model::{Cas, SessionKey};
use crate::tenant::{TenantCtx, TenantCtxV, norm_team, opt_text};

verus! {

/// Connection handle type of the redis client crate, carried opaquely.
#[verifier::external_type_specification]
#[verifier::external_body]
pub struct ExRedisClient(redis::Client);

/// Relies on redis::Client::open: parses the connection URL without touching
/// the network; a URL the client cannot parse is reported as `Unavailable`
/// with the client's own message.
#[verifier::external_body]
fn open_client(url: &str) -> (r: Result<redis::Client, GreenticError>)
    ensures
        r is Err ==> r->Err_0.code == ErrorCode::Unavailable,
{
    match redis::Client::open(url) {
        Ok(c) => Ok(c),
        Err(e) => Err(GreenticError { code: ErrorCode::Unavailable, message: e.to_string() }),
    }
}

/// The namespace prefix used when none is configured.
pub open spec fn spec_default_namespace() -> Seq<char> {
    "greentic:session"@
}

/// The primary key of a routing-layout session record.
pub open spec fn spec_session_entry_key(ns: Seq<char>, key: Seq<char>) -> Seq<char> {
    ns + ":session:"@ + key
}

/// The key of a user's wait set: environment, tenant, normalized team (a
/// literal `-` when absent) and user, colon-separated.
pub open spec fn spec_user_lookup_key(ns: Seq<char>, c: TenantCtxV, user: Seq<char>) -> Seq<char> {
    ns + ":waits:user:"@ + c.env + ":"@ + c.tenant + ":"@ + opt_text(norm_team(c)) + ":"@ + user
}

/// The key of the legacy one-entry user mapping: a plain string key, kept
/// apart from the wait set so the two layouts never collide on one user.
pub open spec fn spec_legacy_user_key(ns: Seq<char>, c: TenantCtxV, user: Seq<char>) -> Seq<char> {
    ns + ":user:"@ + c.env + ":"@ + c.tenant + ":"@ + opt_text(norm_team(c)) + ":"@ + user
}

/// The key of a scope pointer: the user path extended with the scope hash.
pub open spec fn spec_scope_lookup_key(
    ns: Seq<char>,
    c: TenantCtxV,
    user: Seq<char>,
    scope_hash: Seq<char>,
) -> Seq<char> {
    ns + ":waits:scope:"@ + c.env + ":"@ + c.tenant + ":"@ + opt_text(norm_team(c)) + ":"@ + user
        + ":"@ + scope_hash
}

/// The primary key of a strong-consistency envelope.
pub open spec fn spec_cas_primary_key(
    ns: Seq<char>,
    tenant: Seq<char>,
    key: Seq<char>,
) -> Seq<char> {
    ns + ":"@ + tenant + ":"@ + key
}

/// The tenant lookup side-key of a strong-consistency record.
pub open spec fn spec_cas_lookup_key(ns: Seq<char>, key: Seq<char>) -> Seq<char> {
    ns + ":lookup:"@ + key
}

/// Redis-backed session store. Constructors accept connection URLs or a
/// prepared client; no networked call is made before an operation runs.
pub struct RedisSessionStore {
    client: redis::Client,
    namespace: String,
}

impl View for RedisSessionStore {
    type V = Seq<char>;

    closed spec fn view(&self) -> Seq<char> {
        self.namespace@
    }
}

impl RedisSessionStore {
    /// Creates a store using the default namespace prefix.
    pub fn new(client: redis::Client) -> (r: Self)
        ensures
            r@ == spec_default_namespace(),
    {
        RedisSessionStore { client, namespace: "greentic:session".to_owned() }
    }

    /// Creates a store with a custom namespace prefix.
    pub fn with_namespace(client: redis::Client, namespace: String) -> (r: Self)
        ensures
            r@ == namespace@,
    {
        RedisSessionStore { client, namespace }
    }

    /// Creates a store from a Redis URL, using the default namespace.
    pub fn from_url(url: &str) -> (r: SessionResult<Self>)
        ensures
            r is Ok ==> r->Ok_0@ == spec_default_namespace(),
            r is Err ==> r->Err_0.code == ErrorCode::Unavailable,
    {
        match open_client(url) {
            Ok(client) => Ok(RedisSessionStore::new(client)),
            Err(e) => Err(e),
        }
    }

    /// Creates a store from a Redis URL with a custom namespace prefix.
    pub fn from_url_with_namespace(url: &str, namespace: String) -> (r: SessionResult<Self>)
        ensures
            r is Ok ==> r->Ok_0@ == namespace@,
            r is Err ==> r->Err_0.code == ErrorCode::Unavailable,
    {
        match open_client(url) {
            Ok(client) => Ok(RedisSessionStore::with_namespace(client, namespace)),
            Err(e) => Err(e),
        }
    }

    /// Borrows the underlying client for the embedding application's
    /// networked operations.
    pub fn client(&self) -> &redis::Client {
        &self.client
    }

    /// Borrows the configured namespace prefix.
    pub fn namespace(&self) -> (r: &str)
        ensures
            r@ == self@,
    {
        self.namespace.as_str()
    }

    /// The primary key of a routing-layout session record.
    pub fn session_entry_key(&self, key: &SessionKey) -> (r: String)
        ensures
            r@ == spec_session_entry_key(self@, key@),
    {
        let mut k = self.namespace.clone();
        k.append(":session:");
        k.append(key.0.as_str());
        k
    }

    /// The key of a user's wait set under the caller's context.
    pub fn user_lookup_key(&self, ctx: &TenantCtx, user: &UserId) -> (r: String)
        ensures
            r@ == spec_user_lookup_key(self@, ctx@, user@),
    {
        let mut k = self.namespace.clone();
        k.append(":waits:user:");
        k.append(ctx.env.0.as_str());
        k.append(":");
        k.append(ctx.tenant_id.0.as_str());
        k.append(":");
        match ctx.normalize_team() {
            Some(t) => {
                k.append(t.0.as_str());
            },
            None => {
                k.append("-");
            },
        }
        k.append(":");
        k.append(user.0.as_str());
        k
    }

    /// The key of the legacy one-entry user mapping under the caller's
    /// context.
    pub fn legacy_user_key(&self, ctx: &TenantCtx, user: &UserId) -> (r: String)
        ensures
            r@ == spec_legacy_user_key(self@, ctx@, user@),
    {
        let mut k = self.namespace.clone();
        k.append(":user:");
        k.append(ctx.env.0.as_str());
        k.append(":");
        k.append(ctx.tenant_id.0.as_str());
        k.append(":");
        match ctx.normalize_team() {
            Some(t) => {
                k.append(t.0.as_str());
            },
            None => {
                k.append("-");
            },
        }
        k.append(":");
        k.append(user.0.as_str());
        k
    }

    /// The key of a scope pointer under the caller's context.
    pub fn scope_lookup_key(&self, ctx: &TenantCtx, user: &UserId, scope_hash: &str) -> (r: String)
        ensures
            r@ == spec_scope_lookup_key(self@, ctx@, user@, scope_hash@),
    {
        let mut k = self.namespace.clone();
        k.append(":waits:scope:");
        k.append(ctx.env.0.as_str());
        k.append(":");
        k.append(ctx.tenant_id.0.as_str());
        k.append(":");
        match ctx.normalize_team() {
            Some(t) => {
                k.append(t.0.as_str());
            },
            None => {
                k.append("-");
            },
        }
        k.append(":");
        k.append(user.0.as_str());
        k.append(":");
        k.append(scope_hash);
        k
    }

    /// The primary key of a strong-consistency envelope.
    pub fn cas_primary_key(&self, tenant: &str, key: &SessionKey) -> (r: String)
        ensures
            r@ == spec_cas_primary_key(self@, tenant@, key@),
    {
        let mut k = self.namespace.clone();
        k.append(":");
        k.append(tenant);
        k.append(":");
        k.append(key.0.as_str());
        k
    }

    /// The tenant lookup side-key of a strong-consistency record.
    pub fn cas_lookup_key(&self, key: &SessionKey) -> (r: String)
        ensures
            r@ == spec_cas_lookup_key(self@, key@),
    {
        let mut k = self.namespace.clone();
        k.append(":lookup:");
        k.append(key.0.as_str());
        k
    }
}

/// The client-side reading of the compare-and-set script's `(status, value)`
/// reply.
#[derive(Debug, PartialEq, Eq, Structural)]
pub enum CasScriptOutcome {
    /// Status 0: no record exists under the key; the lookup side-index is to
    /// be purged.
    Missing,
    /// Status 1: the stored token differs from the expected one; the
    /// current token is carried.
    Conflict(u64),
    /// Status 2: the write was committed; the new token is carried.
    Committed(u64),
}

/// Interprets the two-value reply of the server-side compare-and-set
/// script: `(0, _)` means the record is absent, `(1, current)` a token
/// conflict, `(2, new)` a committed write. Any other status is a protocol
/// violation and surfaces as `Internal`.
pub fn interpret_cas_reply(status: u64, value: u64) -> (r: SessionResult<CasScriptOutcome>)
    ensures
        status == 0 ==> r == Ok::<CasScriptOutcome, GreenticError>(CasScriptOutcome::Missing),
        status == 1 ==> r == Ok::<CasScriptOutcome, GreenticError>(
            CasScriptOutcome::Conflict(value),
        ),
        status == 2 ==> r == Ok::<CasScriptOutcome, GreenticError>(
            CasScriptOutcome::Committed(value),
        ),
        status > 2 ==> r is Err && r->Err_0.code == ErrorCode::Internal,
{
    if status == 0 {
        Ok(CasScriptOutcome::Missing)
    } else if status == 1 {
        Ok(CasScriptOutcome::Conflict(value))
    } else if status == 2 {
        Ok(CasScriptOutcome::Committed(value))
    } else {
        Err(
            GreenticError::new(
                ErrorCode::Internal,
                "unexpected status from the compare-and-set script".to_owned(),
            ),
        )
    }
}

/// The error result an `update_cas` caller sees for each script outcome:
/// absence surfaces as the sentinel token, a conflict as the current token.
pub fn cas_outcome_to_result(outcome: CasScriptOutcome) -> (r: Result<Cas, Cas>)
    ensures
        outcome == CasScriptOutcome::Missing ==> r == Err::<Cas, Cas>(Cas(0)),
        forall|c: u64| outcome == CasScriptOutcome::Conflict(c) ==> r == Err::<Cas, Cas>(Cas(c)),
        forall|c: u64| outcome == CasScriptOutcome::Committed(c) ==> r == Ok::<Cas, Cas>(Cas(c)),
{
    match outcome {
        CasScriptOutcome::Missing => Err(Cas::none()),
        CasScriptOutcome::Conflict(c) => Err(Cas(c)),
        CasScriptOutcome::Committed(c) => Ok(Cas(c)),
    }
}

} // verus!
