//! Tenant context: the authorization fence carried on every store call.
//!
//! A context names an environment and tenant, plus optional team and user.
//! Team and user each have a primary and a legacy slot; the *normalized*
//! accessor prefers the primary slot and falls back to the legacy one.
//! Equality of contexts, for fencing purposes, is defined on the normalized
//! projection.

use vstd::prelude::*;

use crate::error::{ErrorCode, GreenticError, SessionResult, invalid_argument};
use crate::ids::{EnvId, TeamId, TenantId, UserId};

verus! {

/// Mathematical image of a [`TenantCtx`]: every identifier as its text.
#[verifier::ext_equal]
pub ghost struct TenantCtxV {
    pub env: Seq<char>,
    pub tenant: Seq<char>,
    pub team: Option<Seq<char>>,
    pub team_id: Option<Seq<char>>,
    pub user: Option<Seq<char>>,
    pub user_id: Option<Seq<char>>,
}

/// The view of an optional identifier: the text when present.
pub open spec fn ov<T: View>(o: Option<T>) -> Option<T::V> {
    match o {
        Some(v) => Some(v@),
        None => None,
    }
}

/// Tenant context accompanying every call into a session store.
#[derive(Debug)]
pub struct TenantCtx {
    /// Environment scope.
    pub env: EnvId,
    /// Tenant identifier.
    pub tenant_id: TenantId,
    /// Legacy team slot.
    pub team: Option<TeamId>,
    /// Primary team slot.
    pub team_id: Option<TeamId>,
    /// Legacy user slot.
    pub user: Option<UserId>,
    /// Primary user slot.
    pub user_id: Option<UserId>,
}

impl View for TenantCtx {
    type V = TenantCtxV;

    open spec fn view(&self) -> TenantCtxV {
        TenantCtxV {
            env: self.env@,
            tenant: self.tenant_id@,
            team: ov(self.team),
            team_id: ov(self.team_id),
            user: ov(self.user),
            user_id: ov(self.user_id),
        }
    }
}

/// The normalized team of a context: the primary slot, else the legacy one.
pub open spec fn norm_team(c: TenantCtxV) -> Option<Seq<char>> {
    if c.team_id is Some {
        c.team_id
    } else {
        c.team
    }
}

/// The normalized user of a context: the primary slot, else the legacy one.
pub open spec fn norm_user(c: TenantCtxV) -> Option<Seq<char>> {
    if c.user_id is Some {
        c.user_id
    } else {
        c.user
    }
}

impl Clone for TenantCtx {
    fn clone(&self) -> (r: Self)
        ensures
            r@ == self@,
    {
        TenantCtx {
            env: self.env.clone(),
            tenant_id: self.tenant_id.clone(),
            team: clone_opt_team(&self.team),
            team_id: clone_opt_team(&self.team_id),
            user: clone_opt_user(&self.user),
            user_id: clone_opt_user(&self.user_id),
        }
    }
}

/// Clones an optional team identifier, preserving its text.
pub(crate) fn clone_opt_team(o: &Option<TeamId>) -> (r: Option<TeamId>)
    ensures
        ov(r) == ov(*o),
{
    match o {
        Some(t) => Some(t.clone()),
        None => None,
    }
}

/// Clones an optional user identifier, preserving its text.
pub(crate) fn clone_opt_user(o: &Option<UserId>) -> (r: Option<UserId>)
    ensures
        ov(r) == ov(*o),
{
    match o {
        Some(u) => Some(u.clone()),
        None => None,
    }
}

impl TenantCtx {
    /// Creates a context for the given environment and tenant, with no team
    /// and no user.
    pub fn new(env: EnvId, tenant: TenantId) -> (r: TenantCtx)
        ensures
            r@.env == env@,
            r@.tenant == tenant@,
            r@.team is None,
            r@.team_id is None,
            r@.user is None,
            r@.user_id is None,
    {
        TenantCtx { env, tenant_id: tenant, team: None, team_id: None, user: None, user_id: None }
    }

    /// Sets the team, keeping the primary and legacy slots aligned.
    pub fn with_team(self, team: Option<TeamId>) -> (r: TenantCtx)
        ensures
            r@.env == self@.env,
            r@.tenant == self@.tenant,
            r@.team == ov(team),
            r@.team_id == ov(team),
            r@.user == self@.user,
            r@.user_id == self@.user_id,
    {
        let legacy = clone_opt_team(&team);
        TenantCtx { team: legacy, team_id: team, ..self }
    }

    /// Sets the user, keeping the primary and legacy slots aligned.
    pub fn with_user(self, user: Option<UserId>) -> (r: TenantCtx)
        ensures
            r@.env == self@.env,
            r@.tenant == self@.tenant,
            r@.team == self@.team,
            r@.team_id == self@.team_id,
            r@.user == ov(user),
            r@.user_id == ov(user),
    {
        let legacy = clone_opt_user(&user);
        TenantCtx { user: legacy, user_id: user, ..self }
    }

    /// The normalized team: the primary slot when set, else the legacy slot.
    pub fn normalize_team(&self) -> (r: Option<&TeamId>)
        ensures
            ov(r) == norm_team(self@),
    {
        match &self.team_id {
            Some(t) => Some(t),
            None => self.team.as_ref(),
        }
    }

    /// The normalized user: the primary slot when set, else the legacy slot.
    pub fn normalize_user(&self) -> (r: Option<&UserId>)
        ensures
            ov(r) == norm_user(self@),
    {
        match &self.user_id {
            Some(u) => Some(u),
            None => self.user.as_ref(),
        }
    }
}

/// Whether a caller context may write a record stored under `stored`:
/// environment, tenant and normalized team must agree, and when the stored
/// context names a user the caller must name the same user.
pub open spec fn aligned(ctx: TenantCtxV, stored: TenantCtxV) -> bool {
    &&& ctx.env == stored.env
    &&& ctx.tenant == stored.tenant
    &&& norm_team(ctx) == norm_team(stored)
    &&& (norm_user(stored) is Some ==> norm_user(ctx) == norm_user(stored))
}

/// Whether an update may replace the context `existing` with `candidate`:
/// nothing of the normalized projection may change, and a user can neither be
/// introduced nor removed nor replaced.
pub open spec fn preserved(existing: TenantCtxV, candidate: TenantCtxV) -> bool {
    &&& existing.env == candidate.env
    &&& existing.tenant == candidate.tenant
    &&& norm_team(existing) == norm_team(candidate)
    &&& norm_user(existing) == norm_user(candidate)
}

/// The `-` placeholder used for an absent team or user in messages and keys.
pub open spec fn opt_text(o: Option<Seq<char>>) -> Seq<char> {
    match o {
        Some(s) => s,
        None => "-"@,
    }
}

/// The diagnostic message reported for a tenant-context mismatch.
pub open spec fn mismatch_message(
    reason: Seq<char>,
    expected: TenantCtxV,
    provided: TenantCtxV,
) -> Seq<char> {
    "tenant context mismatch ("@ + reason + "): expected env="@ + expected.env + ", tenant="@
        + expected.tenant + ", team="@ + opt_text(norm_team(expected)) + ", user="@ + opt_text(
        norm_user(expected),
    ) + ", got env="@ + provided.env + ", tenant="@ + provided.tenant + ", team="@ + opt_text(
        norm_team(provided),
    ) + ", user="@ + opt_text(norm_user(provided))
}

/// The normalized team as message text, `-` when absent.
fn team_text(ctx: &TenantCtx) -> (r: &str)
    ensures
        r@ == opt_text(norm_team(ctx@)),
{
    match ctx.normalize_team() {
        Some(t) => t.as_str(),
        None => "-",
    }
}

/// The normalized user as message text, `-` when absent.
fn user_text(ctx: &TenantCtx) -> (r: &str)
    ensures
        r@ == opt_text(norm_user(ctx@)),
{
    match ctx.normalize_user() {
        Some(u) => u.as_str(),
        None => "-",
    }
}

/// Builds the `InvalidInput` error naming a context mismatch, listing the
/// expected (stored) context against the provided one.
pub(crate) fn ctx_mismatch(
    expected: &TenantCtx,
    provided: &TenantCtx,
    reason: &str,
) -> (r: GreenticError)
    ensures
        r.code == ErrorCode::InvalidInput,
        r.message@ == mismatch_message(reason@, expected@, provided@),
{
    let mut m = "tenant context mismatch (".to_owned();
    m.append(reason);
    m.append("): expected env=");
    m.append(expected.env.as_str());
    m.append(", tenant=");
    m.append(expected.tenant_id.as_str());
    m.append(", team=");
    m.append(team_text(expected));
    m.append(", user=");
    m.append(user_text(expected));
    m.append(", got env=");
    m.append(provided.env.as_str());
    m.append(", tenant=");
    m.append(provided.tenant_id.as_str());
    m.append(", team=");
    m.append(team_text(provided));
    m.append(", user=");
    m.append(user_text(provided));
    invalid_argument(m)
}

/// Compares two optional team identifiers by text.
pub(crate) fn opt_team_eq(a: Option<&TeamId>, b: Option<&TeamId>) -> (r: bool)
    ensures
        r == (ov(a) == ov(b)),
{
    match (a, b) {
        (None, None) => true,
        (Some(x), Some(y)) => x.0 == y.0,
        _ => false,
    }
}

/// Compares two optional user identifiers by text.
pub(crate) fn opt_user_eq(a: Option<&UserId>, b: Option<&UserId>) -> (r: bool)
    ensures
        r == (ov(a) == ov(b)),
{
    match (a, b) {
        (None, None) => true,
        (Some(x), Some(y)) => x.0 == y.0,
        _ => false,
    }
}

/// The reason text reported when `aligned` fails.
pub open spec fn align_fail_reason(ctx: TenantCtxV, stored: TenantCtxV) -> Seq<char> {
    if ctx.env != stored.env || ctx.tenant != stored.tenant {
        "env/tenant must match"@
    } else if norm_team(ctx) != norm_team(stored) {
        "team must match"@
    } else if norm_user(ctx) is None {
        "user required by session but missing in caller context"@
    } else {
        "user must match stored session"@
    }
}

/// Checks the tenant fence for a write of data stored under `stored` by a
/// caller presenting `ctx`. Returns `Ok` exactly when the two align; the
/// error names the first mismatched field.
pub fn ensure_alignment(ctx: &TenantCtx, stored: &TenantCtx) -> (r: SessionResult<()>)
    ensures
        r is Ok <==> aligned(ctx@, stored@),
        r is Err ==> r->Err_0.code == ErrorCode::InvalidInput,
        r is Err ==> r->Err_0.message@ == mismatch_message(
            align_fail_reason(ctx@, stored@),
            stored@,
            ctx@,
        ),
{
    if !(ctx.env.0 == stored.env.0) || !(ctx.tenant_id.0 == stored.tenant_id.0) {
        return Err(ctx_mismatch(stored, ctx, "env/tenant must match"));
    }
    if !opt_team_eq(ctx.normalize_team(), stored.normalize_team()) {
        return Err(ctx_mismatch(stored, ctx, "team must match"));
    }
    if let Some(stored_user) = stored.normalize_user() {
        let provided = ctx.normalize_user();
        match provided {
            None => {
                return Err(
                    ctx_mismatch(
                        stored,
                        ctx,
                        "user required by session but missing in caller context",
                    ),
                );
            },
            Some(provided_user) => {
                if !(stored_user.0 == provided_user.0) {
                    return Err(ctx_mismatch(stored, ctx, "user must match stored session"));
                }
            },
        }
    }
    Ok(())
}

/// The reason text reported when `preserved` fails.
pub open spec fn preserve_fail_reason(existing: TenantCtxV, candidate: TenantCtxV) -> Seq<char> {
    if existing.env != candidate.env || existing.tenant != candidate.tenant {
        "env/tenant cannot change for an existing session"@
    } else if norm_team(existing) != norm_team(candidate) {
        "team cannot change for an existing session"@
    } else if norm_user(existing) is Some {
        "user cannot change for an existing session"@
    } else {
        "user cannot be introduced when none was stored"@
    }
}

/// Checks context immutability for an update replacing `existing` with
/// `candidate`. Returns `Ok` exactly when the normalized projection is
/// unchanged; the error names what the update tried to change.
pub fn ensure_ctx_preserved(existing: &TenantCtx, candidate: &TenantCtx) -> (r: SessionResult<()>)
    ensures
        r is Ok <==> preserved(existing@, candidate@),
        r is Err ==> r->Err_0.code == ErrorCode::InvalidInput,
        r is Err ==> r->Err_0.message@ == mismatch_message(
            preserve_fail_reason(existing@, candidate@),
            existing@,
            candidate@,
        ),
{
    if !(existing.env.0 == candidate.env.0) || !(existing.tenant_id.0 == candidate.tenant_id.0) {
        return Err(
            ctx_mismatch(existing, candidate, "env/tenant cannot change for an existing session"),
        );
    }
    if !opt_team_eq(existing.normalize_team(), candidate.normalize_team()) {
        return Err(ctx_mismatch(existing, candidate, "team cannot change for an existing session"));
    }
    match (existing.normalize_user(), candidate.normalize_user()) {
        (Some(a), Some(b)) => {
            if a.0 == b.0 {
                Ok(())
            } else {
                Err(ctx_mismatch(existing, candidate, "user cannot change for an existing session"))
            }
        },
        (Some(_), None) => {
            Err(ctx_mismatch(existing, candidate, "user cannot change for an existing session"))
        },
        (None, Some(_)) => {
            Err(ctx_mismatch(existing, candidate, "user cannot be introduced when none was stored"))
        },
        (None, None) => Ok(()),
    }
}

} // verus!
