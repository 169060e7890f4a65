//! The routing-family session record: tenant-fenced payload plus cursor,
//! and the reply scope used to route replies back to a paused session.

use vstd::prelude::*;
use vstd::string::StringSliceAdditionalSpecFns;
use vstd::utf8::encode_utf8;

use crate::digest::{hex_encode, hex_of, lemma_hex_of_len, sha256_digest, sha256_of};
use crate::ids::{FlowId, PackId};
use crate::model::clone_opt_string;
use crate::tenant::{TenantCtx, TenantCtxV, ov};

verus! {

/// Mathematical image of a routing-family cursor.
#[verifier::ext_equal]
pub ghost struct SessionCursorV {
    pub node_pointer: Seq<char>,
    pub wait_reason: Option<Seq<char>>,
    pub outbox_marker: Option<Seq<char>>,
}

/// Cursor pinpointing where execution paused.
#[derive(Debug)]
pub struct SessionCursor {
    /// Identifier of the node currently owning the session.
    pub node_pointer: String,
    /// Optional wait reason emitted by the node.
    pub wait_reason: Option<String>,
    /// Optional marker describing pending outbox operations.
    pub outbox_marker: Option<String>,
}

impl View for SessionCursor {
    type V = SessionCursorV;

    open spec fn view(&self) -> SessionCursorV {
        SessionCursorV {
            node_pointer: self.node_pointer@,
            wait_reason: ov(self.wait_reason),
            outbox_marker: ov(self.outbox_marker),
        }
    }
}

impl Clone for SessionCursor {
    fn clone(&self) -> (r: Self)
        ensures
            r@ == self@,
    {
        SessionCursor {
            node_pointer: self.node_pointer.clone(),
            wait_reason: clone_opt_string(&self.wait_reason),
            outbox_marker: clone_opt_string(&self.outbox_marker),
        }
    }
}

impl SessionCursor {
    /// Creates a cursor pointing at the provided node identifier.
    pub fn new(node_pointer: String) -> (r: SessionCursor)
        ensures
            r@.node_pointer == node_pointer@,
            r@.wait_reason is None,
            r@.outbox_marker is None,
    {
        SessionCursor { node_pointer, wait_reason: None, outbox_marker: None }
    }

    /// Assigns a wait reason to the cursor.
    pub fn with_wait_reason(self, reason: String) -> (r: SessionCursor)
        ensures
            r@.node_pointer == self@.node_pointer,
            r@.wait_reason == Some(reason@),
            r@.outbox_marker == self@.outbox_marker,
    {
        SessionCursor { wait_reason: Some(reason), ..self }
    }

    /// Assigns an outbox marker to the cursor.
    pub fn with_outbox_marker(self, marker: String) -> (r: SessionCursor)
        ensures
            r@.node_pointer == self@.node_pointer,
            r@.wait_reason == self@.wait_reason,
            r@.outbox_marker == Some(marker@),
    {
        SessionCursor { outbox_marker: Some(marker), ..self }
    }
}

/// Mathematical image of a routing-family session payload.
#[verifier::ext_equal]
pub ghost struct SessionDataV {
    pub tenant_ctx: TenantCtxV,
    pub flow_id: Seq<char>,
    pub pack_id: Option<Seq<char>>,
    pub cursor: SessionCursorV,
    pub context_json: Seq<char>,
}

/// Persisted session payload describing how to resume a flow.
#[derive(Debug)]
pub struct SessionData {
    /// Tenant context associated with the session.
    pub tenant_ctx: TenantCtx,
    /// Flow identifier being executed.
    pub flow_id: FlowId,
    /// Optional pack identifier tied to the session.
    pub pack_id: Option<PackId>,
    /// Cursor pinpointing where execution paused.
    pub cursor: SessionCursor,
    /// Serialized execution context/state snapshot.
    pub context_json: String,
}

impl View for SessionData {
    type V = SessionDataV;

    open spec fn view(&self) -> SessionDataV {
        SessionDataV {
            tenant_ctx: self.tenant_ctx@,
            flow_id: self.flow_id@,
            pack_id: ov(self.pack_id),
            cursor: self.cursor@,
            context_json: self.context_json@,
        }
    }
}

/// Clones an optional pack identifier, preserving its text.
fn clone_opt_pack(o: &Option<PackId>) -> (r: Option<PackId>)
    ensures
        ov(r) == ov(*o),
{
    match o {
        Some(p) => Some(p.clone()),
        None => None,
    }
}

impl Clone for SessionData {
    fn clone(&self) -> (r: Self)
        ensures
            r@ == self@,
    {
        SessionData {
            tenant_ctx: self.tenant_ctx.clone(),
            flow_id: self.flow_id.clone(),
            pack_id: clone_opt_pack(&self.pack_id),
            cursor: self.cursor.clone(),
            context_json: self.context_json.clone(),
        }
    }
}

/// Mathematical image of a reply scope.
#[verifier::ext_equal]
pub ghost struct ReplyScopeV {
    pub conversation: Seq<char>,
    pub thread: Option<Seq<char>>,
    pub reply_to: Option<Seq<char>>,
    pub correlation: Option<Seq<char>>,
}

/// Routing envelope identifying where a reply will arrive.
#[derive(Debug)]
pub struct ReplyScope {
    /// Conversation identifier.
    pub conversation: String,
    /// Optional thread/topic identifier.
    pub thread: Option<String>,
    /// Optional reply-to identifier.
    pub reply_to: Option<String>,
    /// Optional correlation identifier.
    pub correlation: Option<String>,
}

impl View for ReplyScope {
    type V = ReplyScopeV;

    open spec fn view(&self) -> ReplyScopeV {
        ReplyScopeV {
            conversation: self.conversation@,
            thread: ov(self.thread),
            reply_to: ov(self.reply_to),
            correlation: ov(self.correlation),
        }
    }
}

impl Clone for ReplyScope {
    fn clone(&self) -> (r: Self)
        ensures
            r@ == self@,
    {
        ReplyScope {
            conversation: self.conversation.clone(),
            thread: clone_opt_string(&self.thread),
            reply_to: clone_opt_string(&self.reply_to),
            correlation: clone_opt_string(&self.correlation),
        }
    }
}

/// An optional text, empty when absent.
pub open spec fn opt_or_empty(o: Option<Seq<char>>) -> Seq<char> {
    match o {
        Some(s) => s,
        None => Seq::empty(),
    }
}

/// The canonical text a scope is hashed over: the four fields, absent ones
/// as empty text, joined by newlines.
pub open spec fn scope_canonical(s: ReplyScopeV) -> Seq<char> {
    s.conversation + "\n"@ + opt_or_empty(s.thread) + "\n"@ + opt_or_empty(s.reply_to) + "\n"@
        + opt_or_empty(s.correlation)
}

/// The stable digest of a reply scope: lowercase hex of the SHA-256 of the
/// canonical text's UTF-8 bytes.
pub open spec fn spec_scope_hash(s: ReplyScopeV) -> Seq<char> {
    hex_of(sha256_of(encode_utf8(scope_canonical(s))))
}

/// Appends an optional text, absent ones as empty.
fn append_opt(target: &mut String, part: &Option<String>)
    ensures
        final(target)@ == old(target)@ + opt_or_empty(ov(*part)),
{
    match part {
        Some(s) => {
            target.append(s.as_str());
        },
        None => {
            proof {
                assert(old(target)@ + opt_or_empty(ov(*part)) =~= old(target)@);
            }
        },
    }
}

impl ReplyScope {
    /// Returns the deterministic hash of the scope: equal fields give equal
    /// hashes, across processes and machines.
    pub fn scope_hash(&self) -> (r: String)
        ensures
            r@ == spec_scope_hash(self@),
            r@.len() == 64,
    {
        let mut canonical = String::new();
        canonical.append(self.conversation.as_str());
        canonical.append("\n");
        append_opt(&mut canonical, &self.thread);
        canonical.append("\n");
        append_opt(&mut canonical, &self.reply_to);
        canonical.append("\n");
        append_opt(&mut canonical, &self.correlation);
        proof {
            assert(canonical@ =~= scope_canonical(self@));
        }
        let bytes = canonical.as_str().as_bytes();
        let digest = sha256_digest(bytes);
        let text = hex_encode(digest.as_slice());
        proof {
            lemma_hex_of_len(digest@);
        }
        text
    }
}

} // verus!
