//! Deterministic session keys derived from connector event fields.
//!
//! A derived key is the lowercase hex of `SHA-256("<prefix>:" + joined
//! fields)`. The prefix domain-separates the two families. Colons are
//! literal and never escaped: callers pre-sanitize fields that could contain
//! them.

use vstd::prelude::*;
use vstd::string::StringSliceAdditionalSpecFns;
use vstd::utf8::encode_utf8;

use crate::digest::{hex_encode, hex_of, lemma_hex_of_len, sha256_digest, sha256_of};
use crate::model::SessionKey;

verus! {

/// The text hashed for a derived key: the domain prefix and the three
/// fields, joined by literal colons.
pub open spec fn derivation_text(
    prefix: Seq<char>,
    a: Seq<char>,
    b: Seq<char>,
    c: Seq<char>,
) -> Seq<char> {
    prefix + a + ":"@ + b + ":"@ + c
}

/// A derived key: lowercase hex of the SHA-256 of the text's UTF-8 bytes.
pub open spec fn derived_key(text: Seq<char>) -> Seq<char> {
    hex_of(sha256_of(encode_utf8(text)))
}

/// Hashes the joined text into a 64-character lowercase hex key.
fn hash_derivation(prefix: &str, a: &str, b: &str, c: &str) -> (r: String)
    ensures
        r@ == derived_key(derivation_text(prefix@, a@, b@, c@)),
        r@.len() == 64,
{
    let mut text = String::new();
    text.append(prefix);
    text.append(a);
    text.append(":");
    text.append(b);
    text.append(":");
    text.append(c);
    proof {
        assert(text@ =~= derivation_text(prefix@, a@, b@, c@));
    }
    let digest = sha256_digest(text.as_str().as_bytes());
    let key = hex_encode(digest.as_slice());
    proof {
        lemma_hex_of_len(digest@);
    }
    key
}

/// Deterministic session key from Telegram update fields. The same fields
/// always produce the same key.
pub fn telegram_update_to_session_key(bot_id: &str, chat_id: &str, user_id: &str) -> (r:
    SessionKey)
    ensures
        r@ == derived_key(derivation_text("tg:"@, bot_id@, chat_id@, user_id@)),
        r@.len() == 64,
{
    SessionKey::new(hash_derivation("tg:", bot_id, chat_id, user_id))
}

/// Deterministic session key from a generic webhook (source + subject +
/// identity hint). The same fields always produce the same key.
pub fn webhook_to_session_key(source: &str, subject: &str, id_hint: &str) -> (r: SessionKey)
    ensures
        r@ == derived_key(derivation_text("wh:"@, source@, subject@, id_hint@)),
        r@.len() == 64,
{
    SessionKey::new(hash_derivation("wh:", source, subject, id_hint))
}

/// Key derivation is deterministic: two keys derived from equal texts are
/// equal.
pub proof fn lemma_derived_key_deterministic(t1: Seq<char>, t2: Seq<char>)
    requires
        t1 == t2,
    ensures
        derived_key(t1) == derived_key(t2),
{
}

} // verus!
