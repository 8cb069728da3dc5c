//! Canonical document-key-id derivation: one deterministic digest of a
//! handle's bytes, rendered as lowercase hex. Every remote surface looks
//! the key material up under this id, so encrypt, decrypt, grant and
//! query must all derive it identically.

use vstd::prelude::*;
use vstd::string::*;
use vstd::utf8::encode_utf8;
use crate::hexcodec::{hex_str_of, is_hex_seq, lemma_hex_round_trip};
use sha2::Digest;

verus! {

/// The digest of a byte string, as sha2's SHA-256 computes it.
pub uninterp spec fn sha256_of(data: Seq<u8>) -> Seq<u8>;

/// Relies on sha2's `Sha256::digest`: a 32-byte digest that depends on
/// the input bytes alone.
#[verifier::external_body]
fn sha256_digest(data: &[u8]) -> (r: Vec<u8>)
    ensures
        r@ == sha256_of(data@),
        r@.len() == 32,
{
    sha2::Sha256::digest(data).to_vec()
}

/// The canonical document-key id of a handle: the lowercase hex
/// rendering of the digest of the handle's UTF-8 bytes.
pub open spec fn id_hex_of(handle: Seq<char>) -> Seq<char> {
    hex_str_of(sha256_of(encode_utf8(handle)))
}

/// What every derived id looks like: 64 hex digits. The digest length
/// is a fact about the outside digest function, so this predicate is
/// established where the digest is computed and carried along from
/// there.
pub open spec fn is_canonical_id(s: Seq<char>) -> bool {
    s.len() == 64 && is_hex_seq(s)
}

/// Determinism of derivation: equal handles derive equal ids, in every
/// call and every run. Distinctness for distinct handles rests on the
/// digest's collision resistance and is checked by sampling in tests.
pub proof fn lemma_derive_deterministic(h1: Seq<char>, h2: Seq<char>)
    requires
        h1 == h2,
    ensures
        id_hex_of(h1) == id_hex_of(h2),
{
}

/// Derives the canonical document-key id of a handle.
pub fn derive_id(handle: &str) -> (r: String)
    ensures
        r@ == id_hex_of(handle@),
        is_canonical_id(r@),
{
    let digest = sha256_digest(handle.as_bytes());
    proof {
        lemma_hex_round_trip(digest@);
    }
    crate::hexcodec::hex_encode(digest.as_slice())
}

} // verus!
