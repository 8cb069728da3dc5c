//! A mathematical model of the remote cluster's duplicate-rejecting
//! key store, as the wire protocol documents it: at most one server
//! key and one persisted document key per id, repeats rejected with a
//! fixed phrase, unknown ids rejected as not found. The protocol laws
//! — duplicate rejection, not-found on unknown ids, the race between
//! two generation attempts, and the encode/decode round trip — are
//! stated and proved against this model and the flows' own
//! specifications.

use vstd::prelude::*;
use crate::blockchain::{data_hex_of, decrypt_output};
use crate::errors::{
    already_generated_phrase, already_stored_phrase, failure_class, not_found_phrase, FailureClass,
};
use crate::hexcodec::{
    bytes_of_hex, hex_str_of, is_hex_seq, lemma_hex_round_trip, lemma_hex_seq_chars,
};
use crate::textutil::{contains_seq, matches_at, strip_hex_prefix};

verus! {

/// The cluster's key store, abstracted: which ids have a generated
/// server key, and which have persisted document-key material.
pub struct ClusterModel {
    pub generated: Set<Seq<char>>,
    pub stored: Set<Seq<char>>,
}

/// A remote response, abstracted to its status and body.
pub struct ResponseModel {
    pub status_ok: bool,
    pub body: Seq<char>,
}

/// The cluster before any key was generated or stored.
pub open spec fn empty_cluster() -> ClusterModel {
    ClusterModel { generated: Set::empty(), stored: Set::empty() }
}

/// How the cluster answers server-key generation: a duplicate id is
/// rejected with the fixed phrase, a fresh id succeeds with the new
/// public key as the body.
pub open spec fn server_key_gen_response(
    m: ClusterModel,
    id: Seq<char>,
    fresh_key_body: Seq<char>,
) -> ResponseModel {
    if m.generated.contains(id) {
        ResponseModel { status_ok: false, body: already_generated_phrase() }
    } else {
        ResponseModel { status_ok: true, body: fresh_key_body }
    }
}

/// The cluster after a successful server-key generation for an id.
pub open spec fn after_server_key_gen(m: ClusterModel, id: Seq<char>) -> ClusterModel {
    ClusterModel { generated: m.generated.insert(id), stored: m.stored }
}

/// How the cluster answers document-key persistence: a second store
/// for an id is rejected with the fixed phrase, a first store succeeds
/// with an empty body.
pub open spec fn store_key_response(m: ClusterModel, id: Seq<char>) -> ResponseModel {
    if m.stored.contains(id) {
        ResponseModel { status_ok: false, body: already_stored_phrase() }
    } else {
        ResponseModel { status_ok: true, body: Seq::empty() }
    }
}

/// The cluster after a successful persistence for an id.
pub open spec fn after_store_key(m: ClusterModel, id: Seq<char>) -> ClusterModel {
    ClusterModel { generated: m.generated, stored: m.stored.insert(id) }
}

/// How the cluster answers key-share retrieval: an id with no
/// persisted material is rejected with the not-found phrase; otherwise
/// the shares arrive as the body.
pub open spec fn fetch_key_response(
    m: ClusterModel,
    id: Seq<char>,
    keys_body: Seq<char>,
) -> ResponseModel {
    if !m.stored.contains(id) {
        ResponseModel { status_ok: false, body: not_found_phrase() }
    } else {
        ResponseModel { status_ok: true, body: keys_body }
    }
}

/// Every sequence contains itself.
proof fn lemma_contains_self(s: Seq<char>)
    ensures
        contains_seq(s, s),
{
    assert(matches_at(s, s, 0));
}

/// A needle longer than the hay never occurs in it.
proof fn lemma_too_long_not_contained(hay: Seq<char>, needle: Seq<char>)
    requires
        needle.len() > hay.len(),
    ensures
        !contains_seq(hay, needle),
{
}

/// Duplicate rejection at generation time: when the cluster already
/// holds a server key for an id, its response is a failure whose body
/// classifies as already-generated, so a consuming encryption run
/// fails with `KeyAlreadyGenerated` and the existing key material is
/// never overwritten.
pub proof fn lemma_duplicate_generation_rejected(
    m: ClusterModel,
    id: Seq<char>,
    fresh_key_body: Seq<char>,
)
    requires
        m.generated.contains(id),
    ensures
        !server_key_gen_response(m, id, fresh_key_body).status_ok,
        failure_class(server_key_gen_response(m, id, fresh_key_body).body) is Generated,
        after_server_key_gen(m, id).generated =~= m.generated,
{
    lemma_contains_self(already_generated_phrase());
}

/// Duplicate rejection at persistence time: a second store for an id
/// is a failure whose body classifies as already-stored, never a
/// silent overwrite.
pub proof fn lemma_duplicate_store_rejected(m: ClusterModel, id: Seq<char>)
    requires
        m.stored.contains(id),
    ensures
        !store_key_response(m, id).status_ok,
        failure_class(store_key_response(m, id).body) is Stored,
        after_store_key(m, id).stored =~= m.stored,
{
    lemma_contains_self(already_stored_phrase());
    reveal_strlit("Server key with this ID is already generated");
    reveal_strlit("Document key with this ID is already stored");
    lemma_too_long_not_contained(already_stored_phrase(), already_generated_phrase());
}

/// Unknown id: retrieval for an id that was never successfully
/// persisted is a failure whose body classifies as not-found, so a
/// consuming decryption run fails with `KeyNotFound` and never hands
/// back garbage.
pub proof fn lemma_unknown_id_not_found(m: ClusterModel, id: Seq<char>, keys_body: Seq<char>)
    requires
        !m.stored.contains(id),
    ensures
        !fetch_key_response(m, id, keys_body).status_ok,
        failure_class(fetch_key_response(m, id, keys_body).body) is NotFound,
{
    lemma_contains_self(not_found_phrase());
    reveal_strlit("Server key with this ID is already generated");
    reveal_strlit("Document key with this ID is already stored");
    reveal_strlit("Server key with this ID is not found");
    lemma_too_long_not_contained(not_found_phrase(), already_generated_phrase());
    lemma_too_long_not_contained(not_found_phrase(), already_stored_phrase());
}

/// The race between two generation attempts for one id: from a state
/// without key material, whichever attempt the cluster serializes
/// first succeeds with fresh material, and the other observes the
/// duplicate rejection — exactly one wins, in either order.
pub proof fn lemma_generation_race(
    m: ClusterModel,
    id: Seq<char>,
    first_body: Seq<char>,
    second_body: Seq<char>,
)
    requires
        !m.generated.contains(id),
    ensures
        server_key_gen_response(m, id, first_body).status_ok,
        !server_key_gen_response(after_server_key_gen(m, id), id, second_body).status_ok,
        failure_class(
            server_key_gen_response(after_server_key_gen(m, id), id, second_body).body,
        ) is Generated,
{
    lemma_duplicate_generation_rejected(after_server_key_gen(m, id), id, second_body);
}

/// The round trip of the document through the protocol's own codecs:
/// the payload an encryption run prepares for the cluster, handed back
/// by the cluster at decryption time, decodes to exactly the original
/// document. With the cluster's cipher faithful and access granted,
/// decrypt of encrypt is the identity.
pub proof fn lemma_encrypt_decrypt_round_trip(document: Seq<char>)
    ensures
        decrypt_output(data_hex_of(document)) == Some(document),
{
    broadcast use vstd::utf8::encode_utf8_valid_utf8, vstd::utf8::encode_utf8_decode_utf8;

    let b = vstd::utf8::encode_utf8(document);
    let h = hex_str_of(b);
    lemma_hex_round_trip(b);
    let full = seq!['0', 'x'] + h;
    assert(full.len() >= 2 && full[0] == '0' && full[1] == 'x');
    assert(full.skip(2) =~= h);
    if h.len() >= 2 {
        lemma_hex_seq_chars(h);
        assert(h[1] != 'x');
    }
    assert(strip_hex_prefix(h) == h);
    assert(strip_hex_prefix(full) == h);
    assert(bytes_of_hex(h) =~= b);
    assert(vstd::utf8::valid_utf8(b));
    assert(vstd::utf8::decode_utf8(b) == document);
}

} // verus!
