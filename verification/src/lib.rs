//! Client-side coordination logic for a threshold secret-store:
//! deterministic document-key-id derivation, hex and query encoding,
//! classification of remote error bodies, and the run-to-completion
//! orchestration of encryption, decryption and access control.
//!
//! The store itself holds only the session's credentials. Each
//! operation hands back a pure state machine together with the first
//! remote call to make; a driver performs each emitted action against
//! the remote surfaces and feeds the outcome back into the machine
//! until it halts.

pub mod acl;
pub mod blockchain;
pub mod errors;
pub mod hexcodec;
pub mod ident;
pub mod model;
pub mod textutil;
pub mod types;

use vstd::prelude::*;
use vstd::string::*;
use crate::acl::{is_address_hex, GrantAction, GrantFlow, PermissionQuery};
use crate::blockchain::{data_hex_of, DecryptAction, DecryptFlow, EncryptAction, EncryptFlow};
use crate::hexcodec::bytes_of_hex;
use crate::ident::{derive_id, id_hex_of, is_canonical_id};
use crate::types::Address;

verus! {

/// One session against the cluster and the chain: the signing address
/// and its password, re-sent with every authorized remote call — no
/// session is ever cached remotely.
pub struct CryptoSecretStore {
    pub address: Address,
    pub password: String,
}

impl CryptoSecretStore {
    /// Opens a session for an account given as a bare 40-digit hex
    /// address. A malformed address stops the process, so callers
    /// check the shape first.
    pub fn new(addr: &str, password: &str) -> (r: CryptoSecretStore)
        requires
            is_address_hex(addr@),
        ensures
            r.address.wf(),
            r.address.bytes@ == bytes_of_hex(addr@),
            r.password@ == password@,
    {
        let address = match Address::from_hex(addr) {
            Some(a) => a,
            None => {
                proof {
                    assert(false);
                }
                Address { bytes: Vec::new() }
            },
        };
        CryptoSecretStore { address, password: String::from_str(password) }
    }

    /// Derives the working id of a document: the digest of its bytes,
    /// as lowercase hex.
    pub fn generate_id(&mut self, document: &str) -> (r: String)
        ensures
            *final(self) == *old(self),
            r@ == id_hex_of(document@),
            is_canonical_id(r@),
    {
        derive_id(document)
    }

    /// Starts an encryption run for a document under a working id and
    /// a threshold. The id is hashed once more into the canonical
    /// document-key id every remote surface will see; `threshold + 1`
    /// cooperating nodes will later be needed to reconstruct the key.
    pub fn encrypt(&mut self, id: &str, document: &str, threshold: u32) -> (r: (
        EncryptFlow,
        EncryptAction,
    ))
        ensures
            *final(self) == *old(self),
            r.0.wf(),
            r.0.address.bytes@ == old(self).address.bytes@,
            r.0.password@ == old(self).password@,
            r.0.document_id@ == id_hex_of(id@),
            r.0.data_hex@ == data_hex_of(document@),
            r.0.threshold == threshold,
            r.0.state is AwaitSignature,
            (r.1 matches EncryptAction::SignRawHash { raw_hash } && raw_hash@ == id_hex_of(id@)),
    {
        let document_id = derive_id(id);
        EncryptFlow::new(
            self.address.duplicate(),
            self.password.clone(),
            document_id,
            document,
            threshold,
        )
    }

    /// Starts a decryption run for a ciphertext under the same working
    /// id that encryption used: the canonical document-key id is
    /// derived identically, or the shares will not be found.
    pub fn decrypt(&mut self, id: &str, encrypted_document: &str) -> (r: (
        DecryptFlow,
        DecryptAction,
    ))
        ensures
            *final(self) == *old(self),
            r.0.wf(),
            r.0.address.bytes@ == old(self).address.bytes@,
            r.0.password@ == old(self).password@,
            r.0.document_id@ == id_hex_of(id@),
            r.0.encrypted_document@ == encrypted_document@,
            r.0.state is AwaitSignature,
            (r.1 matches DecryptAction::SignRawHash { raw_hash } && raw_hash@ == id_hex_of(id@)),
    {
        let document_id = derive_id(id);
        DecryptFlow::new(
            self.address.duplicate(),
            self.password.clone(),
            document_id,
            String::from_str(encrypted_document),
        )
    }

    /// Starts a grant run: the listed addresses gain access to the key
    /// material of the id. The same canonical derivation binds the
    /// grant to the id that encrypt and decrypt use.
    pub fn allow_access(&mut self, document_id: &str, addresses: Vec<Address>) -> (r: (
        GrantFlow,
        GrantAction,
    ))
        ensures
            *final(self) == *old(self),
            r.0.wf(),
            r.0.address.bytes@ == old(self).address.bytes@,
            r.0.password@ == old(self).password@,
            r.0.document_id@ == id_hex_of(document_id@),
            r.0.addresses == addresses,
            r.0.state is AwaitGasEstimate,
    {
        let id = derive_id(document_id);
        GrantFlow::new(self.address.duplicate(), self.password.clone(), id, addresses)
    }

    /// Builds the read-only permission query for an address and an id,
    /// under the same canonical derivation. The query mutates nothing
    /// and is sent from the queried address itself.
    pub fn check_permissions(&mut self, address: Address, document_id: &str) -> (q:
        PermissionQuery)
        ensures
            *final(self) == *old(self),
            q.address == address,
            q.document_id@ == id_hex_of(document_id@),
            is_canonical_id(q.document_id@),
    {
        let id = derive_id(document_id);
        PermissionQuery { address, document_id: id }
    }
}

} // verus!
