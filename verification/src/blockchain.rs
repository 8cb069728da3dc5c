//! The two run-to-completion orchestrations of the protocol: document
//! encryption and document decryption. Each is a linear state machine
//! whose every transition consumes the result of one blocking remote
//! call and emits the next call to make; no step can be skipped or
//! reordered because each call's input is the previous call's output.
//! The machines are pure: the caller performs each emitted action
//! against the remote surfaces and feeds the outcome back in.

use vstd::prelude::*;
use vstd::string::*;
use vstd::utf8::{decode_utf8, valid_utf8};
use crate::errors::{is_classified_failure, parse_shadow_response, Error};
use crate::hexcodec::{bytes_of_hex, hex_str_of, is_hex_seq};
use crate::ident::is_canonical_id;
use crate::textutil::{
    bytes_to_utf8_string, dec_str_of, join_path_2, join_path_3, join_path_4, strip_hex_prefix,
    strip_hex_prefixes, trim_wrapping, trim_wrapping_chars, u32_to_dec, with_hex_marker,
};
use crate::types::{
    Address, DecryptionKeys, EncryptedDocumentKey, HttpResponse, Point512, RawDecryptionKeys,
    RawDocumentKey,
};

verus! {

/// A signed id as it travels in a path segment: wrapping quote and
/// escape characters removed, then every leading "0x" removed.
pub open spec fn signed_segment(signed: Seq<char>) -> Seq<char> {
    strip_hex_prefix(trim_wrapping(signed))
}

/// The path for server-key generation: id, trimmed signed id, and the
/// decimal threshold.
pub open spec fn server_key_query(id: Seq<char>, signed: Seq<char>, threshold: u32) -> Seq<char> {
    id + seq!['/'] + signed_segment(signed) + seq!['/'] + dec_str_of(threshold as nat)
}

/// The path for document-key persistence: id, trimmed signed id, and
/// the bare hex of the common and encrypted points.
pub open spec fn store_key_query(
    id: Seq<char>,
    signed: Seq<char>,
    common: Seq<u8>,
    encrypted: Seq<u8>,
) -> Seq<char> {
    id + seq!['/'] + signed_segment(signed) + seq!['/'] + hex_str_of(common) + seq!['/']
        + hex_str_of(encrypted)
}

/// The path for key-share retrieval: id and trimmed signed id.
pub open spec fn document_key_query(id: Seq<char>, signed: Seq<char>) -> Seq<char> {
    id + seq!['/'] + signed_segment(signed)
}

/// The payload sent for remote symmetric encryption: "0x" before the
/// hex of the document's UTF-8 bytes.
pub open spec fn data_hex_of(document: Seq<char>) -> Seq<char> {
    seq!['0', 'x'] + hex_str_of(vstd::utf8::encode_utf8(document))
}

/// What the final decode of a decryption run yields for a returned hex
/// text: strip every "0x", decode the hex, decode the bytes as UTF-8;
/// any mismatch is an encoding failure.
pub open spec fn decrypt_output(hex_text: Seq<char>) -> Option<Seq<char>> {
    let t = strip_hex_prefix(hex_text);
    if t.len() % 2 == 0 && is_hex_seq(t) {
        if valid_utf8(bytes_of_hex(t)) {
            Some(decode_utf8(bytes_of_hex(t)))
        } else {
            None
        }
    } else {
        None
    }
}

/// Where an encryption run stands: one state per outstanding remote
/// call, plus the two terminal states.
pub enum EncryptState {
    /// The id is being signed.
    AwaitSignature,
    /// A server key is being generated for the signed id.
    AwaitServerKey { signed_id: String },
    /// A document key is being generated from the server key.
    AwaitDocumentKey { signed_id: String },
    /// The document is being enciphered under the generated key.
    AwaitCiphertext { signed_id: String, common_point: Point512, encrypted_point: Point512 },
    /// The key's points are being persisted.
    AwaitStore { ciphertext: String },
    /// The run succeeded with this ciphertext.
    Done { ciphertext: String },
    /// The run failed; earlier remote side effects are not rolled back.
    Failed { error: Error },
}

/// The next remote call an encryption run asks its driver to perform.
pub enum EncryptAction {
    /// Sign this 256-bit hash, freshly authorized with the run's
    /// address and password.
    SignRawHash { raw_hash: String },
    /// POST this path to the shadow surface to generate a server key.
    GenerateServerKey { query: String },
    /// Ask the RPC surface to combine this public server key into a
    /// document key.
    GenerateDocumentKey { server_key_public: String },
    /// Ask the RPC surface to encipher `data` under `key`.
    EncryptDocument { key: String, data: String },
    /// POST this path to the shadow surface to persist the key.
    StoreDocumentKey { query: String },
    /// The run is over; nothing remains to be called.
    Halt,
}

/// One document-encryption run.
pub struct EncryptFlow {
    pub address: Address,
    pub password: String,
    pub document_id: String,
    pub data_hex: String,
    pub threshold: u32,
    pub state: EncryptState,
}

/// The per-run configuration never changes after the run starts.
pub open spec fn same_encrypt_config(a: &EncryptFlow, b: &EncryptFlow) -> bool {
    a.address == b.address && a.password == b.password && a.document_id == b.document_id
        && a.data_hex == b.data_hex && a.threshold == b.threshold
}

impl EncryptFlow {
    /// A well-formed run carries a canonical 64-digit hex id.
    pub open spec fn wf(&self) -> bool {
        is_canonical_id(self.document_id@)
    }

    /// Starts an encryption run. The first call to make is signing the
    /// document-key id itself.
    pub fn new(
        address: Address,
        password: String,
        document_id: String,
        document: &str,
        threshold: u32,
    ) -> (r: (EncryptFlow, EncryptAction))
        requires
            is_canonical_id(document_id@),
        ensures
            r.0.wf(),
            r.0.address == address,
            r.0.password == password,
            r.0.document_id == document_id,
            r.0.data_hex@ == data_hex_of(document@),
            r.0.threshold == threshold,
            r.0.state is AwaitSignature,
            (r.1 matches EncryptAction::SignRawHash { raw_hash } && raw_hash@ == document_id@),
    {
        let data_hex = with_hex_marker(hex_bytes_of_str(document).as_str());
        let raw_hash = document_id.clone();
        let flow = EncryptFlow {
            address,
            password,
            document_id,
            data_hex,
            threshold,
            state: EncryptState::AwaitSignature,
        };
        (flow, EncryptAction::SignRawHash { raw_hash })
    }

    /// Consumes the signing result. On success the run asks for
    /// server-key generation under the freshly signed id; a transport
    /// failure ends the run.
    pub fn on_signature(self, result: Result<String, String>) -> (r: (EncryptFlow, EncryptAction))
        requires
            self.wf(),
            self.state is AwaitSignature,
        ensures
            r.0.wf(),
            same_encrypt_config(&self, &r.0),
            match result {
                Ok(s) => {
                    &&& (r.0.state matches EncryptState::AwaitServerKey { signed_id }
                        && signed_id == s)
                    &&& (r.1 matches EncryptAction::GenerateServerKey { query } && query@
                        == server_key_query(self.document_id@, s@, self.threshold))
                },
                Err(m) => {
                    &&& (r.0.state matches EncryptState::Failed { error: Error::Transport(t) }
                        && t == m)
                    &&& r.1 is Halt
                },
            },
    {
        let EncryptFlow { address, password, document_id, data_hex, threshold, state } = self;
        match result {
            Ok(s) => {
                let trimmed = trim_wrapping_chars(s.as_str());
                let stripped = strip_hex_prefixes(trimmed.as_str());
                let threshold_dec = u32_to_dec(threshold);
                let query = join_path_3(
                    document_id.as_str(),
                    stripped.as_str(),
                    threshold_dec.as_str(),
                );
                let flow = EncryptFlow {
                    address,
                    password,
                    document_id,
                    data_hex,
                    threshold,
                    state: EncryptState::AwaitServerKey { signed_id: s },
                };
                (flow, EncryptAction::GenerateServerKey { query })
            },
            Err(m) => {
                let flow = EncryptFlow {
                    address,
                    password,
                    document_id,
                    data_hex,
                    threshold,
                    state: EncryptState::Failed { error: Error::Transport(m) },
                };
                (flow, EncryptAction::Halt)
            },
        }
    }

    /// Consumes the server-key response. A failure body is classified
    /// by its phrases — a duplicate id surfaces here as
    /// `KeyAlreadyGenerated`, never as a silent overwrite. A success
    /// body must hold a 512-bit hex value; the run then asks for
    /// document-key generation with the canonical "0x" rendering.
    pub fn on_server_key(self, response: Result<HttpResponse, String>) -> (r: (
        EncryptFlow,
        EncryptAction,
    ))
        requires
            self.wf(),
            self.state is AwaitServerKey,
        ensures
            r.0.wf(),
            same_encrypt_config(&self, &r.0),
            match response {
                Ok(resp) => {
                    if resp.status_ok {
                        let bare = strip_hex_prefix(trim_wrapping(resp.body@));
                        if bare.len() == 128 && is_hex_seq(bare) {
                            &&& (r.0.state matches EncryptState::AwaitDocumentKey { signed_id }
                                && self.state matches EncryptState::AwaitServerKey {
                                signed_id: s0,
                            } && signed_id == s0)
                            &&& (r.1 matches EncryptAction::GenerateDocumentKey {
                                server_key_public,
                            } && server_key_public@ == seq!['0', 'x'] + hex_str_of(
                                bytes_of_hex(bare),
                            ))
                        } else {
                            &&& r.0.state matches EncryptState::Failed { error: Error::Encoding }
                            &&& r.1 is Halt
                        }
                    } else {
                        &&& (r.0.state matches EncryptState::Failed { error }
                            && is_classified_failure(error, resp.body@))
                        &&& r.1 is Halt
                    }
                },
                Err(m) => {
                    &&& (r.0.state matches EncryptState::Failed { error: Error::Transport(t) }
                        && t == m)
                    &&& r.1 is Halt
                },
            },
    {
        let EncryptFlow { address, password, document_id, data_hex, threshold, state } = self;
        let signed_id = match state {
            EncryptState::AwaitServerKey { signed_id } => signed_id,
            _ => {
                proof {
                    assert(false);
                }
                String::new()
            },
        };
        match response {
            Ok(resp) => {
                match parse_shadow_response(resp) {
                    Ok(text) => {
                        let stripped = strip_hex_prefixes(text.as_str());
                        match Point512::from_bare_hex(stripped.as_str()) {
                            Some(p) => {
                                let server_key_public = with_hex_marker(p.to_hex().as_str());
                                let flow = EncryptFlow {
                                    address,
                                    password,
                                    document_id,
                                    data_hex,
                                    threshold,
                                    state: EncryptState::AwaitDocumentKey { signed_id },
                                };
                                (flow, EncryptAction::GenerateDocumentKey { server_key_public })
                            },
                            None => {
                                let flow = EncryptFlow {
                                    address,
                                    password,
                                    document_id,
                                    data_hex,
                                    threshold,
                                    state: EncryptState::Failed { error: Error::Encoding },
                                };
                                (flow, EncryptAction::Halt)
                            },
                        }
                    },
                    Err(e) => {
                        let flow = EncryptFlow {
                            address,
                            password,
                            document_id,
                            data_hex,
                            threshold,
                            state: EncryptState::Failed { error: e },
                        };
                        (flow, EncryptAction::Halt)
                    },
                }
            },
            Err(m) => {
                let flow = EncryptFlow {
                    address,
                    password,
                    document_id,
                    data_hex,
                    threshold,
                    state: EncryptState::Failed { error: Error::Transport(m) },
                };
                (flow, EncryptAction::Halt)
            },
        }
    }

    /// Consumes the generated document key. Both points must be valid
    /// "0x"-prefixed 512-bit hex; the run then asks the cluster to
    /// encipher the prepared data under the returned key, passing the
    /// key through verbatim.
    pub fn on_document_key(self, result: Result<RawDocumentKey, String>) -> (r: (
        EncryptFlow,
        EncryptAction,
    ))
        requires
            self.wf(),
            self.state is AwaitDocumentKey,
        ensures
            r.0.wf(),
            same_encrypt_config(&self, &r.0),
            match result {
                Ok(raw) => {
                    if Point512::is_rpc_hex(raw.common_point@) && Point512::is_rpc_hex(
                        raw.encrypted_point@,
                    ) {
                        &&& (r.0.state matches EncryptState::AwaitCiphertext {
                            signed_id,
                            common_point,
                            encrypted_point,
                        } && self.state matches EncryptState::AwaitDocumentKey { signed_id: s0 }
                            && signed_id == s0 && common_point.bytes@ == bytes_of_hex(
                            raw.common_point@.skip(2),
                        ) && encrypted_point.bytes@ == bytes_of_hex(raw.encrypted_point@.skip(2)))
                        &&& (r.1 matches EncryptAction::EncryptDocument { key, data } && key
                            == raw.encrypted_key && data == self.data_hex)
                    } else {
                        &&& r.0.state matches EncryptState::Failed { error: Error::Encoding }
                        &&& r.1 is Halt
                    }
                },
                Err(m) => {
                    &&& (r.0.state matches EncryptState::Failed { error: Error::Transport(t) }
                        && t == m)
                    &&& r.1 is Halt
                },
            },
    {
        let EncryptFlow { address, password, document_id, data_hex, threshold, state } = self;
        let signed_id = match state {
            EncryptState::AwaitDocumentKey { signed_id } => signed_id,
            _ => {
                proof {
                    assert(false);
                }
                String::new()
            },
        };
        match result {
            Ok(raw) => {
                match EncryptedDocumentKey::from_raw(raw) {
                    Some(key) => {
                        let EncryptedDocumentKey { common_point, encrypted_point, encrypted_key } =
                            key;
                        let data = data_hex.clone();
                        let flow = EncryptFlow {
                            address,
                            password,
                            document_id,
                            data_hex,
                            threshold,
                            state: EncryptState::AwaitCiphertext {
                                signed_id,
                                common_point,
                                encrypted_point,
                            },
                        };
                        (flow, EncryptAction::EncryptDocument { key: encrypted_key, data })
                    },
                    None => {
                        let flow = EncryptFlow {
                            address,
                            password,
                            document_id,
                            data_hex,
                            threshold,
                            state: EncryptState::Failed { error: Error::Encoding },
                        };
                        (flow, EncryptAction::Halt)
                    },
                }
            },
            Err(m) => {
                let flow = EncryptFlow {
                    address,
                    password,
                    document_id,
                    data_hex,
                    threshold,
                    state: EncryptState::Failed { error: Error::Transport(m) },
                };
                (flow, EncryptAction::Halt)
            },
        }
    }

    /// Consumes the remote encryption result. On success the run asks
    /// for the key's points to be persisted under the id, re-trimming
    /// the signed id exactly as the store call demands.
    pub fn on_ciphertext(self, result: Result<String, String>) -> (r: (EncryptFlow, EncryptAction))
        requires
            self.wf(),
            self.state is AwaitCiphertext,
        ensures
            r.0.wf(),
            same_encrypt_config(&self, &r.0),
            match result {
                Ok(cipher) => {
                    &&& (r.0.state matches EncryptState::AwaitStore { ciphertext } && ciphertext
                        == cipher)
                    &&& (r.1 matches EncryptAction::StoreDocumentKey { query }
                        && self.state matches EncryptState::AwaitCiphertext {
                        signed_id,
                        common_point,
                        encrypted_point,
                    } && query@ == store_key_query(
                        self.document_id@,
                        signed_id@,
                        common_point.bytes@,
                        encrypted_point.bytes@,
                    ))
                },
                Err(m) => {
                    &&& (r.0.state matches EncryptState::Failed { error: Error::Transport(t) }
                        && t == m)
                    &&& r.1 is Halt
                },
            },
    {
        let EncryptFlow { address, password, document_id, data_hex, threshold, state } = self;
        let (signed_id, common_point, encrypted_point) = match state {
            EncryptState::AwaitCiphertext { signed_id, common_point, encrypted_point } => (
                signed_id,
                common_point,
                encrypted_point,
            ),
            _ => {
                proof {
                    assert(false);
                }
                (
                    String::new(),
                    Point512 { bytes: Vec::new() },
                    Point512 { bytes: Vec::new() },
                )
            },
        };
        match result {
            Ok(cipher) => {
                let trimmed = trim_wrapping_chars(signed_id.as_str());
                let stripped = strip_hex_prefixes(trimmed.as_str());
                let common_hex = common_point.to_hex();
                let encrypted_hex = encrypted_point.to_hex();
                let query = join_path_4(
                    document_id.as_str(),
                    stripped.as_str(),
                    common_hex.as_str(),
                    encrypted_hex.as_str(),
                );
                let flow = EncryptFlow {
                    address,
                    password,
                    document_id,
                    data_hex,
                    threshold,
                    state: EncryptState::AwaitStore { ciphertext: cipher },
                };
                (flow, EncryptAction::StoreDocumentKey { query })
            },
            Err(m) => {
                let flow = EncryptFlow {
                    address,
                    password,
                    document_id,
                    data_hex,
                    threshold,
                    state: EncryptState::Failed { error: Error::Transport(m) },
                };
                (flow, EncryptAction::Halt)
            },
        }
    }

    /// Consumes the persistence response, ending the run. A failure
    /// body is classified — a duplicate id surfaces here as
    /// `KeyAlreadyStored`. Success demands an empty trimmed body; the
    /// run then finishes with the ciphertext. If persistence fails
    /// after encryption succeeded, the ciphertext is lost with the
    /// error: no rollback of earlier remote side effects exists.
    pub fn on_stored(self, response: Result<HttpResponse, String>) -> (r: (
        EncryptFlow,
        EncryptAction,
    ))
        requires
            self.wf(),
            self.state is AwaitStore,
        ensures
            r.0.wf(),
            same_encrypt_config(&self, &r.0),
            r.1 is Halt,
            match response {
                Ok(resp) => {
                    if resp.status_ok {
                        if trim_wrapping(resp.body@).len() == 0 {
                            r.0.state matches EncryptState::Done { ciphertext }
                                && self.state matches EncryptState::AwaitStore { ciphertext: c0 }
                                && ciphertext == c0
                        } else {
                            r.0.state matches EncryptState::Failed { error: Error::Unknown(b) }
                                && b@ == trim_wrapping(resp.body@)
                        }
                    } else {
                        r.0.state matches EncryptState::Failed { error }
                            && is_classified_failure(error, resp.body@)
                    }
                },
                Err(m) => r.0.state matches EncryptState::Failed { error: Error::Transport(t) }
                    && t == m,
            },
    {
        let EncryptFlow { address, password, document_id, data_hex, threshold, state } = self;
        let ciphertext = match state {
            EncryptState::AwaitStore { ciphertext } => ciphertext,
            _ => {
                proof {
                    assert(false);
                }
                String::new()
            },
        };
        let new_state = match response {
            Ok(resp) => {
                match parse_shadow_response(resp) {
                    Ok(text) => {
                        if text.as_str().is_empty() {
                            EncryptState::Done { ciphertext }
                        } else {
                            EncryptState::Failed { error: Error::Unknown(text) }
                        }
                    },
                    Err(e) => EncryptState::Failed { error: e },
                }
            },
            Err(m) => EncryptState::Failed { error: Error::Transport(m) },
        };
        let flow = EncryptFlow {
            address,
            password,
            document_id,
            data_hex,
            threshold,
            state: new_state,
        };
        (flow, EncryptAction::Halt)
    }

    /// Whether the run has reached a terminal state.
    pub fn finished(&self) -> (b: bool)
        ensures
            b == (self.state is Done || self.state is Failed),
    {
        match &self.state {
            EncryptState::Done { .. } => true,
            EncryptState::Failed { .. } => true,
            _ => false,
        }
    }

    /// The outcome of a finished run: the ciphertext, or the one typed
    /// error the run failed with.
    pub fn into_result(self) -> (r: Result<String, Error>)
        requires
            self.state is Done || self.state is Failed,
        ensures
            (self.state matches EncryptState::Done { ciphertext } ==> r == Ok::<String, Error>(
                ciphertext,
            )),
            (self.state matches EncryptState::Failed { error } ==> r == Err::<String, Error>(
                error,
            )),
    {
        match self.state {
            EncryptState::Done { ciphertext } => Ok(ciphertext),
            EncryptState::Failed { error } => Err(error),
            _ => {
                proof {
                    assert(false);
                }
                Err(Error::Encoding)
            },
        }
    }
}

/// Where a decryption run stands.
pub enum DecryptState {
    /// The id is being signed.
    AwaitSignature,
    /// The persisted key shares are being retrieved.
    AwaitKeys { signed_id: String },
    /// The cluster is threshold-decrypting the ciphertext.
    AwaitDecryption,
    /// The run succeeded with this cleartext.
    Done { cleartext: String },
    /// The run failed.
    Failed { error: Error },
}

/// The next remote call a decryption run asks its driver to perform.
pub enum DecryptAction {
    /// Sign this 256-bit hash, freshly authorized with the run's
    /// address and password.
    SignRawHash { raw_hash: String },
    /// GET this path from the shadow surface to fetch the key shares.
    FetchDocumentKey { query: String },
    /// Ask the RPC surface to reconstruct the key from the shares and
    /// decrypt `data`.
    ShadowDecrypt {
        decrypted_secret: String,
        common_point: String,
        decrypt_shadows: Vec<String>,
        data: String,
    },
    /// The run is over; nothing remains to be called.
    Halt,
}

/// One document-decryption run.
pub struct DecryptFlow {
    pub address: Address,
    pub password: String,
    pub document_id: String,
    pub encrypted_document: String,
    pub state: DecryptState,
}

/// The per-run configuration never changes after the run starts.
pub open spec fn same_decrypt_config(a: &DecryptFlow, b: &DecryptFlow) -> bool {
    a.address == b.address && a.password == b.password && a.document_id == b.document_id
        && a.encrypted_document == b.encrypted_document
}

impl DecryptFlow {
    /// A well-formed run carries a canonical 64-digit hex id.
    pub open spec fn wf(&self) -> bool {
        is_canonical_id(self.document_id@)
    }

    /// Starts a decryption run. The first call to make is signing the
    /// same document-key id that encryption used: an id derived
    /// differently surfaces later as a not-found failure.
    pub fn new(
        address: Address,
        password: String,
        document_id: String,
        encrypted_document: String,
    ) -> (r: (DecryptFlow, DecryptAction))
        requires
            is_canonical_id(document_id@),
        ensures
            r.0.wf(),
            r.0.address == address,
            r.0.password == password,
            r.0.document_id == document_id,
            r.0.encrypted_document == encrypted_document,
            r.0.state is AwaitSignature,
            (r.1 matches DecryptAction::SignRawHash { raw_hash } && raw_hash@ == document_id@),
    {
        let raw_hash = document_id.clone();
        let flow = DecryptFlow {
            address,
            password,
            document_id,
            encrypted_document,
            state: DecryptState::AwaitSignature,
        };
        (flow, DecryptAction::SignRawHash { raw_hash })
    }

    /// Consumes the signing result. On success the run asks for the
    /// persisted key shares under the freshly signed id.
    pub fn on_signature(self, result: Result<String, String>) -> (r: (DecryptFlow, DecryptAction))
        requires
            self.wf(),
            self.state is AwaitSignature,
        ensures
            r.0.wf(),
            same_decrypt_config(&self, &r.0),
            match result {
                Ok(s) => {
                    &&& (r.0.state matches DecryptState::AwaitKeys { signed_id } && signed_id
                        == s)
                    &&& (r.1 matches DecryptAction::FetchDocumentKey { query } && query@
                        == document_key_query(self.document_id@, s@))
                },
                Err(m) => {
                    &&& (r.0.state matches DecryptState::Failed { error: Error::Transport(t) }
                        && t == m)
                    &&& r.1 is Halt
                },
            },
    {
        let DecryptFlow { address, password, document_id, encrypted_document, state } = self;
        match result {
            Ok(s) => {
                let trimmed = trim_wrapping_chars(s.as_str());
                let stripped = strip_hex_prefixes(trimmed.as_str());
                let query = join_path_2(document_id.as_str(), stripped.as_str());
                let flow = DecryptFlow {
                    address,
                    password,
                    document_id,
                    encrypted_document,
                    state: DecryptState::AwaitKeys { signed_id: s },
                };
                (flow, DecryptAction::FetchDocumentKey { query })
            },
            Err(m) => {
                let flow = DecryptFlow {
                    address,
                    password,
                    document_id,
                    encrypted_document,
                    state: DecryptState::Failed { error: Error::Transport(m) },
                };
                (flow, DecryptAction::Halt)
            },
        }
    }

    /// Consumes the key-share response together with the driver's JSON
    /// parse of a successful body. A failure body is classified — an
    /// id that was never encrypted-and-persisted surfaces here as
    /// `KeyNotFound`, never as silent garbage. A missing or malformed
    /// parse is an encoding failure; valid points send the shares,
    /// verbatim, into threshold decryption of the ciphertext.
    pub fn on_document_keys(
        self,
        response: Result<HttpResponse, String>,
        parsed: Option<RawDecryptionKeys>,
    ) -> (r: (DecryptFlow, DecryptAction))
        requires
            self.wf(),
            self.state is AwaitKeys,
        ensures
            r.0.wf(),
            same_decrypt_config(&self, &r.0),
            match response {
                Ok(resp) => {
                    if resp.status_ok {
                        match parsed {
                            Some(raw) => {
                                if Point512::is_rpc_hex(raw.common_point@) && Point512::is_rpc_hex(
                                    raw.decrypted_secret@,
                                ) {
                                    &&& r.0.state is AwaitDecryption
                                    &&& (r.1 matches DecryptAction::ShadowDecrypt {
                                        decrypted_secret,
                                        common_point,
                                        decrypt_shadows,
                                        data,
                                    } && decrypted_secret@ == seq!['0', 'x'] + hex_str_of(
                                        bytes_of_hex(raw.decrypted_secret@.skip(2)),
                                    ) && common_point@ == seq!['0', 'x'] + hex_str_of(
                                        bytes_of_hex(raw.common_point@.skip(2)),
                                    ) && decrypt_shadows == raw.decrypt_shadows && data
                                        == self.encrypted_document)
                                } else {
                                    &&& r.0.state matches DecryptState::Failed {
                                        error: Error::Encoding,
                                    }
                                    &&& r.1 is Halt
                                }
                            },
                            None => {
                                &&& r.0.state matches DecryptState::Failed {
                                    error: Error::Encoding,
                                }
                                &&& r.1 is Halt
                            },
                        }
                    } else {
                        &&& (r.0.state matches DecryptState::Failed { error }
                            && is_classified_failure(error, resp.body@))
                        &&& r.1 is Halt
                    }
                },
                Err(m) => {
                    &&& (r.0.state matches DecryptState::Failed { error: Error::Transport(t) }
                        && t == m)
                    &&& r.1 is Halt
                },
            },
    {
        let DecryptFlow { address, password, document_id, encrypted_document, state } = self;
        match response {
            Ok(resp) => {
                match parse_shadow_response(resp) {
                    Ok(_text) => {
                        match parsed {
                            Some(raw) => {
                                match DecryptionKeys::from_raw(raw) {
                                    Some(keys) => {
                                        let data = encrypted_document.clone();
                                        let action = DecryptAction::ShadowDecrypt {
                                            decrypted_secret: with_hex_marker(
                                                keys.decrypted_secret.to_hex().as_str(),
                                            ),
                                            common_point: with_hex_marker(
                                                keys.common_point.to_hex().as_str(),
                                            ),
                                            decrypt_shadows: keys.decrypt_shadows,
                                            data,
                                        };
                                        let flow = DecryptFlow {
                                            address,
                                            password,
                                            document_id,
                                            encrypted_document,
                                            state: DecryptState::AwaitDecryption,
                                        };
                                        (flow, action)
                                    },
                                    None => {
                                        let flow = DecryptFlow {
                                            address,
                                            password,
                                            document_id,
                                            encrypted_document,
                                            state: DecryptState::Failed { error: Error::Encoding },
                                        };
                                        (flow, DecryptAction::Halt)
                                    },
                                }
                            },
                            None => {
                                let flow = DecryptFlow {
                                    address,
                                    password,
                                    document_id,
                                    encrypted_document,
                                    state: DecryptState::Failed { error: Error::Encoding },
                                };
                                (flow, DecryptAction::Halt)
                            },
                        }
                    },
                    Err(e) => {
                        let flow = DecryptFlow {
                            address,
                            password,
                            document_id,
                            encrypted_document,
                            state: DecryptState::Failed { error: e },
                        };
                        (flow, DecryptAction::Halt)
                    },
                }
            },
            Err(m) => {
                let flow = DecryptFlow {
                    address,
                    password,
                    document_id,
                    encrypted_document,
                    state: DecryptState::Failed { error: Error::Transport(m) },
                };
                (flow, DecryptAction::Halt)
            },
        }
    }

    /// Consumes the threshold-decryption result, ending the run. The
    /// returned hex text is stripped of its "0x", hex-decoded and
    /// UTF-8-decoded; the cleartext is exactly `decrypt_output` of the
    /// returned text, and any mismatch is an encoding failure.
    pub fn on_decrypted(self, result: Result<String, String>) -> (r: (DecryptFlow, DecryptAction))
        requires
            self.wf(),
            self.state is AwaitDecryption,
        ensures
            r.0.wf(),
            same_decrypt_config(&self, &r.0),
            r.1 is Halt,
            match result {
                Ok(t) => {
                    match decrypt_output(t@) {
                        Some(clear) => r.0.state matches DecryptState::Done { cleartext }
                            && cleartext@ == clear,
                        None => r.0.state matches DecryptState::Failed { error: Error::Encoding },
                    }
                },
                Err(m) => r.0.state matches DecryptState::Failed { error: Error::Transport(t) }
                    && t == m,
            },
    {
        let DecryptFlow { address, password, document_id, encrypted_document, state } = self;
        let new_state = match result {
            Ok(t) => {
                let stripped = strip_hex_prefixes(t.as_str());
                match crate::hexcodec::hex_decode(stripped.as_str()) {
                    Some(bytes) => {
                        match bytes_to_utf8_string(bytes) {
                            Some(cleartext) => DecryptState::Done { cleartext },
                            None => DecryptState::Failed { error: Error::Encoding },
                        }
                    },
                    None => DecryptState::Failed { error: Error::Encoding },
                }
            },
            Err(m) => DecryptState::Failed { error: Error::Transport(m) },
        };
        let flow = DecryptFlow {
            address,
            password,
            document_id,
            encrypted_document,
            state: new_state,
        };
        (flow, DecryptAction::Halt)
    }

    /// Whether the run has reached a terminal state.
    pub fn finished(&self) -> (b: bool)
        ensures
            b == (self.state is Done || self.state is Failed),
    {
        match &self.state {
            DecryptState::Done { .. } => true,
            DecryptState::Failed { .. } => true,
            _ => false,
        }
    }

    /// The outcome of a finished run: the cleartext, or the one typed
    /// error the run failed with.
    pub fn into_result(self) -> (r: Result<String, Error>)
        requires
            self.state is Done || self.state is Failed,
        ensures
            (self.state matches DecryptState::Done { cleartext } ==> r == Ok::<String, Error>(
                cleartext,
            )),
            (self.state matches DecryptState::Failed { error } ==> r == Err::<String, Error>(
                error,
            )),
    {
        match self.state {
            DecryptState::Done { cleartext } => Ok(cleartext),
            DecryptState::Failed { error } => Err(error),
            _ => {
                proof {
                    assert(false);
                }
                Err(Error::Encoding)
            },
        }
    }
}

/// Renders a string's UTF-8 bytes as lowercase hex.
fn hex_bytes_of_str(s: &str) -> (r: String)
    ensures
        r@ == hex_str_of(vstd::utf8::encode_utf8(s@)),
{
    crate::hexcodec::hex_encode(s.as_bytes())
}

} // verus!
