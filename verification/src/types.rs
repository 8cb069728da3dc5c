//! Plain-value forms of the protocol's data: 160-bit account addresses,
//! 512-bit curve points, the generated document-key material and the
//! retrieved decryption shares. Remote surfaces exchange these as hex
//! strings; here they are byte strings with explicit well-formedness.

use vstd::prelude::*;
use vstd::string::*;
use crate::hexcodec::{bytes_of_hex, hex_decode, hex_encode, hex_str_of, is_hex_seq};

verus! {

/// A 160-bit account address.
pub struct Address {
    pub bytes: Vec<u8>,
}

impl Address {
    /// A well-formed address holds exactly 20 bytes.
    pub open spec fn wf(&self) -> bool {
        self.bytes@.len() == 20
    }

    /// Parses a bare 40-digit hex address, as the chain client's
    /// address parser does: no "0x" prefix, exact length, either case.
    pub fn from_hex(s: &str) -> (r: Option<Address>)
        ensures
            r is Some <==> (s@.len() == 40 && is_hex_seq(s@)),
            r is Some ==> r->Some_0.wf() && r->Some_0.bytes@ == bytes_of_hex(s@),
    {
        if s.unicode_len() != 40 {
            return None;
        }
        match hex_decode(s) {
            Some(b) => Some(Address { bytes: b }),
            None => None,
        }
    }

    /// The lowercase hex rendering of the address.
    pub fn to_hex(&self) -> (r: String)
        ensures
            r@ == hex_str_of(self.bytes@),
    {
        hex_encode(self.bytes.as_slice())
    }

    /// An owned copy of the address.
    pub fn duplicate(&self) -> (r: Address)
        ensures
            r.bytes@ == self.bytes@,
    {
        let mut b: Vec<u8> = Vec::new();
        let mut i: usize = 0;
        while i < self.bytes.len()
            invariant
                i <= self.bytes@.len(),
                b@ =~= self.bytes@.take(i as int),
            decreases self.bytes@.len() - i,
        {
            b.push(self.bytes[i]);
            i = i + 1;
        }
        proof {
            assert(self.bytes@.take(self.bytes@.len() as int) =~= self.bytes@);
        }
        Address { bytes: b }
    }
}

/// A 512-bit public value: a curve point or a threshold-combined secret,
/// as the key servers exchange them.
pub struct Point512 {
    pub bytes: Vec<u8>,
}

impl Point512 {
    /// A well-formed point holds exactly 64 bytes.
    pub open spec fn wf(&self) -> bool {
        self.bytes@.len() == 64
    }

    /// Whether a character sequence is a valid RPC rendering of a
    /// 512-bit value: "0x" followed by exactly 128 hex digits.
    pub open spec fn is_rpc_hex(s: Seq<char>) -> bool {
        s.len() == 130 && s[0] == '0' && s[1] == 'x' && is_hex_seq(s.skip(2))
    }

    /// Parses the RPC rendering of a point, as the fixed-hash
    /// deserializer does: a mandatory "0x" prefix and exactly 128 hex
    /// digits, either case.
    pub fn from_rpc_hex(s: &str) -> (r: Option<Point512>)
        ensures
            r is Some <==> Self::is_rpc_hex(s@),
            r is Some ==> r->Some_0.wf() && r->Some_0.bytes@ == bytes_of_hex(s@.skip(2)),
    {
        let n = s.unicode_len();
        if n != 130 {
            return None;
        }
        if !(s.get_char(0) == '0' && s.get_char(1) == 'x') {
            return None;
        }
        let rest = s.substring_char(2, 130);
        match hex_decode(rest) {
            Some(b) => {
                proof {
                    assert(rest@ == s@.skip(2));
                }
                Some(Point512 { bytes: b })
            },
            None => {
                proof {
                    assert(rest@ == s@.skip(2));
                }
                None
            },
        }
    }

    /// Parses a bare hex rendering of a point: exactly 128 hex digits,
    /// either case, no prefix.
    pub fn from_bare_hex(s: &str) -> (r: Option<Point512>)
        ensures
            r is Some <==> (s@.len() == 128 && is_hex_seq(s@)),
            r is Some ==> r->Some_0.wf() && r->Some_0.bytes@ == bytes_of_hex(s@),
    {
        if s.unicode_len() != 128 {
            return None;
        }
        match hex_decode(s) {
            Some(b) => Some(Point512 { bytes: b }),
            None => None,
        }
    }

    /// The bare lowercase hex rendering: 128 digits, no prefix.
    pub fn to_hex(&self) -> (r: String)
        ensures
            r@ == hex_str_of(self.bytes@),
    {
        hex_encode(self.bytes.as_slice())
    }
}

/// The document-key material as the RPC surface hands it over, before
/// its points are checked and decoded.
pub struct RawDocumentKey {
    pub common_point: String,
    pub encrypted_point: String,
    pub encrypted_key: String,
}

/// The decryption material as the shadow surface hands it over, before
/// its points are checked and decoded. A driver parses the JSON body
/// into these fields verbatim.
pub struct RawDecryptionKeys {
    pub common_point: String,
    pub decrypted_secret: String,
    pub decrypt_shadows: Vec<String>,
}

/// The document-key material produced by the cluster for one document:
/// the common and encrypted points to persist, and the encrypted key
/// under which the document itself is enciphered.
pub struct EncryptedDocumentKey {
    pub common_point: Point512,
    pub encrypted_point: Point512,
    pub encrypted_key: String,
}

impl EncryptedDocumentKey {
    /// Both points are well-formed.
    pub open spec fn wf(&self) -> bool {
        self.common_point.wf() && self.encrypted_point.wf()
    }

    /// Checks and decodes the raw RPC form: both points must be
    /// "0x"-prefixed 512-bit hex, the key passes through verbatim.
    pub fn from_raw(raw: RawDocumentKey) -> (r: Option<EncryptedDocumentKey>)
        ensures
            r is Some <==> (Point512::is_rpc_hex(raw.common_point@) && Point512::is_rpc_hex(
                raw.encrypted_point@,
            )),
            r is Some ==> {
                &&& r->Some_0.wf()
                &&& r->Some_0.common_point.bytes@ == bytes_of_hex(raw.common_point@.skip(2))
                &&& r->Some_0.encrypted_point.bytes@ == bytes_of_hex(raw.encrypted_point@.skip(2))
                &&& r->Some_0.encrypted_key == raw.encrypted_key
            },
    {
        let common = Point512::from_rpc_hex(raw.common_point.as_str());
        let encrypted = Point512::from_rpc_hex(raw.encrypted_point.as_str());
        match (common, encrypted) {
            (Some(common_point), Some(encrypted_point)) => Some(
                EncryptedDocumentKey {
                    common_point,
                    encrypted_point,
                    encrypted_key: raw.encrypted_key,
                },
            ),
            _ => None,
        }
    }
}

/// The decryption material retrieved from the cluster at decrypt time:
/// the common point, the threshold-combined secret, and one shadow per
/// contributing node.
pub struct DecryptionKeys {
    pub common_point: Point512,
    pub decrypted_secret: Point512,
    pub decrypt_shadows: Vec<String>,
}

impl DecryptionKeys {
    /// Both points are well-formed.
    pub open spec fn wf(&self) -> bool {
        self.common_point.wf() && self.decrypted_secret.wf()
    }

    /// Checks and decodes the raw shadow form: both points must be
    /// "0x"-prefixed 512-bit hex, the shadows pass through verbatim.
    pub fn from_raw(raw: RawDecryptionKeys) -> (r: Option<DecryptionKeys>)
        ensures
            r is Some <==> (Point512::is_rpc_hex(raw.common_point@) && Point512::is_rpc_hex(
                raw.decrypted_secret@,
            )),
            r is Some ==> {
                &&& r->Some_0.wf()
                &&& r->Some_0.common_point.bytes@ == bytes_of_hex(raw.common_point@.skip(2))
                &&& r->Some_0.decrypted_secret.bytes@ == bytes_of_hex(
                    raw.decrypted_secret@.skip(2),
                )
                &&& r->Some_0.decrypt_shadows == raw.decrypt_shadows
            },
    {
        let common = Point512::from_rpc_hex(raw.common_point.as_str());
        let secret = Point512::from_rpc_hex(raw.decrypted_secret.as_str());
        match (common, secret) {
            (Some(common_point), Some(decrypted_secret)) => Some(
                DecryptionKeys {
                    common_point,
                    decrypted_secret,
                    decrypt_shadows: raw.decrypt_shadows,
                },
            ),
            _ => None,
        }
    }
}

/// An HTTP response from a shadow key server, reduced to what the
/// protocol reads: whether the status was 2xx, and the body text.
pub struct HttpResponse {
    pub status_ok: bool,
    pub body: String,
}

} // verus!
