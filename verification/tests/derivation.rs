//! Identifier derivation and the low-level codecs: known digest
//! vectors, determinism, hex round trips, trimming and stripping.

use secretstore::hexcodec::{hex_decode, hex_encode};
use secretstore::ident::derive_id;
use secretstore::textutil::{strip_hex_prefixes, str_contains, trim_wrapping_chars, u32_to_dec};
use secretstore::types::{Address, Point512};
use secretstore::CryptoSecretStore;

#[test]
fn derive_known_vectors() {
    // SHA-256 test vectors: the digest of the handle's bytes, lowercase hex.
    assert_eq!(
        derive_id("abc"),
        "ba7816bf8f01cfea414140de5dae2223b00361a396177a9cb410ff61f20015ad"
    );
    assert_eq!(
        derive_id(""),
        "e3b0c44298fc1c149afbf4c8996fb92427ae41e4649b934ca495991b7852b855"
    );
    assert_eq!(
        derive_id("Hello World"),
        "a591a6d40bf420404a011733cfb7b190d62c65bf0bcda32b57b277d9ad9f146e"
    );
}

#[test]
fn derive_deterministic_and_distinct() {
    // Determinism: equal handles derive equal ids.
    assert_eq!(derive_id("handle-a"), derive_id("handle-a"));
    assert_eq!(derive_id("doc-1"), derive_id("doc-1"));
    // Distinct handles derive distinct ids (sampled).
    assert_ne!(derive_id("handle-a"), derive_id("handle-b"));
    assert_ne!(derive_id("doc-1"), derive_id("doc-2"));
    assert_ne!(derive_id(""), derive_id(" "));
}

#[test]
fn generate_id_matches_derivation() {
    let mut store =
        CryptoSecretStore::new("27d39a0fe767025e7ea0f78dccd4665929e3a8f2", "alicepwd");
    assert_eq!(
        store.generate_id("doc-1"),
        "bb0e4f49443794d901e8969ff11bd112e34208a0dcdf0e1eedb480cc9b3c7293"
    );
    assert_eq!(store.generate_id("x"), store.generate_id("x"));
}

#[test]
fn hex_encode_known() {
    assert_eq!(hex_encode(b"Hello World"), "48656c6c6f20576f726c64");
    assert_eq!(hex_encode(&[]), "");
    assert_eq!(hex_encode(&[0x00, 0xff, 0x0a]), "00ff0a");
}

#[test]
fn hex_decode_round_trip() {
    let bytes = vec![0u8, 1, 15, 16, 127, 128, 255];
    let hex = hex_encode(&bytes);
    assert_eq!(hex_decode(&hex), Some(bytes));
    // Uppercase decodes to the same bytes.
    assert_eq!(hex_decode("FF00"), Some(vec![255u8, 0]));
    assert_eq!(hex_decode("ff00"), Some(vec![255u8, 0]));
    // Odd length and non-hex characters are rejected.
    assert_eq!(hex_decode("abc"), None);
    assert_eq!(hex_decode("0x"), None);
    assert_eq!(hex_decode("zz"), None);
    assert_eq!(hex_decode(""), Some(vec![]));
}

#[test]
fn trimming_and_stripping() {
    assert_eq!(trim_wrapping_chars("\"0xabc\""), "0xabc");
    assert_eq!(trim_wrapping_chars("\\\"abc\\\""), "abc");
    assert_eq!(trim_wrapping_chars("abc"), "abc");
    assert_eq!(trim_wrapping_chars("\"\""), "");
    assert_eq!(strip_hex_prefixes("0xabc"), "abc");
    assert_eq!(strip_hex_prefixes("0x0xabc"), "abc");
    assert_eq!(strip_hex_prefixes("abc"), "abc");
    assert_eq!(strip_hex_prefixes("0x"), "");
}

#[test]
fn contains_and_decimal() {
    assert!(str_contains("the Server key with this ID is not found body", "not found"));
    assert!(!str_contains("short", "much longer needle"));
    assert!(str_contains("abc", ""));
    assert_eq!(u32_to_dec(0), "0");
    assert_eq!(u32_to_dec(1), "1");
    assert_eq!(u32_to_dec(25), "25");
    assert_eq!(u32_to_dec(4294967295), "4294967295");
}

#[test]
fn address_and_point_parsing() {
    let a = Address::from_hex("27d39a0fe767025e7ea0f78dccd4665929e3a8f2").unwrap();
    assert_eq!(a.to_hex(), "27d39a0fe767025e7ea0f78dccd4665929e3a8f2");
    assert!(Address::from_hex("27d39a0fe767025e7ea0f78dccd4665929e3a8f").is_none());
    assert!(Address::from_hex("0x27d39a0fe767025e7ea0f78dccd4665929e3a8").is_none());

    let p_hex: String = "ab".repeat(64);
    let p = Point512::from_bare_hex(&p_hex).unwrap();
    assert_eq!(p.to_hex(), p_hex);
    let rpc = format!("0x{}", "AB".repeat(64));
    let q = Point512::from_rpc_hex(&rpc).unwrap();
    assert_eq!(q.to_hex(), p_hex);
    assert!(Point512::from_rpc_hex(&p_hex).is_none());
    assert!(Point512::from_bare_hex("ab").is_none());
}
