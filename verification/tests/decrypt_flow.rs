//! The decryption orchestration, driven with scripted remote
//! outcomes: the round trip back to the plaintext, the not-found
//! failure for unknown ids, and the decoding failure modes.

use secretstore::blockchain::{DecryptAction, DecryptFlow};
use secretstore::errors::Error;
use secretstore::types::{HttpResponse, RawDecryptionKeys};
use secretstore::CryptoSecretStore;

const DOC1_ID: &str = "bb0e4f49443794d901e8969ff11bd112e34208a0dcdf0e1eedb480cc9b3c7293";

fn store() -> CryptoSecretStore {
    CryptoSecretStore::new("27d39a0fe767025e7ea0f78dccd4665929e3a8f2", "alicepwd")
}

fn ok_response(body: &str) -> Result<HttpResponse, String> {
    Ok(HttpResponse { status_ok: true, body: body.to_string() })
}

fn failed_response(body: &str) -> Result<HttpResponse, String> {
    Ok(HttpResponse { status_ok: false, body: body.to_string() })
}

fn raw_keys() -> RawDecryptionKeys {
    RawDecryptionKeys {
        common_point: format!("0x{}", "11".repeat(64)),
        decrypted_secret: format!("0x{}", "33".repeat(64)),
        decrypt_shadows: vec!["0xshadow1".to_string(), "0xshadow2".to_string()],
    }
}

#[test]
fn decrypt_happy_path() {
    // The cluster returns the hex the encryption run sent: the run
    // recovers exactly the original plaintext.
    let mut store = store();
    let (flow, action) = store.decrypt("doc-1", "0x636970686572");
    match &action {
        DecryptAction::SignRawHash { raw_hash } => assert_eq!(raw_hash, DOC1_ID),
        _ => panic!("expected a signing request"),
    }

    let (flow, action) = flow.on_signature(Ok("\"0xs1g\"".to_string()));
    match &action {
        DecryptAction::FetchDocumentKey { query } => {
            assert_eq!(query, &format!("{}/s1g", DOC1_ID));
        },
        _ => panic!("expected key retrieval"),
    }

    let (flow, action) = flow.on_document_keys(ok_response("{json}"), Some(raw_keys()));
    match &action {
        DecryptAction::ShadowDecrypt { decrypted_secret, common_point, decrypt_shadows, data } => {
            assert_eq!(decrypted_secret, &format!("0x{}", "33".repeat(64)));
            assert_eq!(common_point, &format!("0x{}", "11".repeat(64)));
            assert_eq!(decrypt_shadows.len(), 2);
            assert_eq!(decrypt_shadows[0], "0xshadow1");
            assert_eq!(data, "0x636970686572");
        },
        _ => panic!("expected threshold decryption"),
    }

    let (flow, action) = flow.on_decrypted(Ok("0x48656c6c6f20576f726c64".to_string()));
    assert!(matches!(action, DecryptAction::Halt));
    assert_eq!(flow.into_result(), Ok("Hello World".to_string()));
}

#[test]
fn unknown_id_is_not_found() {
    // Decryption for an id never encrypted-and-persisted fails with
    // the not-found signal, never silent garbage.
    let mut store = store();
    let (flow, _) = store.decrypt("never-encrypted", "0xdead");
    let (flow, _) = flow.on_signature(Ok("sig".to_string()));
    let (flow, action) = flow.on_document_keys(
        failed_response("Server key with this ID is not found."),
        None,
    );
    assert!(matches!(action, DecryptAction::Halt));
    assert_eq!(flow.into_result(), Err(Error::KeyNotFound));
}

#[test]
fn missing_parse_is_encoding_error() {
    let mut store = store();
    let (flow, _) = store.decrypt("doc-1", "0xdead");
    let (flow, _) = flow.on_signature(Ok("sig".to_string()));
    let (flow, _) = flow.on_document_keys(ok_response("not json"), None);
    assert_eq!(flow.into_result(), Err(Error::Encoding));
}

#[test]
fn malformed_secret_is_encoding_error() {
    let mut store = store();
    let (flow, _) = store.decrypt("doc-1", "0xdead");
    let (flow, _) = flow.on_signature(Ok("sig".to_string()));
    let mut keys = raw_keys();
    keys.decrypted_secret = "33".repeat(64);
    let (flow, _) = flow.on_document_keys(ok_response("{json}"), Some(keys));
    assert_eq!(flow.into_result(), Err(Error::Encoding));
}

#[test]
fn odd_hex_cleartext_is_encoding_error() {
    let mut store = store();
    let (flow, _) = store.decrypt("doc-1", "0xdead");
    let (flow, _) = flow.on_signature(Ok("sig".to_string()));
    let (flow, _) = flow.on_document_keys(ok_response("{json}"), Some(raw_keys()));
    let (flow, _) = flow.on_decrypted(Ok("0xabc".to_string()));
    assert_eq!(flow.into_result(), Err(Error::Encoding));
}

#[test]
fn invalid_utf8_cleartext_is_encoding_error() {
    let mut store = store();
    let (flow, _) = store.decrypt("doc-1", "0xdead");
    let (flow, _) = flow.on_signature(Ok("sig".to_string()));
    let (flow, _) = flow.on_document_keys(ok_response("{json}"), Some(raw_keys()));
    // 0xff is never valid UTF-8.
    let (flow, _) = flow.on_decrypted(Ok("0xff".to_string()));
    assert_eq!(flow.into_result(), Err(Error::Encoding));
}

#[test]
fn decrypt_transport_failure_is_fatal() {
    let mut store = store();
    let (flow, _) = store.decrypt("doc-1", "0xdead");
    let (flow, _) = flow.on_signature(Ok("sig".to_string()));
    let (flow, _) = flow.on_document_keys(Err("timeout".to_string()), None);
    assert_eq!(flow.into_result(), Err(Error::Transport("timeout".to_string())));
}

#[test]
fn ids_agree_across_encrypt_and_decrypt() {
    // The same working id derives the same canonical id in both runs;
    // the signing requests carry it verbatim.
    let mut store = store();
    let (_, enc_action) = store.encrypt("doc-42", "payload", 1);
    let (_, dec_action) = store.decrypt("doc-42", "0xdead");
    let enc_hash = match enc_action {
        secretstore::blockchain::EncryptAction::SignRawHash { raw_hash } => raw_hash,
        _ => panic!("expected a signing request"),
    };
    let dec_hash = match dec_action {
        DecryptAction::SignRawHash { raw_hash } => raw_hash,
        _ => panic!("expected a signing request"),
    };
    assert_eq!(enc_hash, dec_hash);
}
