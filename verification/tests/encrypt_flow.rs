//! The encryption orchestration, driven with scripted remote
//! outcomes: the happy path for the end-to-end scenario, duplicate
//! rejection, and each failure mode.

use secretstore::blockchain::{EncryptAction, EncryptFlow};
use secretstore::errors::Error;
use secretstore::types::{HttpResponse, RawDocumentKey};
use secretstore::CryptoSecretStore;

const DOC1_ID: &str = "bb0e4f49443794d901e8969ff11bd112e34208a0dcdf0e1eedb480cc9b3c7293";

fn store() -> CryptoSecretStore {
    CryptoSecretStore::new("27d39a0fe767025e7ea0f78dccd4665929e3a8f2", "alicepwd")
}

fn ok_response(body: &str) -> Result<HttpResponse, String> {
    Ok(HttpResponse { status_ok: true, body: body.to_string() })
}

fn failed_response(body: &str) -> Result<HttpResponse, String> {
    Ok(HttpResponse { status_ok: false, body: body.to_string() })
}

#[test]
fn encrypt_happy_path() {
    // The end-to-end scenario, with the cluster's answers scripted:
    // id "doc-1", threshold 1, plaintext "Hello World".
    let mut store = store();
    let (flow, action) = store.encrypt("doc-1", "Hello World", 1);
    let signed = match action {
        EncryptAction::SignRawHash { raw_hash } => {
            assert_eq!(raw_hash, DOC1_ID);
            "\"0x00f1e2d3c4\""
        },
        _ => panic!("expected a signing request"),
    };

    let (flow, action) = flow.on_signature(Ok(signed.to_string()));
    match &action {
        EncryptAction::GenerateServerKey { query } => {
            assert_eq!(query, &format!("{}/00f1e2d3c4/1", DOC1_ID));
        },
        _ => panic!("expected server-key generation"),
    }

    let server_key = "CD".repeat(64);
    let (flow, action) = flow.on_server_key(ok_response(&format!("\"0x{}\"", server_key)));
    match &action {
        EncryptAction::GenerateDocumentKey { server_key_public } => {
            // The canonical rendering is lowercase with one "0x".
            assert_eq!(server_key_public, &format!("0x{}", "cd".repeat(64)));
        },
        _ => panic!("expected document-key generation"),
    }

    let raw = RawDocumentKey {
        common_point: format!("0x{}", "11".repeat(64)),
        encrypted_point: format!("0x{}", "22".repeat(64)),
        encrypted_key: "0xfeedbead".to_string(),
    };
    let (flow, action) = flow.on_document_key(Ok(raw));
    match &action {
        EncryptAction::EncryptDocument { key, data } => {
            assert_eq!(key, "0xfeedbead");
            assert_eq!(data, "0x48656c6c6f20576f726c64");
        },
        _ => panic!("expected remote encryption"),
    }

    let (flow, action) = flow.on_ciphertext(Ok("0x636970686572".to_string()));
    match &action {
        EncryptAction::StoreDocumentKey { query } => {
            assert_eq!(
                query,
                &format!("{}/00f1e2d3c4/{}/{}", DOC1_ID, "11".repeat(64), "22".repeat(64))
            );
        },
        _ => panic!("expected key persistence"),
    }

    let (flow, action) = flow.on_stored(ok_response(""));
    assert!(matches!(action, EncryptAction::Halt));
    assert!(flow.finished());
    assert_eq!(flow.into_result(), Ok("0x636970686572".to_string()));
}

fn flow_at_server_key() -> EncryptFlow {
    let mut store = store();
    let (flow, _) = store.encrypt("doc-1", "Hello World", 1);
    let (flow, _) = flow.on_signature(Ok("\"0xsig\"".to_string()));
    flow
}

#[test]
fn duplicate_generation_is_rejected() {
    // A second encryption run for the same id observes the cluster's
    // duplicate rejection, never a silent overwrite.
    let flow = flow_at_server_key();
    let (flow, action) = flow.on_server_key(failed_response(
        "Server key with this ID is already generated.",
    ));
    assert!(matches!(action, EncryptAction::Halt));
    assert_eq!(flow.into_result(), Err(Error::KeyAlreadyGenerated));
}

#[test]
fn duplicate_store_is_rejected() {
    let mut store = store();
    let (flow, _) = store.encrypt("doc-1", "Hello World", 1);
    let (flow, _) = flow.on_signature(Ok("sig".to_string()));
    let (flow, _) = flow.on_server_key(ok_response(&format!("0x{}", "cd".repeat(64))));
    let raw = RawDocumentKey {
        common_point: format!("0x{}", "11".repeat(64)),
        encrypted_point: format!("0x{}", "22".repeat(64)),
        encrypted_key: "k".to_string(),
    };
    let (flow, _) = flow.on_document_key(Ok(raw));
    let (flow, _) = flow.on_ciphertext(Ok("c".to_string()));
    let (flow, _) = flow.on_stored(failed_response(
        "Document key with this ID is already stored.",
    ));
    assert_eq!(flow.into_result(), Err(Error::KeyAlreadyStored));
}

#[test]
fn generation_race_has_one_winner() {
    // Two concurrent runs for one id: the cluster serializes them, the
    // first sees fresh material, the second the duplicate rejection.
    let first = flow_at_server_key();
    let second = flow_at_server_key();
    let (first, action) = first.on_server_key(ok_response(&format!("0x{}", "cd".repeat(64))));
    assert!(matches!(action, EncryptAction::GenerateDocumentKey { .. }));
    assert!(!first.finished());
    let (second, _) = second.on_server_key(failed_response(
        "Server key with this ID is already generated.",
    ));
    assert!(second.finished());
    assert_eq!(second.into_result(), Err(Error::KeyAlreadyGenerated));
}

#[test]
fn transport_failure_is_fatal() {
    let mut store = store();
    let (flow, _) = store.encrypt("doc-1", "Hello World", 1);
    let (flow, action) = flow.on_signature(Err("connection refused".to_string()));
    assert!(matches!(action, EncryptAction::Halt));
    assert_eq!(
        flow.into_result(),
        Err(Error::Transport("connection refused".to_string()))
    );
}

#[test]
fn malformed_server_key_is_encoding_error() {
    let flow = flow_at_server_key();
    let (flow, _) = flow.on_server_key(ok_response("\"0xnot-hex\""));
    assert_eq!(flow.into_result(), Err(Error::Encoding));
}

#[test]
fn malformed_document_key_point_is_encoding_error() {
    let mut store = store();
    let (flow, _) = store.encrypt("doc-1", "Hello World", 1);
    let (flow, _) = flow.on_signature(Ok("sig".to_string()));
    let (flow, _) = flow.on_server_key(ok_response(&format!("0x{}", "cd".repeat(64))));
    let raw = RawDocumentKey {
        common_point: "11".repeat(64),
        encrypted_point: format!("0x{}", "22".repeat(64)),
        encrypted_key: "k".to_string(),
    };
    let (flow, _) = flow.on_document_key(Ok(raw));
    assert_eq!(flow.into_result(), Err(Error::Encoding));
}

#[test]
fn unknown_remote_error_carries_body() {
    let flow = flow_at_server_key();
    let (flow, _) = flow.on_server_key(failed_response("internal node panic"));
    assert_eq!(
        flow.into_result(),
        Err(Error::Unknown("internal node panic".to_string()))
    );
}

#[test]
fn nonempty_store_body_is_unknown_error() {
    let mut store = store();
    let (flow, _) = store.encrypt("doc-1", "Hello World", 1);
    let (flow, _) = flow.on_signature(Ok("sig".to_string()));
    let (flow, _) = flow.on_server_key(ok_response(&format!("0x{}", "cd".repeat(64))));
    let raw = RawDocumentKey {
        common_point: format!("0x{}", "11".repeat(64)),
        encrypted_point: format!("0x{}", "22".repeat(64)),
        encrypted_key: "k".to_string(),
    };
    let (flow, _) = flow.on_document_key(Ok(raw));
    let (flow, _) = flow.on_ciphertext(Ok("c".to_string()));
    let (flow, _) = flow.on_stored(ok_response("\"unexpected\""));
    assert_eq!(flow.into_result(), Err(Error::Unknown("unexpected".to_string())));
}

#[test]
fn empty_plaintext_encodes_as_bare_marker() {
    let mut store = store();
    let (flow, _) = store.encrypt("doc-1", "", 1);
    let (flow, _) = flow.on_signature(Ok("sig".to_string()));
    let (flow, _) = flow.on_server_key(ok_response(&format!("0x{}", "cd".repeat(64))));
    let raw = RawDocumentKey {
        common_point: format!("0x{}", "11".repeat(64)),
        encrypted_point: format!("0x{}", "22".repeat(64)),
        encrypted_key: "k".to_string(),
    };
    let (_, action) = flow.on_document_key(Ok(raw));
    match action {
        EncryptAction::EncryptDocument { data, .. } => assert_eq!(data, "0x"),
        _ => panic!("expected remote encryption"),
    }
}

#[test]
fn threshold_zero_renders_in_query() {
    let mut store = store();
    let (flow, _) = store.encrypt("doc-1", "Hello World", 0);
    let (_, action) = flow.on_signature(Ok("s".to_string()));
    match action {
        EncryptAction::GenerateServerKey { query } => {
            assert_eq!(query, format!("{}/s/0", DOC1_ID));
        },
        _ => panic!("expected server-key generation"),
    }
}
