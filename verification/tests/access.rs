//! The access-control client: the grant sequence with its fixed gas
//! ceiling, the read-only permission query, and the bootstrap
//! decision for the contract address.

use secretstore::acl::{
    interpret_permission_result, BootstrapAction, GrantAction, GRANT_GAS_LIMIT,
};
use secretstore::errors::Error;
use secretstore::types::Address;
use secretstore::CryptoSecretStore;

const DOC1_ID: &str = "bb0e4f49443794d901e8969ff11bd112e34208a0dcdf0e1eedb480cc9b3c7293";

fn store() -> CryptoSecretStore {
    CryptoSecretStore::new("27d39a0fe767025e7ea0f78dccd4665929e3a8f2", "alicepwd")
}

#[test]
fn grant_happy_path() {
    let mut store = store();
    let grantee = Address::from_hex("27d39a0fe767025e7ea0f78dccd4665929e3a8f2").unwrap();
    let (flow, action) = store.allow_access("doc-1", vec![grantee]);
    match &action {
        GrantAction::EstimateGas { document_id, addresses } => {
            assert_eq!(document_id, DOC1_ID);
            assert_eq!(addresses.len(), 1);
            assert_eq!(addresses[0], "27d39a0fe767025e7ea0f78dccd4665929e3a8f2");
        },
        _ => panic!("expected gas estimation"),
    }

    let (flow, action) = flow.on_gas_estimate(Ok("21000".to_string()));
    match &action {
        GrantAction::SubmitGrant { document_id, addresses, gas } => {
            assert_eq!(document_id, DOC1_ID);
            assert_eq!(addresses.len(), 1);
            // The estimate is diagnostic only: the fixed ceiling goes out.
            assert_eq!(*gas, GRANT_GAS_LIMIT);
            assert_eq!(*gas, 8000000);
        },
        _ => panic!("expected transaction submission"),
    }

    let (flow, action) = flow.on_submitted(Ok("receipt-1".to_string()));
    assert!(matches!(action, GrantAction::Halt));
    assert!(flow.finished());
    assert_eq!(flow.into_result(), Ok("receipt-1".to_string()));
}

#[test]
fn grant_estimation_failure_is_chain_error() {
    let mut store = store();
    let (flow, _) = store.allow_access("doc-1", vec![]);
    let (flow, action) = flow.on_gas_estimate(Err("gas required exceeds allowance".to_string()));
    assert!(matches!(action, GrantAction::Halt));
    assert_eq!(
        flow.into_result(),
        Err(Error::Chain("gas required exceeds allowance".to_string()))
    );
}

#[test]
fn grant_submission_failure_is_chain_error() {
    let mut store = store();
    let (flow, _) = store.allow_access("doc-1", vec![]);
    let (flow, _) = flow.on_gas_estimate(Ok("1".to_string()));
    let (flow, _) = flow.on_submitted(Err("nonce too low".to_string()));
    assert_eq!(flow.into_result(), Err(Error::Chain("nonce too low".to_string())));
}

#[test]
fn permission_query_uses_canonical_id() {
    let mut store = store();
    let queried = Address::from_hex("1879f9419e6ffb56bff78c76a2576d15a3af0641").unwrap();
    let q = store.check_permissions(queried, "doc-1");
    assert_eq!(q.document_id, DOC1_ID);
    assert_eq!(q.address.to_hex(), "1879f9419e6ffb56bff78c76a2576d15a3af0641");
    // The boolean passes through untouched; faults surface as transport.
    assert_eq!(interpret_permission_result(Ok(true)), Ok(true));
    assert_eq!(interpret_permission_result(Ok(false)), Ok(false));
    assert_eq!(
        interpret_permission_result(Err("no connection".to_string())),
        Err(Error::Transport("no connection".to_string()))
    );
}

#[test]
fn error_messages() {
    assert_eq!(
        Error::KeyAlreadyGenerated.message(),
        "Server key with this ID is already generated."
    );
    assert_eq!(
        Error::KeyAlreadyStored.message(),
        "Document key with this ID is already stored."
    );
    assert_eq!(Error::KeyNotFound.message(), "Server key with this ID is not found.");
    assert_eq!(
        Error::Unknown("boom".to_string()).message(),
        "UnknownError: boom"
    );
    assert_eq!(
        Error::Transport("refused".to_string()).message(),
        "TransportError: refused"
    );
    assert_eq!(
        Error::Chain("nonce".to_string()).message(),
        "ChainError: nonce"
    );
    assert_eq!(
        Error::Encoding.message(),
        "EncodingError: hex or UTF-8 decode failed."
    );
}

#[test]
fn bootstrap_decision() {
    let stored = "32a93089dc00e6b8379c3f3c28ac1df19a575e5f";
    match secretstore::acl::resolve_contract_address(Some(stored)) {
        BootstrapAction::UseExisting { address } => {
            assert_eq!(address.to_hex(), stored);
        },
        BootstrapAction::Deploy => panic!("expected the persisted address to be used"),
    }
    assert!(matches!(
        secretstore::acl::resolve_contract_address(None),
        BootstrapAction::Deploy
    ));
}
