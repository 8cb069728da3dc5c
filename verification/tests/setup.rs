//! Session setup.

use secretstore::CryptoSecretStore;
use std::cell::RefCell;
use std::rc::Rc;

#[test]
fn setup1() {
    let address = "27d39a0fe767025e7ea0f78dccd4665929e3a8f2";
    let password = "alicepwd";
    let store = Rc::new(RefCell::new(CryptoSecretStore::new(address, password)));
    assert_eq!(store.borrow().password, password);
}
