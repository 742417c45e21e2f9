use massa::keys::{Address, Key32, PrivateKey};
use massa::wallet::Wallet;

fn k(n: u64) -> PrivateKey {
    PrivateKey(Key32 { w0: n, w1: 1, w2: 2, w3: 3 })
}

fn a(n: u64) -> Address {
    Address(Key32 { w0: 0, w1: 0, w2: 0, w3: n })
}

#[test]
fn add_private_key_skips_known_keys() {
    let mut w = Wallet::new("wallet.json", Some(vec![k(1)]));
    assert!(!w.add_private_key(k(1)));
    assert_eq!(w.keys(), &vec![k(1)]);
    assert!(w.add_private_key(k(2)));
    assert_eq!(w.keys(), &vec![k(1), k(2)]);
    assert_eq!(w.wallet_path(), "wallet.json");
}

#[test]
fn find_key_by_address() {
    let w = Wallet::new("", Some(vec![k(1), k(2), k(3)]));
    let derived = vec![Some(a(10)), None, Some(a(10))];
    assert_eq!(w.find_associated_private_key(a(10), &derived), Some(&k(1)));
    let derived = vec![None, Some(a(20)), Some(a(30))];
    assert_eq!(w.find_associated_private_key(a(30), &derived), Some(&k(3)));
    assert_eq!(w.find_associated_private_key(a(40), &derived), None);
}

#[test]
fn address_list() {
    let w = Wallet::new("w.json", Some(vec![k(1), k(2)]));
    assert_eq!(w.get_wallet_address_list(&vec![Some(a(1)), Some(a(2))]), vec![a(1), a(2)]);
    let empty = Wallet::new("w.json", None);
    assert!(empty.keys().is_empty());
    assert!(empty.get_wallet_address_list(&vec![]).is_empty());
}
