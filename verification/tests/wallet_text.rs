use massa::wallet_text::{u64_text, wallet_info, wrapped_address_state_text, KeyInfoText};

#[test]
fn decimal_numbers() {
    assert_eq!(u64_text(0), "0");
    assert_eq!(u64_text(7), "7");
    assert_eq!(u64_text(10), "10");
    assert_eq!(u64_text(1234), "1234");
    assert_eq!(u64_text(u64::MAX), "18446744073709551615");
}

#[test]
fn address_state() {
    assert_eq!(
        wrapped_address_state_text("10", "12.5", "0", 3, 4, Some(2)),
        "    final balance: 10\n    candidate balance: 12.5\n    locked balance: 0\n    final rolls: 3\n    candidate rolls: 4\n    active rolls: 2\n"
    );
    assert_eq!(
        wrapped_address_state_text("1", "1", "1", 0, 0, None),
        "    final balance: 1\n    candidate balance: 1\n    locked balance: 1\n    final rolls: 0\n    candidate rolls: 0\n    No active roll\n"
    );
}

#[test]
fn wallet_info_lines() {
    assert_eq!(wallet_info(&vec![]), "WARNING: do not share your private keys\n");
    let keys = vec![
        KeyInfoText {
            private_key: "priv".to_string(),
            public_key: "pub".to_string(),
            address: "addr".to_string(),
            state: Some("    x\n".to_string()),
        },
        KeyInfoText {
            private_key: "p2".to_string(),
            public_key: "k2".to_string(),
            address: "a2".to_string(),
            state: None,
        },
    ];
    assert_eq!(
        wallet_info(&keys),
        "WARNING: do not share your private keys\n\nPrivate key: priv\nPublic key: pub\nAddress: addr\nState: \n    x\n\nPrivate key: p2\nPublic key: k2\nAddress: a2\nNo balance info available. Is your node running?\n"
    );
}
