use btc_primitives::{apply_fee, consume_utxo, move_txid, parse_satoshis, Outpoint, TestWallet, Wallet, UTXO};

#[test]
fn consume_is_idempotent() {
    let u = UTXO { txid: vec![0xab, 0xcd], vout: 3, value: 500 };
    let once = consume_utxo(u.clone());
    assert_eq!(once.value, 0);
    assert_eq!(once.txid, u.txid);
    assert_eq!(once.vout, u.vout);
    let twice = consume_utxo(once.clone());
    assert_eq!(twice.value, 0);
    assert_eq!(twice, once);
}

#[test]
fn consume_zero_value() {
    let u = UTXO { txid: vec![], vout: 0, value: 0 };
    assert_eq!(consume_utxo(u.clone()), u);
}

#[test]
fn outpoint_equality() {
    let a = Outpoint { txid: "ab".to_string(), vout: 1 };
    let b = Outpoint { txid: "ab".to_string(), vout: 1 };
    assert_eq!(a, b);
    assert_ne!(a, Outpoint { txid: "ab".to_string(), vout: 2 });
}

#[test]
fn wallet_balance() {
    let w = TestWallet { confirmed: 1234 };
    assert_eq!(w.balance(), 1234);
}

#[test]
fn fee_subtraction() {
    let mut b: u64 = 1000;
    apply_fee(&mut b, 250);
    assert_eq!(b, 750);
    apply_fee(&mut b, 750);
    assert_eq!(b, 0);
}

#[test]
fn satoshi_parsing() {
    assert_eq!(parse_satoshis("500"), Ok(500));
    assert_eq!(parse_satoshis("+42"), Ok(42));
    assert_eq!(parse_satoshis("0007"), Ok(7));
    assert_eq!(parse_satoshis("18446744073709551615"), Ok(u64::MAX));
    for bad in ["", "+", "-1", "12a", " 1", "18446744073709551616"] {
        assert_eq!(parse_satoshis(bad), Err("Invalid satoshi amount".to_string()));
    }
}

#[test]
fn txid_formatting() {
    assert_eq!(move_txid("abcd".to_string()), "txid: abcd");
    assert_eq!(move_txid(String::new()), "txid: ");
}
