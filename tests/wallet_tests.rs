use btc_wallet::derivation::{derivation_path, Account};
use btc_wallet::wallet::{JsonOutPoint, WalletState};

#[test]
fn push_utxo_overwrites_by_outpoint() {
    let mut state = WalletState::init();
    let a = JsonOutPoint::new(vec![1u8; 32], 0);
    let b = JsonOutPoint::new(vec![1u8; 32], 1);
    state.push_utxo(&a, 500);
    state.push_utxo(&b, 700);
    state.push_utxo(&a, 900);
    let utxos = state.get_utxo();
    assert_eq!(utxos.len(), 2);
    assert_eq!(utxos[0].0.txid(), &[1u8; 32][..]);
    assert_eq!(utxos[0].0.vout(), 0);
    assert_eq!(utxos[0].1, 900);
    assert_eq!(utxos[1].0.vout(), 1);
    assert_eq!(utxos[1].1, 700);
}

#[test]
fn empty_wallet_has_no_utxos() {
    assert!(WalletState::init().get_utxo().is_empty());
}

#[test]
fn derivation_path_layout() {
    let account = Account { owner: vec![7u8, 8, 9], subaccount: None };
    assert_eq!(derivation_path(&account), vec![vec![1u8], vec![7u8, 8, 9], vec![0u8; 32]]);
    let mut sub = [0u8; 32];
    sub[31] = 5;
    let other = Account { owner: vec![7u8, 8, 9], subaccount: Some(sub) };
    assert_eq!(derivation_path(&other)[2], sub.to_vec());
    assert_ne!(derivation_path(&account), derivation_path(&other));
    let zero_sub = Account { owner: vec![7u8, 8, 9], subaccount: Some([0u8; 32]) };
    assert_eq!(derivation_path(&account), derivation_path(&zero_sub));
    assert_eq!(derivation_path(&account), derivation_path(&account.clone()));
}

#[test]
fn record_utxos_merges_in_order() {
    let mut state = WalletState::init();
    state.push_utxo(&JsonOutPoint::new(vec![3u8; 32], 2), 100);
    let reported = vec![(vec![4u8; 32], 0u32, 250u64), (vec![3u8; 32], 2, 400), (vec![4u8; 32], 0, 260)];
    assert_eq!(state.record_utxos(&reported), Ok(()));
    let utxos = state.get_utxo();
    assert_eq!(utxos.len(), 2);
    assert_eq!((utxos[0].0.txid().to_vec(), utxos[0].0.vout(), utxos[0].1), (vec![3u8; 32], 2, 400));
    assert_eq!((utxos[1].0.txid().to_vec(), utxos[1].0.vout(), utxos[1].1), (vec![4u8; 32], 0, 260));
}

#[test]
fn record_utxos_rejects_short_txid_without_change() {
    let mut state = WalletState::init();
    state.push_utxo(&JsonOutPoint::new(vec![3u8; 32], 2), 100);
    let reported = vec![(vec![4u8; 32], 0u32, 250u64), (vec![5u8; 31], 1, 10)];
    assert_eq!(state.record_utxos(&reported), Err(1));
    let utxos = state.get_utxo();
    assert_eq!(utxos.len(), 1);
    assert_eq!(utxos[0].1, 100);
}
