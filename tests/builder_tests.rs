use btc_wallet::address::p2wpkh_script_pubkey;
use btc_wallet::builder::{build_transaction_with_fee, fee_per_byte_from_percentiles, BuildError, FeeSearch, FeeStep, MAX_FEE_ROUNDS};
use btc_wallet::hashing::hash160;
use btc_wallet::signer::{apply_signatures, sighashes, SpendKind};
use btc_wallet::tx::SEQUENCE_RBF;
use btc_wallet::wallet::JsonOutPoint;

fn utxos(values: &[u64]) -> Vec<(JsonOutPoint, u64)> {
    values
        .iter()
        .enumerate()
        .map(|(i, v)| (JsonOutPoint::new(vec![i as u8 + 1; 32], i as u32), *v))
        .collect()
}

fn own_script() -> Vec<u8> {
    let pk = hex::decode("0279be667ef9dcbbac55a06295ce870b07029bfcdb2dce28d959f2815b16f81798").unwrap();
    p2wpkh_script_pubkey(&hash160(&pk))
}

fn dst_script() -> Vec<u8> {
    let mut s = vec![0x00u8, 0x14];
    s.extend_from_slice(&[0xabu8; 20]);
    s
}

#[test]
fn insufficient_funds_reports_shortfall() {
    let u = utxos(&[200, 300]);
    for fee in [0u64, 1, 250, 10_000] {
        let r = build_transaction_with_fee(&u, &own_script(), &dst_script(), 1000, fee);
        assert_eq!(r.unwrap_err(), BuildError::InsufficientFunds { available: 500, required: 1000 + fee as u128 });
    }
}

#[test]
fn empty_utxo_set_is_insufficient() {
    let r = build_transaction_with_fee(&Vec::new(), &own_script(), &dst_script(), 1, 0);
    assert_eq!(r.unwrap_err(), BuildError::InsufficientFunds { available: 0, required: 1 });
}

#[test]
fn greedy_selection_stops_once_covered() {
    let u = utxos(&[4000, 3000, 5000, 7000]);
    let tx = build_transaction_with_fee(&u, &own_script(), &dst_script(), 6000, 500).unwrap();
    assert_eq!(tx.input.len(), 2);
    assert_eq!(tx.input[0].txid, vec![1u8; 32]);
    assert_eq!(tx.input[1].vout, 1);
    assert!(tx.input.iter().all(|i| i.sequence == SEQUENCE_RBF && i.witness.is_empty() && i.script_sig.is_empty()));
    assert_eq!(tx.version, 2);
    assert_eq!(tx.lock_time, 0);
    assert_eq!(tx.output.len(), 1);
    assert_eq!(tx.output[0].value, 6000);
    assert_eq!(tx.output[0].script_pubkey, dst_script());
}

#[test]
fn dust_remainder_goes_to_the_fee() {
    let u = utxos(&[10_000]);
    let tx = build_transaction_with_fee(&u, &own_script(), &dst_script(), 8_500, 501).unwrap();
    assert_eq!(tx.output.len(), 1);
    assert_eq!(tx.output.iter().map(|o| o.value).sum::<u64>(), 8_500);
}

#[test]
fn change_at_threshold_is_paid_back() {
    let u = utxos(&[10_000]);
    let tx = build_transaction_with_fee(&u, &own_script(), &dst_script(), 8_500, 500).unwrap();
    assert_eq!(tx.output.len(), 2);
    assert_eq!(tx.output[1].value, 1_000);
    assert_eq!(tx.output[1].script_pubkey, own_script());
    let tx = build_transaction_with_fee(&u, &own_script(), &dst_script(), 1_000, 300).unwrap();
    assert_eq!(tx.output[1].value, 8_700);
}

#[test]
fn fee_rate_from_percentiles() {
    assert_eq!(fee_per_byte_from_percentiles(&Vec::new()), 2000);
    let p: Vec<u64> = (0..100).map(|i| 1000 + i).collect();
    assert_eq!(fee_per_byte_from_percentiles(&p), 1050);
}

#[test]
fn fee_search_steps() {
    let mut s = FeeSearch::new(2000);
    assert_eq!(s.observe(200), FeeStep::Retry);
    assert_eq!(s.fee, 400);
    assert_eq!(s.rounds, 1);
    assert_eq!(s.observe(200), FeeStep::Converged);
    assert_eq!(s.fee, 400);
    let mut t = FeeSearch::new(1500);
    assert_eq!(t.observe(0), FeeStep::Converged);
    let mut u = FeeSearch::new(u64::MAX);
    assert_eq!(u.observe(u64::MAX), FeeStep::GaveUp);
}

#[test]
fn fee_search_gives_up_after_the_round_limit() {
    let mut s = FeeSearch::new(1000);
    let mut steps = 0u32;
    let mut size = 100u64;
    loop {
        steps += 1;
        size += 1;
        match s.observe(size) {
            FeeStep::Retry => assert!(steps < MAX_FEE_ROUNDS),
            FeeStep::GaveUp => break,
            FeeStep::Converged => panic!("sizes never repeat"),
        }
    }
    assert_eq!(steps, MAX_FEE_ROUNDS);
}

fn fake_signature(i: usize) -> Vec<u8> {
    let mut s = vec![0x5au8; 64];
    s[0] = 0x80 | i as u8;
    s[32] = 0x01;
    s
}

#[test]
fn fee_convergent_build_matches_signed_size() {
    let u = utxos(&[30_000, 20_000, 50_000]);
    let pk = hex::decode("0279be667ef9dcbbac55a06295ce870b07029bfcdb2dce28d959f2815b16f81798").unwrap();
    let mut search = FeeSearch::new(2000);
    let mut rounds = 0;
    let (tx, size) = loop {
        rounds += 1;
        let tx = build_transaction_with_fee(&u, &own_script(), &dst_script(), 45_000, search.fee).unwrap();
        let hashes = sighashes(SpendKind::P2wpkh, &tx, &own_script(), &u).unwrap();
        let sigs: Vec<Vec<u8>> = (0..hashes.len()).map(fake_signature).collect();
        let signed = apply_signatures(SpendKind::P2wpkh, tx.clone(), &sigs, &pk).unwrap();
        let size = signed.total_size();
        match search.observe(size) {
            FeeStep::Converged => break (tx, size),
            FeeStep::Retry => continue,
            FeeStep::GaveUp => panic!("fee did not converge"),
        }
    };
    assert!(rounds <= 4);
    assert_eq!(size * 2000 / 1000, search.fee);
    let total_in: u64 = u[..tx.input.len()].iter().map(|e| e.1).sum();
    let total_out: u64 = tx.output.iter().map(|o| o.value).sum();
    assert_eq!(total_in - total_out, search.fee);
}

fn to_bitcoin(tx: &btc_wallet::tx::Transaction) -> bitcoin::Transaction {
    bitcoin::consensus::deserialize(&tx.serialize()).unwrap()
}

#[test]
fn segwit_signing_embeds_der_and_key() {
    let u = utxos(&[30_000, 20_000]);
    let pk = hex::decode("0279be667ef9dcbbac55a06295ce870b07029bfcdb2dce28d959f2815b16f81798").unwrap();
    let tx = build_transaction_with_fee(&u, &own_script(), &dst_script(), 40_000, 1_000).unwrap();
    let hashes = sighashes(SpendKind::P2wpkh, &tx, &own_script(), &u).unwrap();
    let btx = to_bitcoin(&tx);
    let mut cache = bitcoin::sighash::SighashCache::new(&btx);
    for (i, h) in hashes.iter().enumerate() {
        let expected = cache
            .p2wpkh_signature_hash(
                i,
                bitcoin::Script::from_bytes(&own_script()),
                bitcoin::Amount::from_sat(u[i].1),
                bitcoin::EcdsaSighashType::All,
            )
            .unwrap();
        assert_eq!(h.as_slice(), &bitcoin::hashes::Hash::to_byte_array(expected)[..]);
    }
    assert_ne!(hashes[0], hashes[1]);
    let sigs: Vec<Vec<u8>> = (0..2).map(fake_signature).collect();
    let signed = apply_signatures(SpendKind::P2wpkh, tx.clone(), &sigs, &pk).unwrap();
    for (i, input) in signed.input.iter().enumerate() {
        assert!(input.script_sig.is_empty());
        assert_eq!(input.witness.len(), 2);
        let mut field = btc_wallet::der::sec1_to_der(sigs[i].clone());
        field.push(1);
        assert_eq!(input.witness[0], field);
        assert_eq!(input.witness[1], pk);
        assert!(bitcoin::ecdsa::Signature::from_slice(&input.witness[0]).is_ok());
    }
    assert_eq!(signed.output.len(), tx.output.len());
}

#[test]
fn legacy_signing_builds_script_sig() {
    let u = utxos(&[30_000]);
    let pk = hex::decode("0279be667ef9dcbbac55a06295ce870b07029bfcdb2dce28d959f2815b16f81798").unwrap();
    let script = btc_wallet::address::p2wpkh_script_code(&hash160(&pk));
    let tx = build_transaction_with_fee(&u, &script, &dst_script(), 20_000, 1_000).unwrap();
    let hashes = sighashes(SpendKind::P2pkh, &tx, &script, &u).unwrap();
    let btx = to_bitcoin(&tx);
    let expected = bitcoin::sighash::SighashCache::new(&btx)
        .legacy_signature_hash(0, bitcoin::Script::from_bytes(&script), 1)
        .unwrap();
    assert_eq!(hashes[0].as_slice(), &bitcoin::hashes::Hash::to_byte_array(expected)[..]);
    let sigs = vec![fake_signature(3)];
    let signed = apply_signatures(SpendKind::P2pkh, tx, &sigs, &pk).unwrap();
    let mut field = btc_wallet::der::sec1_to_der(sigs[0].clone());
    field.push(1);
    let mut expected_sig = vec![field.len() as u8];
    expected_sig.extend_from_slice(&field);
    expected_sig.push(33);
    expected_sig.extend_from_slice(&pk);
    assert_eq!(signed.input[0].script_sig, expected_sig);
    assert!(signed.input[0].witness.is_empty());
}

#[test]
fn signing_rejects_bad_signatures() {
    let u = utxos(&[30_000, 20_000]);
    let pk = vec![2u8; 33];
    let tx = build_transaction_with_fee(&u, &own_script(), &dst_script(), 40_000, 0).unwrap();
    let short = apply_signatures(SpendKind::P2wpkh, tx.clone(), &vec![fake_signature(0)], &pk);
    assert_eq!(short.unwrap_err(), btc_wallet::signer::SignError::SignatureCount { expected: 2, actual: 1 });
    let mut zero_r = fake_signature(1);
    for b in zero_r[..32].iter_mut() {
        *b = 0;
    }
    let bad = apply_signatures(SpendKind::P2wpkh, tx, &vec![fake_signature(0), zero_r], &pk);
    assert_eq!(bad.unwrap_err(), btc_wallet::signer::SignError::InvalidSignature { index: 1 });
}

#[test]
fn segwit_digest_needs_a_p2wpkh_script() {
    let u = utxos(&[30_000]);
    let pk = hex::decode("0279be667ef9dcbbac55a06295ce870b07029bfcdb2dce28d959f2815b16f81798").unwrap();
    let legacy_script = btc_wallet::address::p2wpkh_script_code(&hash160(&pk));
    let tx = build_transaction_with_fee(&u, &own_script(), &dst_script(), 20_000, 0).unwrap();
    let r = sighashes(SpendKind::P2wpkh, &tx, &legacy_script, &u);
    assert_eq!(r.unwrap_err(), btc_wallet::signer::SignError::SighashUnavailable { index: 0 });
}

#[test]
fn zero_target_spends_nothing() {
    let u = utxos(&[5_000]);
    let tx = build_transaction_with_fee(&u, &own_script(), &dst_script(), 0, 0).unwrap();
    assert!(tx.input.is_empty());
    assert_eq!(tx.output.len(), 1);
    assert_eq!(tx.output[0].value, 0);
}

#[test]
fn exact_cover_has_no_change() {
    let u = utxos(&[600, 400, 9_000]);
    let tx = build_transaction_with_fee(&u, &own_script(), &dst_script(), 900, 100).unwrap();
    assert_eq!(tx.input.len(), 2);
    assert_eq!(tx.output.len(), 1);
    assert_eq!(tx.output[0].value, 900);
}
