use btc_wallet::inscription::{
    build_inscription_transaction, build_reveal_for_commit, build_reveal_transaction, fee_vb, finish_reveal,
    reveal_sighash, InscriptionError,
};
use btc_wallet::script::{reveal_script, Inscription};
use btc_wallet::tx::SEQUENCE_RBF;
use btc_wallet::wallet::JsonOutPoint;

const GX: &str = "79be667ef9dcbbac55a06295ce870b07029bfcdb2dce28d959f2815b16f81798";

fn key() -> Vec<u8> {
    hex::decode(GX).unwrap()
}

fn dst() -> Vec<u8> {
    let mut s = vec![0x00u8, 0x14];
    s.extend_from_slice(&[0xcdu8; 20]);
    s
}

fn utxos() -> Vec<(JsonOutPoint, u64)> {
    vec![(JsonOutPoint::new(vec![9u8; 32], 0), 30_000), (JsonOutPoint::new(vec![8u8; 32], 3), 20_000)]
}

fn spend_info(script: &[u8]) -> bitcoin::taproot::TaprootSpendInfo {
    let secp = bitcoin::secp256k1::Secp256k1::verification_only();
    let k = bitcoin::XOnlyPublicKey::from_slice(&key()).unwrap();
    bitcoin::taproot::TaprootBuilder::new()
        .add_leaf(0, bitcoin::ScriptBuf::from_bytes(script.to_vec()))
        .unwrap()
        .finalize(&secp, k)
        .unwrap()
}

#[test]
fn fee_per_virtual_byte() {
    assert_eq!(fee_vb(2, 150), Some(300));
    assert_eq!(fee_vb(0, 150), Some(0));
    assert_eq!(fee_vb(u64::MAX, 1), None);
    assert_eq!(fee_vb(1, u64::MAX / 2), None);
}

#[test]
fn bare_reveal_script_is_key_and_checksig() {
    let s = reveal_script(&key(), &Inscription::new(None, None));
    let mut expected = vec![0x20u8];
    expected.extend_from_slice(&key());
    expected.push(0xac);
    assert_eq!(s, expected);
}

#[test]
fn reveal_script_carries_the_envelope() {
    let s = reveal_script(&key(), &Inscription::new(Some(b"text/plain".to_vec()), Some(b"hi".to_vec())));
    let mut expected = vec![0x00u8, 0x63, 0x03, b'o', b'r', b'd', 0x01, 0x01, 0x0a];
    expected.extend_from_slice(b"text/plain");
    expected.extend_from_slice(&[0x00, 0x02, b'h', b'i', 0x68, 0x20]);
    expected.extend_from_slice(&key());
    expected.push(0xac);
    assert_eq!(s, expected);
}

#[test]
fn long_body_is_pushed_in_chunks() {
    let body = vec![7u8; 1200];
    let s = reveal_script(&key(), &Inscription::new(None, Some(body)));
    let mut expected = vec![0x00u8, 0x63, 0x03, b'o', b'r', b'd', 0x00];
    for n in [520usize, 520, 160] {
        if n > 255 {
            expected.extend_from_slice(&[0x4d, (n % 256) as u8, (n / 256) as u8]);
        } else {
            expected.extend_from_slice(&[0x4c, n as u8]);
        }
        expected.extend(std::iter::repeat(7u8).take(n));
    }
    expected.push(0x68);
    expected.push(0x20);
    expected.extend_from_slice(&key());
    expected.push(0xac);
    assert_eq!(s, expected);
}

#[test]
fn commit_and_reveal_are_linked() {
    let inscription = Inscription::new(Some(b"text/plain".to_vec()), Some(b"hello".to_vec()));
    let plan = build_inscription_transaction(&utxos(), &dst(), &key(), &inscription, 2).unwrap();
    let info = spend_info(&plan.reveal_script);
    let mut commit_script = vec![0x51u8, 0x20];
    commit_script.extend_from_slice(&info.output_key().to_inner().serialize());
    assert_eq!(plan.commit_script, commit_script);
    let leaf = (bitcoin::ScriptBuf::from_bytes(plan.reveal_script.clone()), bitcoin::taproot::LeafVersion::TapScript);
    assert_eq!(plan.control_block, info.control_block(&leaf).unwrap().serialize());

    let commit = &plan.commit_tx;
    assert_eq!(commit.input.len(), 2);
    assert!(commit.input.iter().all(|i| i.sequence == 0));
    assert_eq!(commit.output.len(), 1);
    assert_eq!(commit.output[0].value, 50_000 - plan.commit_fee);
    let mut full = commit.clone();
    full.output[0].value = 50_000;
    let encoded: bitcoin::Transaction = bitcoin::consensus::deserialize(&full.serialize()).unwrap();
    assert_eq!(plan.commit_fee, 2 * (encoded.vsize() as u64 + 73 * 2));
    assert!(plan.reveal_fee > 0 && plan.reveal_fee % 2 == 0);

    let reveal = build_reveal_for_commit(&plan, commit, &dst()).unwrap();
    let commit_btc: bitcoin::Transaction = bitcoin::consensus::deserialize(&commit.serialize()).unwrap();
    assert_eq!(reveal.input.len(), 1);
    assert_eq!(reveal.input[0].txid, bitcoin::hashes::Hash::to_byte_array(commit_btc.compute_txid()).to_vec());
    assert_eq!(reveal.input[0].vout, 0);
    assert_eq!(reveal.input[0].sequence, SEQUENCE_RBF);
    assert_eq!(commit.output[reveal.input[0].vout as usize].script_pubkey, plan.commit_script);
    assert_eq!(reveal.output.len(), 1);
    assert_eq!(reveal.output[0].value, 50_000 - plan.commit_fee - plan.reveal_fee);
    assert_eq!(reveal.output[0].script_pubkey, dst());

    let h = reveal_sighash(&plan, &reveal, commit.output[0].value).unwrap();
    let reveal_btc: bitcoin::Transaction = bitcoin::consensus::deserialize(&reveal.serialize()).unwrap();
    let prevouts = [bitcoin::TxOut {
        value: bitcoin::Amount::from_sat(commit.output[0].value),
        script_pubkey: bitcoin::ScriptBuf::from_bytes(plan.commit_script.clone()),
    }];
    let leaf_hash = bitcoin::TapLeafHash::from_script(
        bitcoin::Script::from_bytes(&plan.reveal_script),
        bitcoin::taproot::LeafVersion::TapScript,
    );
    let expected = bitcoin::sighash::SighashCache::new(&reveal_btc)
        .taproot_script_spend_signature_hash(
            0,
            &bitcoin::sighash::Prevouts::All(&prevouts),
            leaf_hash,
            bitcoin::TapSighashType::Default,
        )
        .unwrap();
    assert_eq!(h, bitcoin::hashes::Hash::to_byte_array(expected).to_vec());
    let signed = finish_reveal(reveal.clone(), &vec![0x42u8; 64], &plan).unwrap();
    assert_eq!(signed.input[0].witness, vec![vec![0x42u8; 64], plan.reveal_script.clone(), plan.control_block.clone()]);
    assert_eq!(finish_reveal(reveal, &vec![0x42u8; 65], &plan).unwrap_err(), InscriptionError::InvalidSignature);
}

#[test]
fn control_block_proves_only_its_own_leaf() {
    let plan = build_inscription_transaction(&utxos(), &dst(), &key(), &Inscription::new(None, Some(b"x".to_vec())), 1).unwrap();
    let secp = bitcoin::secp256k1::Secp256k1::verification_only();
    let cb = bitcoin::taproot::ControlBlock::decode(&plan.control_block).unwrap();
    let output_key = bitcoin::XOnlyPublicKey::from_slice(&plan.commit_script[2..]).unwrap();
    let leaf = bitcoin::ScriptBuf::from_bytes(plan.reveal_script.clone());
    assert!(cb.verify_taproot_commitment(&secp, output_key, &leaf));
    let other = bitcoin::ScriptBuf::from_bytes(reveal_script(&key(), &Inscription::new(None, Some(b"y".to_vec()))));
    assert!(!cb.verify_taproot_commitment(&secp, output_key, &other));
}

#[test]
fn inscription_needs_funds_for_both_fees() {
    let small = vec![(JsonOutPoint::new(vec![9u8; 32], 0), 300)];
    let r = build_inscription_transaction(&small, &dst(), &key(), &Inscription::new(None, None), 2);
    match r {
        Err(InscriptionError::InsufficientFunds { available, required }) => {
            assert_eq!(available, 300);
            assert!(required > 300);
        },
        _ => panic!("expected insufficient funds"),
    }
}

#[test]
fn invalid_internal_key_has_no_taproot_output() {
    let r = build_inscription_transaction(&utxos(), &dst(), &vec![0xffu8; 32], &Inscription::new(None, None), 2);
    assert!(matches!(r, Err(InscriptionError::Taproot)));
}

#[test]
fn reveal_without_commitment_output_is_refused() {
    let plan = build_inscription_transaction(&utxos(), &dst(), &key(), &Inscription::new(None, None), 2).unwrap();
    let mut commit = plan.commit_tx.clone();
    commit.output[0].script_pubkey = dst();
    assert!(matches!(build_reveal_for_commit(&plan, &commit, &dst()), Err(InscriptionError::CommitOutputMissing)));
}

#[test]
fn reveal_fee_estimate_uses_placeholder_witness() {
    let plan = build_inscription_transaction(&utxos(), &dst(), &key(), &Inscription::new(None, None), 3).unwrap();
    let (tx, fee) = build_reveal_transaction(&plan.control_block, 3, &vec![0u8; 32], 0, &dst(), 0, &plan.reveal_script).unwrap();
    assert_eq!(fee, plan.reveal_fee);
    assert!(tx.input[0].witness.is_empty());
    let mut sized = tx.clone();
    sized.input[0].witness = vec![vec![0u8; 64], plan.reveal_script.clone(), plan.control_block.clone()];
    let b: bitcoin::Transaction = bitcoin::consensus::deserialize(&sized.serialize()).unwrap();
    assert_eq!(fee, 3 * b.vsize() as u64);
}

#[test]
fn fee_rate_overflow_is_reported() {
    let r = build_inscription_transaction(&utxos(), &dst(), &key(), &Inscription::new(None, None), u64::MAX);
    assert!(matches!(r, Err(InscriptionError::Overflow)));
}

#[test]
fn empty_utxo_set_cannot_inscribe() {
    let r = build_inscription_transaction(&Vec::new(), &dst(), &key(), &Inscription::new(None, None), 1);
    match r {
        Err(InscriptionError::InsufficientFunds { available, required }) => {
            assert_eq!(available, 0);
            assert!(required > 0);
        },
        _ => panic!("expected insufficient funds"),
    }
}

#[test]
fn reveal_needs_the_commitment_output_to_cover_its_fee() {
    let plan = build_inscription_transaction(&utxos(), &dst(), &key(), &Inscription::new(None, None), 2).unwrap();
    let mut commit = plan.commit_tx.clone();
    commit.output[0].value = plan.reveal_fee - 1;
    match build_reveal_for_commit(&plan, &commit, &dst()) {
        Err(InscriptionError::InsufficientFunds { available, required }) => {
            assert_eq!(available, (plan.reveal_fee - 1) as u128);
            assert_eq!(required, plan.reveal_fee as u128);
        },
        _ => panic!("expected insufficient funds"),
    }
}

#[test]
fn reveal_spends_first_commitment_output() {
    let plan = build_inscription_transaction(&utxos(), &dst(), &key(), &Inscription::new(None, None), 2).unwrap();
    let mut commit = plan.commit_tx.clone();
    let first = commit.output[0].clone();
    commit.output[0].script_pubkey = dst();
    commit.output.push(first.clone());
    commit.output.push(first);
    let reveal = build_reveal_for_commit(&plan, &commit, &dst()).unwrap();
    assert_eq!(reveal.input[0].vout, 1);
}
