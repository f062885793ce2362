//! Per-input signature hashes and the embedding of signatures for the
//! legacy P2PKH and segwit-v0 P2WPKH spending conditions.
use vstd::prelude::*;
use crate::der::{is_valid_sec1, sec1_der, sec1_to_der, valid_sec1};
use crate::script::{p2pkh_script_sig, p2pkh_unlocking_script};
use crate::wallet::JsonOutPoint;
use crate::tx::{
    legacy_sighash, legacy_sighash_of, segwit_v0_sighash, segwit_v0_sighash_of, serialize_transaction,
    tx_encoding_of, Transaction, TransactionView, TxIn, TxInView, SIGHASH_ALL,
};

verus! {

/// Why a transaction could not be signed.
#[derive(Clone, Debug, PartialEq, Eq)]
pub enum SignError {
    /// No signature hash could be computed for input `index`.
    SighashUnavailable { index: usize },
    /// The signature for input `index` is not a 64-byte SEC1 signature with
    /// non-zero scalars.
    InvalidSignature { index: usize },
    /// `actual` signatures were given for `expected` inputs.
    SignatureCount { expected: usize, actual: usize },
}

/// The spending condition of the outputs a transaction spends.
#[derive(Clone, Copy, Debug, PartialEq, Eq, Structural)]
pub enum SpendKind {
    /// Legacy pay-to-public-key-hash: signature and key in the script_sig.
    P2pkh,
    /// Segwit v0 pay-to-witness-public-key-hash: signature and key in the witness.
    P2wpkh,
}

/// A DER signature followed by the `SIGHASH_ALL` byte.
pub open spec fn ecdsa_signature_field(sec1: Seq<u8>) -> Seq<u8> {
    sec1_der(sec1).push(SIGHASH_ALL)
}

/// The input `i` unlocked for `kind` by the signature `sec1` and `public_key`.
pub open spec fn signed_input(kind: SpendKind, i: TxInView, sec1: Seq<u8>, public_key: Seq<u8>) -> TxInView {
    let sig = ecdsa_signature_field(sec1);
    match kind {
        SpendKind::P2pkh => TxInView {
            txid: i.txid,
            vout: i.vout,
            script_sig: p2pkh_script_sig(sig, public_key),
            sequence: i.sequence,
            witness: seq![],
        },
        SpendKind::P2wpkh => TxInView {
            txid: i.txid,
            vout: i.vout,
            script_sig: seq![],
            sequence: i.sequence,
            witness: seq![sig, public_key],
        },
    }
}

/// `tx` with every input `i` unlocked by `signatures[i]` and `public_key`.
pub open spec fn signed_transaction(
    kind: SpendKind,
    tx: TransactionView,
    signatures: Seq<Seq<u8>>,
    public_key: Seq<u8>,
) -> TransactionView {
    TransactionView {
        version: tx.version,
        lock_time: tx.lock_time,
        input: Seq::new(tx.input.len(), |i: int| signed_input(kind, tx.input[i], signatures[i], public_key)),
        output: tx.output,
    }
}

/// The digest that input `i` of `tx` signs for `kind`, spending `value`
/// satoshis locked by `own_script`.
pub open spec fn input_sighash(kind: SpendKind, tx: TransactionView, i: usize, own_script: Seq<u8>, value: u64) -> Option<Seq<u8>> {
    match kind {
        SpendKind::P2pkh => legacy_sighash_of(tx_encoding_of(tx), i, own_script),
        SpendKind::P2wpkh => segwit_v0_sighash_of(tx_encoding_of(tx), i, own_script, value),
    }
}

/// The digests that the inputs of the unsigned `tx` sign, input `i`
/// spending the UTXO `spent[i]`, locked by `own_script` (the legacy digest
/// does not cover the value).
pub fn sighashes(kind: SpendKind, tx: &Transaction, own_script: &Vec<u8>, spent: &Vec<(JsonOutPoint, u64)>) -> (r: Result<Vec<Vec<u8>>, SignError>)
    requires
        tx.wf(),
        spent@.len() >= tx.input@.len(),
    ensures
        r is Ok <==> forall|i: int| 0 <= i < tx.input@.len()
            ==> (#[trigger] input_sighash(kind, tx@, i as usize, own_script@, spent@[i].1)) is Some,
        r matches Ok(h) ==> h@.len() == tx.input@.len() && forall|i: int| 0 <= i < h@.len()
            ==> input_sighash(kind, tx@, i as usize, own_script@, spent@[i].1) == Some((#[trigger] h@[i])@),
        r matches Err(e) ==> e matches SignError::SighashUnavailable { index } && index < tx.input@.len()
            && input_sighash(kind, tx@, index, own_script@, spent@[index as int].1) is None,
{
    let enc = serialize_transaction(tx);
    let mut out: Vec<Vec<u8>> = Vec::new();
    let mut i: usize = 0;
    while i < tx.input.len()
        invariant
            enc@ == tx_encoding_of(tx@),
            spent@.len() >= tx.input@.len(),
            i <= tx.input@.len(),
            out@.len() == i,
            forall|j: int| 0 <= j < i ==> input_sighash(kind, tx@, j as usize, own_script@, spent@[j].1) == Some((#[trigger] out@[j])@),
        decreases tx.input@.len() - i,
    {
        let h = match kind {
            SpendKind::P2pkh => legacy_sighash(&enc, i, own_script),
            SpendKind::P2wpkh => segwit_v0_sighash(&enc, i, own_script, spent[i].1),
        };
        match h {
            Some(h) => out.push(h),
            None => {
                assert(input_sighash(kind, tx@, (i as int) as usize, own_script@, spent@[i as int].1) is None);
                return Err(SignError::SighashUnavailable { index: i });
            },
        }
        i = i + 1;
    }
    proof {
        assert forall|j: int| 0 <= j < tx.input@.len() implies (#[trigger] input_sighash(kind, tx@, j as usize, own_script@, spent@[j].1)) is Some by {
            assert(input_sighash(kind, tx@, j as usize, own_script@, spent@[j].1) == Some(out@[j]@));
        }
    }
    Ok(out)
}

/// Embeds one signature per input: for P2PKH the script_sig becomes
/// `<DER signature ‖ SIGHASH_ALL> <public key>` and the witness is cleared;
/// for P2WPKH the witness becomes `[DER signature ‖ SIGHASH_ALL, public key]`
/// and the script_sig is empty. Fails when the number of signatures is not
/// the number of inputs, or at the first signature that is not a valid SEC1
/// signature.
pub fn apply_signatures(kind: SpendKind, tx: Transaction, signatures: &Vec<Vec<u8>>, public_key: &Vec<u8>) -> (r: Result<Transaction, SignError>)
    requires
        public_key@.len() <= u32::MAX,
    ensures
        r is Ok <==> signatures@.len() == tx.input@.len()
            && forall|i: int| 0 <= i < signatures@.len() ==> valid_sec1((#[trigger] signatures@[i])@),
        r matches Ok(t) ==> t@ == signed_transaction(kind, tx@, signatures@.map_values(|s: Vec<u8>| s@), public_key@)
            && (tx.wf() ==> t.wf()),
        r matches Err(SignError::SignatureCount { expected, actual }) ==> expected == tx.input@.len()
            && actual == signatures@.len() && expected != actual,
        r matches Err(SignError::InvalidSignature { index }) ==> signatures@.len() == tx.input@.len()
            && index < signatures@.len() && !valid_sec1(signatures@[index as int]@),
        !(r matches Err(SignError::SighashUnavailable { .. })),
{
    let n = tx.input.len();
    if signatures.len() != n {
        return Err(SignError::SignatureCount { expected: n, actual: signatures.len() });
    }
    let ghost orig = tx@;
    let Transaction { version, lock_time, input, output } = tx;
    let mut signed: Vec<TxIn> = Vec::new();
    let mut i: usize = 0;
    while i < n
        invariant
            n == input@.len(),
            n == signatures@.len(),
            orig == tx@,
            n == tx.input@.len(),
            orig.input == input@.map_values(|x: TxIn| x@),
            public_key@.len() <= u32::MAX,
            i <= n,
            signed@.len() == i,
            forall|j: int| 0 <= j < i ==> valid_sec1((#[trigger] signatures@[j])@),
            forall|j: int| 0 <= j < i ==> (#[trigger] signed@[j])@ == signed_input(kind, orig.input[j], signatures@[j]@, public_key@),
        decreases n - i,
    {
        if !is_valid_sec1(&signatures[i]) {
            assert(tx.input@.len() == n);
            return Err(SignError::InvalidSignature { index: i });
        }
        let mut sig = sec1_to_der(signatures[i].clone());
        sig.push(SIGHASH_ALL);
        assert(sig@ == ecdsa_signature_field(signatures@[i as int]@));
        let old_in = &input[i];
        let txid = old_in.txid.clone();
        assert(txid@ =~= old_in.txid@);
        let new_in = match kind {
            SpendKind::P2pkh => TxIn {
                txid,
                vout: old_in.vout,
                script_sig: p2pkh_unlocking_script(&sig, public_key),
                sequence: old_in.sequence,
                witness: Vec::new(),
            },
            SpendKind::P2wpkh => {
                let pk = public_key.clone();
                assert(pk@ =~= public_key@);
                TxIn { txid, vout: old_in.vout, script_sig: Vec::new(), sequence: old_in.sequence, witness: vec![sig, pk] }
            },
        };
        proof {
            assert(new_in.witness@.map_values(|w: Vec<u8>| w@) =~= signed_input(kind, orig.input[i as int], signatures@[i as int]@, public_key@).witness);
            assert(new_in.script_sig@ =~= signed_input(kind, orig.input[i as int], signatures@[i as int]@, public_key@).script_sig);
        }
        signed.push(new_in);
        i = i + 1;
    }
    let t = Transaction { version, lock_time, input: signed, output };
    proof {
        assert(t@.input =~= signed_transaction(kind, orig, signatures@.map_values(|s: Vec<u8>| s@), public_key@).input);
    }
    Ok(t)
}

} // verus!
