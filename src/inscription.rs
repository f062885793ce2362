//! The inscription commit/reveal flow: a Taproot output committing to a leaf
//! script that carries the inscription, the commit transaction that funds
//! it, and the reveal transaction that spends it through that leaf.
use vstd::prelude::*;
use crate::builder::utxo_total;
use crate::script::{p2tr_script, p2tr_script_pubkey, reveal_script, reveal_script_of, Inscription};
use crate::tx::{
    decode_txid, decode_vsize, serialize_transaction, tap_script_sighash, tap_script_sighash_of, txid_of,
    tx_encoding_of, vsize_of, Transaction, TransactionView, TxIn, TxInView, TxOut, TxOutView, SEQUENCE_RBF,
};
use crate::wallet::JsonOutPoint;

verus! {

/// Bytes allowed, per input, for the P2PKH signature that the unsigned
/// commit transaction does not carry yet when it is sized.
pub const P2PKH_SIG_VBYTES: u64 = 73;

/// The x-only output key of the Taproot tree with the single leaf
/// `leaf_script` over `internal_key`.
pub uninterp spec fn tap_output_key_of(internal_key: Seq<u8>, leaf_script: Seq<u8>) -> Option<Seq<u8>>;

/// The serialized control block that proves `leaf_script` is the single leaf
/// of the Taproot tree over `internal_key`.
pub uninterp spec fn tap_control_block_of(internal_key: Seq<u8>, leaf_script: Seq<u8>) -> Option<Seq<u8>>;

/// Relies on bitcoin::taproot::TaprootBuilder (one leaf at depth 0, then
/// `finalize`) and TaprootSpendInfo::output_key: the 32-byte x-only key.
#[verifier::external_body]
fn taproot_output_key(internal_key: &Vec<u8>, leaf_script: &Vec<u8>) -> (r: Option<Vec<u8>>)
    ensures
        r matches Some(k) ==> tap_output_key_of(internal_key@, leaf_script@) == Some(k@) && k@.len() == 32,
        r is None ==> tap_output_key_of(internal_key@, leaf_script@) is None,
{
    let key = bitcoin::XOnlyPublicKey::from_slice(internal_key).ok()?;
    let script = bitcoin::ScriptBuf::from_bytes(leaf_script.clone());
    let secp = bitcoin::secp256k1::Secp256k1::verification_only();
    let info = bitcoin::taproot::TaprootBuilder::new().add_leaf(0, script).ok()?.finalize(&secp, key).ok()?;
    Some(info.output_key().to_inner().serialize().to_vec())
}

/// Relies on bitcoin::taproot::TaprootBuilder (one leaf at depth 0, then
/// `finalize`), TaprootSpendInfo::control_block for the tapscript leaf, and
/// ControlBlock::serialize.
#[verifier::external_body]
fn taproot_control_block(internal_key: &Vec<u8>, leaf_script: &Vec<u8>) -> (r: Option<Vec<u8>>)
    ensures
        r matches Some(c) ==> tap_control_block_of(internal_key@, leaf_script@) == Some(c@),
        r is None ==> tap_control_block_of(internal_key@, leaf_script@) is None,
{
    let key = bitcoin::XOnlyPublicKey::from_slice(internal_key).ok()?;
    let script = bitcoin::ScriptBuf::from_bytes(leaf_script.clone());
    let secp = bitcoin::secp256k1::Secp256k1::verification_only();
    let info = bitcoin::taproot::TaprootBuilder::new().add_leaf(0, script.clone()).ok()?.finalize(&secp, key).ok()?;
    let leaf = (script, bitcoin::taproot::LeafVersion::TapScript);
    Some(info.control_block(&leaf)?.serialize())
}

/// Why the inscription transactions could not be built.
#[derive(Clone, Debug, PartialEq, Eq)]
pub enum InscriptionError {
    /// The internal key or leaf script gives no Taproot output.
    Taproot,
    /// A transaction did not survive encoding and decoding.
    Encoding,
    /// A fee or a value does not fit in 64 bits.
    Overflow,
    /// The UTXOs hold `available` satoshis; `required` were needed for fees.
    InsufficientFunds { available: u128, required: u128 },
    /// The commit transaction has no output paying the Taproot commitment.
    CommitOutputMissing,
    /// A Schnorr signature must be 64 bytes.
    InvalidSignature,
}

/// The fee, in satoshis, for `vsize` virtual bytes at `sat_per_vb`: the
/// rate is held per 1000 weight units and the fee rounded up, which comes
/// to `sat_per_vb * vsize` when no step overflows.
pub open spec fn fee_for_vsize(sat_per_vb: u64, vsize: u64) -> Option<u64> {
    if 250 * sat_per_vb <= u64::MAX && 4 * vsize <= u64::MAX && 1000 * sat_per_vb * vsize + 999 <= u64::MAX {
        Some((sat_per_vb * vsize) as u64)
    } else {
        None
    }
}

/// The fee for `vsize` virtual bytes at `sat_per_vb` satoshis per virtual byte.
pub fn fee_vb(sat_per_vb: u64, vsize: u64) -> (r: Option<u64>)
    ensures
        r == fee_for_vsize(sat_per_vb, vsize),
{
    let rate = sat_per_vb as u128;
    let vb = vsize as u128;
    proof {
        assert(0 <= rate * vb <= 0xFFFF_FFFF_FFFF_FFFF * 0xFFFF_FFFF_FFFF_FFFF) by (nonlinear_arith)
            requires 0 <= rate <= 0xFFFF_FFFF_FFFF_FFFF, 0 <= vb <= 0xFFFF_FFFF_FFFF_FFFF;
    }
    let product = rate * vb;
    if rate * 250 > u64::MAX as u128 || vb * 4 > u64::MAX as u128 || product > (u64::MAX as u128 - 999) / 1000 {
        proof {
            assert(1000 * sat_per_vb * vsize == 1000 * (rate * vb)) by (nonlinear_arith)
                requires rate == sat_per_vb, vb == vsize;
        }
        None
    } else {
        proof {
            assert(1000 * sat_per_vb * vsize == 1000 * (rate * vb)) by (nonlinear_arith)
                requires rate == sat_per_vb, vb == vsize;
        }
        Some(product as u64)
    }
}

/// The witness that stands in for the real one when sizing the reveal
/// transaction: a zero Schnorr signature, the leaf script, the control block.
pub open spec fn placeholder_witness(leaf_script: Seq<u8>, control_block: Seq<u8>) -> Seq<Seq<u8>> {
    seq![Seq::new(64, |i: int| 0u8), leaf_script, control_block]
}

/// A reveal transaction: one input spending `vout` of `txid` with `witness`,
/// one output paying `value` to `dst_script`.
pub open spec fn reveal_view(txid: Seq<u8>, vout: u32, witness: Seq<Seq<u8>>, dst_script: Seq<u8>, value: u64) -> TransactionView {
    TransactionView {
        version: 2,
        lock_time: 0,
        input: seq![TxInView { txid, vout, script_sig: seq![], sequence: SEQUENCE_RBF, witness }],
        output: seq![TxOutView { value, script_pubkey: dst_script }],
    }
}

/// The virtual size of a reveal transaction spending `vout` of `txid`
/// through the leaf, sized with the placeholder witness.
pub open spec fn reveal_vsize_of(
    txid: Seq<u8>,
    vout: u32,
    leaf_script: Seq<u8>,
    control_block: Seq<u8>,
    dst_script: Seq<u8>,
    value: u64,
) -> Option<u64> {
    vsize_of(tx_encoding_of(reveal_view(txid, vout, placeholder_witness(leaf_script, control_block), dst_script, value)))
}

/// The fee of a reveal transaction spending `vout` of `txid` through the
/// leaf, sized with the placeholder witness.
pub open spec fn reveal_fee_of(
    sat_per_vb: u64,
    txid: Seq<u8>,
    vout: u32,
    leaf_script: Seq<u8>,
    control_block: Seq<u8>,
    dst_script: Seq<u8>,
    value: u64,
) -> Option<u64> {
    match reveal_vsize_of(txid, vout, leaf_script, control_block, dst_script, value) {
        Some(v) => fee_for_vsize(sat_per_vb, v),
        None => None,
    }
}

/// Builds the unsigned reveal transaction spending `vout` of `commit_txid`
/// and paying `value` to `dst_script`, and the fee it calls for once it
/// carries a signature, the leaf script and the control block.
pub fn build_reveal_transaction(
    control_block: &Vec<u8>,
    sat_per_vb: u64,
    commit_txid: &Vec<u8>,
    vout: u32,
    dst_script: &Vec<u8>,
    value: u64,
    leaf_script: &Vec<u8>,
) -> (r: Result<(Transaction, u64), InscriptionError>)
    requires
        commit_txid@.len() == 32,
    ensures
        r matches Ok((t, fee)) ==> t@ == reveal_view(commit_txid@, vout, seq![], dst_script@, value) && t.wf()
            && reveal_fee_of(sat_per_vb, commit_txid@, vout, leaf_script@, control_block@, dst_script@, value) == Some(fee),
        r matches Err(e) ==> match reveal_vsize_of(commit_txid@, vout, leaf_script@, control_block@, dst_script@, value) {
            None => e == InscriptionError::Encoding,
            Some(v) => e == InscriptionError::Overflow && fee_for_vsize(sat_per_vb, v) is None,
        },
{
    let zeros = vec![0u8; 64];
    assert(zeros@ =~= Seq::new(64, |i: int| 0u8));
    let ls = leaf_script.clone();
    assert(ls@ =~= leaf_script@);
    let cb = control_block.clone();
    assert(cb@ =~= control_block@);
    let w = vec![zeros, ls, cb];
    assert(w@.map_values(|w: Vec<u8>| w@) =~= placeholder_witness(leaf_script@, control_block@));
    let sized = reveal_transaction_with(commit_txid, vout, w, dst_script, value);
    proof {
        let want = reveal_view(commit_txid@, vout, placeholder_witness(leaf_script@, control_block@), dst_script@, value);
        assert(sized@.input =~= want.input);
        assert(sized@ == want);
    }
    let vsize = match decode_vsize(&serialize_transaction(&sized)) {
        Some(v) => v,
        None => {
            return Err(InscriptionError::Encoding);
        },
    };
    let fee = match fee_vb(sat_per_vb, vsize) {
        Some(f) => f,
        None => {
            return Err(InscriptionError::Overflow);
        },
    };
    let t = reveal_transaction_with(commit_txid, vout, Vec::new(), dst_script, value);
    assert(t@.input[0].witness =~= Seq::<Seq<u8>>::empty());
    assert(t@.input =~= reveal_view(commit_txid@, vout, seq![], dst_script@, value).input);
    assert(t@ == reveal_view(commit_txid@, vout, seq![], dst_script@, value));
    Ok((t, fee))
}

fn reveal_transaction_with(txid: &Vec<u8>, vout: u32, witness: Vec<Vec<u8>>, dst_script: &Vec<u8>, value: u64) -> (r: Transaction)
    requires
        txid@.len() == 32,
    ensures
        r@.version == 2,
        r@.lock_time == 0,
        r@.input.len() == 1,
        r@.input[0] == (TxInView {
            txid: txid@,
            vout,
            script_sig: seq![],
            sequence: SEQUENCE_RBF,
            witness: witness@.map_values(|w: Vec<u8>| w@),
        }),
        r@.output == seq![TxOutView { value, script_pubkey: dst_script@ }],
        r.wf(),
{
    let t = txid.clone();
    assert(t@ =~= txid@);
    let d = dst_script.clone();
    assert(d@ =~= dst_script@);
    let input = TxIn { txid: t, vout, script_sig: Vec::new(), sequence: SEQUENCE_RBF, witness };
    let r = Transaction { version: 2, lock_time: 0, input: vec![input], output: vec![TxOut { value, script_pubkey: d }] };
    assert(r@.input[0].script_sig =~= Seq::<u8>::empty());
    assert(r@.output =~= seq![TxOutView { value, script_pubkey: dst_script@ }]);
    r
}

/// The commit transaction: every UTXO spent in order with sequence 0, and
/// one output paying `value` to `commit_script`.
pub open spec fn commit_view(u: Seq<(JsonOutPoint, u64)>, commit_script: Seq<u8>, value: u64) -> TransactionView {
    TransactionView {
        version: 2,
        lock_time: 0,
        input: u.map_values(
            |e: (JsonOutPoint, u64)| TxInView { txid: e.0@.0, vout: e.0@.1, script_sig: seq![], sequence: 0, witness: seq![] },
        ),
        output: seq![TxOutView { value, script_pubkey: commit_script }],
    }
}

/// Everything the reveal transaction needs from the commit step.
#[derive(Clone, Debug)]
pub struct InscriptionPlan {
    /// The leaf script that carries the inscription.
    pub reveal_script: Vec<u8>,
    /// The control block proving the leaf against the output key.
    pub control_block: Vec<u8>,
    /// The Taproot output script the commit transaction pays.
    pub commit_script: Vec<u8>,
    /// The fee of the commit transaction.
    pub commit_fee: u64,
    /// The fee reserved for the reveal transaction.
    pub reveal_fee: u64,
    /// The unsigned commit transaction.
    pub commit_tx: Transaction,
}

/// The placeholder transaction id used while sizing the reveal transaction.
pub open spec fn zero_txid() -> Seq<u8> {
    Seq::new(32, |i: int| 0u8)
}

/// What building the commit side of an inscription comes to: the Taproot
/// output key, the control block, the commit fee and the reveal fee; or the
/// first error met. The fees go by the named sizes: the reveal transaction
/// with a placeholder witness, and the commit transaction spending every
/// UTXO (plus `P2PKH_SIG_VBYTES` per input for its signatures).
pub open spec fn inscription_outcome(
    u: Seq<(JsonOutPoint, u64)>,
    internal_key: Seq<u8>,
    leaf: Seq<u8>,
    dst_script: Seq<u8>,
    sat_per_vb: u64,
) -> Result<(Seq<u8>, Seq<u8>, u64, u64), InscriptionError> {
    match (tap_output_key_of(internal_key, leaf), tap_control_block_of(internal_key, leaf)) {
        (Some(k), Some(cb)) => match reveal_vsize_of(zero_txid(), 0, leaf, cb, dst_script, 0) {
            None => Err(InscriptionError::Encoding),
            Some(rv) => match fee_for_vsize(sat_per_vb, rv) {
                None => Err(InscriptionError::Overflow),
                Some(rf) => {
                    let total = utxo_total(u, u.len() as int);
                    if total > u64::MAX {
                        Err(InscriptionError::Overflow)
                    } else {
                        match vsize_of(tx_encoding_of(commit_view(u, p2tr_script(k), total as u64))) {
                            None => Err(InscriptionError::Encoding),
                            Some(v) => {
                                let vb = v + P2PKH_SIG_VBYTES * u.len();
                                if vb > u64::MAX {
                                    Err(InscriptionError::Overflow)
                                } else {
                                    match fee_for_vsize(sat_per_vb, vb as u64) {
                                        None => Err(InscriptionError::Overflow),
                                        Some(cf) => if total < cf + rf {
                                            Err(InscriptionError::InsufficientFunds {
                                                available: total as u128,
                                                required: (cf + rf) as u128,
                                            })
                                        } else {
                                            Ok((k, cb, cf, rf))
                                        },
                                    }
                                }
                            },
                        }
                    }
                },
            },
        },
        _ => Err(InscriptionError::Taproot),
    }
}

/// Builds the commit side of an inscription: the reveal leaf script for
/// `internal_key` and `inscription`, its Taproot output script and control
/// block, the reveal fee (sized with a placeholder witness), and the unsigned
/// commit transaction. The commit transaction spends every UTXO given: its
/// one output carries all of the funds, less the fees, to the reveal
/// transaction, so callers pass the UTXOs they mean to inscribe with.
pub fn build_inscription_transaction(
    utxos: &Vec<(JsonOutPoint, u64)>,
    dst_script: &Vec<u8>,
    internal_key: &Vec<u8>,
    inscription: &Inscription,
    sat_per_vb: u64,
) -> (r: Result<InscriptionPlan, InscriptionError>)
    requires
        internal_key@.len() == 32,
        inscription.content_type matches Some(c) ==> c@.len() <= u32::MAX,
        inscription.body matches Some(b) ==> b@.len() <= u32::MAX,
        forall|i: int| 0 <= i < utxos@.len() ==> (#[trigger] utxos@[i].0)@.0.len() == 32,
    ensures
        ({
            let u = utxos@;
            let total = utxo_total(u, u.len() as int);
            let leaf = reveal_script_of(internal_key@, inscription.content_type_view(), inscription.body_view());
            let outcome = inscription_outcome(u, internal_key@, leaf, dst_script@, sat_per_vb);
            match r {
                Ok(p) => match outcome {
                    Ok((k, cb, cf, rf)) => {
                        &&& p.reveal_script@ == leaf
                        &&& p.commit_script@ == p2tr_script(k)
                        &&& p.control_block@ == cb
                        &&& p.commit_fee == cf
                        &&& p.reveal_fee == rf
                        &&& total >= cf + rf
                        &&& p.commit_tx@ == commit_view(u, p.commit_script@, (total - cf) as u64)
                        &&& p.commit_tx.wf()
                    },
                    Err(_) => false,
                },
                Err(e) => outcome == Err::<(Seq<u8>, Seq<u8>, u64, u64), InscriptionError>(e),
            }
        }),
{
    let ghost u = utxos@;
    let script = reveal_script(internal_key, inscription);
    let output_key = match taproot_output_key(internal_key, &script) {
        Some(k) => k,
        None => {
            return Err(InscriptionError::Taproot);
        },
    };
    let control_block = match taproot_control_block(internal_key, &script) {
        Some(c) => c,
        None => {
            return Err(InscriptionError::Taproot);
        },
    };
    let commit_script = p2tr_script_pubkey(&output_key);
    let placeholder = vec![0u8; 32];
    assert(placeholder@ =~= zero_txid());
    let (_, reveal_fee) = build_reveal_transaction(&control_block, sat_per_vb, &placeholder, 0, dst_script, 0, &script)?;

    let mut total: u128 = 0;
    let mut inputs: Vec<TxIn> = Vec::new();
    let mut i: usize = 0;
    while i < utxos.len()
        invariant
            u == utxos@,
            i <= u.len(),
            total == utxo_total(u, i as int),
            total <= i * 0xFFFF_FFFF_FFFF_FFFF,
            inputs@.len() == i,
            forall|j: int| 0 <= j < u.len() ==> (#[trigger] u[j].0)@.0.len() == 32,
            forall|j: int| 0 <= j < i ==> (#[trigger] inputs@[j])@ == (TxInView {
                txid: u[j].0@.0,
                vout: u[j].0@.1,
                script_sig: seq![],
                sequence: 0,
                witness: seq![],
            }),
            forall|j: int| 0 <= j < i ==> (#[trigger] inputs@[j]).txid@.len() == 32,
        decreases u.len() - i,
    {
        let o = &utxos[i].0;
        proof {
            assert(i < 0x1_0000_0000_0000_0000);
            assert((i + 1) * 0xFFFF_FFFF_FFFF_FFFF == i * 0xFFFF_FFFF_FFFF_FFFF + 0xFFFF_FFFF_FFFF_FFFF) by (nonlinear_arith);
            assert((i + 1) * 0xFFFF_FFFF_FFFF_FFFF <= 0x1_0000_0000_0000_0000 * 0xFFFF_FFFF_FFFF_FFFF) by (nonlinear_arith)
                requires i < 0x1_0000_0000_0000_0000;
        }
        total = total + utxos[i].1 as u128;
        inputs.push(TxIn {
            txid: vstd::slice::slice_to_vec(o.txid()),
            vout: o.vout(),
            script_sig: Vec::new(),
            sequence: 0,
            witness: Vec::new(),
        });
        proof {
            assert(inputs@[i as int].witness@.map_values(|w: Vec<u8>| w@) =~= Seq::<Seq<u8>>::empty());
        }
        i = i + 1;
    }
    if total > u64::MAX as u128 {
        return Err(InscriptionError::Overflow);
    }
    let cs = commit_script.clone();
    assert(cs@ =~= commit_script@);
    let mut commit_tx = Transaction {
        version: 2,
        lock_time: 0,
        input: inputs,
        output: vec![TxOut { value: total as u64, script_pubkey: cs }],
    };
    proof {
        let want = commit_view(u, commit_script@, total as u64);
        assert(commit_tx@.input =~= want.input);
        assert(commit_tx@.output =~= want.output);
        assert(commit_tx@ == want);
    }
    let vsize = match decode_vsize(&serialize_transaction(&commit_tx)) {
        Some(v) => v,
        None => {
            return Err(InscriptionError::Encoding);
        },
    };
    let vbytes: u128 = vsize as u128 + P2PKH_SIG_VBYTES as u128 * utxos.len() as u128;
    if vbytes > u64::MAX as u128 {
        return Err(InscriptionError::Overflow);
    }
    let commit_fee = match fee_vb(sat_per_vb, vbytes as u64) {
        Some(f) => f,
        None => {
            return Err(InscriptionError::Overflow);
        },
    };
    let required: u128 = commit_fee as u128 + reveal_fee as u128;
    if total < required {
        return Err(InscriptionError::InsufficientFunds { available: total, required });
    }
    let cs2 = commit_script.clone();
    assert(cs2@ =~= commit_script@);
    commit_tx.output.set(0, TxOut { value: (total - commit_fee as u128) as u64, script_pubkey: cs2 });
    proof {
        let want = commit_view(u, commit_script@, (total - commit_fee) as u64);
        assert(commit_tx@.input =~= want.input);
        assert(commit_tx@.output =~= want.output);
        assert(commit_tx@ == want);
    }
    Ok(InscriptionPlan { reveal_script: script, control_block, commit_script, commit_fee, reveal_fee, commit_tx })
}

/// The index of the first of `outs`, from the `k`-th on, that pays
/// `script` (`outs.len()` when none does).
pub open spec fn first_paying_from(outs: Seq<TxOutView>, script: Seq<u8>, k: int) -> int
    decreases outs.len() - k,
{
    if k >= outs.len() || outs[k].script_pubkey == script {
        k
    } else {
        first_paying_from(outs, script, k + 1)
    }
}

/// What spending the commitment output of `commit` comes to: the commit's
/// transaction id, the index of its first output paying `commit_script`, and
/// that output's value less `reveal_fee`; or the first error met.
pub open spec fn reveal_outcome(commit: TransactionView, commit_script: Seq<u8>, reveal_fee: u64) -> Result<
    (Seq<u8>, int, u64),
    InscriptionError,
> {
    let j = first_paying_from(commit.output, commit_script, 0);
    if j >= commit.output.len() {
        Err(InscriptionError::CommitOutputMissing)
    } else if j > u32::MAX {
        Err(InscriptionError::Overflow)
    } else if commit.output[j].value < reveal_fee {
        Err(InscriptionError::InsufficientFunds {
            available: commit.output[j].value as u128,
            required: reveal_fee as u128,
        })
    } else {
        match txid_of(tx_encoding_of(commit)) {
            None => Err(InscriptionError::Encoding),
            Some(id) => Ok((id, j, (commit.output[j].value - reveal_fee) as u64)),
        }
    }
}

/// The reveal transaction for the signed commit transaction `commit`: its
/// one input spends the first output of `commit` that pays the Taproot
/// commitment of `plan`, and its one output pays that output's value, less
/// the reveal fee, to `dst_script`.
pub fn build_reveal_for_commit(plan: &InscriptionPlan, commit: &Transaction, dst_script: &Vec<u8>) -> (r: Result<Transaction, InscriptionError>)
    requires
        commit.wf(),
    ensures
        match r {
            Ok(t) => match reveal_outcome(commit@, plan.commit_script@, plan.reveal_fee) {
                Ok((id, vout, value)) => {
                    &&& t@ == reveal_view(id, vout as u32, seq![], dst_script@, value)
                    &&& t@.input[0].vout == vout
                    &&& commit@.output[vout].script_pubkey == plan.commit_script@
                    &&& forall|j: int| 0 <= j < vout ==> (#[trigger] commit@.output[j]).script_pubkey != plan.commit_script@
                    &&& commit@.output[vout].value >= plan.reveal_fee
                    &&& t.wf()
                },
                Err(_) => false,
            },
            Err(e) => reveal_outcome(commit@, plan.commit_script@, plan.reveal_fee)
                == Err::<(Seq<u8>, int, u64), InscriptionError>(e),
        },
{
    let n = commit.output.len();
    let mut j: usize = 0;
    while j < n
        invariant
            n == commit.output@.len(),
            j <= n,
            forall|k: int| 0 <= k < j ==> (#[trigger] commit@.output[k]).script_pubkey != plan.commit_script@,
            first_paying_from(commit@.output, plan.commit_script@, 0)
                == first_paying_from(commit@.output, plan.commit_script@, j as int),
        ensures
            j <= n,
            forall|k: int| 0 <= k < j ==> (#[trigger] commit@.output[k]).script_pubkey != plan.commit_script@,
            j < n ==> commit@.output[j as int].script_pubkey == plan.commit_script@,
            first_paying_from(commit@.output, plan.commit_script@, 0) == j,
        decreases n - j,
    {
        if bytes_equal(&commit.output[j].script_pubkey, &plan.commit_script) {
            break;
        }
        assert(commit@.output[j as int].script_pubkey != plan.commit_script@);
        j = j + 1;
    }
    if j == n {
        return Err(InscriptionError::CommitOutputMissing);
    }
    assert(commit@.output[j as int].script_pubkey == plan.commit_script@);
    if j > u32::MAX as usize {
        return Err(InscriptionError::Overflow);
    }
    let value = commit.output[j].value;
    if value < plan.reveal_fee {
        return Err(InscriptionError::InsufficientFunds { available: value as u128, required: plan.reveal_fee as u128 });
    }
    let txid = match decode_txid(&serialize_transaction(commit)) {
        Some(t) => t,
        None => {
            return Err(InscriptionError::Encoding);
        },
    };
    let t = reveal_transaction_with(&txid, j as u32, Vec::new(), dst_script, value - plan.reveal_fee);
    assert(t@.input[0].witness =~= Seq::<Seq<u8>>::empty());
    assert(t@.input =~= reveal_view(txid@, j as u32, seq![], dst_script@, (value - plan.reveal_fee) as u64).input);
    Ok(t)
}

proof fn lemma_first_paying(outs: Seq<TxOutView>, script: Seq<u8>, k: int)
    requires
        0 <= k <= outs.len(),
    ensures
        k <= first_paying_from(outs, script, k) <= outs.len(),
        first_paying_from(outs, script, k) < outs.len() ==> outs[first_paying_from(outs, script, k)].script_pubkey == script,
    decreases outs.len() - k,
{
    if k < outs.len() && outs[k].script_pubkey != script {
        lemma_first_paying(outs, script, k + 1);
    }
}

/// The commit and reveal transactions are linked: when the commit side of an
/// inscription is built and the reveal spends the commit transaction
/// `commit`, the reveal's one input names `commit`'s transaction id and an
/// output of `commit` that pays the Taproot commitment of the leaf; once
/// finished with signature `sig`, its witness is the signature, the leaf and
/// the control block of that same leaf; and its one output pays the
/// commitment output's value less the reveal fee to `dst_script`.
pub proof fn lemma_reveal_spends_commitment(
    u: Seq<(JsonOutPoint, u64)>,
    internal_key: Seq<u8>,
    leaf: Seq<u8>,
    dst_script: Seq<u8>,
    sat_per_vb: u64,
    commit: TransactionView,
    sig: Seq<u8>,
)
    requires
        inscription_outcome(u, internal_key, leaf, dst_script, sat_per_vb) is Ok,
    ensures
        ({
            let (k, cb, cf, rf) = inscription_outcome(u, internal_key, leaf, dst_script, sat_per_vb)->Ok_0;
            match reveal_outcome(commit, p2tr_script(k), rf) {
                Ok((id, vout, value)) => {
                    let reveal = reveal_view(id, vout as u32, seq![sig, leaf, cb], dst_script, value);
                    &&& tap_output_key_of(internal_key, leaf) == Some(k)
                    &&& tap_control_block_of(internal_key, leaf) == Some(cb)
                    &&& reveal.input.len() == 1
                    &&& txid_of(tx_encoding_of(commit)) == Some(reveal.input[0].txid)
                    &&& 0 <= reveal.input[0].vout < commit.output.len()
                    &&& commit.output[reveal.input[0].vout as int].script_pubkey == p2tr_script(k)
                    &&& reveal.input[0].witness == seq![sig, leaf, cb]
                    &&& reveal.output.len() == 1
                    &&& reveal.output[0].script_pubkey == dst_script
                    &&& reveal.output[0].value + rf == commit.output[reveal.input[0].vout as int].value
                },
                Err(_) => true,
            }
        }),
{
    let (k, cb, cf, rf) = inscription_outcome(u, internal_key, leaf, dst_script, sat_per_vb)->Ok_0;
    lemma_first_paying(commit.output, p2tr_script(k), 0);
}

/// Whether `a` and `b` hold the same bytes.
pub fn bytes_equal(a: &Vec<u8>, b: &Vec<u8>) -> (r: bool)
    ensures
        r == (a@ == b@),
{
    if a.len() != b.len() {
        return false;
    }
    let mut i: usize = 0;
    while i < a.len()
        invariant
            a@.len() == b@.len(),
            i <= a@.len(),
            a@.subrange(0, i as int) == b@.subrange(0, i as int),
        decreases a@.len() - i,
    {
        if a[i] != b[i] {
            assert(a@[i as int] != b@[i as int]);
            return false;
        }
        assert(a@.subrange(0, i + 1) =~= b@.subrange(0, i + 1));
        i = i + 1;
    }
    assert(a@ =~= a@.subrange(0, i as int));
    assert(b@ =~= b@.subrange(0, i as int));
    true
}

/// The BIP341 digest that the reveal transaction's signature commits to:
/// its one input spends `value` satoshis locked by the commitment script,
/// through the leaf script of `plan`.
pub fn reveal_sighash(plan: &InscriptionPlan, reveal: &Transaction, value: u64) -> (r: Result<Vec<u8>, InscriptionError>)
    requires
        reveal.wf(),
    ensures
        r matches Ok(h) ==> tap_script_sighash_of(tx_encoding_of(reveal@), value, plan.commit_script@, plan.reveal_script@) == Some(h@),
        r is Err ==> r == Err::<Vec<u8>, InscriptionError>(InscriptionError::Encoding)
            && tap_script_sighash_of(tx_encoding_of(reveal@), value, plan.commit_script@, plan.reveal_script@) is None,
{
    match tap_script_sighash(&serialize_transaction(reveal), value, &plan.commit_script, &plan.reveal_script) {
        Some(h) => Ok(h),
        None => Err(InscriptionError::Encoding),
    }
}

/// Completes the reveal transaction: the witness of its input becomes the
/// 64-byte Schnorr signature, the leaf script and the control block.
pub fn finish_reveal(reveal: Transaction, signature: &Vec<u8>, plan: &InscriptionPlan) -> (r: Result<Transaction, InscriptionError>)
    requires
        reveal@.input.len() == 1,
    ensures
        r is Ok <==> signature@.len() == 64,
        r matches Ok(t) ==> t@.version == reveal@.version && t@.lock_time == reveal@.lock_time
            && t@.output == reveal@.output && t@.input.len() == 1
            && t@.input[0] == (TxInView {
                witness: seq![signature@, plan.reveal_script@, plan.control_block@],
                ..reveal@.input[0]
            })
            && (reveal.wf() ==> t.wf()),
        r is Err ==> r == Err::<Transaction, InscriptionError>(InscriptionError::InvalidSignature),
{
    if signature.len() != 64 {
        return Err(InscriptionError::InvalidSignature);
    }
    let ghost orig = reveal@;
    let Transaction { version, lock_time, input, output } = reveal;
    let old_in = &input[0];
    let txid = old_in.txid.clone();
    assert(txid@ =~= old_in.txid@);
    let ss = old_in.script_sig.clone();
    assert(ss@ =~= old_in.script_sig@);
    let sig = signature.clone();
    assert(sig@ =~= signature@);
    let ls = plan.reveal_script.clone();
    assert(ls@ =~= plan.reveal_script@);
    let cb = plan.control_block.clone();
    assert(cb@ =~= plan.control_block@);
    let w = vec![sig, ls, cb];
    assert(w@.map_values(|x: Vec<u8>| x@) =~= seq![signature@, plan.reveal_script@, plan.control_block@]);
    let new_in = TxIn { txid, vout: old_in.vout, script_sig: ss, sequence: old_in.sequence, witness: w };
    let t = Transaction { version, lock_time, input: vec![new_in], output };
    assert(t@.input =~= seq![TxInView { witness: seq![signature@, plan.reveal_script@, plan.control_block@], ..orig.input[0] }]);
    Ok(t)
}

} // verus!
