//! Greedy UTXO selection and the fee-convergent construction of an unsigned
//! payment transaction.
use vstd::prelude::*;
use crate::tx::{address_script_of, address_script_pubkey, Transaction, TxIn, TxOut, TxInView, TxOutView, TransactionView, SEQUENCE_RBF};
use crate::types::BitcoinNetwork;
use crate::wallet::JsonOutPoint;

verus! {

/// Change below this many satoshis is left to the fee instead of paying a
/// change output.
pub const DUST_THRESHOLD: u64 = 1_000;

/// The sum of the values of the first `k` entries of `u`.
pub open spec fn utxo_total(u: Seq<(JsonOutPoint, u64)>, k: int) -> int
    decreases k,
{
    if k <= 0 || k > u.len() {
        0
    } else {
        utxo_total(u, k - 1) + u[k - 1].1
    }
}

/// The length of the shortest prefix of `u` that reaches `target`, looking
/// at prefixes of length `k` and more (all of `u` when none reaches it).
pub open spec fn selection_len_from(u: Seq<(JsonOutPoint, u64)>, target: int, k: int) -> int
    decreases u.len() - k,
{
    if k >= u.len() || utxo_total(u, k) >= target {
        k
    } else {
        selection_len_from(u, target, k + 1)
    }
}

/// The number of entries of `u` that a greedy first-fit selection spends:
/// the shortest prefix, in order, whose values reach `target`.
pub open spec fn selection_len(u: Seq<(JsonOutPoint, u64)>, target: int) -> int {
    selection_len_from(u, target, 0)
}

/// An input spending `o`, unsigned, with replace-by-fee signalled.
pub open spec fn unsigned_input(o: JsonOutPoint) -> TxInView {
    TxInView { txid: o@.0, vout: o@.1, script_sig: seq![], sequence: SEQUENCE_RBF, witness: seq![] }
}

/// The payment to `dst_script`, followed by the change to `own_script` when
/// the change `remaining` is at least the dust threshold.
pub open spec fn payment_outputs(dst_script: Seq<u8>, amount: u64, own_script: Seq<u8>, remaining: int) -> Seq<TxOutView> {
    let pay = TxOutView { value: amount, script_pubkey: dst_script };
    if remaining >= DUST_THRESHOLD {
        seq![pay, TxOutView { value: remaining as u64, script_pubkey: own_script }]
    } else {
        seq![pay]
    }
}

/// The unsigned transaction that pays `amount` to `dst_script` with `fee`,
/// from the UTXOs `u` (when they suffice).
pub open spec fn payment_transaction(
    u: Seq<(JsonOutPoint, u64)>,
    own_script: Seq<u8>,
    dst_script: Seq<u8>,
    amount: u64,
    fee: u64,
) -> TransactionView {
    let target = amount + fee;
    let k = selection_len(u, target);
    TransactionView {
        version: 2,
        lock_time: 0,
        input: u.subrange(0, k).map_values(|e: (JsonOutPoint, u64)| unsigned_input(e.0)),
        output: payment_outputs(dst_script, amount, own_script, utxo_total(u, k) - target),
    }
}

/// Why a transaction could not be built.
#[derive(Clone, Debug, PartialEq, Eq)]
pub enum BuildError {
    /// The UTXOs hold `available` satoshis; `required` were needed.
    InsufficientFunds { available: u128, required: u128 },
    /// The destination is not an address of the network in use.
    InvalidAddress,
}

proof fn lemma_selection_bounds(u: Seq<(JsonOutPoint, u64)>, target: int, k: int)
    requires
        0 <= k <= u.len(),
    ensures
        k <= selection_len_from(u, target, k) <= u.len(),
    decreases u.len() - k,
{
    if k < u.len() && utxo_total(u, k) < target {
        lemma_selection_bounds(u, target, k + 1);
    }
}

proof fn lemma_total_monotone(u: Seq<(JsonOutPoint, u64)>, j: int, k: int)
    requires
        0 <= j <= k <= u.len(),
    ensures
        utxo_total(u, j) <= utxo_total(u, k),
    decreases k - j,
{
    if j < k {
        lemma_total_monotone(u, j, k - 1);
    }
}

/// Builds the unsigned transaction that pays `amount` to `dst_script` with a
/// fee of `fee`, spending the UTXOs in order until they cover both, and
/// paying the change to `own_script` unless it is dust.
pub fn build_transaction_with_fee(
    own_utxos: &Vec<(JsonOutPoint, u64)>,
    own_script: &Vec<u8>,
    dst_script: &Vec<u8>,
    amount: u64,
    fee: u64,
) -> (r: Result<Transaction, BuildError>)
    ensures
        ({
            let u = own_utxos@;
            let target = amount + fee;
            match r {
                Ok(tx) => {
                    &&& utxo_total(u, u.len() as int) >= target
                    &&& tx@ == payment_transaction(u, own_script@, dst_script@, amount, fee)
                    &&& tx.wf() <== (forall|i: int| 0 <= i < u.len() ==> (#[trigger] u[i].0)@.0.len() == 32)
                },
                Err(BuildError::InsufficientFunds { available, required }) => {
                    &&& utxo_total(u, u.len() as int) < target
                    &&& available == utxo_total(u, u.len() as int)
                    &&& required == target
                },
                Err(BuildError::InvalidAddress) => false,
            }
        }),
{
    let ghost u = own_utxos@;
    let target: u128 = amount as u128 + fee as u128;
    let mut total: u128 = 0;
    let mut inputs: Vec<TxIn> = Vec::new();
    let mut i: usize = 0;
    while i < own_utxos.len() && total < target
        invariant
            u == own_utxos@,
            target == amount + fee,
            i <= u.len(),
            total == utxo_total(u, i as int),
            selection_len(u, target as int) == selection_len_from(u, target as int, i as int),
            inputs@.len() == i,
            forall|j: int| 0 <= j < i ==> (#[trigger] inputs@[j])@ == unsigned_input(u[j].0),
        decreases u.len() - i,
    {
        let (o, v) = (&own_utxos[i].0, own_utxos[i].1);
        total = total + v as u128;
        let txid = vstd::slice::slice_to_vec(o.txid());
        inputs.push(TxIn {
            txid,
            vout: o.vout(),
            script_sig: Vec::new(),
            sequence: SEQUENCE_RBF,
            witness: Vec::new(),
        });
        proof {
            assert(inputs@[i as int].witness@.map_values(|w: Vec<u8>| w@) =~= Seq::<Seq<u8>>::empty());
            assert(inputs@[i as int]@ == unsigned_input(u[i as int].0));
        }
        i = i + 1;
    }
    let ghost k = selection_len(u, target as int);
    proof {
        lemma_selection_bounds(u, target as int, i as int);
    }
    if total < target {
        proof {
            assert(i == u.len());
        }
        return Err(BuildError::InsufficientFunds { available: total, required: target });
    }
    assert(k == i);
    let remaining: u128 = total - target;
    let mut outputs: Vec<TxOut> = Vec::new();
    outputs.push(TxOut { value: amount, script_pubkey: dst_script.clone() });
    if remaining >= DUST_THRESHOLD as u128 {
        outputs.push(TxOut { value: remaining as u64, script_pubkey: own_script.clone() });
    }
    let tx = Transaction { version: 2, lock_time: 0, input: inputs, output: outputs };
    proof {
        lemma_total_monotone(u, i as int, u.len() as int);
        let p = payment_transaction(u, own_script@, dst_script@, amount, fee);
        assert(tx@.input =~= p.input);
        assert(tx@.output =~= p.output);
    }
    Ok(tx)
}

/// The output script that pays `dst_address`, which must be an address of
/// `network`.
pub fn destination_script(dst_address: &str, network: BitcoinNetwork) -> (r: Result<Vec<u8>, BuildError>)
    ensures
        r matches Ok(s) ==> address_script_of(dst_address@, network) == Some(s@),
        r is Err ==> r == Err::<Vec<u8>, BuildError>(BuildError::InvalidAddress)
            && address_script_of(dst_address@, network) is None,
{
    match address_script_pubkey(dst_address, network) {
        Some(s) => Ok(s),
        None => Err(BuildError::InvalidAddress),
    }
}

/// The sum of the output values.
pub open spec fn output_total(outs: Seq<TxOutView>) -> int
    decreases outs.len(),
{
    if outs.len() == 0 {
        0
    } else {
        output_total(outs.drop_last()) + outs.last().value
    }
}

/// What a payment transaction spends and pays: it spends the shortest
/// prefix of the UTXOs that covers amount and fee; with change of `remaining`
/// below the dust threshold it has the one payment output and the change
/// goes to the fee; otherwise it has exactly one change output worth
/// `remaining`. Either way the inputs cover the outputs, and what is left
/// over is the fee plus any dust.
pub proof fn lemma_payment_balance(
    u: Seq<(JsonOutPoint, u64)>,
    own_script: Seq<u8>,
    dst_script: Seq<u8>,
    amount: u64,
    fee: u64,
)
    requires
        utxo_total(u, u.len() as int) >= amount + fee,
    ensures
        ({
            let k = selection_len(u, amount + fee);
            let remaining = utxo_total(u, k) - amount - fee;
            let outs = payment_transaction(u, own_script, dst_script, amount, fee).output;
            &&& 0 <= k <= u.len()
            &&& k == 0 || utxo_total(u, k - 1) < amount + fee
            &&& remaining >= 0
            &&& remaining < DUST_THRESHOLD ==> outs.len() == 1 && output_total(outs) == amount
            &&& remaining >= DUST_THRESHOLD ==> outs.len() == 2 && outs[1].value == remaining
                && outs[1].script_pubkey == own_script && output_total(outs) == amount + remaining
            &&& utxo_total(u, k) - output_total(outs) == fee + (if remaining < DUST_THRESHOLD { remaining } else { 0 })
        }),
{
    let target = amount + fee;
    lemma_selection_reaches(u, target as int, 0);
    lemma_selection_bounds(u, target as int, 0);
    let k = selection_len(u, target);
    let outs = payment_transaction(u, own_script, dst_script, amount, fee).output;
    let remaining = utxo_total(u, k) - amount - fee;
    assert(output_total(Seq::<TxOutView>::empty()) == 0);
    if remaining >= DUST_THRESHOLD {
        let o1 = outs.drop_last();
        assert(o1.drop_last() =~= Seq::<TxOutView>::empty());
        assert(o1.last() == outs[0]);
        assert(output_total(o1) == amount);
        assert(output_total(outs) == amount + remaining);
    } else {
        assert(outs.drop_last() =~= Seq::<TxOutView>::empty());
        assert(output_total(outs) == amount);
    }
}

proof fn lemma_selection_reaches(u: Seq<(JsonOutPoint, u64)>, target: int, k: int)
    requires
        0 <= k <= u.len(),
        target >= 0,
        k == 0 || utxo_total(u, k - 1) < target,
        utxo_total(u, u.len() as int) >= target,
    ensures
        utxo_total(u, selection_len_from(u, target, k)) >= target,
        utxo_total(u, selection_len_from(u, target, k)) - target <= u64::MAX,
        selection_len_from(u, target, k) == 0 || utxo_total(u, selection_len_from(u, target, k) - 1) < target,
    decreases u.len() - k,
{
    if k < u.len() && utxo_total(u, k) < target {
        lemma_selection_reaches(u, target, k + 1);
    }
}

/// The most rounds of fee estimation before the search gives up.
pub const MAX_FEE_ROUNDS: u32 = 16;

/// The fee for a transaction of `size` bytes at `fee_per_byte` millisatoshis
/// per byte, rounded down to whole satoshis.
pub open spec fn fee_for_size(size: u64, fee_per_byte: u64) -> int {
    (size as int * fee_per_byte as int) / 1000
}

/// The outcome of one round of fee estimation.
#[derive(Clone, Copy, Debug, PartialEq, Eq, Structural)]
pub enum FeeStep {
    /// The fee the transaction was built with matches its signed size.
    Converged,
    /// Build and sign again with the updated fee.
    Retry,
    /// The fee did not settle within the allowed rounds, or overflowed.
    GaveUp,
}

/// The state of the fee search: build with `fee`, sign, measure, observe.
#[derive(Clone, Copy, Debug)]
pub struct FeeSearch {
    pub fee: u64,
    pub rounds: u32,
    pub fee_per_byte: u64,
}

/// One round of the fee search: the state after observing a signed size of
/// `size` bytes, and the outcome.
pub open spec fn fee_search_step(s: FeeSearch, size: u64) -> (FeeSearch, FeeStep) {
    let want = fee_for_size(size, s.fee_per_byte);
    if want == s.fee {
        (s, FeeStep::Converged)
    } else if want > u64::MAX || s.rounds + 1 >= MAX_FEE_ROUNDS {
        (s, FeeStep::GaveUp)
    } else {
        (FeeSearch { fee: want as u64, rounds: (s.rounds + 1) as u32, fee_per_byte: s.fee_per_byte }, FeeStep::Retry)
    }
}

/// Runs the fee search on the signed sizes `sizes`, one per round, until a
/// round does not ask to retry: the number of rounds taken and the outcome
/// of the last one (`Retry` when the sizes ran out first).
pub open spec fn fee_search_run(s: FeeSearch, sizes: Seq<u64>) -> (int, FeeStep)
    decreases sizes.len(),
{
    if sizes.len() == 0 {
        (0, FeeStep::Retry)
    } else {
        let (t, r) = fee_search_step(s, sizes[0]);
        if r == FeeStep::Retry {
            let (n, last) = fee_search_run(t, sizes.drop_first());
            (n + 1, last)
        } else {
            (1, r)
        }
    }
}

/// Whatever sizes the signed transactions have, a fee search started afresh
/// ends within `MAX_FEE_ROUNDS` rounds, either converged or given up.
pub proof fn lemma_fee_search_terminates(fee_per_byte: u64, sizes: Seq<u64>)
    requires
        sizes.len() >= MAX_FEE_ROUNDS,
    ensures
        fee_search_run(FeeSearch { fee: 0, rounds: 0, fee_per_byte }, sizes).0 <= MAX_FEE_ROUNDS,
        fee_search_run(FeeSearch { fee: 0, rounds: 0, fee_per_byte }, sizes).1 != FeeStep::Retry,
{
    lemma_fee_search_bounded(FeeSearch { fee: 0, rounds: 0, fee_per_byte }, sizes);
}

proof fn lemma_fee_search_bounded(s: FeeSearch, sizes: Seq<u64>)
    requires
        s.rounds < MAX_FEE_ROUNDS,
    ensures
        fee_search_run(s, sizes).0 <= MAX_FEE_ROUNDS - s.rounds,
        sizes.len() >= MAX_FEE_ROUNDS - s.rounds ==> fee_search_run(s, sizes).1 != FeeStep::Retry,
    decreases sizes.len(),
{
    if sizes.len() > 0 {
        let (t, r) = fee_search_step(s, sizes[0]);
        if r == FeeStep::Retry {
            lemma_fee_search_bounded(t, sizes.drop_first());
        }
    }
}

impl FeeSearch {
    /// A search that starts from a zero fee.
    pub fn new(fee_per_byte: u64) -> (r: FeeSearch)
        ensures
            r.fee == 0,
            r.rounds == 0,
            r.fee_per_byte == fee_per_byte,
    {
        FeeSearch { fee: 0, rounds: 0, fee_per_byte }
    }

    /// Takes the size of the transaction signed with the current fee. When the
    /// fee that size calls for is the current one, the search has converged;
    /// otherwise the fee is updated for another round, at most
    /// `MAX_FEE_ROUNDS` rounds in all.
    pub fn observe(&mut self, signed_size: u64) -> (r: FeeStep)
        ensures
            (*final(self), r) == fee_search_step(*old(self), signed_size),
            ({
                let want = fee_for_size(signed_size, old(self).fee_per_byte);
                &&& final(self).fee_per_byte == old(self).fee_per_byte
                &&& (r == FeeStep::Converged) == (want == old(self).fee)
                &&& r == FeeStep::Converged ==> *final(self) == *old(self)
                &&& r == FeeStep::Retry ==> final(self).fee == want && final(self).rounds == old(self).rounds + 1
                    && final(self).rounds < MAX_FEE_ROUNDS
                &&& r == FeeStep::GaveUp ==> want != old(self).fee
                    && (want > u64::MAX || old(self).rounds + 1 >= MAX_FEE_ROUNDS)
                &&& r == FeeStep::GaveUp ==> *final(self) == *old(self)
            }),
    {
        proof {
            let a = signed_size as int;
            let b = self.fee_per_byte as int;
            assert(0 <= a * b <= 0xFFFF_FFFF_FFFF_FFFF * 0xFFFF_FFFF_FFFF_FFFF) by (nonlinear_arith)
                requires 0 <= a <= 0xFFFF_FFFF_FFFF_FFFF, 0 <= b <= 0xFFFF_FFFF_FFFF_FFFF;
        }
        let want: u128 = (signed_size as u128 * self.fee_per_byte as u128) / 1000;
        if want == self.fee as u128 {
            FeeStep::Converged
        } else if want > u64::MAX as u128 || self.rounds >= MAX_FEE_ROUNDS - 1 {
            FeeStep::GaveUp
        } else {
            self.fee = want as u64;
            self.rounds = self.rounds + 1;
            FeeStep::Retry
        }
    }
}

/// The fee rate, in millisatoshis per byte, chosen from the network's fee
/// percentiles: the 50th percentile, or 2000 when there are none.
pub fn fee_per_byte_from_percentiles(percentiles: &Vec<u64>) -> (r: u64)
    requires
        percentiles@.len() == 0 || percentiles@.len() > 50,
    ensures
        r == (if percentiles@.len() == 0 { 2000 } else { percentiles@[50] }),
{
    if percentiles.len() == 0 {
        2000
    } else {
        percentiles[50]
    }
}

} // verus!
