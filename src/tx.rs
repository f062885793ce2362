//! The transaction model and the consensus computations on it: encoding,
//! transaction id, virtual size and signature hashes.
use vstd::prelude::*;
use bitcoin::hashes::Hash as _;
use bitcoin::absolute::LockTime;
use bitcoin::transaction::Version;
use bitcoin::{Amount, OutPoint, ScriptBuf, Sequence, Txid, Witness};
use crate::types::BitcoinNetwork;

verus! {

/// `nSequence` that signals replace-by-fee and leaves the lock time unused.
pub const SEQUENCE_RBF: u32 = 0xFFFF_FFFD;

/// `SIGHASH_ALL`.
pub const SIGHASH_ALL: u8 = 1;

/// A transaction input: the spent outpoint and its unlocking data.
#[derive(Clone, Debug)]
pub struct TxIn {
    pub txid: Vec<u8>,
    pub vout: u32,
    pub script_sig: Vec<u8>,
    pub sequence: u32,
    pub witness: Vec<Vec<u8>>,
}

/// A transaction output: an amount in satoshis locked by a script.
#[derive(Clone, Debug)]
pub struct TxOut {
    pub value: u64,
    pub script_pubkey: Vec<u8>,
}

/// A Bitcoin transaction.
#[derive(Clone, Debug)]
pub struct Transaction {
    pub version: i32,
    pub lock_time: u32,
    pub input: Vec<TxIn>,
    pub output: Vec<TxOut>,
}

pub struct TxInView {
    pub txid: Seq<u8>,
    pub vout: u32,
    pub script_sig: Seq<u8>,
    pub sequence: u32,
    pub witness: Seq<Seq<u8>>,
}

pub struct TxOutView {
    pub value: u64,
    pub script_pubkey: Seq<u8>,
}

pub struct TransactionView {
    pub version: i32,
    pub lock_time: u32,
    pub input: Seq<TxInView>,
    pub output: Seq<TxOutView>,
}

impl View for TxIn {
    type V = TxInView;

    open spec fn view(&self) -> TxInView {
        TxInView {
            txid: self.txid@,
            vout: self.vout,
            script_sig: self.script_sig@,
            sequence: self.sequence,
            witness: self.witness@.map_values(|w: Vec<u8>| w@),
        }
    }
}

impl View for TxOut {
    type V = TxOutView;

    open spec fn view(&self) -> TxOutView {
        TxOutView { value: self.value, script_pubkey: self.script_pubkey@ }
    }
}

impl View for Transaction {
    type V = TransactionView;

    open spec fn view(&self) -> TransactionView {
        TransactionView {
            version: self.version,
            lock_time: self.lock_time,
            input: self.input@.map_values(|i: TxIn| i@),
            output: self.output@.map_values(|o: TxOut| o@),
        }
    }
}

impl Transaction {
    /// Every input names a 32-byte transaction id.
    pub open spec fn wf(&self) -> bool {
        forall|i: int| 0 <= i < self.input@.len() ==> #[trigger] self.input@[i].txid@.len() == 32
    }
}

impl Transaction {
    /// The consensus encoding of the transaction.
    pub fn serialize(&self) -> (r: Vec<u8>)
        requires
            self.wf(),
        ensures
            r@ == tx_encoding_of(self@),
    {
        serialize_transaction(self)
    }

    /// The size in bytes of the consensus encoding, witness included.
    pub fn total_size(&self) -> (r: u64)
        requires
            self.wf(),
        ensures
            r == tx_encoding_of(self@).len(),
    {
        let b = serialize_transaction(self);
        b.len() as u64
    }
}

/// The consensus encoding of `tx` (segwit form when an input has a witness).
pub uninterp spec fn tx_encoding_of(tx: TransactionView) -> Seq<u8>;

/// The transaction id of the transaction encoded by `encoding`, in internal
/// byte order; `None` when the bytes do not decode.
pub uninterp spec fn txid_of(encoding: Seq<u8>) -> Option<Seq<u8>>;

/// The virtual size of the transaction encoded by `encoding`.
pub uninterp spec fn vsize_of(encoding: Seq<u8>) -> Option<u64>;

/// The legacy `SIGHASH_ALL` digest for input `index` of the encoded
/// transaction, spending an output locked by `script_pubkey`.
pub uninterp spec fn legacy_sighash_of(encoding: Seq<u8>, index: usize, script_pubkey: Seq<u8>) -> Option<Seq<u8>>;

/// The BIP143 `SIGHASH_ALL` digest for input `index` of the encoded
/// transaction, spending `value` satoshis locked by the P2WPKH `script_pubkey`.
pub uninterp spec fn segwit_v0_sighash_of(
    encoding: Seq<u8>,
    index: usize,
    script_pubkey: Seq<u8>,
    value: u64,
) -> Option<Seq<u8>>;

/// The BIP341 `SIGHASH_DEFAULT` script-path digest for the single input of
/// the encoded transaction, spending `value` satoshis locked by
/// `script_pubkey` through the tapscript leaf `leaf_script`.
pub uninterp spec fn tap_script_sighash_of(
    encoding: Seq<u8>,
    value: u64,
    script_pubkey: Seq<u8>,
    leaf_script: Seq<u8>,
) -> Option<Seq<u8>>;

/// The output script of the address text `address`, when it parses and
/// belongs to `network`.
pub uninterp spec fn address_script_of(address: Seq<char>, network: BitcoinNetwork) -> Option<Seq<u8>>;

/// Relies on bitcoin::consensus::serialize of bitcoin::Transaction, built
/// field for field from `tx`.
#[verifier::external_body]
pub(crate) fn serialize_transaction(tx: &Transaction) -> (r: Vec<u8>)
    requires
        tx.wf(),
    ensures
        r@ == tx_encoding_of(tx@),
{
    bitcoin::consensus::serialize(&bitcoin::Transaction {
        version: Version(tx.version),
        lock_time: LockTime::from_consensus(tx.lock_time),
        input: tx.input.iter().map(|i| bitcoin::TxIn {
            previous_output: OutPoint::new(Txid::from_slice(&i.txid).unwrap(), i.vout),
            script_sig: ScriptBuf::from_bytes(i.script_sig.clone()),
            sequence: Sequence(i.sequence),
            witness: Witness::from_slice(&i.witness),
        }).collect(),
        output: tx.output.iter().map(|o| bitcoin::TxOut {
            value: Amount::from_sat(o.value),
            script_pubkey: ScriptBuf::from_bytes(o.script_pubkey.clone()),
        }).collect(),
    })
}

/// Relies on bitcoin::Transaction::compute_txid, after
/// bitcoin::consensus::deserialize of `encoding`.
#[verifier::external_body]
pub(crate) fn decode_txid(encoding: &Vec<u8>) -> (r: Option<Vec<u8>>)
    ensures
        r matches Some(t) ==> txid_of(encoding@) == Some(t@) && t@.len() == 32,
        r is None ==> txid_of(encoding@) is None,
{
    let tx: bitcoin::Transaction = bitcoin::consensus::deserialize(encoding).ok()?;
    Some(tx.compute_txid().to_byte_array().to_vec())
}

/// Relies on bitcoin::Transaction::vsize, after
/// bitcoin::consensus::deserialize of `encoding`.
#[verifier::external_body]
pub(crate) fn decode_vsize(encoding: &Vec<u8>) -> (r: Option<u64>)
    ensures
        r == vsize_of(encoding@),
{
    let tx: bitcoin::Transaction = bitcoin::consensus::deserialize(encoding).ok()?;
    Some(tx.vsize() as u64)
}

/// Relies on bitcoin::sighash::SighashCache::legacy_signature_hash with
/// `SIGHASH_ALL`, after bitcoin::consensus::deserialize of `encoding`.
#[verifier::external_body]
pub(crate) fn legacy_sighash(encoding: &Vec<u8>, index: usize, script_pubkey: &Vec<u8>) -> (r: Option<Vec<u8>>)
    ensures
        r matches Some(h) ==> legacy_sighash_of(encoding@, index, script_pubkey@) == Some(h@),
        r is None ==> legacy_sighash_of(encoding@, index, script_pubkey@) is None,
{
    let tx: bitcoin::Transaction = bitcoin::consensus::deserialize(encoding).ok()?;
    let script = bitcoin::Script::from_bytes(script_pubkey);
    let h = bitcoin::sighash::SighashCache::new(&tx).legacy_signature_hash(index, script, 1).ok()?;
    Some(h.to_byte_array().to_vec())
}

/// Relies on bitcoin::sighash::SighashCache::p2wpkh_signature_hash with
/// `SIGHASH_ALL`, after bitcoin::consensus::deserialize of `encoding`.
#[verifier::external_body]
pub(crate) fn segwit_v0_sighash(encoding: &Vec<u8>, index: usize, script_pubkey: &Vec<u8>, value: u64) -> (r: Option<Vec<u8>>)
    ensures
        r matches Some(h) ==> segwit_v0_sighash_of(encoding@, index, script_pubkey@, value) == Some(h@),
        r is None ==> segwit_v0_sighash_of(encoding@, index, script_pubkey@, value) is None,
{
    let tx: bitcoin::Transaction = bitcoin::consensus::deserialize(encoding).ok()?;
    let script = bitcoin::Script::from_bytes(script_pubkey);
    let amount = Amount::from_sat(value);
    let all = bitcoin::EcdsaSighashType::All;
    let h = bitcoin::sighash::SighashCache::new(&tx).p2wpkh_signature_hash(index, script, amount, all).ok()?;
    Some(h.to_byte_array().to_vec())
}

/// Relies on bitcoin::sighash::SighashCache::taproot_script_spend_signature_hash
/// for input 0 with `Prevouts::All` of the one spent output, the leaf hash of
/// `leaf_script` as a tapscript and `SIGHASH_DEFAULT`.
#[verifier::external_body]
pub(crate) fn tap_script_sighash(encoding: &Vec<u8>, value: u64, script_pubkey: &Vec<u8>, leaf_script: &Vec<u8>) -> (r: Option<Vec<u8>>)
    ensures
        r matches Some(h) ==> tap_script_sighash_of(encoding@, value, script_pubkey@, leaf_script@) == Some(h@),
        r is None ==> tap_script_sighash_of(encoding@, value, script_pubkey@, leaf_script@) is None,
{
    let tx: bitcoin::Transaction = bitcoin::consensus::deserialize(encoding).ok()?;
    let spk = ScriptBuf::from_bytes(script_pubkey.clone());
    let prevouts = [bitcoin::TxOut { value: Amount::from_sat(value), script_pubkey: spk }];
    let leaf = bitcoin::TapLeafHash::from_script(bitcoin::Script::from_bytes(leaf_script), bitcoin::taproot::LeafVersion::TapScript);
    let mut cache = bitcoin::sighash::SighashCache::new(&tx);
    let h = cache.taproot_script_spend_signature_hash(0, &bitcoin::sighash::Prevouts::All(&prevouts), leaf, bitcoin::TapSighashType::Default).ok()?;
    Some(h.to_byte_array().to_vec())
}

/// Relies on bitcoin::Address's `FromStr`, Address::require_network and
/// Address::script_pubkey; the network is mapped one for one.
#[verifier::external_body]
pub(crate) fn address_script_pubkey(address: &str, network: BitcoinNetwork) -> (r: Option<Vec<u8>>)
    ensures
        r matches Some(s) ==> address_script_of(address@, network) == Some(s@),
        r is None ==> address_script_of(address@, network) is None,
{
    let net = match network {
        BitcoinNetwork::Mainnet => bitcoin::Network::Bitcoin,
        BitcoinNetwork::Testnet => bitcoin::Network::Testnet,
        BitcoinNetwork::Regtest => bitcoin::Network::Regtest,
    };
    let unchecked: bitcoin::Address<bitcoin::address::NetworkUnchecked> = address.parse().ok()?;
    Some(unchecked.require_network(net).ok()?.script_pubkey().into_bytes())
}

} // verus!
