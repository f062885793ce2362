//! Plain data types shared by the wallet: networks, keys, requests and errors.
use vstd::prelude::*;

verus! {

/// The Bitcoin network an address or transaction belongs to.
#[derive(Clone, Copy, Debug, PartialEq, Eq, Structural)]
pub enum BitcoinNetwork {
    Mainnet,
    Testnet,
    Regtest,
}

/// The witness version of a segwit output.
#[derive(Clone, Copy, Debug, PartialEq, Eq, Structural)]
pub enum WitnessVersion {
    V0,
    V1,
}

/// A public key together with its BIP32 chain code.
#[derive(Clone, Debug)]
pub struct ECDSAPublicKey {
    pub public_key: Vec<u8>,
    pub chain_code: Vec<u8>,
}

/// The elliptic curve of an ECDSA key.
#[derive(Clone, Copy, Debug, PartialEq, Eq, Structural)]
pub enum EcdsaCurve {
    Secp256k1,
}

/// A payment request: `amount_in_sats` to `destination_address`.
#[derive(Clone, Debug)]
pub struct SendRequest {
    pub destination_address: String,
    pub amount_in_sats: u64,
}

/// The raw signature returned by the signing service.
#[derive(Clone, Debug)]
pub struct SignWithECDSAReply {
    pub signature: Vec<u8>,
}

/// A payment request on behalf of the account owned by principal `pid`.
#[derive(Clone, Debug)]
pub struct SendBtcRequest {
    pub pid: String,
    pub amount: u64,
    pub dst_address: String,
}

/// A request to refresh the UTXOs of `address`.
#[derive(Clone, Debug)]
pub struct UpdateUtxoRequest {
    pub address: String,
}

/// The reason an external service call failed.
#[derive(Clone, Debug, PartialEq, Eq)]
pub enum Reason {
    /// The request could not be queued because the output queue is full.
    QueueIsFull,
    /// Not enough cycles to submit the request.
    OutOfCycles,
    /// The call failed with an error.
    CanisterError(String),
    /// The service rejected the request.
    Rejected(String),
}

/// An error from an external service call, naming the failing method.
#[derive(Clone, Debug, PartialEq, Eq)]
pub struct CallError {
    pub method: String,
    pub reason: Reason,
}

} // verus!
