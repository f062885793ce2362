//! A Bitcoin transaction-construction and signing library: address encoding,
//! UTXO selection with fee convergence, per-scheme signature embedding, DER
//! re-encoding of ECDSA signatures and the Taproot commit/reveal inscription
//! flow.
pub mod der;
pub mod hashing;
pub mod types;
pub mod address;
pub mod tx;
pub mod wallet;
pub mod builder;
pub mod script;
pub mod signer;
pub mod inscription;
pub mod derivation;
