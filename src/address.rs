//! Address encoding: Base58Check P2PKH, Bech32 P2WPKH, and the output
//! scripts that pay them.
use vstd::prelude::*;
use crate::hashing::{hash160, hash160_of, sha256_of, sha256d};
use crate::types::BitcoinNetwork;

verus! {

/// The Base58 text of `data`.
pub uninterp spec fn base58_of(data: Seq<u8>) -> Seq<char>;

/// The segwit version-0 address with human-readable part `hrp` and witness
/// program `program`.
pub uninterp spec fn segwit_v0_address_of(hrp: Seq<char>, program: Seq<u8>) -> Seq<char>;

/// The version byte that starts a P2PKH payload on `network`.
pub open spec fn p2pkh_version_byte(network: BitcoinNetwork) -> u8 {
    match network {
        BitcoinNetwork::Mainnet => 0x00u8,
        BitcoinNetwork::Testnet | BitcoinNetwork::Regtest => 0x6fu8,
    }
}

/// The Base58Check payload of a P2PKH address: version byte, HASH160 of the
/// key, and the first four bytes of the double SHA-256 of those 21 bytes.
pub open spec fn p2pkh_payload(network: BitcoinNetwork, public_key: Seq<u8>) -> Seq<u8> {
    let versioned = seq![p2pkh_version_byte(network)] + hash160_of(public_key);
    versioned + sha256_of(sha256_of(versioned)).subrange(0, 4)
}

/// The human-readable part of segwit addresses on `network`.
pub open spec fn segwit_hrp(network: BitcoinNetwork) -> Seq<char> {
    match network {
        BitcoinNetwork::Mainnet => seq!['b', 'c'],
        BitcoinNetwork::Testnet => seq!['t', 'b'],
        BitcoinNetwork::Regtest => seq!['b', 'c', 'r', 't'],
    }
}

/// A SEC1 compressed public key: 33 bytes starting with 0x02 or 0x03.
pub open spec fn is_compressed_key(public_key: Seq<u8>) -> bool {
    public_key.len() == 33 && (public_key[0] == 0x02 || public_key[0] == 0x03)
}

/// `OP_0 <20-byte hash>`: the output script of a P2WPKH address.
pub open spec fn p2wpkh_script(pkhash: Seq<u8>) -> Seq<u8> {
    seq![0x00u8, 0x14u8] + pkhash
}

/// `OP_DUP OP_HASH160 <20-byte hash> OP_EQUALVERIFY OP_CHECKSIG`.
pub open spec fn p2pkh_script(pkhash: Seq<u8>) -> Seq<u8> {
    seq![0x76u8, 0xa9u8, 0x14u8] + pkhash + seq![0x88u8, 0xacu8]
}

/// Relies on bs58::encode(..).into_string: the Base58 text of `data`.
#[verifier::external_body]
fn base58_encode(data: &Vec<u8>) -> (r: String)
    ensures
        r@ == base58_of(data@),
{
    bs58::encode(data).into_string()
}

/// Relies on bech32::segwit::encode_v0, which returns `Ok` for a 20-byte
/// program under a human-readable part of at most four characters (its
/// checks are on the program length and on a 90-character total).
#[verifier::external_body]
fn encode_segwit_v0(hrp: &str, program: &Vec<u8>) -> (r: String)
    requires
        1 <= hrp@.len() <= 4,
        program@.len() == 20,
    ensures
        r@ == segwit_v0_address_of(hrp@, program@),
{
    bech32::segwit::encode_v0(bech32::Hrp::parse_unchecked(hrp), program).unwrap()
}

/// The human-readable part of segwit addresses on `network`.
pub fn network_hrp(network: BitcoinNetwork) -> (r: &'static str)
    ensures
        r@ == segwit_hrp(network),
{
    match network {
        BitcoinNetwork::Mainnet => {
            proof {
                reveal_strlit("bc");
            }
            "bc"
        },
        BitcoinNetwork::Testnet => {
            proof {
                reveal_strlit("tb");
            }
            "tb"
        },
        BitcoinNetwork::Regtest => {
            proof {
                reveal_strlit("bcrt");
            }
            "bcrt"
        },
    }
}

fn append(dst: &mut Vec<u8>, src: &Vec<u8>, start: usize, end: usize)
    requires
        start <= end <= src.len(),
    ensures
        final(dst)@ == old(dst)@ + src@.subrange(start as int, end as int),
{
    let ghost before = dst@;
    let mut i: usize = start;
    while i < end
        invariant
            start <= i <= end <= src.len(),
            dst@ == before + src@.subrange(start as int, i as int),
        decreases end - i,
    {
        dst.push(src[i]);
        i = i + 1;
        assert(dst@ =~= before + src@.subrange(start as int, i as int));
    }
}

/// Appends all of `src` to `dst`.
pub fn append_all(dst: &mut Vec<u8>, src: &Vec<u8>)
    ensures
        final(dst)@ == old(dst)@ + src@,
{
    append(dst, src, 0, src.len());
    assert(src@.subrange(0, src@.len() as int) =~= src@);
}

/// The version byte of `network` followed by the 20-byte key hash `pkhash`.
pub fn versioned_key_hash(network: BitcoinNetwork, pkhash: &Vec<u8>) -> (r: Vec<u8>)
    ensures
        r@ == seq![p2pkh_version_byte(network)] + pkhash@,
{
    let prefix: u8 = match network {
        BitcoinNetwork::Mainnet => 0x00,
        BitcoinNetwork::Testnet | BitcoinNetwork::Regtest => 0x6f,
    };
    let mut data = vec![prefix];
    append_all(&mut data, pkhash);
    assert(data@ =~= seq![p2pkh_version_byte(network)] + pkhash@);
    data
}

/// `data` followed by the first four bytes of `digest`, its Base58Check
/// checksum when `digest` is the double SHA-256 of `data`.
pub fn with_checksum(data: &Vec<u8>, digest: &Vec<u8>) -> (r: Vec<u8>)
    requires
        digest@.len() >= 4,
    ensures
        r@ == data@ + digest@.subrange(0, 4),
{
    let mut full = data.clone();
    assert(full@ =~= data@);
    append(&mut full, digest, 0, 4);
    full
}

/// The P2PKH (Base58Check) address of `public_key` on `network`.
pub fn network_and_public_key_to_p2pkh(network: BitcoinNetwork, public_key: &[u8]) -> (r: String)
    ensures
        r@ == base58_of(p2pkh_payload(network, public_key@)),
{
    let h = hash160(public_key);
    let data = versioned_key_hash(network, &h);
    let checksum = sha256d(data.as_slice());
    let full = with_checksum(&data, &checksum);
    base58_encode(&full)
}

/// Whether `public_key` is a SEC1 compressed public key.
pub fn is_compressed_public_key(public_key: &[u8]) -> (r: bool)
    ensures
        r == is_compressed_key(public_key@),
{
    public_key.len() == 33 && (public_key[0] == 0x02 || public_key[0] == 0x03)
}

/// The P2WPKH (Bech32, witness version 0) address of a compressed public key.
pub fn network_and_public_key_to_p2wpkh(network: BitcoinNetwork, public_key: &[u8]) -> (r: String)
    requires
        is_compressed_key(public_key@),
    ensures
        r@ == segwit_v0_address_of(segwit_hrp(network), hash160_of(public_key@)),
{
    let h = hash160(public_key);
    encode_segwit_v0(network_hrp(network), &h)
}

/// `OP_DUP OP_HASH160 <pkhash> OP_EQUALVERIFY OP_CHECKSIG`: the P2PKH output
/// script, which is also the BIP143 script code of a P2WPKH output.
pub fn p2wpkh_script_code(pkhash: &Vec<u8>) -> (r: Vec<u8>)
    requires
        pkhash@.len() == 20,
    ensures
        r@ == p2pkh_script(pkhash@),
{
    let mut s = vec![0x76u8, 0xa9u8, 0x14u8];
    append_all(&mut s, pkhash);
    s.push(0x88);
    s.push(0xac);
    assert(s@ =~= p2pkh_script(pkhash@));
    s
}

/// `OP_0 <pkhash>`: the output script of a P2WPKH address.
pub fn p2wpkh_script_pubkey(pkhash: &Vec<u8>) -> (r: Vec<u8>)
    requires
        pkhash@.len() == 20,
    ensures
        r@ == p2wpkh_script(pkhash@),
{
    let mut s = vec![0x00u8, 0x14u8];
    append_all(&mut s, pkhash);
    s
}

} // verus!
