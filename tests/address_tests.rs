use btc_wallet::address::{
    versioned_key_hash, with_checksum, network_and_public_key_to_p2pkh, network_and_public_key_to_p2wpkh, network_hrp, p2wpkh_script_code,
    p2wpkh_script_pubkey,
};
use btc_wallet::hashing::{hash160, ripemd160, sha256, sha256d};
use btc_wallet::builder::destination_script;
use btc_wallet::types::BitcoinNetwork;

const G: &str = "0279be667ef9dcbbac55a06295ce870b07029bfcdb2dce28d959f2815b16f81798";
const G_HASH160: &str = "751e76e8199196d454941c45d1b3a323f1433bd6";

fn g() -> Vec<u8> {
    hex::decode(G).unwrap()
}

#[test]
fn hashes_of_known_inputs() {
    assert_eq!(
        hex::encode(sha256(b"abc")),
        "ba7816bf8f01cfea414140de5dae2223b00361a396177a9cb410ff61f20015ad"
    );
    assert_eq!(hex::encode(ripemd160(b"abc")), "8eb208f7e05d987a9b044a8e98c6b087f15a0bfc");
    assert_eq!(hex::encode(hash160(&g())), G_HASH160);
    assert_eq!(
        hex::encode(sha256d(b"")),
        "5df6e0e2761359d30a8275058e299fcc0381534545f55cf43e41983f5d4c9456"
    );
}

#[test]
fn p2pkh_address_of_generator_key() {
    assert_eq!(network_and_public_key_to_p2pkh(BitcoinNetwork::Mainnet, &g()), "1BgGZ9tcN4rm9KBzDn7KprQz87SZ26SAMH");
    let pk = bitcoin::CompressedPublicKey::from_slice(&g()).unwrap();
    let expected = bitcoin::Address::p2pkh(pk, bitcoin::Network::Testnet).to_string();
    assert_eq!(network_and_public_key_to_p2pkh(BitcoinNetwork::Testnet, &g()), expected);
    assert_eq!(network_and_public_key_to_p2pkh(BitcoinNetwork::Regtest, &g()), expected);
}

#[test]
fn p2wpkh_address_of_generator_key() {
    assert_eq!(
        network_and_public_key_to_p2wpkh(BitcoinNetwork::Mainnet, &g()),
        "bc1qw508d6qejxtdg4y5r3zarvary0c5xw7kv8f3t4"
    );
    assert_eq!(
        network_and_public_key_to_p2wpkh(BitcoinNetwork::Testnet, &g()),
        "tb1qw508d6qejxtdg4y5r3zarvary0c5xw7kxpjzsx"
    );
    assert!(network_and_public_key_to_p2wpkh(BitcoinNetwork::Regtest, &g()).starts_with("bcrt1q"));
}

#[test]
fn p2wpkh_address_decodes_to_key_hash_and_network() {
    let keys = [
        G.to_string(),
        "03a34b99f22c790c4e36b2b3c2c35a36db06226e41c692fc82b8b56ac1c540c5bd".to_string(),
        "02c6047f9441ed7d6d3045406e95c07cd85c778e4b8cef3ca7abac09b95c709ee5".to_string(),
    ];
    for key in keys.iter() {
        let pk = hex::decode(key).unwrap();
        for (network, hrp) in [
            (BitcoinNetwork::Mainnet, "bc"),
            (BitcoinNetwork::Testnet, "tb"),
            (BitcoinNetwork::Regtest, "bcrt"),
        ] {
            let address = network_and_public_key_to_p2wpkh(network, &pk);
            let (got_hrp, version, program) = bech32::segwit::decode(&address).unwrap();
            assert_eq!(got_hrp.to_string(), hrp);
            assert_eq!(version, bech32::Fe32::Q);
            assert_eq!(program, hash160(&pk));
            assert_eq!(network_hrp(network), hrp);
        }
    }
}

#[test]
fn output_scripts_of_a_key_hash() {
    let h = hash160(&g());
    let code = p2wpkh_script_code(&h);
    assert_eq!(hex::encode(&code), format!("76a914{}88ac", G_HASH160));
    assert_eq!(hex::encode(p2wpkh_script_pubkey(&h)), format!("0014{}", G_HASH160));
}

#[test]
fn address_text_to_output_script() {
    let s = destination_script("bc1qw508d6qejxtdg4y5r3zarvary0c5xw7kv8f3t4", BitcoinNetwork::Mainnet).unwrap();
    assert_eq!(hex::encode(s), format!("0014{}", G_HASH160));
    assert_eq!(destination_script("bc1qw508d6qejxtdg4y5r3zarvary0c5xw7kv8f3t4", BitcoinNetwork::Testnet), Err(btc_wallet::builder::BuildError::InvalidAddress));
    assert_eq!(destination_script("not an address", BitcoinNetwork::Mainnet), Err(btc_wallet::builder::BuildError::InvalidAddress));
    let t = destination_script("mrCDrCybB6J1vRfbwM5hemdJz73FwDBC8r", BitcoinNetwork::Testnet).unwrap();
    assert_eq!(hex::encode(t), format!("76a914{}88ac", G_HASH160));
}

#[test]
fn base58check_payload_parts() {
    let h = hex::decode(G_HASH160).unwrap();
    let data = versioned_key_hash(BitcoinNetwork::Testnet, &h);
    assert_eq!(data[0], 0x6f);
    assert_eq!(&data[1..], &h[..]);
    assert_eq!(versioned_key_hash(BitcoinNetwork::Mainnet, &h)[0], 0x00);
    let full = with_checksum(&data, &vec![9u8, 8, 7, 6, 5, 4]);
    assert_eq!(full.len(), 25);
    assert_eq!(&full[21..], &[9u8, 8, 7, 6]);
    let checksum = sha256d(&data);
    let payload = with_checksum(&data, &checksum);
    assert_eq!(bs58::encode(&payload).into_string(), network_and_public_key_to_p2pkh(BitcoinNetwork::Testnet, &g()));
}
