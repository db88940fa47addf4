use std::str::FromStr;

use ckb_lock_script::address::{
    check_padding, check_parts, format_address, parse_address, AddressError,
};
use ckb_lock_script::config::Config;
use ckb_lock_script::key::{join_signature, SecretKey};
use ckb_lock_script::keygen::Account;
use ckb_lock_script::script::{HashType, Script};
use ckb_types::prelude::{Builder, Entity, Pack, Unpack};

fn key_of(last: u8) -> SecretKey {
    let mut bytes = [0u8; 32];
    bytes[31] = last;
    SecretKey::from_byte_array(&bytes).ok().unwrap()
}

#[test]
fn the_key_one_has_the_generator_as_public_key() {
    assert_eq!(
        hex::encode(key_of(1).public_key()),
        "0279be667ef9dcbbac55a06295ce870b07029bfcdb2dce28d959f2815b16f81798"
    );
}

#[test]
fn secret_keys_are_below_the_order() {
    assert!(SecretKey::from_byte_array(&[0u8; 32]).is_err());
    assert!(SecretKey::from_byte_array(&[255u8; 32]).is_err());
    assert_eq!(key_of(7).secret_bytes()[31], 7);
}

#[test]
fn signatures_recover_to_the_signer() {
    let digest = [9u8; 32];
    let signature = key_of(5).sign(&digest);
    assert_eq!(signature, key_of(5).sign(&digest));
    let id = secp256k1::ecdsa::RecoveryId::try_from(signature[64] as i32).unwrap();
    let read =
        secp256k1::ecdsa::RecoverableSignature::from_compact(&signature[..64], id).unwrap();
    let public = secp256k1::Secp256k1::new()
        .recover_ecdsa(&secp256k1::Message::from_digest(digest), &read)
        .unwrap();
    assert_eq!(public.serialize(), key_of(5).public_key());
}

#[test]
fn the_recovery_number_comes_last() {
    let mut compact = [0u8; 64];
    compact[0] = 1;
    compact[63] = 2;
    let signature = join_signature(&compact, 3);
    assert_eq!(signature[..64], compact);
    assert_eq!(signature[64], 3);
}

#[test]
fn scripts_serialize_as_tables() {
    for (hash_type, byte) in
        [(HashType::Data, 0u8), (HashType::Type, 1), (HashType::Data1, 2), (HashType::Data2, 4)]
    {
        let script = Script { code_hash: [3u8; 32], hash_type, args: b"args".to_vec() };
        let packed = ckb_types::packed::Script::new_builder()
            .code_hash([3u8; 32].pack())
            .hash_type(byte.into())
            .args((&b"args"[..]).pack())
            .build();
        assert_eq!(script.as_bytes(), packed.as_slice());
        let hash: [u8; 32] = packed.calc_script_hash().unpack();
        assert_eq!(script.calc_script_hash(), hash);
        assert_eq!(script.copy(), script);
        assert_eq!(hash, ckb_hash::blake2b_256(script.as_bytes()));
    }
    let empty = Script { code_hash: [0u8; 32], hash_type: HashType::Data, args: vec![] };
    assert_eq!(empty.as_bytes().len(), 53);
    assert_eq!(empty.as_bytes()[..16], [53, 0, 0, 0, 16, 0, 0, 0, 48, 0, 0, 0, 49, 0, 0, 0]);
}

#[test]
fn accounts_have_a_key_and_two_addresses() {
    let account = Account::of_key(&key_of(1));
    assert_eq!(
        account.private_key,
        "0x0000000000000000000000000000000000000000000000000000000000000001"
    );
    assert!(account.testnet_address.starts_with("ckt1"));
    assert!(account.mainnet_address.starts_with("ckb1"));

    let hash = ckb_hash::blake2b_256(key_of(1).public_key());
    let lock = parse_address(&account.testnet_address).unwrap();
    assert_eq!(
        hex::encode(lock.code_hash),
        "9bd7e06f3ecf4be0f2fcd2188b23f1b9fcc88e5d4b65a8637b17723bbda3cce8"
    );
    assert_eq!(lock.hash_type, HashType::Type);
    assert_eq!(lock.args, hash[..20]);
    assert_eq!(parse_address(&account.mainnet_address).unwrap(), lock);
}

#[test]
fn an_account_configures_the_deployer() {
    let account = Account::of_key(&key_of(77));
    let config = Config::from_env(
        Some(account.private_key.clone()),
        Some(account.testnet_address.clone()),
        None,
    )
    .unwrap();
    assert_eq!(config.private_key_bytes, key_of(77).secret_bytes());
    assert!(parse_address(&config.address).is_ok());
}

#[test]
fn addresses_are_those_of_the_sdk() {
    // An address that is published with the address format.
    let text = "ckb1qzda0cr08m85hc8jlnfp3zer7xulejywt49kt2rr0vthywaa50xwsqdnnw7qkdnnclfkg59uzn8umtfd2kwxceqxwquc4";
    let lock = parse_address(text).unwrap();
    assert_eq!(hex::encode(&lock.args), "b39bbc0b3673c7d36450bc14cfcdad2d559c6c64");
    assert_eq!(lock.hash_type, HashType::Type);
    assert_eq!(format_address(false, &lock), text);
}

#[test]
fn other_locks_have_addresses_too() {
    let lock = Script { code_hash: [6u8; 32], hash_type: HashType::Data1, args: vec![1, 2, 3] };
    let text = format_address(true, &lock);
    assert_eq!(parse_address(&text).unwrap(), lock);
    assert_ne!(text, format_address(false, &lock));
}

#[test]
fn malformed_addresses_are_refused() {
    let malformed = |text: &str| match parse_address(text) {
        Err(AddressError::Malformed(reason)) => reason,
        other => panic!("{other:?}"),
    };
    assert_eq!(malformed(""), "invalid length");
    assert_eq!(malformed("no separator"), "missing human-readable separator, \"1\"");
    let good = Account::of_key(&key_of(1)).testnet_address;
    let mut broken = good.clone();
    broken.pop();
    broken.push(if good.ends_with('q') { 'p' } else { 'q' });
    assert_eq!(malformed(&broken), "invalid checksum");
}

/// A bech32 text with a valid checksum.
fn bech32_text(prefix: &str, values: &[u8]) -> String {
    let symbols: Vec<bech32::u5> =
        values.iter().map(|value| bech32::u5::try_from_u8(*value).unwrap()).collect();
    bech32::encode(prefix, symbols, bech32::Variant::Bech32m).unwrap()
}

#[test]
fn refused_addresses_have_the_reason_of_the_sdk() {
    let good = "ckb1qzda0cr08m85hc8jlnfp3zer7xulejywt49kt2rr0vthywaa50xwsqdnnw7qkdnnclfkg59uzn8umtfd2kwxceqxwquc4";
    let refused = [
        // One character lost, in the data and at the end.
        good.replacen("ywaa50", "ywa50", 1),
        good[..good.len() - 1].to_string(),
        // Another chain, padded and unpadded.
        bech32_text("bc", &[0; 33]),
        bech32_text("bc", &[0; 32]),
        bech32_text("ckx", &[]),
        // Symbols that are none, mixed case, checksums that are none.
        "ckt1bbbbbbb".to_string(),
        "ckt1qqqqqqq".to_string(),
        "ckt1qqqqqqqqQ".to_string(),
        "CKT1QPQQQQQQ".to_string(),
        "ckt1qqqqqqqqq".to_string(),
        "ckt1qqqqqqqq".to_string(),
        "ckt1".to_string(),
        "\u{e9}1qqqqqqqq".to_string(),
        // Padded, but too short for a lock.
        bech32_text("ckt", &[0; 8]),
        bech32_text("ckt", &[31; 8]),
    ];
    for text in refused {
        let reason = ckb_sdk::Address::from_str(&text).unwrap_err();
        assert_eq!(parse_address(&text), Err(AddressError::Malformed(reason)), "{text}");
    }
    assert_eq!(
        parse_address("ckt1bbbbbbb"),
        Err(AddressError::Malformed("invalid character (code=b)".to_string()))
    );
    assert_eq!(
        parse_address(&bech32_text("bc", &[0; 33])),
        Err(AddressError::Malformed("Invalid hrp: bc".to_string()))
    );
}

#[test]
fn unpadded_addresses_are_refused() {
    // No data; one symbol; a whole symbol left over; a padding bit set.
    for values in [&[][..], &[0], &[0, 0, 0], &[0, 1], &[0, 0, 0, 8], &[0, 0, 0, 0, 1]] {
        for prefix in ["ckt", "ckb"] {
            let text = bech32_text(prefix, values);
            assert_eq!(parse_address(&text), Err(AddressError::Padding), "{text}");
            // Upper case stands for the same symbols.
            assert_eq!(parse_address(&text.to_uppercase()), Err(AddressError::Padding));
        }
    }
}

#[test]
fn symbols_must_fill_bytes() {
    assert!(!check_padding(&[]));
    assert!(!check_padding(&[0]));
    assert!(check_padding(&[31, 28]));
    assert!(!check_padding(&[31, 29]));
    assert!(!check_padding(&[0, 0, 0]));
    assert!(check_padding(&[31, 31, 31, 16]));
    assert!(!check_padding(&[31, 31, 31, 8]));
    assert!(check_padding(&[0, 0, 0, 0, 30]));
    assert!(!check_padding(&[0, 0, 0, 0, 31]));
    assert!(!check_padding(&[0; 6]));
    assert!(check_padding(&[0, 0, 0, 0, 0, 0, 24]));
    assert!(!check_padding(&[0, 0, 0, 0, 0, 0, 4]));
    assert!(check_padding(&[31; 8]));
    assert!(check_parts("bc", &[]));
    assert!(!check_parts("ckt", &[]));
    assert!(check_parts("ckb", &[31; 8]));
}
