use ckb_lock_script::args::{
    hash_fits, hashes_fit, parse_create_locked, parse_create_timelock, parse_hash,
    parse_sender_key, parse_simple_spend, parse_timelock_spend, CreateArgError, SenderKeyError,
    TimelockArgError,
};
use ckb_lock_script::commands::{
    deploy_simple_lock, deploy_sudt, deploy_timelock_lock, start, Command, StartError,
};
use ckb_lock_script::config::{Config, ConfigError};
use ckb_lock_script::hex_text::HexError;
use ckb_lock_script::key::InvalidSecretKey;

const KEY: &str = "0101010101010101010101010101010101010101010101010101010101010102";
const ORDER: &str = "fffffffffffffffffffffffffffffffebaaedce6af48a03bbfd25e8cd0364141";
const BELOW_ORDER: &str = "fffffffffffffffffffffffffffffffebaaedce6af48a03bbfd25e8cd0364140";
const ZERO: &str = "0000000000000000000000000000000000000000000000000000000000000000";
const HASH_A: &str = "aaaaaaaaaaaaaaaaaaaaaaaaaaaaaaaaaaaaaaaaaaaaaaaaaaaaaaaaaaaaaaaa";
const HASH_B: &str = "BBbbbbbbbbbbbbbbbbbbbbbbbbbbbbbbbbbbbbbbbbbbbbbbbbbbbbbbbbbbbbbb";

fn text(s: &str) -> Option<String> {
    Some(s.to_string())
}

fn strings(list: &[&str]) -> Vec<String> {
    list.iter().map(|s| s.to_string()).collect()
}

#[test]
fn configuration_reads_three_variables() {
    let config = Config::from_env(text(KEY), text("addr"), text("http://node")).unwrap();
    let mut key = [1u8; 32];
    key[31] = 2;
    assert_eq!(config.private_key_bytes, key);
    assert_eq!(config.address, "addr");
    assert_eq!(config.ckb_rpc, "http://node");
    assert_eq!(config.secret_key().unwrap().secret_bytes(), key);
}

#[test]
fn the_node_has_a_default() {
    let config = Config::from_env(text(KEY), text("addr"), None).unwrap();
    assert_eq!(config.ckb_rpc, "https://testnet.ckb.dev:8114");
}

#[test]
fn a_key_may_have_prefixes() {
    for prefix in ["", "0x", "0x0x"] {
        let key = format!("{prefix}{KEY}");
        let config = Config::from_env(Some(key), text("addr"), None).unwrap();
        assert_eq!(config.private_key_bytes[31], 2);
    }
    assert!(matches!(
        Config::from_env(text(&format!("0X{KEY}")), text("a"), None),
        Err(ConfigError::KeyNotHex(HexError::InvalidHexCharacter { c: 'X', index: 1 }))
    ));
}

#[test]
fn configuration_errors_come_in_order() {
    let err = |k: Option<String>, a: Option<String>| Config::from_env(k, a, None).unwrap_err();
    assert_eq!(err(None, None), ConfigError::MissingPrivateKey);
    assert_eq!(err(text("zz"), None), ConfigError::MissingAddress);
    assert_eq!(
        err(text("zz"), text("a")),
        ConfigError::KeyNotHex(HexError::InvalidHexCharacter { c: 'z', index: 0 })
    );
    assert_eq!(err(text("0x123"), text("a")), ConfigError::KeyNotHex(HexError::OddLength));
    assert_eq!(err(text("0x1234"), text("a")), ConfigError::KeyLength);
    assert_eq!(err(text(""), text("a")), ConfigError::KeyLength);
}

#[test]
fn configuration_errors_have_messages() {
    for (error, message, cause) in [
        (ConfigError::MissingPrivateKey, "PRIVATE_KEY not set in .env", None),
        (ConfigError::MissingAddress, "TESTNET_ADDRESS not set in .env", None),
        (
            ConfigError::KeyNotHex(HexError::OddLength),
            "PRIVATE_KEY is not valid hex",
            text("Odd number of digits"),
        ),
        (
            ConfigError::KeyLength,
            "PRIVATE_KEY must be exactly 32 bytes (64 hex chars)",
            None,
        ),
    ] {
        assert_eq!(error.message(), message);
        assert_eq!(error.cause(), cause);
        assert_eq!(StartError::Config(error).message(), message);
    }
    let unknown = StartError::UnknownCommand("mint".to_string());
    assert_eq!(unknown.message(), "unknown command: mint");
}

#[test]
fn argument_errors_have_messages() {
    let bad = || HexError::InvalidHexCharacter { c: 'z', index: 107 };
    assert_eq!(bad().message(), "Invalid character 'z' at position 107");
    let tab = HexError::InvalidHexCharacter { c: '\t', index: 0 };
    assert_eq!(tab.message(), "Invalid character '\\t' at position 0");
    assert_eq!(HexError::OddLength.message(), "Odd number of digits");
    let key = "malformed or out-of-range secret key";
    assert_eq!(InvalidSecretKey.message(), key);
    assert_eq!(TimelockArgError::Hex(bad()).message(), bad().message());
    assert_eq!(TimelockArgError::UnlockTime.message(), "unlock_after_ms must be a u64");
    assert_eq!(TimelockArgError::SigningKeyLength.message(), "signing key must be 32 bytes");
    assert_eq!(TimelockArgError::InvalidSigningKey.message(), key);
    assert_eq!(CreateArgError::Hex(bad()).message(), bad().message());
    assert_eq!(CreateArgError::PublicKeyLength.message(), "public key must be 33 bytes");
    assert_eq!(CreateArgError::CommitmentLength.message(), "commitment must be 32 bytes");
    assert_eq!(SenderKeyError::Hex(bad()).message(), bad().message());
    assert_eq!(SenderKeyError::Invalid.message(), key);
}

#[test]
fn a_configured_key_must_be_on_the_curve() {
    let config = |key: &str| Config::from_env(text(key), text("a"), None).unwrap();
    assert!(matches!(config(ZERO).secret_key(), Err(InvalidSecretKey)));
    assert!(matches!(config(ORDER).secret_key(), Err(InvalidSecretKey)));
    assert!(config(BELOW_ORDER).secret_key().is_ok());
}

#[test]
fn commands_have_words() {
    let all = [
        (Command::DeploySudt, "deploy-sudt"),
        (Command::DeploySimpleLock, "deploy-simple-lock"),
        (Command::CreateLockedCell, "create-locked-cell"),
        (Command::SpendSimpleLock, "spend-simple-lock"),
        (Command::DeployTimelockLock, "deploy-timelock-lock"),
        (Command::CreateTimelockCell, "create-timelock-cell"),
        (Command::SpendTimelockLock, "spend-timelock-lock"),
    ];
    for (command, word) in all {
        assert_eq!(command.name(), word);
        assert_eq!(Command::from_word(word), Some(command));
    }
    assert_eq!(Command::from_word("deploy"), None);
    assert_eq!(Command::from_word("Deploy-sudt"), None);
    assert_eq!(Command::from_word(""), None);
}

#[test]
fn starting_needs_a_configuration_and_a_command() {
    let run = |word: Option<&str>, key: Option<String>| {
        start(word.map(|w| w.to_string()), key, text("addr"), None)
    };
    assert_eq!(run(None, text(KEY)).unwrap().0, Command::DeploySudt);
    let (command, config) = run(Some("spend-timelock-lock"), text(KEY)).unwrap();
    assert_eq!(command, Command::SpendTimelockLock);
    assert_eq!(config.address, "addr");
    assert_eq!(
        run(Some("mint"), text(KEY)).unwrap_err(),
        StartError::UnknownCommand("mint".to_string())
    );
    assert_eq!(
        run(Some("mint"), None).unwrap_err(),
        StartError::Config(ConfigError::MissingPrivateKey)
    );
}

#[test]
fn deploy_commands_name_their_files() {
    assert_eq!(deploy_simple_lock().script_path, "./build/release/simple-lock");
    assert_eq!(deploy_simple_lock().idl_path, Some("./contracts/simple-lock/idl.json"));
    assert_eq!(deploy_timelock_lock().script_path, "./build/release/timelock-lock");
    assert_eq!(deploy_timelock_lock().idl_path, Some("./contracts/timelock-lock/idl.json"));
    assert_eq!(deploy_sudt().script_path, "./build/release/ckb_sudt_script");
    assert_eq!(deploy_sudt().idl_path, None);
}

#[test]
fn transaction_hashes_have_32_bytes() {
    assert!(hash_fits(HASH_A));
    assert!(hash_fits("not hex"));
    assert!(!hash_fits("aa"));
    assert_eq!(parse_hash(HASH_A), Ok([0xaa; 32]));
    assert_eq!(parse_hash("a"), Err(HexError::OddLength));
    assert_eq!(parse_hash("ag"), Err(HexError::InvalidHexCharacter { c: 'g', index: 1 }));
    assert!(hashes_fit(HASH_A, HASH_B));
    assert!(!hashes_fit("aa", HASH_B));
    assert!(!hashes_fit(HASH_A, "bb"));
    // The second hash is not reached where the first cannot be read.
    assert!(hashes_fit("zz", "bb"));
}

#[test]
fn simple_spend_arguments_are_read() {
    let parsed =
        parse_simple_spend(&strings(&[HASH_A, "68656c6c6f", "./idl.json", HASH_B, "more"])).unwrap();
    assert_eq!(parsed.code_tx_hash, [0xaa; 32]);
    assert_eq!(parsed.preimage, b"hello");
    assert_eq!(parsed.idl_path, "./idl.json");
    assert_eq!(parsed.locked_tx_hash, [0xbb; 32]);
}

#[test]
fn simple_spend_arguments_read_back() {
    let preimage: Vec<u8> = (0..=255).collect();
    let list = [hex::encode([1u8; 32]), hex::encode(&preimage), "p".into(), hex::encode([2u8; 32])];
    let parsed = parse_simple_spend(&list).unwrap();
    assert_eq!(parsed.code_tx_hash, [1u8; 32]);
    assert_eq!(parsed.preimage, preimage);
    assert_eq!(parsed.locked_tx_hash, [2u8; 32]);
}

#[test]
fn simple_spend_hashes_are_read_before_the_preimage() {
    let err = |list: [&str; 4]| parse_simple_spend(&strings(&list)).unwrap_err();
    assert_eq!(
        err(["xx", "yy", "p", "zz"]),
        HexError::InvalidHexCharacter { c: 'x', index: 0 }
    );
    assert_eq!(
        err([HASH_A, "yy", "p", "zz"]),
        HexError::InvalidHexCharacter { c: 'z', index: 0 }
    );
    assert_eq!(
        err([HASH_A, "yy", "p", HASH_B]),
        HexError::InvalidHexCharacter { c: 'y', index: 0 }
    );
}

#[test]
fn timelock_spend_arguments_are_read() {
    let key = format!("0x{KEY}");
    let parsed =
        parse_timelock_spend(&strings(&[HASH_A, &key, "+1700000000000", "", "idl", HASH_B])).unwrap();
    assert_eq!(parsed.code_tx_hash, [0xaa; 32]);
    assert_eq!(parsed.signing_key.secret_bytes()[31], 2);
    assert_eq!(parsed.unlock_after_ms, 1_700_000_000_000);
    assert!(parsed.extra.is_empty());
    assert_eq!(parsed.idl_path, "idl");
    assert_eq!(parsed.locked_tx_hash, [0xbb; 32]);
}

#[test]
fn timelock_spend_errors_come_in_order() {
    let err = |list: [&str; 6]| match parse_timelock_spend(&strings(&list)) {
        Ok(_) => panic!("accepted"),
        Err(e) => e,
    };
    let hex = |c: char| TimelockArgError::Hex(HexError::InvalidHexCharacter { c, index: 0 });
    assert_eq!(err(["x1", "k1", "u", "e1", "i", "z1"]), hex('x'));
    assert_eq!(err([HASH_A, "k1", "u", "e1", "i", "z1"]), hex('z'));
    assert_eq!(err([HASH_A, "k1", "u", "g1", "i", HASH_B]), TimelockArgError::UnlockTime);
    assert_eq!(err([HASH_A, "k1", "5", "g1", "i", HASH_B]), hex('g'));
    assert_eq!(err([HASH_A, "k1", "5", "e1", "i", HASH_B]), hex('k'));
    assert_eq!(err([HASH_A, "aa", "5", "e1", "i", HASH_B]), TimelockArgError::SigningKeyLength);
    assert_eq!(err([HASH_A, ZERO, "5", "e1", "i", HASH_B]), TimelockArgError::InvalidSigningKey);
}

#[test]
fn unlock_times_are_64_bit_numbers() {
    let time = |t: &str| {
        parse_timelock_spend(&strings(&[HASH_A, KEY, t, "", "i", HASH_B])).map(|a| a.unlock_after_ms)
    };
    assert!(matches!(time("0"), Ok(0)));
    assert!(matches!(time("0042"), Ok(42)));
    assert!(matches!(time("18446744073709551615"), Ok(u64::MAX)));
    for bad in ["18446744073709551616", "", "+", "-1", "1 ", "1_000", "0x10"] {
        assert!(matches!(time(bad), Err(TimelockArgError::UnlockTime)), "{bad}");
    }
}

#[test]
fn create_arguments_are_read() {
    let parsed = parse_create_locked(&strings(&[HASH_A, "68656c6c6f"])).unwrap();
    assert_eq!(parsed.code_tx_hash, [0xaa; 32]);
    assert_eq!(parsed.preimage, b"hello");
    let hex = |c: char| CreateArgError::Hex(HexError::InvalidHexCharacter { c, index: 0 });
    assert_eq!(parse_create_locked(&strings(&["x1", "y1"])).unwrap_err(), hex('x'));
    assert_eq!(parse_create_locked(&strings(&[HASH_A, "y1"])).unwrap_err(), hex('y'));

    let key = format!("02{HASH_B}");
    let parsed = parse_create_timelock(&strings(&[HASH_A, &key, ""])).unwrap();
    assert_eq!(parsed.public_key[0], 2);
    assert_eq!(parsed.public_key[1..], [0xbb; 32]);
    assert_eq!(parsed.commitment, [0u8; 32]);
    let parsed = parse_create_timelock(&strings(&[HASH_A, &key, HASH_A])).unwrap();
    assert_eq!(parsed.commitment, [0xaa; 32]);

    let err = |list: [&str; 3]| parse_create_timelock(&strings(&list)).unwrap_err();
    assert_eq!(err(["x1", "y1", "z1"]), hex('x'));
    assert_eq!(err([HASH_A, "y1", "z1"]), hex('y'));
    assert_eq!(err([HASH_A, HASH_B, "z1"]), CreateArgError::PublicKeyLength);
    assert_eq!(err([HASH_A, &key, "z1"]), hex('z'));
    assert_eq!(err([HASH_A, &key, "aa"]), CreateArgError::CommitmentLength);
}

#[test]
fn sender_keys_have_no_prefix() {
    assert_eq!(parse_sender_key(KEY).ok().unwrap().secret_bytes()[31], 2);
    let prefixed = format!("0x{KEY}");
    assert!(matches!(
        parse_sender_key(&prefixed),
        Err(SenderKeyError::Hex(HexError::InvalidHexCharacter { c: 'x', index: 1 }))
    ));
    assert!(matches!(parse_sender_key(ORDER), Err(SenderKeyError::Invalid)));
}
