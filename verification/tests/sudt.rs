use ckb_hash::blake2b_256;
use ckb_lock_script::script::{HashType, Script};
use ckb_lock_script::sudt::error::Error;
use ckb_lock_script::sudt::{
    decode_amount, encode_amount, is_owner_mode, program_entry, settled, sudt_main, sum_amounts,
};
use ckb_std::error::SysError;

/// A lock script that stands for the owner.
fn build_owner_lock() -> Script {
    Script { code_hash: blake2b_256(b"always success"), hash_type: HashType::Data1, args: vec![] }
}

/// The sUDT type script with the given args.
fn build_type_script(args: Vec<u8>) -> Script {
    Script { code_hash: blake2b_256(b"ckb_sudt_script"), hash_type: HashType::Data1, args }
}

/// Runs the type script of a transaction. Each input cell is given by its type
/// script and its data, each token output by its data.
fn verify_tx(type_script: &Script, inputs: &[(&Script, Vec<u8>)], outputs: &[Vec<u8>]) -> i8 {
    let own_hash = type_script.calc_script_hash();
    let type_hashes: Vec<Option<[u8; 32]>> =
        inputs.iter().map(|(script, _)| Some(script.calc_script_hash())).collect();
    let group_inputs: Vec<Vec<u8>> = inputs
        .iter()
        .filter(|(script, _)| script.calc_script_hash() == own_hash)
        .map(|(_, data)| data.clone())
        .collect();
    program_entry(&Ok(type_script.args.clone()), &type_hashes, &group_inputs, outputs)
}

#[test]
fn test_sudt_transfer_equal_amounts() {
    let owner_lock = build_owner_lock();
    let owner_lock_hash: [u8; 32] = blake2b_256(owner_lock.as_bytes());
    let type_script = build_type_script(owner_lock_hash.to_vec());
    let code = verify_tx(&type_script, &[(&type_script, encode_amount(100))], &[encode_amount(100)]);
    assert_eq!(code, 0, "transfer equal amounts should pass");
}

#[test]
fn test_sudt_transfer_burn_tokens() {
    let owner_lock = build_owner_lock();
    let owner_lock_hash: [u8; 32] = blake2b_256(owner_lock.as_bytes());
    let type_script = build_type_script(owner_lock_hash.to_vec());
    let code = verify_tx(&type_script, &[(&type_script, encode_amount(100))], &[encode_amount(60)]);
    assert_eq!(code, 0, "burning tokens should pass");
}

#[test]
fn test_sudt_owner_mode_mint() {
    let owner_lock = build_owner_lock();
    let owner_lock_hash: [u8; 32] = blake2b_256(owner_lock.as_bytes());
    let type_script = build_type_script(owner_lock_hash.to_vec());
    // A governance cell whose type script is the owner's lock.
    let code = verify_tx(
        &type_script,
        &[(&owner_lock, vec![]), (&type_script, encode_amount(0))],
        &[encode_amount(1000)],
    );
    assert_eq!(code, 0, "owner mode mint should pass");
}

#[test]
fn test_sudt_multi_cell_transfer() {
    let owner_lock = build_owner_lock();
    let owner_lock_hash: [u8; 32] = blake2b_256(owner_lock.as_bytes());
    let type_script = build_type_script(owner_lock_hash.to_vec());
    let code = verify_tx(
        &type_script,
        &[(&type_script, encode_amount(60)), (&type_script, encode_amount(40))],
        &[encode_amount(100)],
    );
    assert_eq!(code, 0, "multi-cell balanced transfer should pass");
}

#[test]
fn test_sudt_inflation_attack_fails() {
    let owner_lock = build_owner_lock();
    let owner_lock_hash: [u8; 32] = blake2b_256(owner_lock.as_bytes());
    let type_script = build_type_script(owner_lock_hash.to_vec());
    let code = verify_tx(&type_script, &[(&type_script, encode_amount(100))], &[encode_amount(200)]);
    assert_eq!(code, 12, "expected OutputOverflow error");
}

#[test]
fn test_sudt_invalid_args_length_fails() {
    let type_script = build_type_script(vec![0u8; 16]);
    let code = verify_tx(&type_script, &[(&type_script, encode_amount(100))], &[encode_amount(100)]);
    assert_eq!(code, 10, "expected ArgsLength error");
}

#[test]
fn test_sudt_malformed_cell_data_fails() {
    let owner_lock = build_owner_lock();
    let owner_lock_hash: [u8; 32] = blake2b_256(owner_lock.as_bytes());
    let type_script = build_type_script(owner_lock_hash.to_vec());
    let bad_data = vec![0u8; 8];
    let code = verify_tx(&type_script, &[(&type_script, bad_data.clone())], &[bad_data]);
    assert_eq!(code, 4, "expected Encoding error");
}

#[test]
fn short_data_has_no_amount() {
    assert_eq!(decode_amount(&[0u8; 15]), None);
    assert_eq!(decode_amount(&[]), None);
}

#[test]
fn amounts_are_little_endian() {
    assert_eq!(encode_amount(0x0102), vec![2, 1, 0, 0, 0, 0, 0, 0, 0, 0, 0, 0, 0, 0, 0, 0]);
    assert_eq!(encode_amount(u128::MAX), vec![255u8; 16]);
}

#[test]
fn amounts_read_back_before_other_data() {
    for amount in [0u128, 1, 255, 256, 1_000_000, u128::MAX - 1, u128::MAX] {
        let mut data = encode_amount(amount);
        assert_eq!(decode_amount(&data), Some(amount));
        data.extend_from_slice(b"anything");
        assert_eq!(decode_amount(&data), Some(amount));
    }
}

#[test]
fn sums_stop_at_the_first_fault() {
    let max = encode_amount(u128::MAX);
    let one = encode_amount(1);
    let bad = vec![0u8; 15];
    assert_eq!(sum_amounts(&[]), Ok(0));
    assert_eq!(sum_amounts(&[one.clone(), one.clone(), encode_amount(40)]), Ok(42));
    assert_eq!(sum_amounts(&[max.clone(), encode_amount(0)]), Ok(u128::MAX));
    assert_eq!(sum_amounts(&[max.clone(), one.clone(), bad.clone()]), Err(Error::Overflow));
    assert_eq!(sum_amounts(&[max, bad, one]), Err(Error::Encoding));
}

#[test]
fn input_faults_come_before_output_faults() {
    let args = Ok(vec![7u8; 32]);
    let bad = vec![vec![0u8; 3]];
    let over = vec![encode_amount(u128::MAX), encode_amount(1)];
    assert_eq!(sudt_main(&args, &[], &over, &bad), Err(Error::Overflow));
    assert_eq!(sudt_main(&args, &[], &bad, &over), Err(Error::Encoding));
    assert_eq!(sudt_main(&args, &[], &[], &over), Err(Error::Overflow));
    assert_eq!(sudt_main(&args, &[], &[], &[]), Ok(()));
}

#[test]
fn owner_mode_needs_the_hash_of_an_input() {
    let owner = [9u8; 32];
    assert!(!is_owner_mode(&owner, &[]));
    assert!(!is_owner_mode(&owner, &[None, Some([8u8; 32])]));
    assert!(is_owner_mode(&owner, &[None, Some([8u8; 32]), Some(owner)]));
    // In owner mode nothing else is looked at.
    let args = Ok(owner.to_vec());
    assert_eq!(sudt_main(&args, &[Some(owner)], &[], &[vec![1, 2, 3]]), Ok(()));
}

#[test]
fn some_verdicts_stand_early() {
    let owner = [9u8; 32];
    assert_eq!(settled(&Err(SysError::Encoding), &[]), Some(Err(Error::Encoding)));
    assert_eq!(settled(&Ok(vec![0u8; 31]), &[]), Some(Err(Error::ArgsLength)));
    assert_eq!(settled(&Ok(owner.to_vec()), &[Some(owner)]), Some(Ok(())));
    assert_eq!(settled(&Ok(owner.to_vec()), &[None]), None);
}

#[test]
fn failed_system_calls_have_exit_codes() {
    let cases = [
        (SysError::IndexOutOfBound, 1),
        (SysError::ItemMissing, 2),
        (SysError::LengthNotEnough(5), 3),
        (SysError::Encoding, 4),
        (SysError::InvalidFd, 5),
        (SysError::WaitFailure, 6),
        (SysError::OtherEndClosed, 7),
        (SysError::MaxVmsSpawned, 8),
        (SysError::MaxFdsCreated, 9),
    ];
    for (err, code) in cases {
        assert_eq!(program_entry(&Err(err), &[], &[], &[]), code);
    }
    assert_eq!(Error::ArgsLength.code(), 10);
    assert_eq!(Error::Overflow.code(), 11);
    assert_eq!(Error::OutputOverflow.code(), 12);
}
