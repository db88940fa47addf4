use ckb_hash::blake2b_256;
use ckb_lock_script::simple_lock::error::Error;
use ckb_lock_script::simple_lock::witness::{Witness, WitnessError};
use ckb_lock_script::simple_lock::{check_hash, compare_hash, program_entry};
use ckb_lock_script::timelock_lock::error::Error as TimelockError;
use ckb_lock_script::timelock_lock::lock_args;
use ckb_lock_script::wire::{encode_bytes_field, encode_timelock_witness};
use ckb_std::error::SysError;

#[test]
fn byte_strings_have_a_length_prefix() {
    assert_eq!(encode_bytes_field(b"hello"), b"\x05\0\0\0hello".to_vec());
    assert_eq!(encode_bytes_field(b""), vec![0, 0, 0, 0]);
    assert_eq!(encode_bytes_field(&[1u8; 258])[..4], [2, 1, 0, 0]);
}

#[test]
fn timelock_witnesses_have_three_fields() {
    let mut signature = [0u8; 65];
    signature[0] = 1;
    signature[64] = 3;
    let wire = encode_timelock_witness(&signature, 0x0102_0304_0506_0708, b"ab");
    assert_eq!(wire.len(), 79);
    assert_eq!(wire[..65], signature);
    assert_eq!(wire[65..73], [8, 7, 6, 5, 4, 3, 2, 1]);
    assert_eq!(wire[73..], [2, 0, 0, 0, b'a', b'b']);
    // Another signature leaves the rest as it is.
    let blank = encode_timelock_witness(&[0u8; 65], 0x0102_0304_0506_0708, b"ab");
    assert_eq!(blank[65..], wire[65..]);
    assert_ne!(blank, wire);
}

#[test]
fn timelock_args_hold_key_and_commitment() {
    let args = lock_args(&[2u8; 33], &[5u8; 32]);
    assert_eq!(args.len(), 65);
    assert_eq!(args[..33], [2u8; 33]);
    assert_eq!(args[33..], [5u8; 32]);
}

fn unlock(args: Vec<u8>, witness: Vec<u8>) -> i8 {
    program_entry(&Ok(args), &Ok(Some(witness)))
}

#[test]
fn the_preimage_unlocks() {
    let args = blake2b_256(b"hello").to_vec();
    assert_eq!(unlock(args.clone(), encode_bytes_field(b"hello")), 0);
    assert_eq!(unlock(blake2b_256(b"").to_vec(), encode_bytes_field(b"")), 0);
    assert_eq!(unlock(args.clone(), encode_bytes_field(b"hellp")), Error::HashMismatch.code());
    // The args themselves are no preimage.
    let offered = encode_bytes_field(&args);
    assert_eq!(unlock(args, offered), Error::HashMismatch.code());
}

#[test]
fn a_bad_witness_is_a_missing_witness() {
    let args = blake2b_256(b"hello").to_vec();
    let missing = Err(Error::MissingWitness);
    let ok: Result<Vec<u8>, SysError> = Ok(args);
    assert_eq!(check_hash(&ok, &Err(SysError::ItemMissing)), missing);
    assert_eq!(check_hash(&ok, &Ok(None)), missing);
    assert_eq!(check_hash(&ok, &Ok(Some(vec![]))), missing);
    assert_eq!(check_hash(&ok, &Ok(Some(b"\x05\0\0\0hell".to_vec()))), missing);
    assert_eq!(check_hash(&ok, &Ok(Some(b"\x05\0\0\0hello!".to_vec()))), missing);
}

#[test]
fn simple_lock_args_are_looked_at_first() {
    let short: Result<Vec<u8>, SysError> = Ok(vec![0u8; 31]);
    assert_eq!(check_hash(&short, &Ok(None)), Err(Error::InvalidArgsLength));
    let failed: Result<Vec<u8>, SysError> = Err(SysError::Encoding);
    assert_eq!(check_hash(&failed, &Ok(None)), Err(Error::Encoding));
    assert_eq!(program_entry(&failed, &Ok(None)), 4);
}

#[test]
fn hashes_are_compared_whole() {
    let hash = [1u8; 32];
    assert_eq!(compare_hash(&hash, &hash), Ok(()));
    assert_eq!(compare_hash(&hash, &hash[..31]), Err(Error::HashMismatch));
}

#[test]
fn witness_faults_are_told_apart() {
    let read = |buf: &[u8]| Witness::from_witness_args(&Ok(Some(buf.to_vec())));
    assert_eq!(read(b"\x02\0\0\0hi"), Ok(Witness { preimage: b"hi".to_vec() }));
    assert_eq!(read(b"\x02\0\0"), Err(WitnessError::FieldTooShort { expected: 4, got: 3 }));
    assert_eq!(read(b"\x02\0\0\0h"), Err(WitnessError::FieldTooShort { expected: 2, got: 1 }));
    assert_eq!(
        read(b"\xff\xff\xff\xffh"),
        Err(WitnessError::FieldTooShort { expected: 4294967295, got: 1 })
    );
    assert_eq!(read(b"\x02\0\0\0hi!"), Err(WitnessError::TrailingBytes { consumed: 6, total: 7 }));
    assert_eq!(Witness::from_witness_args(&Ok(None)), Err(WitnessError::MissingLockField));
    assert_eq!(
        Witness::from_witness_args(&Err(SysError::ItemMissing)),
        Err(WitnessError::Load(SysError::ItemMissing))
    );
}

#[test]
fn preimages_read_back() {
    for preimage in [&b""[..], b"a", b"hello", &[7u8; 300]] {
        let loaded = Ok(Some(encode_bytes_field(preimage)));
        let witness = Witness::from_witness_args(&loaded).unwrap();
        assert_eq!(witness.preimage, preimage);
    }
}

#[test]
fn lock_errors_have_exit_codes() {
    assert_eq!(Error::from(SysError::LengthNotEnough(3)).code(), 3);
    assert_eq!(Error::InvalidArgsLength.code(), 10);
    assert_eq!(Error::MissingWitness.code(), 11);
    assert_eq!(Error::HashMismatch.code(), 12);
    assert_eq!(TimelockError::from(SysError::IndexOutOfBound).code(), 1);
    assert_eq!(TimelockError::from(SysError::ItemMissing).code(), 2);
    assert_eq!(TimelockError::from(SysError::LengthNotEnough(3)).code(), 3);
    assert_eq!(TimelockError::from(SysError::Encoding).code(), 4);
    assert_eq!(TimelockError::InvalidArgsLength.code(), 10);
    assert_eq!(TimelockError::SignatureInvalid.code(), 11);
    assert_eq!(TimelockError::TimelockNotMet.code(), 12);
    assert_eq!(TimelockError::MissingWitness.code(), 13);
}
