use std::str::FromStr;

use ckb_hash::blake2b_256;
use ckb_idl_client::{DecodedField, DecodedValue};
use ckb_lock_script::address::format_address;
use ckb_lock_script::args::{parse_simple_spend, parse_timelock_spend, SimpleSpendArgs, TimelockSpendArgs};
use ckb_lock_script::cell::{
    placeholder_witness, CellDep, CellInput, DepType, OutPoint, ScriptId, TxParts,
};
use ckb_lock_script::deploy_script::{
    create_locked_cell, create_timelock_cell, deploy_and_mint_sudt, deploy_script, locked_cell,
    make_outputs, mint_tokens, pick_cells, required_capacity, transfer_script_id, transfer_tokens, try_transfer_tokens,
    InsufficientBalance, LiveCell,
};
use ckb_lock_script::idl::{
    check_commitment, code_cell_data, join_fields, verify_and_validate, verify_commitment, IdlError,
};
use ckb_lock_script::script::{HashType, Script};
use ckb_lock_script::simple_lock;
use ckb_lock_script::spend::{
    lock_code_id, returned_cell, sign_timelock_witness, signer_hash, spend_locked_cell,
    spend_simple_lock, spend_timelock_lock, spender_lock, SpenderError,
};
use ckb_lock_script::sudt::{self, decode_amount, encode_amount};
use ckb_lock_script::transaction::{
    code_cell_at, compute_code_hash, fetch_code_cell_data, transaction_hash, BadTransaction,
};
use ckb_lock_script::wire::{encode_bytes_field, encode_timelock_witness};
use ckb_types::bytes::Bytes;
use ckb_types::prelude::{Builder, Entity, Pack, Unpack};

const SIMPLE_IDL: &str = r#"{"idl_version":"0.1.0","interfaces":[{"id":"simple_lock","kind":"witness_args.lock","encoding":{"id":"ckb-idl-linear-0.1.0"},"fields":[{"name":"preimage","type":"bytes","required":true}]}]}"#;

const TIMELOCK_IDL: &str = r#"{"idl_version":"0.1.0","interfaces":[{"id":"timelock_lock","kind":"witness_args.lock","encoding":{"id":"ckb-idl-linear-0.1.0"},"fields":[{"name":"signature","type":"secp256k1_sig","required":true},{"name":"unlock_after_ms","type":"uint64","required":true},{"name":"extra","type":"bytes","required":false}]}]}"#;

const HASH_A: &str = "aaaaaaaaaaaaaaaaaaaaaaaaaaaaaaaaaaaaaaaaaaaaaaaaaaaaaaaaaaaaaaaa";
const HASH_B: &str = "bbbbbbbbbbbbbbbbbbbbbbbbbbbbbbbbbbbbbbbbbbbbbbbbbbbbbbbbbbbbbbbb";
const KEY: &str = "0101010101010101010101010101010101010101010101010101010101010102";

fn lock(n: u8) -> Script {
    Script { code_hash: [n; 32], hash_type: HashType::Type, args: vec![n; 20] }
}

fn token_type() -> Script {
    Script { code_hash: [40u8; 32], hash_type: HashType::Data1, args: vec![41u8; 32] }
}

fn token(amount: u128) -> LiveCell {
    LiveCell { type_: Some(token_type()), data: Some(encode_amount(amount)) }
}

fn out_point(n: u8) -> OutPoint {
    OutPoint { tx_hash: [n; 32], index: n as u32 }
}

#[test]
fn code_cells_pay_for_their_size() {
    assert_eq!(required_capacity(0), Some(10_000_000_000));
    assert_eq!(required_capacity(1234), Some(133_400_000_000));
    assert_eq!(required_capacity(184_467_440_637), Some(18_446_744_073_700_000_000));
    assert_eq!(required_capacity(184_467_440_638), None);
}

#[test]
fn code_cells_hold_the_binary() {
    let cell = deploy_script(b"binary", None, &lock(1));
    assert_eq!(cell.data, b"binary");
    assert_eq!(cell.capacity, 106 * 100_000_000);
    assert_eq!(cell.lock, lock(1));
    assert_eq!(cell.type_, None);
}

#[test]
fn code_cells_commit_to_the_idl() {
    let idl = b"abc".to_vec();
    let cell = deploy_script(b"binary", Some(&idl), &lock(1));
    assert_eq!(cell.data[..6], *b"binary");
    assert_eq!(
        hex::encode(&cell.data[6..]),
        "ba7816bf8f01cfea414140de5dae2223b00361a396177a9cb410ff61f20015ad"
    );
    assert_eq!(cell.capacity, 138 * 100_000_000);
    assert_eq!(verify_commitment(&idl, &cell.data), Ok(()));
}

#[test]
fn other_idl_files_are_refused() {
    let data = code_cell_data(b"binary", Some(&b"abc".to_vec()));
    match verify_commitment(b"abd", &data) {
        Err(IdlError::HashMismatch { computed, expected }) => {
            assert_eq!(expected, data[6..]);
            assert_ne!(computed, expected);
        }
        other => panic!("{other:?}"),
    }
    assert_eq!(
        verify_commitment(b"abc", &data[..31]),
        Err(IdlError::InsufficientData { actual: 31 })
    );
    assert_eq!(check_commitment(&[4u8; 32], &[4u8; 40]), Ok(()));
    assert!(check_commitment(&[4u8; 32], &[5u8; 40]).is_err());
}

#[test]
fn witnesses_are_validated_against_the_idl() {
    let client = ckb_idl_client::IdlClient::new();
    let idl = SIMPLE_IDL.as_bytes().to_vec();
    let data = code_cell_data(b"code", Some(&idl));
    let wire = encode_bytes_field(b"hello");
    let fields = verify_and_validate(&client, &data, &idl, &wire).unwrap();
    assert_eq!(fields.len(), 1);
    assert_eq!(fields[0].name, "preimage");
    assert_eq!(fields[0].type_, "bytes");
    assert_eq!(fields[0].value, DecodedValue::Bytes(b"hello".to_vec()));
    assert_eq!(format!("{:?}", fields[0].value), "Bytes([104, 101, 108, 108, 111])");

    let bad = verify_and_validate(&client, &data, &idl, &wire[..8]);
    assert!(matches!(bad, Err(IdlError::Witness(_))), "{bad:?}");
    let mut long = wire.clone();
    long.push(0);
    let bad = verify_and_validate(&client, &data, &idl, &long);
    assert!(matches!(bad, Err(IdlError::Witness(_))), "{bad:?}");
}

#[test]
fn bad_idl_files_are_refused() {
    let client = ckb_idl_client::IdlClient::new();
    let check = |idl: &str| {
        let idl = idl.as_bytes().to_vec();
        let data = code_cell_data(b"code", Some(&idl));
        verify_and_validate(&client, &data, &idl, &[0, 0, 0, 0])
    };
    assert!(check(SIMPLE_IDL).is_ok());
    assert!(matches!(check("not json"), Err(IdlError::Parse(_))));
    let none = r#"{"idl_version":"0.1.0","interfaces":[]}"#;
    assert!(matches!(check(none), Err(IdlError::Document(_))));
    // The file is looked at before the witness.
    let idl = b"not json".to_vec();
    let data = code_cell_data(b"code", Some(&idl));
    let refused = verify_and_validate(&client, &data, &idl, b"no witness");
    assert!(matches!(refused, Err(IdlError::Parse(_))), "{refused:?}");
    // The commitment is looked at first.
    let data = vec![0u8; 32];
    let refused = verify_and_validate(&client, &data, b"not json", &[]);
    assert!(matches!(refused, Err(IdlError::HashMismatch { .. })), "{refused:?}");
}

#[test]
fn minted_tokens_belong_to_the_issuers_type() {
    let code_hash = [50u8; 32];
    let plan = mint_tokens(&code_hash, &out_point(9), &lock(1), &lock(2), 0x0102);
    assert_eq!(plan.cell.capacity, 142 * 100_000_000);
    assert_eq!(plan.cell.lock, lock(2));
    let type_ = plan.cell.type_.unwrap();
    assert_eq!(type_.code_hash, code_hash);
    assert_eq!(type_.hash_type, HashType::Data1);
    assert_eq!(type_.args, lock(1).calc_script_hash());
    // Amounts are little-endian in cell data.
    assert_eq!(plan.cell.data[..2], [2, 1]);
    assert_eq!(plan.cell.data.len(), 16);
    assert_eq!(decode_amount(&plan.cell.data), Some(0x0102));
    assert_eq!(plan.cell_dep, CellDep { out_point: out_point(9), dep_type: DepType::Code });
    assert_eq!(plan.script_id, ScriptId { code_hash, hash_type: HashType::Data1 });
}

#[test]
fn deploying_mints_a_million() {
    let plan = deploy_and_mint_sudt(&[50u8; 32], &out_point(9), &lock(3));
    assert_eq!(plan.cell.lock, lock(3));
    assert_eq!(plan.cell.type_.unwrap().args, lock(3).calc_script_hash());
    assert_eq!(decode_amount(&plan.cell.data), Some(1_000_000));
}

#[test]
fn cells_are_picked_until_they_cover_the_amount() {
    let other = LiveCell { type_: Some(lock(8)), data: Some(encode_amount(1000)) };
    let plain = LiveCell { type_: None, data: None };
    let broken = LiveCell { type_: Some(token_type()), data: None };
    let cells = [plain, token(30), other, token(40), token(50), broken];
    assert_eq!(pick_cells(&cells, &token_type(), 60), Some((vec![1, 3], 70)));
    assert_eq!(pick_cells(&cells, &token_type(), 30), Some((vec![1], 30)));
    assert_eq!(pick_cells(&cells, &token_type(), 120), Some((vec![1, 3, 4], 120)));
    // The first cell is picked even where nothing is asked for.
    assert_eq!(pick_cells(&cells, &token_type(), 0), Some((vec![1], 30)));
    // The broken cell is reached.
    assert_eq!(pick_cells(&cells, &token_type(), 121), None);
    assert_eq!(pick_cells(&[], &token_type(), 5), Some((vec![], 0)));
}

#[test]
fn unreadable_and_overflowing_cells_are_not_picked() {
    let short = LiveCell { type_: Some(token_type()), data: Some(vec![0u8; 15]) };
    assert_eq!(pick_cells(&[short], &token_type(), 1), None);
    let cells = [token(u128::MAX - 1), token(2)];
    assert_eq!(pick_cells(&cells, &token_type(), u128::MAX), None);
    let cells = [token(u128::MAX - 1), token(1)];
    assert_eq!(pick_cells(&cells, &token_type(), u128::MAX), Some((vec![0, 1], u128::MAX)));
}

#[test]
fn transfers_give_change() {
    let cells = [token(30), token(40)];
    let plan = transfer_tokens(
        &cells, &token_type(), &out_point(9), &lock(1), &lock(2), 60,
    )
    .unwrap();
    assert_eq!(plan.picked, vec![0, 1]);
    assert_eq!(plan.outputs.len(), 2);
    assert_eq!(plan.outputs[0].lock, lock(2));
    assert_eq!(plan.outputs[0].data, encode_amount(60));
    assert_eq!(plan.outputs[1].lock, lock(1));
    assert_eq!(plan.outputs[1].data, encode_amount(10));
    for output in &plan.outputs {
        assert_eq!(output.capacity, 142 * 100_000_000);
        assert_eq!(output.type_, Some(token_type()));
    }
    assert_eq!(plan.cell_dep, CellDep { out_point: out_point(9), dep_type: DepType::Code });
    assert_eq!(
        transfer_script_id(&[50u8; 32]),
        ScriptId { code_hash: [50u8; 32], hash_type: HashType::Data }
    );

    // The token script accepts the transfer.
    let inputs = [encode_amount(30), encode_amount(40)];
    let outputs: Vec<Vec<u8>> = plan.outputs.iter().map(|cell| cell.data.clone()).collect();
    assert_eq!(sudt::program_entry(&Ok(token_type().args), &[], &inputs, &outputs), 0);
}

#[test]
fn exact_transfers_give_no_change() {
    let cells = [token(30), token(40)];
    let plan = transfer_tokens(
        &cells, &token_type(), &out_point(9), &lock(1), &lock(2), 70,
    )
    .unwrap();
    assert_eq!(plan.outputs.len(), 1);
    assert_eq!(plan.outputs[0].data, encode_amount(70));
    assert_eq!(make_outputs(&token_type(), &lock(1), &lock(2), 70, 70), plan.outputs);
}

#[test]
fn transfers_need_the_balance() {
    let cells = [token(30), token(40)];
    let refused = transfer_tokens(
        &cells, &token_type(), &out_point(9), &lock(1), &lock(2), 71,
    );
    assert_eq!(refused, Err(InsufficientBalance { have: 70, need: 71 }));
    let tried = try_transfer_tokens(
        &cells, &token_type(), &out_point(9), &lock(1), &lock(2), 71,
    );
    assert_eq!(tried, Some(refused));
    let broken = [LiveCell { type_: Some(token_type()), data: None }];
    let tried = try_transfer_tokens(
        &broken, &token_type(), &out_point(9), &lock(1), &lock(2), 1,
    );
    assert_eq!(tried, None);
}

fn draft(outputs: &[&[u8]], witness: &[u8]) -> ckb_types::core::TransactionView {
    let mut builder = ckb_types::core::TransactionBuilder::default()
        .witness(Bytes::from(witness.to_vec()).pack());
    for data in outputs {
        builder = builder
            .output(ckb_types::packed::CellOutput::new_builder().build())
            .output_data(Bytes::from(data.to_vec()).pack());
    }
    builder.build()
}

#[test]
fn transaction_hashes_leave_out_the_witnesses() {
    let tx = draft(&[b"one"], b"witness");
    let hash: [u8; 32] = tx.hash().unpack();
    assert_eq!(transaction_hash(tx.data().as_slice()), Ok(hash));
    let other = draft(&[b"one"], b"another witness");
    assert_eq!(transaction_hash(other.data().as_slice()), Ok(hash));
    let different = draft(&[b"two"], b"witness");
    assert_ne!(transaction_hash(different.data().as_slice()), Ok(hash));
    assert!(transaction_hash(b"no transaction").is_err());
}

#[test]
fn code_hashes_are_those_of_the_data() {
    let tx = draft(&[b"one", b"two"], b"");
    let bytes = tx.data();
    assert_eq!(compute_code_hash(bytes.as_slice(), 0), Ok(Some(blake2b_256(b"one"))));
    assert_eq!(compute_code_hash(bytes.as_slice(), 1), Ok(Some(blake2b_256(b"two"))));
    assert_eq!(compute_code_hash(bytes.as_slice(), 2), Ok(None));
    assert!(compute_code_hash(b"", 0).is_err());
    let cell = fetch_code_cell_data(bytes.as_slice(), 1).unwrap().unwrap();
    assert_eq!(cell.data, b"two");
    assert_eq!(cell.code_hash, blake2b_256(b"two"));
    assert_eq!(code_cell_at(&[b"x".to_vec()], 0).unwrap().code_hash, blake2b_256(b"x"));
    assert_eq!(code_cell_at(&[], 0), None);
}

#[test]
fn the_locked_cell_comes_first() {
    let input = |n: u8| CellInput { previous_output: out_point(n), since: n as u64 };
    let dep = |n: u8| CellDep { out_point: out_point(n), dep_type: DepType::DepGroup };
    let balanced = TxParts {
        version: 7,
        header_deps: vec![[8u8; 32]],
        inputs: vec![input(1), input(2)],
        outputs: vec![returned_cell(&lock(1)), locked_cell(lock(2))],
        witnesses: vec![vec![1], vec![2]],
        cell_deps: vec![dep(3)],
    };
    let spend = spend_locked_cell(balanced, &out_point(4), &out_point(5), b"wire", vec![dep(6)]);
    let locked = CellInput { previous_output: out_point(5), since: 0 };
    assert_eq!(spend.inputs, vec![locked, input(1), input(2)]);
    assert_eq!(spend.version, 7);
    assert_eq!(spend.header_deps, vec![[8u8; 32]]);
    // The outputs stay, with the returned cell first.
    assert_eq!(spend.outputs, vec![returned_cell(&lock(1)), locked_cell(lock(2))]);
    let code = CellDep { out_point: out_point(4), dep_type: DepType::Code };
    assert_eq!(spend.cell_deps, vec![dep(3), code, dep(6)]);
    let packed = ckb_types::packed::WitnessArgs::new_builder()
        .lock(Some(Bytes::from(b"wire".to_vec())).pack())
        .build();
    assert_eq!(spend.witnesses, vec![packed.as_slice().to_vec(), vec![1], vec![2]]);
}

#[test]
fn deployer_errors_have_messages() {
    assert_eq!(
        InsufficientBalance { have: 70, need: u128::MAX }.message(),
        "Insufficient UDT balance: have 70, need 340282366920938463463374607431768211455"
    );
    assert_eq!(
        InsufficientBalance { have: 0, need: 100 }.message(),
        "Insufficient UDT balance: have 0, need 100"
    );
    let short = IdlError::InsufficientData { actual: 31 };
    assert_eq!(
        short.message(),
        "IDL commitment verification failed: insufficient data: code_cell_data has 31 bytes, need at least 32"
    );
    assert!(!short.after_commitment());
    let mismatch = IdlError::HashMismatch { computed: [0xab; 32], expected: [0xcd; 32] };
    assert_eq!(
        mismatch.message(),
        format!(
            "IDL commitment verification failed: hash mismatch: computed {}, expected {}",
            "ab".repeat(32),
            "cd".repeat(32)
        )
    );
    assert!(!mismatch.after_commitment());
    for (error, message) in [
        (IdlError::Parse("x".to_string()), "failed to parse IDL JSON: x"),
        (IdlError::Document("x".to_string()), "witness validation failed: x"),
        (IdlError::Witness("x".to_string()), "witness validation failed: x"),
    ] {
        assert_eq!(error.message(), message);
        assert!(error.after_commitment());
    }
    assert_eq!(BadTransaction("x".to_string()).message(), "failed to decode tx bytes: x");
}

#[test]
fn decoded_fields_have_the_types_in_their_places() {
    let field = |name: &str, n: u8| DecodedField { name: name.to_string(), value: DecodedValue::U8(n) };
    let joined = join_fields(
        vec!["one".to_string(), "two".to_string()],
        vec![field("a", 1), field("b", 2)],
    );
    assert_eq!(joined.len(), 2);
    assert_eq!((joined[0].name.as_str(), joined[0].type_.as_str()), ("a", "one"));
    assert_eq!((joined[1].name.as_str(), joined[1].type_.as_str()), ("b", "two"));
    assert_eq!(joined[1].value, DecodedValue::U8(2));
    assert_eq!(join_fields(vec![], vec![]), vec![]);
}

#[test]
fn placeholders_have_the_size_of_a_signature() {
    let packed = ckb_types::packed::WitnessArgs::new_builder()
        .lock(Some(Bytes::from(vec![0u8; 65])).pack())
        .build();
    assert_eq!(placeholder_witness(), packed.as_slice());
    assert_eq!(placeholder_witness().len(), 85);
}

#[test]
fn spending_returns_61_ckb() {
    let cell = returned_cell(&lock(1));
    assert_eq!(cell.capacity, 61 * 100_000_000);
    assert_eq!(cell.lock, lock(1));
    assert_eq!(cell.type_, None);
    assert!(cell.data.is_empty());
}

#[test]
fn locked_cells_hold_no_data() {
    let cell = locked_cell(lock(4));
    assert_eq!(cell.capacity, 142 * 100_000_000);
    assert_eq!(cell.lock, lock(4));
    assert_eq!(cell.type_, None);
    assert!(cell.data.is_empty());
}

#[test]
fn spenders_have_addresses() {
    let text = format_address(true, &lock(4));
    assert_eq!(spender_lock(&text), Ok(lock(4)));
    let message = |text: &str| match spender_lock(text) {
        Err(SpenderError::InvalidAddress(message)) => message,
        other => panic!("{other:?}"),
    };
    assert_eq!(message(""), "invalid spender address: invalid length");
    assert_eq!(message("ckt1bbbbbbb"), "invalid spender address: invalid character (code=b)");
    for text in ["no separator", &text[..text.len() - 1], "A12UEL5L"] {
        let reason = ckb_sdk::Address::from_str(text).unwrap_err();
        assert_eq!(message(text), format!("invalid spender address: {reason}"));
    }
}

#[test]
fn spenders_need_padded_addresses() {
    let symbols = vec![bech32::u5::try_from_u8(1).unwrap(); 2];
    let text = bech32::encode("ckt", symbols, bech32::Variant::Bech32m).unwrap();
    assert_eq!(spender_lock(&text), Err(SpenderError::Padding));
}

#[test]
fn lock_code_is_registered_by_script_hash() {
    let script = Script { code_hash: [7u8; 32], hash_type: HashType::Data1, args: vec![1, 2] };
    assert_eq!(lock_code_id(&[7u8; 32], &[1, 2]), script.calc_script_hash());
    assert_ne!(lock_code_id(&[7u8; 32], &[]), script.calc_script_hash());
}

fn simple_args() -> SimpleSpendArgs {
    let list = [HASH_A, "68656c6c6f", "idl.json", HASH_B].map(|s| s.to_string());
    parse_simple_spend(&list).unwrap()
}

fn timelock_args() -> TimelockSpendArgs {
    let list = [HASH_A, KEY, "1234567890123", "beef", "idl.json", HASH_B].map(|s| s.to_string());
    parse_timelock_spend(&list).ok().unwrap()
}

#[test]
fn a_created_cell_can_be_spent() {
    let client = ckb_idl_client::IdlClient::new();
    let idl = SIMPLE_IDL.as_bytes().to_vec();
    let data = code_cell_data(b"code", Some(&idl));
    let code_hash = blake2b_256(&data);
    let lock = create_locked_cell(&code_hash, b"hello");
    assert_eq!(lock.code_hash, code_hash);
    assert_eq!(lock.hash_type, HashType::Data1);
    assert_eq!(lock.args, blake2b_256(b"hello"));

    let witness = spend_simple_lock(&client, &simple_args(), &data, &idl).unwrap();
    assert_eq!(witness.wire, encode_bytes_field(b"hello"));
    assert_eq!(witness.fields[0].value, DecodedValue::Bytes(b"hello".to_vec()));
    assert_eq!(simple_lock::program_entry(&Ok(lock.args), &Ok(Some(witness.wire))), 0);

    let refused = spend_simple_lock(&client, &simple_args(), b"code", &idl);
    assert_eq!(refused, Err(IdlError::InsufficientData { actual: 4 }));
}

#[test]
fn timelock_cells_hold_key_and_commitment() {
    let lock = create_timelock_cell(&[1u8; 32], &[2u8; 33], &[3u8; 32]);
    assert_eq!(lock.code_hash, [1u8; 32]);
    assert_eq!(lock.hash_type, HashType::Data1);
    assert_eq!(lock.args[..33], [2u8; 33]);
    assert_eq!(lock.args[33..], [3u8; 32]);
}

#[test]
fn timelock_witnesses_are_validated_before_they_are_signed() {
    let client = ckb_idl_client::IdlClient::new();
    let idl = TIMELOCK_IDL.as_bytes().to_vec();
    let data = code_cell_data(b"code", Some(&idl));
    let witness = spend_timelock_lock(&client, &timelock_args(), &data, &idl).unwrap();
    assert_eq!(witness.wire, encode_timelock_witness(&[0u8; 65], 1234567890123, &[0xbe, 0xef]));
    assert_eq!(witness.fields.len(), 3);
    assert_eq!(witness.fields[1].name, "unlock_after_ms");
    assert_eq!(witness.fields[1].type_, "uint64");
    assert_eq!(witness.fields[1].value, DecodedValue::U64(1234567890123));
    let extra = Box::new(DecodedValue::Bytes(vec![0xbe, 0xef]));
    assert_eq!(witness.fields[2].value, DecodedValue::Optional(Some(extra)));
    // A simple-lock IDL does not describe it.
    let other = SIMPLE_IDL.as_bytes().to_vec();
    let data = code_cell_data(b"code", Some(&other));
    let refused = spend_timelock_lock(&client, &timelock_args(), &data, &other);
    assert!(matches!(refused, Err(IdlError::Witness(_))), "{refused:?}");
}

#[test]
fn timelock_witnesses_are_signed() {
    let args = timelock_args();
    let tx = draft(&[b"one"], b"placeholder");
    let signed = sign_timelock_witness(&args, tx.data().as_slice()).unwrap();
    let hash: [u8; 32] = tx.hash().unpack();
    assert_eq!(signed.tx_hash, hash);
    assert_eq!(signed.public_key, args.signing_key.public_key());
    let signature = args.signing_key.sign(&hash);
    assert_eq!(signed.wire, encode_timelock_witness(&signature, 1234567890123, &[0xbe, 0xef]));
    assert_eq!(signer_hash(&args), blake2b_256(args.signing_key.public_key()));
    assert_eq!(signed.wire.len(), 79);
    assert!(signed.wire[64] < 4);
    let blank = encode_timelock_witness(&[0u8; 65], 1234567890123, &[0xbe, 0xef]);
    assert_eq!(signed.wire[65..], blank[65..]);
    assert!(sign_timelock_witness(&args, b"").is_err());
}

#[test]
fn first_outputs_have_index_zero() {
    assert_eq!(OutPoint::first_of(&[3u8; 32]), OutPoint { tx_hash: [3u8; 32], index: 0 });
}
