//! Spending a locked cell: the witness that unlocks it, and its place in the
//! transaction.
use vstd::prelude::*;

use crate::address::{lock_of_address, parse_address, AddressError};
use crate::args::{SimpleSpendArgs, TimelockSpendArgs};
use crate::bytes::copy_range;
use crate::cell::{
    blank_signature, cell_views, Cell, CellDep, CellInput, CellView, DepType, OutPoint, TxParts,
    TxPartsView, SHANNONS_PER_CKB,
};
use crate::hash::{blake2b_256, blake2b_digest, sha256_digest};
use crate::idl::{
    commitment_of, commitments_are_the_last_bytes, decoded_fields, decoded_witness,
    document_fault, error_in, field_views, fields_keep_their_places, in_order, joined, outcome,
    validation, value_view, verify_and_validate, FieldView, IdlError, IdlErrorView, ValidatedField, ValueView,
};
use crate::key::{public_key_of, signature_of};
use crate::script::{
    serialize_witness_args, witness_args_layout, witness_args_molecule, HashType, Script, ScriptView,
};
use crate::text::join_text;
use crate::transaction::{raw_part, transaction_fault, transaction_hash, BadTransaction};
use crate::wire::{
    bytes_field, encode_bytes_field, encode_timelock_witness, signing_keeps_the_rest,
    timelock_witness, timelock_witness_layout,
};

verus! {

/// Why a spend has no spender.
#[derive(Debug, PartialEq, Eq)]
pub enum SpenderError {
    /// Nothing but the padding of the address is at fault.
    Padding,
    /// The address is malformed, as the message says.
    InvalidAddress(String),
}

/// The message for a malformed address of a spender.
pub open spec fn address_message(reason: Seq<char>) -> Seq<char> {
    "invalid spender address: "@ + reason
}

/// The lock of whoever pays for a spend and gets the capacity back. A malformed
/// address is reported with the reason why it was refused.
pub fn spender_lock(address: &str) -> (result: Result<Script, SpenderError>)
    ensures
        match (lock_of_address(address@), result) {
            (Ok(expected), Ok(lock)) => lock@ == expected,
            (Err(Some(reason)), Err(SpenderError::InvalidAddress(message))) => message@
                == address_message(reason),
            (Err(None), Err(SpenderError::Padding)) => true,
            _ => false,
        },
{
    match parse_address(address) {
        Ok(lock) => Ok(lock),
        Err(AddressError::Padding) => Err(SpenderError::Padding),
        Err(AddressError::Malformed(reason)) => {
            Err(
                SpenderError::InvalidAddress(
                    join_text("invalid spender address: ", reason.as_str()),
                ),
            )
        },
    }
}

/// The capacity, in shannons, that a spend returns to the spender.
pub const RETURNED_CAPACITY: u64 = 6_100_000_000;

/// The cell that returns capacity to a spender.
pub open spec fn returned_view(spender_lock: ScriptView) -> CellView {
    CellView {
        capacity: RETURNED_CAPACITY,
        lock: spender_lock,
        type_: None,
        data: Seq::empty(),
    }
}

/// The cell that a spend creates: it returns capacity to the spender.
pub fn returned_cell(spender_lock: &Script) -> (cell: Cell)
    ensures
        cell@ == returned_view(spender_lock@),
        cell.capacity == 61 * SHANNONS_PER_CKB,
{
    let data: Vec<u8> = Vec::new();
    assert(data@ =~= Seq::<u8>::empty());
    Cell { capacity: RETURNED_CAPACITY, lock: spender_lock.copy(), type_: None, data }
}

/// The script under whose hash the code of a lock is registered.
pub open spec fn lock_code_script(code_hash: Seq<u8>, args: Seq<u8>) -> ScriptView {
    ScriptView { code_hash, hash_type: HashType::Data1, args }
}

/// The hash under which the code of a lock with the given args is registered
/// while the transaction is balanced.
pub fn lock_code_id(code_hash: &[u8; 32], args: &[u8]) -> (hash: [u8; 32])
    ensures
        hash@ == lock_code_script(code_hash@, args@).hash(),
{
    let copy: Vec<u8> = copy_range(args, 0, args.len());
    assert(copy@ =~= args@);
    let script: Script = Script { code_hash: *code_hash, hash_type: HashType::Data1, args: copy };
    script.calc_script_hash()
}

/// A balanced transaction that spends a locked cell too. The locked cell becomes
/// the first input, with the witness bytes in the lock field of the first witness;
/// the inputs and witnesses that were there move up by one. The code cell and the
/// extra deps are added behind the deps that were there. All else stays.
pub open spec fn spend_view(
    balanced: TxPartsView,
    code_cell_outpoint: OutPoint,
    locked_cell_outpoint: OutPoint,
    witness_bytes: Seq<u8>,
    extra_cell_deps: Seq<CellDep>,
) -> TxPartsView {
    TxPartsView {
        version: balanced.version,
        header_deps: balanced.header_deps,
        inputs: seq![CellInput { previous_output: locked_cell_outpoint, since: 0 }]
            + balanced.inputs,
        outputs: balanced.outputs,
        witnesses: seq![witness_args_molecule(witness_bytes)] + balanced.witnesses,
        cell_deps: balanced.cell_deps + seq![
            CellDep { out_point: code_cell_outpoint, dep_type: DepType::Code },
        ] + extra_cell_deps,
    }
}

/// Takes a balanced transaction and makes it spend the locked cell too, as its
/// first input and with the first witness. All that was there is kept, and the
/// outputs stay as they are.
pub fn spend_locked_cell(
    balanced: TxParts,
    code_cell_outpoint: &OutPoint,
    locked_cell_outpoint: &OutPoint,
    witness_bytes: &[u8],
    extra_cell_deps: Vec<CellDep>,
) -> (spend: TxParts)
    ensures
        spend@ == spend_view(
            balanced@,
            *code_cell_outpoint,
            *locked_cell_outpoint,
            witness_bytes@,
            extra_cell_deps@,
        ),
        cell_views(spend.outputs@) == cell_views(balanced.outputs@),
        spend.version == balanced.version,
        spend.header_deps@ == balanced.header_deps@,
        spend.inputs@.len() == balanced.inputs@.len() + 1,
        spend.inputs@[0] == (CellInput { previous_output: *locked_cell_outpoint, since: 0 }),
        spend.inputs@.skip(1) == balanced.inputs@,
        spend.witnesses@.len() == balanced.witnesses@.len() + 1,
        spend.witnesses@[0]@ == witness_args_molecule(witness_bytes@),
        spend.witnesses@.skip(1) == balanced.witnesses@,
        spend.cell_deps@.len() == balanced.cell_deps@.len() + 1 + extra_cell_deps@.len(),
        spend.cell_deps@.take(balanced.cell_deps@.len() as int) == balanced.cell_deps@,
        spend.cell_deps@[balanced.cell_deps@.len() as int] == (CellDep {
            out_point: *code_cell_outpoint,
            dep_type: DepType::Code,
        }),
        spend.cell_deps@.skip(balanced.cell_deps@.len() as int + 1) == extra_cell_deps@,
{
    let locked_input: CellInput = CellInput { previous_output: *locked_cell_outpoint, since: 0 };
    let locked_witness: Vec<u8> = serialize_witness_args(witness_bytes);
    let code_cell_dep: CellDep = CellDep {
        out_point: *code_cell_outpoint,
        dep_type: DepType::Code,
    };
    let mut inputs: Vec<CellInput> = balanced.inputs;
    inputs.insert(0, locked_input);
    let mut witnesses: Vec<Vec<u8>> = balanced.witnesses;
    witnesses.insert(0, locked_witness);
    let mut cell_deps: Vec<CellDep> = balanced.cell_deps;
    cell_deps.push(code_cell_dep);
    let mut extra: Vec<CellDep> = extra_cell_deps;
    cell_deps.append(&mut extra);
    let spend: TxParts = TxParts {
        version: balanced.version,
        cell_deps,
        header_deps: balanced.header_deps,
        inputs,
        outputs: balanced.outputs,
        witnesses,
    };
    assert(spend@.inputs =~= seq![locked_input] + balanced@.inputs);
    assert(spend@.witnesses =~= seq![witness_args_molecule(witness_bytes@)]
        + balanced@.witnesses);
    assert(spend@.cell_deps =~= balanced@.cell_deps + seq![code_cell_dep] + extra_cell_deps@);
    assert(spend.inputs@.skip(1) =~= balanced.inputs@);
    assert(spend.witnesses@.skip(1) =~= balanced.witnesses@);
    assert(spend.cell_deps@.take(balanced.cell_deps@.len() as int) =~= balanced.cell_deps@);
    assert(spend.cell_deps@.skip(balanced.cell_deps@.len() as int + 1) =~= extra_cell_deps@);
    spend
}

/// A spend of a transaction that was balanced around the returned cell: the spender
/// gets that cell as the first output, the other outputs stay behind it, and the
/// inputs and witnesses that pay for the spend follow those of the locked cell.
pub proof fn spend_keeps_what_was_balanced(
    balanced: TxPartsView,
    code_cell_outpoint: OutPoint,
    locked_cell_outpoint: OutPoint,
    witness_bytes: Seq<u8>,
    extra_cell_deps: Seq<CellDep>,
    spender_lock: ScriptView,
    change: Seq<CellView>,
)
    requires
        balanced.outputs == seq![returned_view(spender_lock)] + change,
    ensures
        ({
            let spend = spend_view(
                balanced,
                code_cell_outpoint,
                locked_cell_outpoint,
                witness_bytes,
                extra_cell_deps,
            );
            &&& spend.outputs[0] == returned_view(spender_lock)
            &&& spend.outputs == balanced.outputs
            &&& spend.outputs.skip(1) == change
            &&& spend.inputs[0].previous_output == locked_cell_outpoint
            &&& spend.inputs.skip(1) == balanced.inputs
            &&& spend.witnesses[0] == witness_args_molecule(witness_bytes)
            &&& spend.witnesses.skip(1) == balanced.witnesses
            &&& spend.cell_deps.take(balanced.cell_deps.len() as int) == balanced.cell_deps
        }),
{
    let spend = spend_view(
        balanced,
        code_cell_outpoint,
        locked_cell_outpoint,
        witness_bytes,
        extra_cell_deps,
    );
    assert(spend.outputs.skip(1) =~= change);
    assert(spend.inputs.skip(1) =~= balanced.inputs);
    assert(spend.witnesses.skip(1) =~= balanced.witnesses);
    assert(spend.cell_deps.take(balanced.cell_deps.len() as int) =~= balanced.cell_deps);
}

/// A witness that was validated, with its decoded fields.
#[derive(Debug, PartialEq)]
pub struct CheckedWitness {
    pub wire: Vec<u8>,
    pub fields: Vec<ValidatedField>,
}

/// Whether a witness was made of these bytes and validated against this IDL file:
/// first the commitment in the code cell data, then the file, then the witness.
pub open spec fn checked_as(
    result: Result<CheckedWitness, IdlError>,
    code_cell_data: Seq<u8>,
    idl: Seq<u8>,
    wire: Seq<u8>,
) -> bool {
    let commitment = commitment_of(sha256_digest(idl), code_cell_data);
    let expected = validation(commitment, decoded_fields(idl, wire));
    &&& match result {
        Ok(witness) => witness.wire@ == wire && outcome(Ok(witness.fields)) == expected,
        Err(e) => expected == Err::<Seq<FieldView>, IdlErrorView>(e@),
    }
    &&& commitment is Ok ==> in_order(document_fault(idl), error_in(result))
}

/// Validates the bytes of a witness.
fn check_wire(
    client: &ckb_idl_client::IdlClient,
    code_cell_data: &[u8],
    idl: &[u8],
    wire: Vec<u8>,
) -> (result: Result<CheckedWitness, IdlError>)
    ensures
        checked_as(result, code_cell_data@, idl@, wire@),
{
    match verify_and_validate(client, code_cell_data, idl, wire.as_slice()) {
        Ok(fields) => Ok(CheckedWitness { wire, fields }),
        Err(e) => Err(e),
    }
}

/// The witness that spends a simple-lock cell: the preimage as a byte string. It
/// is handed out only if the code cell commits to the IDL file and the IDL
/// describes the witness.
pub fn spend_simple_lock(
    client: &ckb_idl_client::IdlClient,
    args: &SimpleSpendArgs,
    code_cell_data: &[u8],
    idl: &[u8],
) -> (result: Result<CheckedWitness, IdlError>)
    ensures
        checked_as(result, code_cell_data@, idl@, bytes_field(args@.preimage)),
{
    check_wire(client, code_cell_data, idl, encode_bytes_field(args.preimage.as_slice()))
}

/// The witness of a timelock-lock cell before the transaction is signed: a blank
/// signature, the unlock time and the extra payload. It is handed out only if the
/// code cell commits to the IDL file and the IDL describes the witness.
pub fn spend_timelock_lock(
    client: &ckb_idl_client::IdlClient,
    args: &TimelockSpendArgs,
    code_cell_data: &[u8],
    idl: &[u8],
) -> (result: Result<CheckedWitness, IdlError>)
    ensures
        checked_as(
            result,
            code_cell_data@,
            idl@,
            timelock_witness(blank_signature(), args@.unlock_after_ms, args@.extra),
        ),
{
    let blank: [u8; 65] = [0u8;65];
    assert(blank@ =~= blank_signature());
    let wire: Vec<u8> = encode_timelock_witness(
        &blank,
        args.unlock_after_ms,
        args.extra.as_slice(),
    );
    check_wire(client, code_cell_data, idl, wire)
}

/// The hash of the public key of whoever signs, under which the code of the
/// timelock-lock is registered while the transaction is balanced.
pub fn signer_hash(args: &TimelockSpendArgs) -> (hash: [u8; 32])
    ensures
        hash@ == blake2b_digest(public_key_of(args@.signing_key)),
{
    let public_key: [u8; 33] = args.signing_key.public_key();
    blake2b_256(public_key.as_slice())
}

/// A signed timelock-lock witness, with what was signed and by whom.
#[derive(Debug, PartialEq, Eq)]
pub struct SignedWitness {
    pub tx_hash: [u8; 32],
    pub public_key: [u8; 33],
    pub wire: Vec<u8>,
}

/// The signature of a digest: the compact form, then the recovery number.
pub open spec fn recoverable_signature(digest: Seq<u8>, secret: Seq<u8>) -> Seq<u8> {
    signature_of(digest, secret).0.push(signature_of(digest, secret).1)
}

/// The witness of a timelock-lock cell, signed: the signature is that of the
/// hash of the drafted transaction. It has the size of the witness that was
/// validated, and the same bytes behind the signature.
pub fn sign_timelock_witness(args: &TimelockSpendArgs, draft_tx: &[u8]) -> (result: Result<
    SignedWitness,
    BadTransaction,
>)
    ensures
        match result {
            Ok(signed) => {
                let digest = blake2b_digest(raw_part(draft_tx@));
                &&& transaction_fault(draft_tx@) is None
                &&& signed.tx_hash@ == digest
                &&& signed.public_key@ == public_key_of(args@.signing_key)
                &&& signed.wire@ == timelock_witness(
                    recoverable_signature(digest, args@.signing_key),
                    args@.unlock_after_ms,
                    args@.extra,
                )
                &&& signed.wire@.len() == 77 + args@.extra.len()
                &&& signed.wire@[64] < 4
                &&& signed.wire@.skip(65) == timelock_witness(
                    blank_signature(),
                    args@.unlock_after_ms,
                    args@.extra,
                ).skip(65)
            },
            Err(e) => transaction_fault(draft_tx@) == Some(e.0@),
        },
{
    let tx_hash: [u8; 32] = match transaction_hash(draft_tx) {
        Ok(hash) => hash,
        Err(e) => {
            return Err(e);
        },
    };
    let signature: [u8; 65] = args.signing_key.sign(&tx_hash);
    let wire: Vec<u8> = encode_timelock_witness(
        &signature,
        args.unlock_after_ms,
        args.extra.as_slice(),
    );
    proof {
        timelock_witness_layout(signature@, args.unlock_after_ms, args.extra@);
        signing_keeps_the_rest(
            signature@,
            blank_signature(),
            args.unlock_after_ms,
            args.extra@,
        );
        assert(wire@[64] == wire@.take(65)[64]);
        assert(wire@.skip(65) =~= timelock_witness(
            blank_signature(),
            args.unlock_after_ms,
            args.extra@,
        ).skip(65));
    }
    Ok(SignedWitness { tx_hash, public_key: args.signing_key.public_key(), wire })
}

/// The cell deps of a spend: those of the balanced transaction, then the code cell, as
/// code, then the extra ones, and no others, however many extra ones there are.
pub proof fn spend_depends_on_the_code(
    balanced: TxPartsView,
    code_cell_outpoint: OutPoint,
    locked_cell_outpoint: OutPoint,
    witness_bytes: Seq<u8>,
    extra_cell_deps: Seq<CellDep>,
)
    ensures
        ({
            let deps = spend_view(
                balanced,
                code_cell_outpoint,
                locked_cell_outpoint,
                witness_bytes,
                extra_cell_deps,
            ).cell_deps;
            let before = balanced.cell_deps.len() as int;
            &&& deps.len() == before + 1 + extra_cell_deps.len()
            &&& deps.take(before) == balanced.cell_deps
            &&& deps[before].out_point == code_cell_outpoint
            &&& deps[before].dep_type == DepType::Code
            &&& deps.skip(before + 1) == extra_cell_deps
        }),
{
    let deps = spend_view(
        balanced,
        code_cell_outpoint,
        locked_cell_outpoint,
        witness_bytes,
        extra_cell_deps,
    ).cell_deps;
    assert(deps.take(balanced.cell_deps.len() as int) =~= balanced.cell_deps);
    assert(deps.skip(balanced.cell_deps.len() as int + 1) =~= extra_cell_deps);
}

/// The inputs and witnesses of a spend: the locked cell and its witness first, without a
/// since value, then those of the balanced transaction in their order. The outputs,
/// the header deps and the version are those of the balanced transaction.
pub proof fn spend_puts_the_locked_cell_first(
    balanced: TxPartsView,
    code_cell_outpoint: OutPoint,
    locked_cell_outpoint: OutPoint,
    witness_bytes: Seq<u8>,
    extra_cell_deps: Seq<CellDep>,
)
    ensures
        ({
            let spend = spend_view(
                balanced,
                code_cell_outpoint,
                locked_cell_outpoint,
                witness_bytes,
                extra_cell_deps,
            );
            &&& spend.inputs.len() == balanced.inputs.len() + 1
            &&& spend.inputs[0].previous_output == locked_cell_outpoint
            &&& spend.inputs[0].since == 0
            &&& forall|i: int|
                0 <= i < balanced.inputs.len() ==> #[trigger] spend.inputs[i + 1]
                    == balanced.inputs[i]
            &&& spend.witnesses.len() == balanced.witnesses.len() + 1
            &&& spend.witnesses[0].len() == 20 + witness_bytes.len()
            &&& spend.witnesses[0].skip(20) == witness_bytes
            &&& forall|i: int|
                0 <= i < balanced.witnesses.len() ==> #[trigger] spend.witnesses[i + 1]
                    == balanced.witnesses[i]
            &&& spend.outputs == balanced.outputs
            &&& spend.header_deps == balanced.header_deps
            &&& spend.version == balanced.version
        }),
{
    witness_args_layout(witness_bytes);
}

/// What a spend returns to the spender: 61 CKB under their own lock, with no type and no
/// data.
pub proof fn spender_gets_61_ckb_back(spender_lock: ScriptView)
    ensures
        ({
            let cell = returned_view(spender_lock);
            &&& cell.capacity == 6_100_000_000
            &&& cell.lock == spender_lock
            &&& cell.type_ is None
            &&& cell.data.len() == 0
        }),
{
}

/// The code of a lock is registered under its own code hash, by its data, and its args.
pub proof fn lock_code_is_named_by_its_parts(code_hash: Seq<u8>, args: Seq<u8>)
    ensures
        ({
            let script = lock_code_script(code_hash, args);
            &&& script.code_hash == code_hash
            &&& script.hash_type == HashType::Data1
            &&& script.args == args
        }),
{
}

/// A recoverable signature is the compact signature of the digest by the key, with the
/// recovery number behind it.
pub proof fn signatures_are_of_the_digest(digest: Seq<u8>, secret: Seq<u8>)
    ensures
        ({
            let signature = recoverable_signature(digest, secret);
            let (compact, recovery) = signature_of(digest, secret);
            &&& signature.len() == compact.len() + 1
            &&& signature.take(compact.len() as int) == compact
            &&& signature.last() == recovery
        }),
{
    let signature = recoverable_signature(digest, secret);
    let compact = signature_of(digest, secret).0;
    assert(signature.take(compact.len() as int) =~= compact);
}

/// The message for a malformed address of a spender ends in the reason.
pub proof fn messages_end_in_the_reason(reason: Seq<char>)
    ensures
        address_message(reason) == "invalid spender address: "@ + reason,
{
}

/// What a checked witness means. It is handed out if and only if the last 32 bytes of the
/// code cell data are the digest of the IDL file and the witness decodes, and then it is
/// the witness itself, with each decoded field in its place. The errors come in the order
/// of these two.
pub proof fn checked_witnesses_are_committed_and_decoded(
    result: Result<CheckedWitness, IdlError>,
    code_cell_data: Seq<u8>,
    idl: Seq<u8>,
    wire: Seq<u8>,
)
    requires
        checked_as(result, code_cell_data, idl, wire),
    ensures
        ({
            let total = code_cell_data.len() as int;
            let committed = total >= 32 && code_cell_data.subrange(total - 32, total)
                == sha256_digest(idl);
            &&& result is Ok <==> committed && decoded_witness(idl, wire) is Ok
            &&& result matches Ok(witness) ==> {
                &&& witness.wire@ == wire
                &&& decoded_witness(idl, wire) matches Ok((types, fields)) && {
                    &&& witness.fields@.len() == fields.len()
                    &&& forall|i: int|
                        0 <= i < fields.len() ==> {
                            &&& (#[trigger] witness.fields@[i]).name@ == fields[i].0
                            &&& witness.fields@[i].type_@ == types[i]
                            &&& value_view(witness.fields@[i].value) == fields[i].1
                        }
                }
            }
            &&& result matches Err(e) ==> {
                &&& total < 32 ==> e is InsufficientData
                &&& total >= 32 && !committed ==> e is HashMismatch
                &&& committed ==> decoded_witness(idl, wire) == Err::<
                    (Seq<Seq<char>>, Seq<(Seq<char>, ValueView)>),
                    IdlErrorView,
                >(e@)
            }
        }),
{
    commitments_are_the_last_bytes(sha256_digest(idl), code_cell_data);
    if let Ok(witness) = result {
        if let Ok((types, fields)) = decoded_witness(idl, wire) {
            fields_keep_their_places(types, fields);
            let views = field_views(witness.fields@);
            assert(views == joined(types, fields));
            assert(views.len() == witness.fields@.len());
            assert forall|i: int| 0 <= i < fields.len() implies {
                &&& (#[trigger] witness.fields@[i]).name@ == fields[i].0
                &&& witness.fields@[i].type_@ == types[i]
                &&& value_view(witness.fields@[i].value) == fields[i].1
            } by {
                assert(views[i] == witness.fields@[i]@);
                assert(joined(types, fields)[i].name == fields[i].0);
            }
        }
    }
}

} // verus!
