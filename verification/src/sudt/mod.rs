//! The sUDT type script: a token whose supply only its owner can raise.
//!
//! A token cell holds its amount as a 16-byte little-endian number. The script
//! args are the hash of the owner's lock script. A transaction with an input
//! whose type hash is the owner's is not checked further; any other may not
//! create more tokens than it consumes.
use vstd::prelude::*;

pub mod error;

use ckb_std::error::SysError;
use crate::bytes::{same_bytes, views};
use crate::endian::{
    le_bytes, lemma_le_bytes_len, lemma_le_value_of_bytes, lemma_pow256_values, le_value, push_le,
    read_le, sixteen_bytes_spell,
};
use crate::sys::script_view;
use self::error::{error_of_sys, Error};

verus! {

/// The number of bytes in a token amount.
pub const AMOUNT_LEN: usize = 16;

/// The amount that the data of a token cell spells, if it is long enough.
pub open spec fn amount_of(data: Seq<u8>) -> Option<nat> {
    if data.len() < AMOUNT_LEN {
        None
    } else {
        Some(le_value(data.take(AMOUNT_LEN as int)))
    }
}

/// Reads a token amount from the data of a cell.
pub fn decode_amount(data: &[u8]) -> (amount: Option<u128>)
    ensures
        amount is Some <==> amount_of(data@) is Some,
        amount matches Some(a) ==> amount_of(data@) == Some(a as nat),
{
    if data.len() < AMOUNT_LEN {
        return None;
    }
    let amount: u128 = read_le(data, 0, AMOUNT_LEN);
    assert(data@.subrange(0, 0 + AMOUNT_LEN) =~= data@.take(AMOUNT_LEN as int));
    Some(amount)
}

/// The data of a token cell that holds `amount` tokens.
pub fn encode_amount(amount: u128) -> (data: Vec<u8>)
    ensures
        data@ == le_bytes(amount as nat, AMOUNT_LEN as nat),
        data@.len() == 16,
        amount_of(data@) == Some(amount as nat),
{
    let mut data: Vec<u8> = Vec::new();
    push_le(&mut data, amount, AMOUNT_LEN);
    assert(Seq::<u8>::empty() + le_bytes(amount as nat, AMOUNT_LEN as nat) =~= le_bytes(
        amount as nat,
        AMOUNT_LEN as nat,
    ));
    proof {
        amount_reads_back(amount, Seq::empty());
        assert(data@ + Seq::<u8>::empty() =~= data@);
        lemma_le_bytes_len(amount as nat, AMOUNT_LEN as nat);
    }
    data
}

/// The tokens in a list of cells, added up from the front. The first cell that
/// cannot be read, or whose amount takes the sum past 128 bits, is the error.
pub open spec fn total_amount(cells: Seq<Seq<u8>>) -> Result<nat, Error>
    decreases cells.len(),
{
    if cells.len() == 0 {
        Ok(0)
    } else {
        match total_amount(cells.drop_last()) {
            Err(e) => Err(e),
            Ok(total) => match amount_of(cells.last()) {
                None => Err(Error::Encoding),
                Some(amount) => if total + amount > u128::MAX {
                    Err(Error::Overflow)
                } else {
                    Ok(total + amount)
                },
            },
        }
    }
}

/// Adds up the token amounts in a list of cells.
pub fn sum_amounts(cells: &[Vec<u8>]) -> (sum: Result<u128, Error>)
    ensures
        match sum {
            Ok(total) => total_amount(views(cells@)) == Ok::<nat, Error>(total as nat),
            Err(e) => total_amount(views(cells@)) == Err::<nat, Error>(e),
        },
{
    let count: usize = cells.len();
    let mut total: u128 = 0;
    let mut i: usize = 0;
    let ghost all = views(cells@);
    while i < count
        invariant
            i <= count,
            count == cells@.len(),
            all == views(cells@),
            total_amount(all.take(i as int)) == Ok::<nat, Error>(total as nat),
        decreases count - i,
    {
        proof {
            assert(all.take(i + 1).drop_last() =~= all.take(i as int));
            assert(all.take(i + 1).last() == cells@[i as int]@);
        }
        match decode_amount(cells[i].as_slice()) {
            None => {
                proof {
                    lemma_error_stays(all, i + 1);
                }
                return Err(Error::Encoding);
            },
            Some(amount) => match total.checked_add(amount) {
                None => {
                    proof {
                        lemma_error_stays(all, i + 1);
                    }
                    return Err(Error::Overflow);
                },
                Some(sum) => {
                    total = sum;
                },
            },
        }
        i = i + 1;
    }
    assert(all.take(count as int) =~= all);
    Ok(total)
}

/// Once a prefix has failed, the whole list fails in the same way.
proof fn lemma_error_stays(cells: Seq<Seq<u8>>, n: int)
    requires
        0 <= n <= cells.len(),
        total_amount(cells.take(n)) is Err,
    ensures
        total_amount(cells) == total_amount(cells.take(n)),
    decreases cells.len() - n,
{
    if n == cells.len() {
        assert(cells.take(n) =~= cells);
    } else {
        assert(cells.take(n + 1).drop_last() =~= cells.take(n));
        lemma_error_stays(cells, n + 1);
    }
}

/// Whether some input cell has the owner's hash as its type hash.
pub open spec fn owner_present(owner: Seq<u8>, type_hashes: Seq<Option<[u8; 32]>>) -> bool {
    exists|i: int|
        0 <= i < type_hashes.len() && (#[trigger] type_hashes[i] matches Some(hash) && hash@
            == owner)
}

/// Whether the owner takes part: one of the input cells has a type script whose
/// hash is `owner_lock_hash`.
pub fn is_owner_mode(owner_lock_hash: &[u8], input_type_hashes: &[Option<[u8; 32]>]) -> (owner: bool)
    ensures
        owner == owner_present(owner_lock_hash@, input_type_hashes@),
        owner <==> exists|i: int|
            0 <= i < input_type_hashes@.len() && (#[trigger] input_type_hashes@[i] matches Some(
                hash,
            ) && hash@ == owner_lock_hash@),
{
    let count: usize = input_type_hashes.len();
    let mut i: usize = 0;
    while i < count
        invariant
            i <= count,
            count == input_type_hashes@.len(),
            forall|j: int|
                0 <= j < i ==> !(#[trigger] input_type_hashes@[j] matches Some(hash) && hash@
                    == owner_lock_hash@),
        decreases count - i,
    {
        if let Some(hash) = &input_type_hashes[i] {
            if same_bytes(hash.as_slice(), owner_lock_hash) {
                return true;
            }
        }
        i = i + 1;
    }
    false
}

/// What the script decides of a transaction: `script` is what loading the script
/// gave (its args, or the failure), `type_hashes` the type hash of each input
/// cell, `inputs` and `outputs` the data of the token cells on either side.
pub open spec fn verdict(
    script: Result<Seq<u8>, SysError>,
    type_hashes: Seq<Option<[u8; 32]>>,
    inputs: Seq<Seq<u8>>,
    outputs: Seq<Seq<u8>>,
) -> Result<(), Error> {
    match script {
        Err(e) => Err(error_of_sys(e)),
        Ok(args) => if args.len() != 32 {
            Err(Error::ArgsLength)
        } else if owner_present(args, type_hashes) {
            Ok(())
        } else {
            match (total_amount(inputs), total_amount(outputs)) {
                (Err(e), _) => Err(e),
                (_, Err(e)) => Err(e),
                (Ok(input_sum), Ok(output_sum)) => if output_sum > input_sum {
                    Err(Error::OutputOverflow)
                } else {
                    Ok(())
                },
            }
        },
    }
}

/// Whether the verdict stands before any token cell is read: the script could not be
/// loaded, its args are no hash, or the owner takes part.
pub open spec fn is_settled(
    script: Result<Seq<u8>, SysError>,
    type_hashes: Seq<Option<[u8; 32]>>,
) -> bool {
    script matches Ok(args) ==> args.len() != 32 || owner_present(args, type_hashes)
}

/// The verdict, where it stands before any token cell is read: it is then the same
/// for all token cells.
pub fn settled(script: &Result<Vec<u8>, SysError>, input_type_hashes: &[Option<[u8; 32]>]) -> (early:
    Option<Result<(), Error>>)
    requires
        !(*script matches Err(SysError::Unknown(_))),
    ensures
        early is Some <==> is_settled(script_view(*script), input_type_hashes@),
        early matches Some(result) ==> forall|inputs: Seq<Seq<u8>>, outputs: Seq<Seq<u8>>|
            result == #[trigger] verdict(
                script_view(*script),
                input_type_hashes@,
                inputs,
                outputs,
            ),
{
    let args: &Vec<u8> = match script {
        Ok(args) => args,
        Err(e) => {
            return Some(Err(Error::from(*e)));
        },
    };
    if args.len() != 32 {
        return Some(Err(Error::ArgsLength));
    }
    if is_owner_mode(args.as_slice(), input_type_hashes) {
        return Some(Ok(()));
    }
    None
}

/// Checks a transaction against the token rules.
pub fn sudt_main(
    script: &Result<Vec<u8>, SysError>,
    input_type_hashes: &[Option<[u8; 32]>],
    group_inputs: &[Vec<u8>],
    group_outputs: &[Vec<u8>],
) -> (result: Result<(), Error>)
    requires
        !(*script matches Err(SysError::Unknown(_))),
    ensures
        result == verdict(
            script_view(*script),
            input_type_hashes@,
            views(group_inputs@),
            views(group_outputs@),
        ),
{
    if let Some(result) = settled(script, input_type_hashes) {
        return result;
    }
    let input_sum: u128 = match sum_amounts(group_inputs) {
        Ok(sum) => sum,
        Err(e) => {
            return Err(e);
        },
    };
    let output_sum: u128 = match sum_amounts(group_outputs) {
        Ok(sum) => sum,
        Err(e) => {
            return Err(e);
        },
    };
    if output_sum > input_sum {
        return Err(Error::OutputOverflow);
    }
    Ok(())
}

/// Runs the script: zero to accept the transaction, else the error's exit code.
pub fn program_entry(
    script: &Result<Vec<u8>, SysError>,
    input_type_hashes: &[Option<[u8; 32]>],
    group_inputs: &[Vec<u8>],
    group_outputs: &[Vec<u8>],
) -> (code: i8)
    requires
        !(*script matches Err(SysError::Unknown(_))),
    ensures
        code == match verdict(
            script_view(*script),
            input_type_hashes@,
            views(group_inputs@),
            views(group_outputs@),
        ) {
            Ok(_) => 0i8,
            Err(e) => e.exit_code(),
        },
{
    match sudt_main(script, input_type_hashes, group_inputs, group_outputs) {
        Ok(_) => 0,
        Err(e) => e.code(),
    }
}

/// Amounts read back as they were written, whatever data follows them.
pub proof fn amount_reads_back(amount: u128, rest: Seq<u8>)
    ensures
        amount_of(le_bytes(amount as nat, AMOUNT_LEN as nat) + rest) == Some(amount as nat),
{
    let data = le_bytes(amount as nat, AMOUNT_LEN as nat) + rest;
    lemma_le_bytes_len(amount as nat, AMOUNT_LEN as nat);
    lemma_pow256_values();
    lemma_le_value_of_bytes(amount as nat, AMOUNT_LEN as nat);
    assert(data.take(AMOUNT_LEN as int) =~= le_bytes(amount as nat, AMOUNT_LEN as nat));
}

/// The amount in a cell, or zero where the cell cannot be read.
pub open spec fn amount_or_zero(data: Seq<u8>) -> nat {
    match amount_of(data) {
        Some(amount) => amount,
        None => 0,
    }
}

/// The plain sum of the amounts in a list of cells, however large.
pub open spec fn plain_sum(cells: Seq<Seq<u8>>) -> nat
    decreases cells.len(),
{
    if cells.len() == 0 {
        0
    } else {
        plain_sum(cells.drop_last()) + amount_or_zero(cells.last())
    }
}

/// Whether every cell in a list can be read.
pub open spec fn all_readable(cells: Seq<Seq<u8>>) -> bool {
    forall|i: int| 0 <= i < cells.len() ==> amount_of(#[trigger] cells[i]) is Some
}

/// A list of cells has a total if and only if each cell can be read and the plain
/// sum fits in 128 bits; the total is that sum.
pub proof fn total_is_plain_sum(cells: Seq<Seq<u8>>)
    ensures
        total_amount(cells) is Ok <==> all_readable(cells) && plain_sum(cells) <= u128::MAX,
        total_amount(cells) matches Ok(total) ==> total == plain_sum(cells),
    decreases cells.len(),
{
    if cells.len() > 0 {
        let front = cells.drop_last();
        total_is_plain_sum(front);
        if all_readable(cells) {
            assert forall|i: int| 0 <= i < front.len() implies amount_of(
                #[trigger] front[i],
            ) is Some by {
                assert(front[i] == cells[i]);
            }
            assert(amount_of(cells[cells.len() - 1]) is Some);
        }
        if all_readable(front) && amount_of(cells.last()) is Some {
            assert forall|i: int| 0 <= i < cells.len() implies amount_of(
                #[trigger] cells[i],
            ) is Some by {
                if i < front.len() {
                    assert(front[i] == cells[i]);
                }
            }
        }
    }
}

/// A transaction without the owner that the script accepts creates no tokens: it
/// has no more in its outputs than in its inputs.
pub proof fn no_inflation(
    args: Seq<u8>,
    type_hashes: Seq<Option<[u8; 32]>>,
    inputs: Seq<Seq<u8>>,
    outputs: Seq<Seq<u8>>,
)
    requires
        verdict(Ok(args), type_hashes, inputs, outputs) is Ok,
        !owner_present(args, type_hashes),
    ensures
        plain_sum(outputs) <= plain_sum(inputs),
        all_readable(inputs),
        all_readable(outputs),
{
    total_is_plain_sum(inputs);
    total_is_plain_sum(outputs);
}

/// Without the owner, a transaction passes if every cell can be read, the inputs
/// sum to no more than 128 bits, and the outputs hold no more than the inputs:
/// tokens can be moved, split, joined and burned.
pub proof fn transfers_and_burns_pass(
    args: Seq<u8>,
    type_hashes: Seq<Option<[u8; 32]>>,
    inputs: Seq<Seq<u8>>,
    outputs: Seq<Seq<u8>>,
)
    requires
        args.len() == 32,
        all_readable(inputs),
        all_readable(outputs),
        plain_sum(inputs) <= u128::MAX,
        plain_sum(outputs) <= plain_sum(inputs),
    ensures
        verdict(Ok(args), type_hashes, inputs, outputs) is Ok,
{
    total_is_plain_sum(inputs);
    total_is_plain_sum(outputs);
}

/// With the owner among the inputs every transaction passes, so the owner can
/// mint and burn.
pub proof fn owner_may_mint(
    args: Seq<u8>,
    type_hashes: Seq<Option<[u8; 32]>>,
    inputs: Seq<Seq<u8>>,
    outputs: Seq<Seq<u8>>,
)
    requires
        args.len() == 32,
        owner_present(args, type_hashes),
    ensures
        verdict(Ok(args), type_hashes, inputs, outputs) is Ok,
{
}

/// Args of any other length than that of a hash are refused, whatever the
/// transaction does.
pub proof fn wrong_args_are_refused(
    args: Seq<u8>,
    type_hashes: Seq<Option<[u8; 32]>>,
    inputs: Seq<Seq<u8>>,
    outputs: Seq<Seq<u8>>,
)
    requires
        args.len() != 32,
    ensures
        verdict(Ok(args), type_hashes, inputs, outputs) == Err::<(), Error>(Error::ArgsLength),
{
}

/// The owner may stand anywhere among the inputs: if the type hash of any input is the
/// hash in the args, the transaction passes, whatever the token cells hold.
pub proof fn owner_counts_anywhere(
    args: Seq<u8>,
    type_hashes: Seq<Option<[u8; 32]>>,
    i: int,
    inputs: Seq<Seq<u8>>,
    outputs: Seq<Seq<u8>>,
)
    requires
        args.len() == 32,
        0 <= i < type_hashes.len(),
        type_hashes[i] matches Some(hash) && hash@ == args,
    ensures
        owner_present(args, type_hashes),
        verdict(Ok(args), type_hashes, inputs, outputs) == Ok::<(), Error>(()),
{
}

/// Without the hash in the args among the type hashes of the inputs, owner mode is off.
pub proof fn no_owner_without_the_hash(args: Seq<u8>, type_hashes: Seq<Option<[u8; 32]>>)
    requires
        forall|i: int|
            0 <= i < type_hashes.len() ==> (#[trigger] type_hashes[i] matches Some(hash) ==> hash@
                != args),
    ensures
        !owner_present(args, type_hashes),
        args.len() == 32 ==> !is_settled(Ok(args), type_hashes),
{
}

/// The amount in a cell: the first sixteen bytes of its data, lowest byte first. Data
/// that is shorter holds none.
pub proof fn amounts_are_sixteen_bytes(b: Seq<u8>)
    ensures
        b.len() < 16 ==> amount_of(b) is None,
        b.len() >= 16 ==> amount_of(b) == Some(
            (b[0] + 0x100 * b[1] + 0x1_0000 * b[2] + 0x100_0000 * b[3] + 0x1_0000_0000 * b[4]
                + 0x100_0000_0000 * b[5] + 0x1_0000_0000_0000 * b[6] + 0x100_0000_0000_0000 * b[7]
                + 0x1_0000_0000_0000_0000 * (b[8] + 0x100 * b[9] + 0x1_0000 * b[10] + 0x100_0000
                * b[11] + 0x1_0000_0000 * b[12] + 0x100_0000_0000 * b[13] + 0x1_0000_0000_0000
                * b[14] + 0x100_0000_0000_0000 * b[15])) as nat,
        ),
{
    if b.len() >= 16 {
        sixteen_bytes_spell(b.take(16));
    }
}

/// One more cell adds the amount in its first sixteen bytes to a sum, lowest byte
/// first, and no cells sum to zero.
pub proof fn sums_grow_by_each_cell(cells: Seq<Seq<u8>>, b: Seq<u8>)
    requires
        b.len() >= 16,
    ensures
        plain_sum(Seq::empty()) == 0,
        plain_sum(cells.push(b)) == plain_sum(cells) + b[0] + 0x100 * b[1] + 0x1_0000 * b[2]
            + 0x100_0000 * b[3] + 0x1_0000_0000 * b[4] + 0x100_0000_0000 * b[5] + 0x1_0000_0000_0000
            * b[6] + 0x100_0000_0000_0000 * b[7] + 0x1_0000_0000_0000_0000 * (b[8] + 0x100 * b[9]
            + 0x1_0000 * b[10] + 0x100_0000 * b[11] + 0x1_0000_0000 * b[12] + 0x100_0000_0000
            * b[13] + 0x1_0000_0000_0000 * b[14] + 0x100_0000_0000_0000 * b[15]),
{
    amounts_are_sixteen_bytes(b);
    assert(cells.push(b).drop_last() =~= cells);
    assert(cells.push(b).last() == b);
}

/// Cells can be read if and only if each has at least sixteen bytes.
pub proof fn readable_cells_are_long_enough(cells: Seq<Seq<u8>>)
    ensures
        all_readable(cells) <==> forall|i: int|
            0 <= i < cells.len() ==> (#[trigger] cells[i]).len() >= 16,
{
    if all_readable(cells) {
        assert forall|i: int| 0 <= i < cells.len() implies (#[trigger] cells[i]).len() >= 16 by {
            assert(amount_of(cells[i]) is Some);
        }
    }
}

/// The first cell that is at fault decides the error of a sum: one that is shorter
/// than sixteen bytes, or one that takes the sum past 128 bits.
pub proof fn first_fault_decides(cells: Seq<Seq<u8>>, n: int)
    requires
        0 <= n < cells.len(),
        forall|i: int| 0 <= i < n ==> (#[trigger] cells[i]).len() >= 16,
        plain_sum(cells.take(n)) <= u128::MAX,
    ensures
        cells[n].len() < 16 ==> total_amount(cells) == Err::<nat, Error>(Error::Encoding),
        cells[n].len() >= 16 && plain_sum(cells.take(n + 1)) > u128::MAX ==> total_amount(cells)
            == Err::<nat, Error>(Error::Overflow),
{
    let front = cells.take(n);
    readable_cells_are_long_enough(front);
    assert(forall|i: int| 0 <= i < n ==> #[trigger] front[i] == cells[i]);
    total_is_plain_sum(front);
    assert(cells.take(n + 1).drop_last() =~= front);
    assert(cells.take(n + 1).last() == cells[n]);
    amounts_are_sixteen_bytes(cells[n]);
    if cells[n].len() < 16 || plain_sum(cells.take(n + 1)) > u128::MAX {
        lemma_error_stays(cells, n + 1);
    }
}

/// Without the owner, the inputs are added up before the outputs, a fault in either is
/// the verdict, and then the sums decide: no more tokens may come out than go in.
pub proof fn sums_decide_without_the_owner(
    args: Seq<u8>,
    type_hashes: Seq<Option<[u8; 32]>>,
    inputs: Seq<Seq<u8>>,
    outputs: Seq<Seq<u8>>,
)
    requires
        args.len() == 32,
        forall|i: int|
            0 <= i < type_hashes.len() ==> (#[trigger] type_hashes[i] matches Some(hash) ==> hash@
                != args),
    ensures
        total_amount(inputs) matches Err(e) ==> verdict(Ok(args), type_hashes, inputs, outputs)
            == Err::<(), Error>(e),
        total_amount(inputs) is Ok && total_amount(outputs) is Err ==> verdict(
            Ok(args),
            type_hashes,
            inputs,
            outputs,
        ) == Err::<(), Error>(total_amount(outputs)->Err_0),
        total_amount(inputs) is Ok && total_amount(outputs) is Ok ==> verdict(
            Ok(args),
            type_hashes,
            inputs,
            outputs,
        ) == if plain_sum(outputs) > plain_sum(inputs) {
            Err::<(), Error>(Error::OutputOverflow)
        } else {
            Ok(())
        },
{
    no_owner_without_the_hash(args, type_hashes);
    total_is_plain_sum(inputs);
    total_is_plain_sum(outputs);
}

/// A script that cannot be loaded is reported as the failed call.
pub proof fn load_failures_are_reported(
    e: SysError,
    type_hashes: Seq<Option<[u8; 32]>>,
    inputs: Seq<Seq<u8>>,
    outputs: Seq<Seq<u8>>,
)
    ensures
        verdict(Err(e), type_hashes, inputs, outputs) == Err::<(), Error>(error_of_sys(e)),
        is_settled(Err(e), type_hashes),
{
}

} // verus!
