//! Serialized transactions: their hash, and the code that they deploy.
use ckb_types::prelude::{Entity, Unpack};
use vstd::prelude::*;

use crate::bytes::{copy_range, views};
use crate::endian::{
    four_bytes_spell, le_bytes, lemma_le_bytes_len, lemma_le_value_of_bytes, lemma_pow256_values, le_value,
};
use crate::hash::{blake2b_256, blake2b_digest};
use crate::text::join_text;

verus! {

/// Why `ckb_types` refuses bytes as a transaction, if it does.
pub uninterp spec fn transaction_fault(tx: Seq<u8>) -> Option<Seq<char>>;

/// The part of a serialized transaction that its hash covers: the first of the
/// two fields of the table, which holds everything but the witnesses.
pub open spec fn raw_part(tx: Seq<u8>) -> Seq<u8> {
    tx.subrange(le_value(tx.subrange(4, 8)) as int, le_value(tx.subrange(8, 12)) as int)
}

/// The number in the four bytes from `at` on, least significant byte first.
pub open spec fn number_at(data: Seq<u8>, at: int) -> int {
    le_value(data.subrange(at, at + 4)) as int
}

/// The data of each output of a serialized transaction: the byte strings in the
/// last of the six fields of the raw table. That field is a vector: its size, the
/// offset of each string, and the strings, each with its length in front.
pub open spec fn transaction_outputs_data(tx: Seq<u8>) -> Seq<Seq<u8>> {
    let raw = raw_part(tx);
    let list = raw.skip(number_at(raw, 24));
    let count = if list.len() == 4 {
        0
    } else {
        number_at(list, 4) / 4 - 1
    };
    Seq::new(
        count as nat,
        |i: int|
            list.subrange(
                number_at(list, 4 + 4 * i) + 4,
                if i + 1 < count {
                    number_at(list, 8 + 4 * i)
                } else {
                    list.len() as int
                },
            ),
    )
}

/// `ckb_types::packed::Transaction::from_slice`, and the data of the outputs of
/// what it read: the byte strings in the last field of the raw table. The error is
/// the named one.
#[verifier::external_body]
fn read_outputs_data(tx: &[u8]) -> (result: Result<Vec<Vec<u8>>, String>)
    ensures
        match result {
            Ok(list) => transaction_fault(tx@) is None && views(list@) == transaction_outputs_data(
                tx@,
            ),
            Err(e) => transaction_fault(tx@) == Some(e@),
        },
{
    match ckb_types::packed::Transaction::from_slice(tx) {
        Ok(read) => Ok(
            read.raw().outputs_data().into_iter().map(|data| data.raw_data().to_vec()).collect(),
        ),
        Err(e) => Err(e.to_string()),
    }
}

/// `ckb_types::packed::Transaction::from_slice`, and
/// `ckb_types::packed::Transaction::calc_tx_hash` of what it read: the blake2b
/// digest of the part without the witnesses. The error is the named one.
#[verifier::external_body]
fn hash_transaction(tx: &[u8]) -> (result: Result<[u8; 32], String>)
    ensures
        match result {
            Ok(hash) => transaction_fault(tx@) is None && hash@ == blake2b_digest(raw_part(tx@)),
            Err(e) => transaction_fault(tx@) == Some(e@),
        },
{
    match ckb_types::packed::Transaction::from_slice(tx) {
        Ok(read) => Ok(read.calc_tx_hash().unpack()),
        Err(e) => Err(e.to_string()),
    }
}

/// The bytes are not a transaction, for the reason given.
#[derive(Debug, PartialEq, Eq)]
pub struct BadTransaction(pub String);

impl BadTransaction {
    /// The message for the user.
    pub fn message(&self) -> (text: String)
        ensures
            text@ == "failed to decode tx bytes: "@ + self.0@,
    {
        join_text("failed to decode tx bytes: ", self.0.as_str())
    }
}

/// The hash of a serialized transaction.
pub fn transaction_hash(tx: &[u8]) -> (result: Result<[u8; 32], BadTransaction>)
    ensures
        match result {
            Ok(hash) => transaction_fault(tx@) is None && hash@ == blake2b_digest(raw_part(tx@)),
            Err(e) => transaction_fault(tx@) == Some(e.0@),
        },
{
    match hash_transaction(tx) {
        Ok(hash) => Ok(hash),
        Err(e) => Err(BadTransaction(e)),
    }
}

/// A transaction as a molecule table: the total size and the offsets of the two
/// fields, then the raw part and the witnesses.
pub open spec fn transaction_molecule(raw: Seq<u8>, witnesses: Seq<u8>) -> Seq<u8> {
    le_bytes(12 + raw.len() + witnesses.len(), 4) + le_bytes(12, 4) + le_bytes(12 + raw.len(), 4)
        + raw + witnesses
}

/// Whatever its witnesses, the hash of a transaction covers its raw part and
/// nothing else: a signature of the hash, put into a witness, leaves it valid.
pub proof fn hash_ignores_witnesses(raw: Seq<u8>, witnesses: Seq<u8>)
    requires
        12 + raw.len() <= u32::MAX,
    ensures
        raw_part(transaction_molecule(raw, witnesses)) == raw,
{
    let tx = transaction_molecule(raw, witnesses);
    lemma_le_bytes_len(12 + raw.len() + witnesses.len(), 4);
    lemma_le_bytes_len(12, 4);
    lemma_le_bytes_len(12 + raw.len(), 4);
    lemma_pow256_values();
    lemma_le_value_of_bytes(12, 4);
    lemma_le_value_of_bytes(12 + raw.len(), 4);
    assert(tx.subrange(4, 8) =~= le_bytes(12, 4));
    assert(tx.subrange(8, 12) =~= le_bytes(12 + raw.len(), 4));
    assert(tx.subrange(12, (12 + raw.len()) as int) =~= raw);
}

/// The byte strings of a vector with one byte string, serialized.
pub open spec fn one_string(data: Seq<u8>) -> Seq<u8> {
    le_bytes(12 + data.len(), 4) + le_bytes(8, 4) + le_bytes(data.len(), 4) + data
}

/// The data of the only output of a transaction is read back: `front` is the raw
/// part up to the data of the outputs.
pub proof fn single_output_reads_back(front: Seq<u8>, data: Seq<u8>, witnesses: Seq<u8>)
    requires
        front.len() >= 28,
        number_at(front, 24) == front.len(),
        12 + front.len() + 12 + data.len() <= u32::MAX,
    ensures
        transaction_outputs_data(transaction_molecule(front + one_string(data), witnesses))
            == seq![data],
{
    let raw = front + one_string(data);
    let tx = transaction_molecule(raw, witnesses);
    let list = one_string(data);
    lemma_le_bytes_len(12 + data.len(), 4);
    lemma_le_bytes_len(8, 4);
    lemma_le_bytes_len(data.len(), 4);
    lemma_pow256_values();
    lemma_le_value_of_bytes(8, 4);
    hash_ignores_witnesses(raw, witnesses);
    assert(raw.subrange(24, 28) =~= front.subrange(24, 28));
    assert(raw.skip(front.len() as int) =~= list);
    assert(list.subrange(4, 8) =~= le_bytes(8, 4));
    assert(list.subrange(12, list.len() as int) =~= data);
    assert(transaction_outputs_data(tx) =~= seq![data]);
}

/// The data of a code cell, and its hash, by which a script finds it.
#[derive(Debug, PartialEq, Eq)]
pub struct CodeCell {
    pub code_hash: [u8; 32],
    pub data: Vec<u8>,
}

/// The code cell at one of the outputs; there is none where the index is past
/// the last output.
pub fn code_cell_at(outputs_data: &[Vec<u8>], index: u32) -> (cell: Option<CodeCell>)
    ensures
        cell is Some <==> index < outputs_data@.len(),
        cell matches Some(cell) ==> {
            &&& cell.data@ == outputs_data@[index as int]@
            &&& cell.code_hash@ == blake2b_digest(outputs_data@[index as int]@)
        },
{
    let position: usize = index as usize;
    if position >= outputs_data.len() {
        return None;
    }
    let data: &Vec<u8> = &outputs_data[position];
    let copy: Vec<u8> = copy_range(data.as_slice(), 0, data.len());
    assert(copy@ =~= data@);
    Some(CodeCell { code_hash: blake2b_256(data.as_slice()), data: copy })
}

/// Reads the code cell at an output of a serialized transaction.
pub fn fetch_code_cell_data(tx: &[u8], index: u32) -> (result: Result<
    Option<CodeCell>,
    BadTransaction,
>)
    ensures
        match result {
            Ok(cell) => {
                let outputs_data = transaction_outputs_data(tx@);
                &&& transaction_fault(tx@) is None
                &&& cell is Some <==> index < outputs_data.len()
                &&& cell matches Some(cell) ==> {
                    &&& cell.data@ == outputs_data[index as int]
                    &&& cell.code_hash@ == blake2b_digest(outputs_data[index as int])
                }
            },
            Err(e) => transaction_fault(tx@) == Some(e.0@),
        },
{
    match read_outputs_data(tx) {
        Ok(outputs_data) => {
            let cell: Option<CodeCell> = code_cell_at(outputs_data.as_slice(), index);
            assert(views(outputs_data@).len() == outputs_data@.len());
            Ok(cell)
        },
        Err(e) => Err(BadTransaction(e)),
    }
}

/// The hash of the code at an output of a serialized transaction.
pub fn compute_code_hash(tx: &[u8], index: u32) -> (result: Result<Option<[u8; 32]>, BadTransaction>)
    ensures
        match result {
            Ok(hash) => {
                let outputs_data = transaction_outputs_data(tx@);
                &&& transaction_fault(tx@) is None
                &&& hash is Some <==> index < outputs_data.len()
                &&& hash matches Some(hash) ==> hash@ == blake2b_digest(outputs_data[index as int])
            },
            Err(e) => transaction_fault(tx@) == Some(e.0@),
        },
{
    match fetch_code_cell_data(tx, index) {
        Ok(Some(cell)) => Ok(Some(cell.code_hash)),
        Ok(None) => Ok(None),
        Err(e) => Err(e),
    }
}

/// Where the string at a place stands in the serialized vector of some byte strings.
pub open spec fn string_offset(strings: Seq<Seq<u8>>, place: nat) -> nat
    decreases place,
{
    if place == 0 {
        4 + 4 * strings.len()
    } else {
        string_offset(strings, (place - 1) as nat) + 4 + strings[place - 1].len()
    }
}

/// The offsets of the first strings, serialized.
pub open spec fn offset_table(strings: Seq<Seq<u8>>, count: nat) -> Seq<u8>
    decreases count,
{
    if count == 0 {
        Seq::empty()
    } else {
        offset_table(strings, (count - 1) as nat) + le_bytes(
            string_offset(strings, (count - 1) as nat),
            4,
        )
    }
}

/// The first strings, each with its length in front.
pub open spec fn string_items(strings: Seq<Seq<u8>>, count: nat) -> Seq<u8>
    decreases count,
{
    if count == 0 {
        Seq::empty()
    } else {
        string_items(strings, (count - 1) as nat) + le_bytes(strings[count - 1].len(), 4)
            + strings[count - 1]
    }
}

/// The serialized vector of some byte strings: its size, the offset of each string, and
/// the strings.
pub open spec fn string_vector(strings: Seq<Seq<u8>>) -> Seq<u8> {
    le_bytes(string_offset(strings, strings.len()), 4) + offset_table(strings, strings.len())
        + string_items(strings, strings.len())
}

/// Where an offset stands in the table, and that offsets grow.
proof fn lemma_offsets(strings: Seq<Seq<u8>>, count: nat, place: nat)
    requires
        place <= count <= strings.len(),
    ensures
        offset_table(strings, count).len() == 4 * count,
        string_offset(strings, place) <= string_offset(strings, count),
        place < count ==> offset_table(strings, count).subrange(4 * place as int, 4 * place as int + 4)
            == le_bytes(string_offset(strings, place), 4),
    decreases count,
{
    if count > 0 {
        let before = (count - 1) as nat;
        lemma_le_bytes_len(string_offset(strings, before), 4);
        if place < count {
            lemma_offsets(strings, before, place);
        } else {
            lemma_offsets(strings, before, before);
        }
        if place == before {
            assert(offset_table(strings, count).subrange(4 * place as int, 4 * place as int + 4)
                =~= le_bytes(string_offset(strings, place), 4));
        } else if place < before {
            assert(offset_table(strings, count).subrange(4 * place as int, 4 * place as int + 4)
                =~= offset_table(strings, before).subrange(4 * place as int, 4 * place as int + 4));
        }
    }
}

/// Where a string stands among the strings.
proof fn lemma_items(strings: Seq<Seq<u8>>, count: nat, place: nat)
    requires
        place <= count <= strings.len(),
    ensures
        string_items(strings, count).len() == string_offset(strings, count) - string_offset(
            strings,
            0,
        ),
        place < count ==> string_items(strings, count).subrange(
            string_offset(strings, place) - string_offset(strings, 0) + 4,
            string_offset(strings, place + 1) - string_offset(strings, 0),
        ) == strings[place as int],
    decreases count,
{
    if count > 0 {
        let before = (count - 1) as nat;
        let base = string_offset(strings, 0);
        lemma_le_bytes_len(strings[before as int].len(), 4);
        if place < count {
            lemma_items(strings, before, place);
            lemma_offsets(strings, place, 0);
            lemma_offsets(strings, before, place);
        } else {
            lemma_items(strings, before, before);
            lemma_offsets(strings, before, 0);
        }
        if place == before {
            assert(string_items(strings, count).subrange(
                string_offset(strings, place) - base + 4,
                string_offset(strings, place + 1) - base,
            ) =~= strings[place as int]);
        } else if place < before {
            lemma_offsets(strings, before, place + 1);
            assert(string_items(strings, count).subrange(
                string_offset(strings, place) - base + 4,
                string_offset(strings, place + 1) - base,
            ) =~= string_items(strings, before).subrange(
                string_offset(strings, place) - base + 4,
                string_offset(strings, place + 1) - base,
            ));
        }
    }
}

/// The data of the outputs of a transaction are read back, each in its place, however many
/// there are: `front` is the raw part up to them.
pub proof fn outputs_read_back(front: Seq<u8>, strings: Seq<Seq<u8>>, witnesses: Seq<u8>)
    requires
        front.len() >= 28,
        number_at(front, 24) == front.len(),
        12 + front.len() + string_offset(strings, strings.len()) <= u32::MAX,
    ensures
        transaction_outputs_data(transaction_molecule(front + string_vector(strings), witnesses))
            == strings,
{
    let count = strings.len();
    let list = string_vector(strings);
    let raw = front + list;
    let tx = transaction_molecule(raw, witnesses);
    let base = string_offset(strings, 0);
    let end = string_offset(strings, count);
    lemma_le_bytes_len(end, 4);
    lemma_offsets(strings, count, 0);
    lemma_items(strings, count, 0);
    lemma_pow256_values();
    assert(list.len() == end);
    hash_ignores_witnesses(raw, witnesses);
    assert(raw.subrange(24, 28) =~= front.subrange(24, 28));
    assert(raw.skip(front.len() as int) =~= list);
    let read = transaction_outputs_data(tx);
    if count == 0 {
        assert(read =~= strings);
    } else {
        assert(list.subrange(4, 8) =~= offset_table(strings, count).subrange(0, 4));
        lemma_le_value_of_bytes(base, 4);
        assert(number_at(list, 4) == base);
        assert(read.len() == count);
        assert forall|i: int| 0 <= i < count implies read[i] == strings[i] by {
            let place = i as nat;
            lemma_offsets(strings, count, place);
            lemma_offsets(strings, count, place + 1);
            lemma_offsets(strings, place, 0);
            lemma_items(strings, count, place);
            assert(list.subrange(4 + 4 * i, 8 + 4 * i) =~= offset_table(strings, count).subrange(
                4 * i,
                4 * i + 4,
            ));
            lemma_le_value_of_bytes(string_offset(strings, place), 4);
            assert(number_at(list, 4 + 4 * i) == string_offset(strings, place));
            if i + 1 < count {
                assert(list.subrange(8 + 4 * i, 12 + 4 * i) =~= offset_table(
                    strings,
                    count,
                ).subrange(4 * i + 4, 4 * i + 8));
                lemma_le_value_of_bytes(string_offset(strings, place + 1), 4);
                assert(number_at(list, 8 + 4 * i) == string_offset(strings, place + 1));
            }
            assert(list.subrange(
                string_offset(strings, place) as int + 4,
                string_offset(strings, place + 1) as int,
            ) =~= string_items(strings, count).subrange(
                string_offset(strings, place) - base + 4,
                string_offset(strings, place + 1) - base,
            ));
        }
        assert(read =~= strings);
    }
}

/// What four bytes of a serialized transaction spell, lowest byte first, and where its
/// first field, which its hash covers, begins and ends.
pub proof fn offsets_take_four_bytes(tx: Seq<u8>, at: int)
    requires
        0 <= at,
        at + 4 <= tx.len(),
    ensures
        number_at(tx, at) == tx[at] + 0x100 * tx[at + 1] + 0x1_0000 * tx[at + 2] + 0x100_0000 * tx[at
            + 3],
        raw_part(tx) == tx.subrange(number_at(tx, 4), number_at(tx, 8)),
{
    four_bytes_spell(tx.subrange(at, at + 4));
}

} // verus!
