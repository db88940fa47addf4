//! The parts of a transaction that the deployer plans: cells, inputs and deps.
use vstd::prelude::*;

use crate::bytes::views;
use crate::script::{serialize_witness_args, witness_args_molecule, HashType, Script, ScriptView};

verus! {

/// The number of shannons in one CKB.
pub const SHANNONS_PER_CKB: u64 = 100_000_000;

/// The number of bytes in a recoverable signature.
pub const SIGNATURE_LEN: usize = 65;

/// Shannons to pay for each 1000 bytes of a transaction.
pub const FEE_RATE: u64 = 1000;

/// Names an output of a transaction.
#[derive(Debug, Clone, Copy, PartialEq, Eq)]
pub struct OutPoint {
    pub tx_hash: [u8; 32],
    pub index: u32,
}

impl OutPoint {
    /// The first output of a transaction.
    pub fn first_of(tx_hash: &[u8; 32]) -> (out_point: OutPoint)
        ensures
            out_point == (OutPoint { tx_hash: *tx_hash, index: 0 }),
    {
        OutPoint { tx_hash: *tx_hash, index: 0 }
    }
}

/// What a cell dep stands for.
#[derive(Debug, Clone, Copy, PartialEq, Eq, Structural)]
pub enum DepType {
    /// The code in the cell.
    Code,
    /// The deps that the cell lists.
    DepGroup,
}

/// A cell that a transaction refers to without spending it.
#[derive(Debug, Clone, Copy, PartialEq, Eq)]
pub struct CellDep {
    pub out_point: OutPoint,
    pub dep_type: DepType,
}

/// A cell that a transaction spends.
#[derive(Debug, Clone, Copy, PartialEq, Eq)]
pub struct CellInput {
    pub previous_output: OutPoint,
    pub since: u64,
}

/// The code of a script, by hash.
#[derive(Debug, Clone, Copy, PartialEq, Eq)]
pub struct ScriptId {
    pub code_hash: [u8; 32],
    pub hash_type: HashType,
}

/// A cell to create.
#[derive(Debug, PartialEq, Eq)]
pub struct Cell {
    pub capacity: u64,
    pub lock: Script,
    pub type_: Option<Script>,
    pub data: Vec<u8>,
}

/// A cell by its contents.
pub struct CellView {
    pub capacity: u64,
    pub lock: ScriptView,
    pub type_: Option<ScriptView>,
    pub data: Seq<u8>,
}

/// An optional script by its contents.
pub open spec fn optional_view(script: Option<Script>) -> Option<ScriptView> {
    match script {
        Some(script) => Some(script@),
        None => None,
    }
}

impl View for Cell {
    type V = CellView;

    open spec fn view(&self) -> CellView {
        CellView {
            capacity: self.capacity,
            lock: self.lock@,
            type_: optional_view(self.type_),
            data: self.data@,
        }
    }
}

/// The contents of each cell in a list.
pub open spec fn cell_views(cells: Seq<Cell>) -> Seq<CellView> {
    Seq::new(cells.len(), |i: int| cells[i]@)
}

/// A signature of zero bytes, to be replaced by the real one.
pub open spec fn blank_signature() -> Seq<u8> {
    Seq::new(SIGNATURE_LEN as nat, |i: int| 0u8)
}

/// The witness that keeps the place of a signature while a transaction is
/// balanced: witness args whose lock field is a blank signature.
pub fn placeholder_witness() -> (witness: Vec<u8>)
    ensures
        witness@ == witness_args_molecule(blank_signature()),
{
    let blank: [u8; 65] = [0u8;65];
    assert(blank@ =~= blank_signature());
    serialize_witness_args(blank.as_slice())
}

/// The parts of a transaction.
#[derive(Debug, PartialEq, Eq)]
pub struct TxParts {
    pub version: u32,
    pub cell_deps: Vec<CellDep>,
    pub header_deps: Vec<[u8; 32]>,
    pub inputs: Vec<CellInput>,
    pub outputs: Vec<Cell>,
    pub witnesses: Vec<Vec<u8>>,
}

/// The parts of a transaction by their contents.
pub struct TxPartsView {
    pub version: u32,
    pub cell_deps: Seq<CellDep>,
    pub header_deps: Seq<[u8; 32]>,
    pub inputs: Seq<CellInput>,
    pub outputs: Seq<CellView>,
    pub witnesses: Seq<Seq<u8>>,
}

impl View for TxParts {
    type V = TxPartsView;

    open spec fn view(&self) -> TxPartsView {
        TxPartsView {
            version: self.version,
            cell_deps: self.cell_deps@,
            header_deps: self.header_deps@,
            inputs: self.inputs@,
            outputs: cell_views(self.outputs@),
            witnesses: views(self.witnesses@),
        }
    }
}

/// The contents of a cell are its fields.
pub proof fn cell_views_are_fields(cell: Cell)
    ensures
        cell@.capacity == cell.capacity,
        cell@.lock == cell.lock@,
        cell@.type_ is Some <==> cell.type_ is Some,
        cell.type_ matches Some(script) ==> cell@.type_ == Some(script@),
        cell@.data == cell.data@,
{
}

/// The contents of a list of cells are those of each cell, in its place.
pub proof fn cell_lists_keep_places(cells: Seq<Cell>, i: int)
    requires
        0 <= i < cells.len(),
    ensures
        cell_views(cells).len() == cells.len(),
        cell_views(cells)[i] == cells[i]@,
{
}

/// The contents of a transaction are its fields.
pub proof fn transaction_views_are_fields(tx: TxParts, i: int)
    ensures
        tx@.version == tx.version,
        tx@.cell_deps == tx.cell_deps@,
        tx@.header_deps == tx.header_deps@,
        tx@.inputs == tx.inputs@,
        tx@.outputs.len() == tx.outputs@.len(),
        0 <= i < tx.outputs@.len() ==> tx@.outputs[i] == tx.outputs@[i]@,
        tx@.witnesses.len() == tx.witnesses@.len(),
        0 <= i < tx.witnesses@.len() ==> tx@.witnesses[i] == tx.witnesses@[i]@,
{
}

/// A blank signature is 65 zero bytes.
pub proof fn blank_signatures_are_zeros(i: int)
    ensures
        blank_signature().len() == 65,
        0 <= i < 65 ==> blank_signature()[i] == 0,
{
}

} // verus!
