//! What the deployer puts into the cells that it creates: code cells, locked
//! cells and token cells.
use vstd::pervasive::unreached;
use vstd::prelude::*;

use crate::bytes::{copy_range, same_bytes};
use crate::cell::{
    cell_views, optional_view, Cell, CellDep, CellView, DepType, OutPoint, ScriptId,
    SHANNONS_PER_CKB,
};
use crate::endian::{le_bytes, lemma_le_bytes_len};
use crate::hash::{blake2b_256, blake2b_digest, sha256_digest};
use crate::idl::{
    code_cell_contents, code_cell_data, commitment_keeps_binary, commitment_of, idl_view,
};
use crate::script::{script_molecule, HashType, Script, ScriptView};
use crate::simple_lock;
use crate::sudt::{
    all_readable, amount_of, amount_or_zero, amount_reads_back, decode_amount, encode_amount, plain_sum,
    transfers_and_burns_pass, verdict, AMOUNT_LEN,
};
use crate::text::{decimal, decimal_text, join_text};
use crate::timelock_lock;
use crate::wire::bytes_field;

verus! {

/// The capacity of a token cell, in shannons.
pub const TOKEN_CELL_CAPACITY: u64 = 14_200_000_000;

/// The capacity of a new locked cell, in shannons.
pub const LOCKED_CELL_CAPACITY: u64 = 14_200_000_000;

/// The tokens that `deploy-sudt` mints.
pub const INITIAL_SUPPLY: u128 = 1_000_000;

/// The capacity of a code cell with so many bytes of data: one CKB for each, and
/// 100 CKB for the rest of the cell.
pub open spec fn code_cell_capacity(size: nat) -> nat {
    (size + 100) * SHANNONS_PER_CKB as nat
}

/// The capacity that a code cell needs; none where it does not fit in 64 bits.
pub fn required_capacity(size: usize) -> (capacity: Option<u64>)
    ensures
        capacity is Some <==> code_cell_capacity(size as nat) <= u64::MAX,
        capacity matches Some(c) ==> c == code_cell_capacity(size as nat),
        capacity matches Some(c) ==> c == size * 100_000_000 + 10_000_000_000,
        capacity is None ==> size * 100_000_000 + 10_000_000_000 > u64::MAX,
{
    let capacity: u128 = (size as u128 + 100) * SHANNONS_PER_CKB as u128;
    if capacity <= u64::MAX as u128 {
        Some(capacity as u64)
    } else {
        None
    }
}

/// The cell that deploys a script: it holds the binary, behind it the commitment
/// to the IDL file if there is one, and belongs to the deployer.
pub fn deploy_script(binary: &[u8], idl: Option<&Vec<u8>>, deployer_lock: &Script) -> (cell: Cell)
    requires
        code_cell_capacity(
            binary@.len() + if idl is Some {
                32nat
            } else {
                0
            },
        ) <= u64::MAX,
    ensures
        cell.data@ == code_cell_contents(binary@, idl_view(idl)),
        cell.capacity == code_cell_capacity(cell.data@.len()),
        cell.capacity == cell.data@.len() * 100_000_000 + 10_000_000_000,
        cell.data@.take(binary@.len() as int) == binary@,
        idl is None ==> cell.data@ == binary@,
        idl matches Some(idl) ==> cell.data@.skip(binary@.len() as int) == sha256_digest(idl@),
        cell.lock@ == deployer_lock@,
        cell.type_ is None,
        idl matches Some(idl) ==> commitment_of(sha256_digest(idl@), cell.data@) is Ok,
{
    let data: Vec<u8> = code_cell_data(binary, idl);
    let size: usize = data.len();
    proof {
        commitment_keeps_binary(binary@, idl_view(idl));
        if let Some(idl) = idl {
            assert(data@.skip(binary@.len() as int) =~= sha256_digest(idl@));
        }
    }
    let capacity: u64 = (size as u64 + 100) * SHANNONS_PER_CKB;
    Cell { capacity, lock: deployer_lock.copy(), type_: None, data }
}

/// The lock of a cell that the simple-lock code guards: its args are the hash of
/// the preimage. The encoded preimage unlocks the cell.
pub fn create_locked_cell(code_hash: &[u8; 32], preimage: &[u8]) -> (lock: Script)
    ensures
        lock@ == (ScriptView {
            code_hash: code_hash@,
            hash_type: HashType::Data1,
            args: blake2b_digest(preimage@),
        }),
        lock@.args.len() == 32,
        preimage@.len() <= u32::MAX ==> simple_lock::verdict(
            Ok(lock@.args),
            Ok(Some(bytes_field(preimage@))),
        ) is Ok,
{
    let hash: [u8; 32] = blake2b_256(preimage);
    let args: Vec<u8> = copy_range(hash.as_slice(), 0, 32);
    assert(args@ =~= hash@);
    proof {
        if preimage@.len() <= u32::MAX {
            simple_lock::preimages_unlock(args@, preimage@);
        }
    }
    Script { code_hash: *code_hash, hash_type: HashType::Data1, args }
}

/// The lock of a cell that the timelock-lock code guards: its args are the
/// compressed public key of whoever may spend the cell, and the hash that the
/// extra payload must have.
pub fn create_timelock_cell(
    code_hash: &[u8; 32],
    public_key: &[u8; 33],
    commitment: &[u8; 32],
) -> (lock: Script)
    ensures
        lock@ == (ScriptView {
            code_hash: code_hash@,
            hash_type: HashType::Data1,
            args: public_key@ + commitment@,
        }),
        lock@.args.len() == timelock_lock::ARGS_LEN,
{
    Script {
        code_hash: *code_hash,
        hash_type: HashType::Data1,
        args: timelock_lock::lock_args(public_key, commitment),
    }
}

/// A new cell that the given lock guards: it holds no data.
pub fn locked_cell(lock: Script) -> (cell: Cell)
    ensures
        cell@ == (CellView {
            capacity: LOCKED_CELL_CAPACITY,
            lock: lock@,
            type_: None,
            data: Seq::empty(),
        }),
{
    let data: Vec<u8> = Vec::new();
    assert(data@ =~= Seq::<u8>::empty());
    Cell { capacity: LOCKED_CELL_CAPACITY, lock, type_: None, data }
}

/// The type script of the tokens of an issuer: the sUDT code, with the hash of
/// the issuer's lock script as args.
pub open spec fn token_script(code_hash: Seq<u8>, issuer_lock: ScriptView) -> ScriptView {
    ScriptView { code_hash, hash_type: HashType::Data1, args: issuer_lock.hash() }
}

/// A cell that holds tokens.
pub open spec fn token_cell(lock: ScriptView, type_: ScriptView, amount: u128) -> CellView {
    CellView {
        capacity: TOKEN_CELL_CAPACITY,
        lock,
        type_: Some(type_),
        data: le_bytes(amount as nat, AMOUNT_LEN as nat),
    }
}

/// Makes a cell that holds tokens.
fn make_token_cell(lock: &Script, type_: &Script, amount: u128) -> (cell: Cell)
    ensures
        cell@ == token_cell(lock@, type_@, amount),
        amount_of(cell.data@) == Some(amount as nat),
{
    let data: Vec<u8> = encode_amount(amount);
    proof {
        amount_reads_back(amount, Seq::empty());
        assert(data@ + Seq::<u8>::empty() =~= data@);
    }
    Cell {
        capacity: TOKEN_CELL_CAPACITY,
        lock: lock.copy(),
        type_: Some(type_.copy()),
        data,
    }
}

/// The transaction that mints tokens: the cell to create, the code that it needs,
/// and the script id under which that code is found.
#[derive(Debug, PartialEq, Eq)]
pub struct MintPlan {
    pub cell: Cell,
    pub cell_dep: CellDep,
    pub script_id: ScriptId,
}

/// Plans the minting of `amount` tokens of an issuer to a recipient. The new cell
/// holds exactly that amount, and its type script has 32 bytes of args.
pub fn mint_tokens(
    code_hash: &[u8; 32],
    code_cell_outpoint: &OutPoint,
    issuer_lock: &Script,
    recipient_lock: &Script,
    amount: u128,
) -> (plan: MintPlan)
    ensures
        plan.cell@ == token_cell(
            recipient_lock@,
            token_script(code_hash@, issuer_lock@),
            amount,
        ),
        plan.cell_dep == (CellDep { out_point: *code_cell_outpoint, dep_type: DepType::Code }),
        plan.script_id == (ScriptId { code_hash: *code_hash, hash_type: HashType::Data1 }),
        amount_of(plan.cell.data@) == Some(amount as nat),
        token_script(code_hash@, issuer_lock@).args.len() == 32,
        plan.cell.capacity == 14_200_000_000,
        plan.cell.lock@ == recipient_lock@,
        plan.cell.data@.len() == 16,
        plan.cell.type_ matches Some(type_) && type_.code_hash@ == code_hash@ && type_.hash_type
            == HashType::Data1 && type_.args@ == issuer_lock@.hash(),
{
    proof {
        token_cells_hold_their_amount(
            recipient_lock@,
            token_script(code_hash@, issuer_lock@),
            amount,
        );
    }
    let issuer_bytes: Vec<u8> = issuer_lock.as_bytes();
    let owner_lock_hash: [u8; 32] = blake2b_256(issuer_bytes.as_slice());
    let args: Vec<u8> = copy_range(owner_lock_hash.as_slice(), 0, 32);
    assert(args@ =~= owner_lock_hash@);
    let type_script: Script = Script { code_hash: *code_hash, hash_type: HashType::Data1, args };
    MintPlan {
        cell: make_token_cell(recipient_lock, &type_script, amount),
        cell_dep: CellDep { out_point: *code_cell_outpoint, dep_type: DepType::Code },
        script_id: ScriptId { code_hash: *code_hash, hash_type: HashType::Data1 },
    }
}

/// Plans what `deploy-sudt` mints once the code is deployed: the initial supply,
/// from the deployer to the deployer.
pub fn deploy_and_mint_sudt(
    code_hash: &[u8; 32],
    code_cell_outpoint: &OutPoint,
    deployer_lock: &Script,
) -> (plan: MintPlan)
    ensures
        plan.cell@ == token_cell(
            deployer_lock@,
            token_script(code_hash@, deployer_lock@),
            INITIAL_SUPPLY,
        ),
        plan.cell_dep == (CellDep { out_point: *code_cell_outpoint, dep_type: DepType::Code }),
        plan.script_id == (ScriptId { code_hash: *code_hash, hash_type: HashType::Data1 }),
        amount_of(plan.cell.data@) == Some(INITIAL_SUPPLY as nat),
        amount_of(plan.cell.data@) == Some(1_000_000nat),
        plan.cell.lock@ == deployer_lock@,
        plan.cell.type_ matches Some(type_) && type_.code_hash@ == code_hash@ && type_.hash_type
            == HashType::Data1 && type_.args@ == deployer_lock@.hash(),
{
    mint_tokens(code_hash, code_cell_outpoint, deployer_lock, deployer_lock, INITIAL_SUPPLY)
}

/// A cell of the sender, as the indexer lists it.
#[derive(Debug, PartialEq, Eq)]
pub struct LiveCell {
    pub type_: Option<Script>,
    pub data: Option<Vec<u8>>,
}

/// A listed cell by its contents.
pub struct LiveCellView {
    pub type_: Option<ScriptView>,
    pub data: Option<Seq<u8>>,
}

impl View for LiveCell {
    type V = LiveCellView;

    open spec fn view(&self) -> LiveCellView {
        LiveCellView {
            type_: optional_view(self.type_),
            data: match self.data {
                Some(data) => Some(data@),
                None => None,
            },
        }
    }
}

/// The contents of each cell in a list.
pub open spec fn live_views(cells: Seq<LiveCell>) -> Seq<LiveCellView> {
    Seq::new(cells.len(), |i: int| cells[i]@)
}

/// Whether a cell has a type script with this hash.
pub open spec fn has_type(cell: LiveCellView, type_hash: Seq<u8>) -> bool {
    cell.type_ matches Some(script) && script.hash() == type_hash
}

/// The amount in a listed cell; none where the data is missing or too short.
pub open spec fn live_amount(cell: LiveCellView) -> Option<nat> {
    match cell.data {
        Some(data) => amount_of(data),
        None => None,
    }
}

/// The cells that were picked, by their places in the list, and their tokens.
pub struct ScanView {
    pub picked: Seq<int>,
    pub total: nat,
}

impl ScanView {
    /// Whether something was picked and covers the amount.
    pub open spec fn covers(self, amount: nat) -> bool {
        self.picked.len() > 0 && self.total >= amount
    }
}

/// What a scan of the list has picked at its end, if it can be carried through:
/// from the front, each cell with the right type, until the cells picked cover
/// the amount. It fails at a picked cell whose amount cannot be read or takes
/// the total past 128 bits.
pub open spec fn scan(cells: Seq<LiveCellView>, type_hash: Seq<u8>, amount: nat) -> Option<ScanView>
    decreases cells.len(),
{
    if cells.len() == 0 {
        Some(ScanView { picked: Seq::empty(), total: 0 })
    } else {
        match scan(cells.drop_last(), type_hash, amount) {
            None => None,
            Some(before) => if before.covers(amount) || !has_type(cells.last(), type_hash) {
                Some(before)
            } else {
                match live_amount(cells.last()) {
                    None => None,
                    Some(tokens) => if before.total + tokens > u128::MAX {
                        None
                    } else {
                        Some(
                            ScanView {
                                picked: before.picked.push(cells.len() - 1),
                                total: before.total + tokens,
                            },
                        )
                    },
                }
            },
        }
    }
}

/// Places in a list as whole numbers.
pub open spec fn places(picked: Seq<usize>) -> Seq<int> {
    Seq::new(picked.len(), |i: int| picked[i] as int)
}

/// A scan that has stopped keeps its outcome to the end of the list.
proof fn lemma_scan_stays(
    cells: Seq<LiveCellView>,
    type_hash: Seq<u8>,
    amount: nat,
    n: int,
)
    requires
        0 <= n <= cells.len(),
        match scan(cells.take(n), type_hash, amount) {
            None => true,
            Some(at) => at.covers(amount),
        },
    ensures
        scan(cells, type_hash, amount) == scan(cells.take(n), type_hash, amount),
    decreases cells.len() - n,
{
    if n == cells.len() {
        assert(cells.take(n) =~= cells);
    } else {
        assert(cells.take(n + 1).drop_last() =~= cells.take(n));
        lemma_scan_stays(cells, type_hash, amount, n + 1);
    }
}

/// Picks cells of one type, from the front of a list, until they cover the amount.
pub fn pick_cells(cells: &[LiveCell], type_script: &Script, amount: u128) -> (result: Option<
    (Vec<usize>, u128),
>)
    ensures
        match result {
            Some((picked, total)) => scan(
                live_views(cells@),
                type_script@.hash(),
                amount as nat,
            ) == Some(ScanView { picked: places(picked@), total: total as nat }),
            None => scan(live_views(cells@), type_script@.hash(), amount as nat) is None,
        },
{
    let type_hash: [u8; 32] = type_script.calc_script_hash();
    let count: usize = cells.len();
    let ghost all = live_views(cells@);
    let mut picked: Vec<usize> = Vec::new();
    let mut total: u128 = 0;
    let mut i: usize = 0;
    assert(places(picked@) =~= Seq::<int>::empty());
    while i < count
        invariant
            i <= count,
            count == cells@.len(),
            all == live_views(cells@),
            type_hash@ == type_script@.hash(),
            scan(all.take(i as int), type_script@.hash(), amount as nat) == Some(
                ScanView { picked: places(picked@), total: total as nat },
            ),
            !(ScanView { picked: places(picked@), total: total as nat }).covers(amount as nat),
        decreases count - i,
    {
        proof {
            assert(all.take(i + 1).drop_last() =~= all.take(i as int));
            assert(all.take(i + 1).last() == cells@[i as int]@);
        }
        let of_type: bool = match &cells[i].type_ {
            Some(script) => same_bytes(
                script.calc_script_hash().as_slice(),
                type_hash.as_slice(),
            ),
            None => false,
        };
        if of_type {
            let tokens: Option<u128> = match &cells[i].data {
                Some(data) => decode_amount(data.as_slice()),
                None => None,
            };
            let sum: Option<u128> = match tokens {
                Some(tokens) => total.checked_add(tokens),
                None => None,
            };
            match sum {
                None => {
                    proof {
                        lemma_scan_stays(all, type_script@.hash(), amount as nat, i + 1);
                    }
                    return None;
                },
                Some(sum) => {
                    let ghost before = picked@;
                    picked.push(i);
                    total = sum;
                    assert(places(picked@) =~= places(before).push(i as int));
                },
            }
            if total >= amount {
                proof {
                    lemma_scan_stays(all, type_script@.hash(), amount as nat, i + 1);
                }
                return Some((picked, total));
            }
        }
        i = i + 1;
    }
    assert(all.take(count as int) =~= all);
    Some((picked, total))
}

/// The transaction that transfers tokens: the cells to spend, by their places in
/// the list, the cells to create, and the code that they need.
#[derive(Debug, PartialEq, Eq)]
pub struct TransferPlan {
    pub picked: Vec<usize>,
    pub outputs: Vec<Cell>,
    pub cell_dep: CellDep,
}

/// The sender has too few tokens.
#[derive(Debug, Clone, Copy, PartialEq, Eq, Structural)]
pub struct InsufficientBalance {
    pub have: u128,
    pub need: u128,
}

impl InsufficientBalance {
    /// The message for the user.
    pub fn message(&self) -> (text: String)
        ensures
            text@ == "Insufficient UDT balance: have "@ + decimal_text(self.have as nat)
                + ", need "@ + decimal_text(self.need as nat),
    {
        let mut text: String = join_text(
            "Insufficient UDT balance: have ",
            decimal(self.have).as_str(),
        );
        text.append(", need ");
        text.append(decimal(self.need).as_str());
        text
    }
}

/// The cells that a transfer creates out of `total` tokens: one for the
/// recipient, and one for the sender if anything is left.
pub open spec fn transfer_outputs(
    type_: ScriptView,
    sender_lock: ScriptView,
    recipient_lock: ScriptView,
    amount: u128,
    total: nat,
) -> Seq<CellView> {
    let to_recipient = token_cell(recipient_lock, type_, amount);
    if total > amount {
        seq![to_recipient, token_cell(sender_lock, type_, (total - amount) as u128)]
    } else {
        seq![to_recipient]
    }
}

/// Makes the cells that a transfer creates.
pub fn make_outputs(
    type_script: &Script,
    sender_lock: &Script,
    recipient_lock: &Script,
    amount: u128,
    total: u128,
) -> (outputs: Vec<Cell>)
    requires
        amount <= total,
    ensures
        cell_views(outputs@) == transfer_outputs(
            type_script@,
            sender_lock@,
            recipient_lock@,
            amount,
            total as nat,
        ),
        outputs@.len() == if total > amount {
            2int
        } else {
            1
        },
        outputs@[0].lock@ == recipient_lock@,
        amount_of(outputs@[0].data@) == Some(amount as nat),
        total > amount ==> outputs@[1].lock@ == sender_lock@ && amount_of(outputs@[1].data@)
            == Some((total - amount) as nat),
{
    let mut outputs: Vec<Cell> = Vec::new();
    outputs.push(make_token_cell(recipient_lock, type_script, amount));
    if total > amount {
        outputs.push(make_token_cell(sender_lock, type_script, total - amount));
    }
    assert(cell_views(outputs@) =~= transfer_outputs(
        type_script@,
        sender_lock@,
        recipient_lock@,
        amount,
        total as nat,
    ));
    outputs
}

/// Whether a plan, or a refusal, follows from what was picked: a refusal if and
/// only if the cells picked hold fewer tokens than are to be transferred.
pub open spec fn transfer_follows(
    result: Result<TransferPlan, InsufficientBalance>,
    picks: ScanView,
    type_: ScriptView,
    code_cell_outpoint: OutPoint,
    sender_lock: ScriptView,
    recipient_lock: ScriptView,
    amount: u128,
) -> bool {
    match result {
        Ok(plan) => {
            &&& picks.total >= amount
            &&& places(plan.picked@) == picks.picked
            &&& cell_views(plan.outputs@) == transfer_outputs(
                type_,
                sender_lock,
                recipient_lock,
                amount,
                picks.total,
            )
            &&& plan.cell_dep == CellDep { out_point: code_cell_outpoint, dep_type: DepType::Code }
        },
        Err(e) => {
            &&& picks.total < amount
            &&& e.have == picks.total
            &&& e.need == amount
        },
    }
}

/// Plans the transfer of tokens of one type from a sender, whose cells are
/// listed, to a recipient.
pub fn transfer_tokens(
    cells: &[LiveCell],
    sudt_type_script: &Script,
    code_cell_outpoint: &OutPoint,
    sender_lock: &Script,
    recipient_lock: &Script,
    transfer_amount: u128,
) -> (result: Result<TransferPlan, InsufficientBalance>)
    requires
        scan(live_views(cells@), sudt_type_script@.hash(), transfer_amount as nat) is Some,
    ensures
        transfer_follows(
            result,
            scan(live_views(cells@), sudt_type_script@.hash(), transfer_amount as nat)->0,
            sudt_type_script@,
            *code_cell_outpoint,
            sender_lock@,
            recipient_lock@,
            transfer_amount,
        ),
{
    match pick_cells(cells, sudt_type_script, transfer_amount) {
        None => unreached(),
        Some((picked, total)) => {
            if total < transfer_amount {
                return Err(InsufficientBalance { have: total, need: transfer_amount });
            }
            Ok(
                TransferPlan {
                    picked,
                    outputs: make_outputs(
                        sudt_type_script,
                        sender_lock,
                        recipient_lock,
                        transfer_amount,
                        total,
                    ),
                    cell_dep: CellDep { out_point: *code_cell_outpoint, dep_type: DepType::Code },
                },
            )
        },
    }
}

/// The script id under which the code that a transfer needs is found: the hash
/// of its data.
pub fn transfer_script_id(code_hash: &[u8; 32]) -> (id: ScriptId)
    ensures
        id == (ScriptId { code_hash: *code_hash, hash_type: HashType::Data }),
{
    ScriptId { code_hash: *code_hash, hash_type: HashType::Data }
}

/// Plans a transfer where the cells to pick can be read; nothing where a picked
/// cell holds no amount, or the amounts add up to more than 128 bits.
pub fn try_transfer_tokens(
    cells: &[LiveCell],
    sudt_type_script: &Script,
    code_cell_outpoint: &OutPoint,
    sender_lock: &Script,
    recipient_lock: &Script,
    transfer_amount: u128,
) -> (result: Option<Result<TransferPlan, InsufficientBalance>>)
    ensures
        match result {
            None => scan(live_views(cells@), sudt_type_script@.hash(), transfer_amount as nat)
                is None,
            Some(result) => {
                let picks = scan(
                    live_views(cells@),
                    sudt_type_script@.hash(),
                    transfer_amount as nat,
                );
                &&& picks is Some
                &&& transfer_follows(
                    result,
                    picks->0,
                    sudt_type_script@,
                    *code_cell_outpoint,
                    sender_lock@,
                    recipient_lock@,
                    transfer_amount,
                )
            },
        },
{
    if pick_cells(cells, sudt_type_script, transfer_amount).is_none() {
        return None;
    }
    Some(
        transfer_tokens(
            cells,
            sudt_type_script,
            code_cell_outpoint,
            sender_lock,
            recipient_lock,
            transfer_amount,
        ),
    )
}

/// The data of the cells that were picked.
pub open spec fn picked_data(cells: Seq<LiveCellView>, picked: Seq<int>) -> Seq<Seq<u8>> {
    Seq::new(picked.len(), |i: int| cells[picked[i]].data->0)
}

/// What a scan picks: cells of the right type, in the order of the list, each of
/// which can be read, with the total as the sum of their tokens.
pub proof fn scan_picks_tokens(cells: Seq<LiveCellView>, type_hash: Seq<u8>, amount: nat)
    requires
        scan(cells, type_hash, amount) is Some,
    ensures
        ({
            let picks = scan(cells, type_hash, amount)->0;
            &&& forall|i: int|
                0 <= i < picks.picked.len() ==> {
                    &&& 0 <= #[trigger] picks.picked[i] < cells.len()
                    &&& has_type(cells[picks.picked[i]], type_hash)
                    &&& live_amount(cells[picks.picked[i]]) is Some
                }
            &&& forall|i: int, j: int|
                0 <= i < j < picks.picked.len() ==> picks.picked[i] < picks.picked[j]
            &&& all_readable(picked_data(cells, picks.picked))
            &&& picks.total == plain_sum(picked_data(cells, picks.picked))
            &&& picks.total <= u128::MAX
        }),
    decreases cells.len(),
{
    if cells.len() > 0 {
        let front = cells.drop_last();
        scan_picks_tokens(front, type_hash, amount);
        let before = scan(front, type_hash, amount)->0;
        let picks = scan(cells, type_hash, amount)->0;
        assert(picked_data(cells, before.picked) =~= picked_data(front, before.picked));
        if picks.picked.len() != before.picked.len() {
            assert(picked_data(cells, picks.picked).drop_last() =~= picked_data(
                front,
                before.picked,
            ));
            assert(picked_data(cells, picks.picked).last() == cells.last().data->0);
            let all = picked_data(cells, picks.picked);
            assert forall|i: int| 0 <= i < all.len() implies amount_of(#[trigger] all[i]) is Some by {
                if i < before.picked.len() {
                    assert(all[i] == picked_data(front, before.picked)[i]);
                }
            }
        }
    }
}

/// A scan passes over no cell of the right type until it covers the amount, and
/// picks no cell more than it needs: without the last one, what it picked does
/// not cover the amount.
pub proof fn scan_is_shortest(cells: Seq<LiveCellView>, type_hash: Seq<u8>, amount: nat)
    requires
        scan(cells, type_hash, amount) is Some,
    ensures
        ({
            let picks = scan(cells, type_hash, amount)->0;
            &&& forall|j: int|
                0 <= j < cells.len() && has_type(#[trigger] cells[j], type_hash) && (!picks.covers(
                    amount,
                ) || j < picks.picked.last()) ==> picks.picked.contains(j)
            &&& picks.picked.len() > 1 ==> plain_sum(
                picked_data(cells, picks.picked.drop_last()),
            ) < amount
        }),
    decreases cells.len(),
{
    if cells.len() > 0 {
        let front = cells.drop_last();
        scan_is_shortest(front, type_hash, amount);
        scan_picks_tokens(front, type_hash, amount);
        scan_picks_tokens(cells, type_hash, amount);
        let before = scan(front, type_hash, amount)->0;
        let picks = scan(cells, type_hash, amount)->0;
        if before.covers(amount) || !has_type(cells.last(), type_hash) {
            assert forall|j: int|
                0 <= j < cells.len() && has_type(#[trigger] cells[j], type_hash) && (!picks.covers(
                    amount,
                ) || j < picks.picked.last()) implies picks.picked.contains(j) by {
                assert(j < front.len());
                assert(front[j] == cells[j]);
            }
            if picks.picked.len() > 1 {
                assert(picked_data(cells, picks.picked.drop_last()) =~= picked_data(
                    front,
                    before.picked.drop_last(),
                ));
            }
        } else {
            assert(picks.picked.drop_last() =~= before.picked);
            assert(picked_data(cells, before.picked) =~= picked_data(front, before.picked));
            assert forall|j: int|
                0 <= j < cells.len() && has_type(#[trigger] cells[j], type_hash) && (!picks.covers(
                    amount,
                ) || j < picks.picked.last()) implies picks.picked.contains(j) by {
                if j < front.len() {
                    assert(front[j] == cells[j]);
                    let k = before.picked.index_of(j);
                    assert(before.picked.contains(j));
                    assert(picks.picked[k] == j);
                } else {
                    assert(picks.picked[picks.picked.len() - 1] == j);
                }
            }
        }
    }
}

/// The data of each cell in a list.
pub open spec fn cell_data(cells: Seq<CellView>) -> Seq<Seq<u8>> {
    Seq::new(cells.len(), |i: int| cells[i].data)
}

/// A transfer creates as many tokens as it was given.
pub proof fn transfer_conserves(
    type_: ScriptView,
    sender_lock: ScriptView,
    recipient_lock: ScriptView,
    amount: u128,
    total: nat,
)
    requires
        amount <= total <= u128::MAX,
    ensures
        ({
            let data = cell_data(
                transfer_outputs(type_, sender_lock, recipient_lock, amount, total),
            );
            &&& all_readable(data)
            &&& plain_sum(data) == total
        }),
{
    let outputs = transfer_outputs(type_, sender_lock, recipient_lock, amount, total);
    let data = cell_data(outputs);
    let none = Seq::<u8>::empty();
    amount_reads_back(amount, none);
    assert(outputs[0].data + none =~= outputs[0].data);
    assert(amount_of(data[0]) == Some(amount as nat));
    assert(plain_sum(data.take(0)) == 0);
    assert(data.take(1).drop_last() =~= data.take(0));
    assert(plain_sum(data.take(1)) == amount);
    if total > amount {
        amount_reads_back((total - amount) as u128, none);
        assert(outputs[1].data + none =~= outputs[1].data);
        assert(amount_of(data[1]) == Some((total - amount) as nat));
        assert(data.drop_last() =~= data.take(1));
    } else {
        assert(data.take(1) =~= data);
    }
}

/// The token script accepts a planned transfer that spends the cells picked,
/// whoever else takes part.
pub proof fn transfers_are_accepted(
    cells: Seq<LiveCellView>,
    type_: ScriptView,
    sender_lock: ScriptView,
    recipient_lock: ScriptView,
    amount: u128,
    type_hashes: Seq<Option<[u8; 32]>>,
)
    requires
        type_.args.len() == 32,
        scan(cells, type_.hash(), amount as nat) matches Some(picks) && picks.total >= amount,
    ensures
        ({
            let picks = scan(cells, type_.hash(), amount as nat)->0;
            verdict(
                Ok(type_.args),
                type_hashes,
                picked_data(cells, picks.picked),
                cell_data(
                    transfer_outputs(type_, sender_lock, recipient_lock, amount, picks.total),
                ),
            ) is Ok
        }),
{
    let picks = scan(cells, type_.hash(), amount as nat)->0;
    scan_picks_tokens(cells, type_.hash(), amount as nat);
    transfer_conserves(type_, sender_lock, recipient_lock, amount, picks.total);
    transfers_and_burns_pass(
        type_.args,
        type_hashes,
        picked_data(cells, picks.picked),
        cell_data(transfer_outputs(type_, sender_lock, recipient_lock, amount, picks.total)),
    );
}

/// The tokens in the cells under one lock.
pub open spec fn tokens_under(cells: Seq<CellView>, lock: ScriptView) -> nat
    decreases cells.len(),
{
    if cells.len() == 0 {
        0
    } else {
        tokens_under(cells.drop_last(), lock) + if cells.last().lock == lock {
            amount_or_zero(cells.last().data)
        } else {
            0
        }
    }
}

/// Who gets what in a transfer: the first cell is the recipient's and holds the
/// amount; where anything is left, a second one is the sender's and holds the rest.
/// Each has the type of the token, 142 CKB, and sixteen bytes of data.
pub proof fn transfer_cells(
    type_: ScriptView,
    sender_lock: ScriptView,
    recipient_lock: ScriptView,
    amount: u128,
    total: nat,
)
    requires
        amount <= total <= u128::MAX,
    ensures
        ({
            let cells = transfer_outputs(type_, sender_lock, recipient_lock, amount, total);
            &&& cells.len() == if total > amount {
                2int
            } else {
                1
            }
            &&& cells[0].lock == recipient_lock
            &&& amount_of(cells[0].data) == Some(amount as nat)
            &&& total > amount ==> cells[1].lock == sender_lock
            &&& total > amount ==> amount_of(cells[1].data) == Some((total - amount) as nat)
            &&& forall|i: int|
                0 <= i < cells.len() ==> {
                    &&& (#[trigger] cells[i]).capacity == 14_200_000_000
                    &&& cells[i].type_ == Some(type_)
                    &&& cells[i].data.len() == 16
                }
        }),
{
    let cells = transfer_outputs(type_, sender_lock, recipient_lock, amount, total);
    token_cells_hold_their_amount(recipient_lock, type_, amount);
    if total > amount {
        token_cells_hold_their_amount(sender_lock, type_, (total - amount) as u128);
    }
}

/// A transfer gives each their share: what the cells under the recipient's lock hold
/// is the amount, and what those under the sender's lock hold is the rest.
pub proof fn transfer_shares(
    type_: ScriptView,
    sender_lock: ScriptView,
    recipient_lock: ScriptView,
    amount: u128,
    total: nat,
)
    requires
        amount <= total <= u128::MAX,
        sender_lock != recipient_lock,
    ensures
        ({
            let cells = transfer_outputs(type_, sender_lock, recipient_lock, amount, total);
            &&& tokens_under(cells, recipient_lock) == amount
            &&& tokens_under(cells, sender_lock) == total - amount
        }),
{
    let cells = transfer_outputs(type_, sender_lock, recipient_lock, amount, total);
    transfer_cells(type_, sender_lock, recipient_lock, amount, total);
    assert(cells.take(0) =~= Seq::empty());
    assert(cells.take(1).drop_last() =~= cells.take(0));
    assert(cells.take(1).last() == cells[0]);
    assert(tokens_under(cells.take(0), recipient_lock) == 0);
    assert(tokens_under(cells.take(0), sender_lock) == 0);
    assert(tokens_under(cells.take(1), recipient_lock) == amount);
    assert(tokens_under(cells.take(1), sender_lock) == 0);
    if total > amount {
        assert(cells.drop_last() =~= cells.take(1));
    } else {
        assert(cells =~= cells.take(1));
    }
}

/// The tokens under a lock: one more cell adds its tokens if the lock is its own, and
/// nothing if it is another's.
pub proof fn tokens_under_grow(cells: Seq<CellView>, cell: CellView, lock: ScriptView)
    ensures
        tokens_under(Seq::empty(), lock) == 0,
        cell.lock != lock ==> tokens_under(cells.push(cell), lock) == tokens_under(cells, lock),
        cell.lock == lock ==> (amount_of(cell.data) matches Some(amount) ==> tokens_under(
            cells.push(cell),
            lock,
        ) == tokens_under(cells, lock) + amount),
{
    assert(cells.push(cell).drop_last() =~= cells);
}

/// A token cell: 142 CKB, its lock, its type, and its amount in sixteen bytes of data,
/// lowest byte first.
pub proof fn token_cells_hold_their_amount(lock: ScriptView, type_: ScriptView, amount: u128)
    ensures
        ({
            let cell = token_cell(lock, type_, amount);
            &&& cell.capacity == 14_200_000_000
            &&& cell.lock == lock
            &&& cell.type_ == Some(type_)
            &&& cell.data.len() == 16
            &&& amount_of(cell.data) == Some(amount as nat)
        }),
{
    let data = le_bytes(amount as nat, AMOUNT_LEN as nat);
    amount_reads_back(amount, Seq::empty());
    assert(data + Seq::<u8>::empty() =~= data);
    lemma_le_bytes_len(amount as nat, AMOUNT_LEN as nat);
}

/// The type of an issuer's tokens is the sUDT code, found by its data, with the hash of
/// the issuer's serialized lock as args.
pub proof fn tokens_are_the_issuers(code_hash: Seq<u8>, issuer_lock: ScriptView)
    ensures
        ({
            let type_ = token_script(code_hash, issuer_lock);
            &&& type_.code_hash == code_hash
            &&& type_.hash_type == HashType::Data1
            &&& type_.args == blake2b_digest(
                script_molecule(
                    issuer_lock.code_hash,
                    issuer_lock.hash_type.byte(),
                    issuer_lock.args,
                ),
            )
        }),
{
}

/// A code cell pays one CKB for each byte of its data, and 100 CKB beside.
pub proof fn each_byte_costs_one_ckb(size: nat)
    ensures
        code_cell_capacity(size) == size * 100_000_000 + 10_000_000_000,
{
}

/// How one more cell at the end of the list changes what a scan picks. Nothing changes
/// once the cells picked cover the amount, or where the cell has another type. Else the
/// cell is picked, if its data has sixteen bytes for an amount and the total stays below
/// 128 bits; if not, there is no outcome.
pub proof fn scan_takes_the_next_token(
    cells: Seq<LiveCellView>,
    cell: LiveCellView,
    type_hash: Seq<u8>,
    amount: nat,
)
    ensures
        scan(Seq::empty(), type_hash, amount) matches Some(none) && none.picked.len() == 0
            && none.total == 0,
        scan(cells, type_hash, amount) is None ==> scan(cells.push(cell), type_hash, amount) is None,
        scan(cells, type_hash, amount) matches Some(before) ==> ({
            let after = scan(cells.push(cell), type_hash, amount);
            let of_type = cell.type_ matches Some(script) && blake2b_digest(
                script_molecule(script.code_hash, script.hash_type.byte(), script.args),
            ) == type_hash;
            let done = before.picked.len() > 0 && before.total >= amount;
            &&& done || !of_type ==> after == Some(before)
            &&& !done && of_type && cell.data is None ==> after is None
            &&& !done && of_type ==> (cell.data matches Some(data) ==> {
                &&& data.len() < 16 ==> after is None
                &&& data.len() >= 16 && before.total + amount_of(data)->0 > u128::MAX ==> after is None
                &&& data.len() >= 16 && before.total + amount_of(data)->0 <= u128::MAX ==> (
                after matches Some(picks) && picks.total == before.total + amount_of(data)->0
                    && picks.picked == before.picked.push(cells.len() as int))
            })
        }),
{
    assert(cells.push(cell).drop_last() =~= cells);
    assert(cells.push(cell).last() == cell);
}

/// What a plan for a transfer, or a refusal, means: it is refused if and only if the
/// cells picked hold less than the amount, with both numbers; else the plan spends
/// those cells, gives the recipient the amount and the sender the rest, and depends on
/// the code cell.
pub proof fn plans_follow_the_picks(
    result: Result<TransferPlan, InsufficientBalance>,
    picks: ScanView,
    type_: ScriptView,
    code_cell_outpoint: OutPoint,
    sender_lock: ScriptView,
    recipient_lock: ScriptView,
    amount: u128,
)
    requires
        picks.total <= u128::MAX,
        transfer_follows(
            result,
            picks,
            type_,
            code_cell_outpoint,
            sender_lock,
            recipient_lock,
            amount,
        ),
    ensures
        result is Ok <==> picks.total >= amount,
        result matches Err(e) ==> e.have == picks.total && e.need == amount,
        result matches Ok(plan) ==> {
            &&& plan.picked@.len() == picks.picked.len()
            &&& forall|i: int|
                0 <= i < plan.picked@.len() ==> #[trigger] plan.picked@[i] == picks.picked[i]
            &&& plan.outputs@.len() == if picks.total > amount {
                2int
            } else {
                1
            }
            &&& plan.outputs@[0].lock@ == recipient_lock
            &&& amount_of(plan.outputs@[0].data@) == Some(amount as nat)
            &&& picks.total > amount ==> plan.outputs@[1].lock@ == sender_lock && amount_of(
                plan.outputs@[1].data@,
            ) == Some((picks.total - amount) as nat)
            &&& plan.cell_dep.out_point == code_cell_outpoint
            &&& plan.cell_dep.dep_type == DepType::Code
        },
{
    if let Ok(plan) = result {
        transfer_cells(type_, sender_lock, recipient_lock, amount, picks.total);
        let views = cell_views(plan.outputs@);
        assert(views.len() == plan.outputs@.len());
        assert(views[0] == plan.outputs@[0]@);
        if picks.total > amount {
            assert(views[1] == plan.outputs@[1]@);
        }
        assert forall|i: int| 0 <= i < plan.picked@.len() implies #[trigger] plan.picked@[i]
            == picks.picked[i] by {
            assert(places(plan.picked@)[i] == plan.picked@[i] as int);
        }
    }
}

/// The contents of a listed cell are its type script and its data, in the place that it
/// has in the list.
pub proof fn live_views_keep_places(cells: Seq<LiveCell>, i: int)
    requires
        0 <= i < cells.len(),
    ensures
        live_views(cells).len() == cells.len(),
        live_views(cells)[i].type_ is Some <==> cells[i].type_ is Some,
        cells[i].type_ matches Some(script) ==> live_views(cells)[i].type_ == Some(script@),
        live_views(cells)[i].data is Some <==> cells[i].data is Some,
        cells[i].data matches Some(data) ==> live_views(cells)[i].data == Some(data@),
{
}

/// The data of the picked cells, in the order in which they were picked, and the data of
/// new cells in theirs.
pub proof fn data_keeps_places(
    cells: Seq<LiveCellView>,
    picked: Seq<int>,
    outputs: Seq<CellView>,
    i: int,
)
    ensures
        picked_data(cells, picked).len() == picked.len(),
        0 <= i < picked.len() ==> (cells[picked[i]].data matches Some(data) ==> picked_data(
            cells,
            picked,
        )[i] == data),
        cell_data(outputs).len() == outputs.len(),
        0 <= i < outputs.len() ==> cell_data(outputs)[i] == outputs[i].data,
{
}

} // verus!
