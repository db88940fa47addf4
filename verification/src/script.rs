//! Scripts, cells and the other parts of a transaction that the deployer plans.
use ckb_types::prelude::{Builder, Entity, Pack, Unpack};
use vstd::prelude::*;

use crate::bytes::copy_range;
use crate::endian::{four_bytes_hold, le_bytes};
use crate::hash::blake2b_digest;

verus! {

/// How a script's code hash finds its code.
#[derive(Debug, Clone, Copy, PartialEq, Eq, Structural)]
pub enum HashType {
    /// By the hash of the cell data, in version 0 of the virtual machine.
    Data,
    /// By the hash of the cell's type script.
    Type,
    /// By the hash of the cell data, in version 1 of the virtual machine.
    Data1,
    /// By the hash of the cell data, in version 2 of the virtual machine.
    Data2,
}

impl HashType {
    /// The byte that stands for the hash type in a serialized script.
    pub open spec fn byte(self) -> u8 {
        match self {
            HashType::Data => 0,
            HashType::Type => 1,
            HashType::Data1 => 2,
            HashType::Data2 => 4,
        }
    }

    /// The byte that stands for the hash type in a serialized script.
    pub fn to_byte(self) -> (byte: u8)
        ensures
            byte == self.byte(),
    {
        match self {
            HashType::Data => 0,
            HashType::Type => 1,
            HashType::Data1 => 2,
            HashType::Data2 => 4,
        }
    }
}

/// A lock script or a type script.
#[derive(Debug, PartialEq, Eq)]
pub struct Script {
    pub code_hash: [u8; 32],
    pub hash_type: HashType,
    pub args: Vec<u8>,
}

/// A script by its contents.
pub struct ScriptView {
    pub code_hash: Seq<u8>,
    pub hash_type: HashType,
    pub args: Seq<u8>,
}

impl View for Script {
    type V = ScriptView;

    open spec fn view(&self) -> ScriptView {
        ScriptView { code_hash: self.code_hash@, hash_type: self.hash_type, args: self.args@ }
    }
}

/// A script as a molecule table: the total size and the offsets of the three
/// fields, each a 4-byte little-endian number, then the code hash, the byte of
/// the hash type, and the args with their length in front.
pub open spec fn script_molecule(code_hash: Seq<u8>, hash_type: u8, args: Seq<u8>) -> Seq<u8> {
    le_bytes(53 + args.len(), 4) + le_bytes(16, 4) + le_bytes(48, 4) + le_bytes(49, 4) + code_hash
        + seq![hash_type] + le_bytes(args.len(), 4) + args
}

/// Witness args with only a lock field, as a molecule table: the total size and
/// the offsets of the three fields, then the lock with its length in front.
pub open spec fn witness_args_molecule(lock: Seq<u8>) -> Seq<u8> {
    le_bytes(20 + lock.len(), 4) + le_bytes(16, 4) + le_bytes(20 + lock.len(), 4) + le_bytes(
        20 + lock.len(),
        4,
    ) + le_bytes(lock.len(), 4) + lock
}

impl ScriptView {
    /// The serialized script.
    pub open spec fn molecule(self) -> Seq<u8> {
        script_molecule(self.code_hash, self.hash_type.byte(), self.args)
    }

    /// The script hash.
    pub open spec fn hash(self) -> Seq<u8> {
        blake2b_digest(self.molecule())
    }
}

/// `ckb_types::packed::Script`, built and serialized: the molecule table of its
/// three fields.
#[verifier::external_body]
fn serialize_script(code_hash: &[u8; 32], hash_type: u8, args: &[u8]) -> (data: Vec<u8>)
    ensures
        data@ == script_molecule(code_hash@, hash_type, args@),
{
    let script = ckb_types::packed::Script::new_builder()
        .code_hash(code_hash.pack())
        .hash_type(hash_type.into())
        .args(args.pack())
        .build();
    script.as_slice().to_vec()
}

/// `ckb_types::packed::Script::calc_script_hash`: the blake2b digest of the
/// serialized script.
#[verifier::external_body]
fn hash_script(code_hash: &[u8; 32], hash_type: u8, args: &[u8]) -> (hash: [u8; 32])
    ensures
        hash@ == blake2b_digest(script_molecule(code_hash@, hash_type, args@)),
{
    let script = ckb_types::packed::Script::new_builder()
        .code_hash(code_hash.pack())
        .hash_type(hash_type.into())
        .args(args.pack())
        .build();
    script.calc_script_hash().unpack()
}

/// `ckb_types::packed::WitnessArgs`, built with a lock field alone and
/// serialized: the molecule table of its three fields.
#[verifier::external_body]
pub(crate) fn serialize_witness_args(lock: &[u8]) -> (data: Vec<u8>)
    ensures
        data@ == witness_args_molecule(lock@),
{
    let args = ckb_types::packed::WitnessArgs::new_builder()
        .lock(Some(ckb_types::bytes::Bytes::from(lock.to_vec())).pack())
        .build();
    args.as_slice().to_vec()
}

impl Script {
    /// The serialized script.
    pub fn as_bytes(&self) -> (data: Vec<u8>)
        ensures
            data@ == self@.molecule(),
    {
        serialize_script(&self.code_hash, self.hash_type.to_byte(), self.args.as_slice())
    }

    /// The script hash.
    pub fn calc_script_hash(&self) -> (hash: [u8; 32])
        ensures
            hash@ == self@.hash(),
    {
        hash_script(&self.code_hash, self.hash_type.to_byte(), self.args.as_slice())
    }

    /// Another script with the same contents.
    pub fn copy(&self) -> (script: Script)
        ensures
            script@ == self@,
    {
        let args: Vec<u8> = copy_range(self.args.as_slice(), 0, self.args.len());
        assert(args@ =~= self.args@);
        Script { code_hash: self.code_hash, hash_type: self.hash_type, args }
    }
}

/// The byte of each hash type in a serialized script.
pub proof fn hash_types_have_fixed_bytes()
    ensures
        HashType::Data.byte() == 0,
        HashType::Type.byte() == 1,
        HashType::Data1.byte() == 2,
        HashType::Data2.byte() == 4,
{
}

/// The layout of a serialized script: its size, the offsets 16, 48 and 49 of its fields,
/// the code hash, the byte of the hash type, the number of args bytes, and the args. Each
/// number takes four bytes, lowest first, and keeps its low 32 bits.
pub proof fn script_layout(code_hash: Seq<u8>, hash_type: u8, args: Seq<u8>)
    requires
        code_hash.len() == 32,
    ensures
        ({
            let m = script_molecule(code_hash, hash_type, args);
            &&& m.len() == 53 + args.len()
            &&& m[0] + 0x100 * m[1] + 0x1_0000 * m[2] + 0x100_0000 * m[3] == (53 + args.len())
                % 0x1_0000_0000
            &&& m[4] + 0x100 * m[5] + 0x1_0000 * m[6] + 0x100_0000 * m[7] == 16
            &&& m[8] + 0x100 * m[9] + 0x1_0000 * m[10] + 0x100_0000 * m[11] == 48
            &&& m[12] + 0x100 * m[13] + 0x1_0000 * m[14] + 0x100_0000 * m[15] == 49
            &&& m.subrange(16, 48) == code_hash
            &&& m[48] == hash_type
            &&& m[49] + 0x100 * m[50] + 0x1_0000 * m[51] + 0x100_0000 * m[52] == args.len()
                % 0x1_0000_0000
            &&& m.skip(53) == args
        }),
{
    four_bytes_hold(53 + args.len());
    four_bytes_hold(16);
    four_bytes_hold(48);
    four_bytes_hold(49);
    four_bytes_hold(args.len());
    let m = script_molecule(code_hash, hash_type, args);
    assert(m.subrange(0, 4) =~= le_bytes(53 + args.len(), 4));
    assert(m.subrange(4, 8) =~= le_bytes(16, 4));
    assert(m.subrange(8, 12) =~= le_bytes(48, 4));
    assert(m.subrange(12, 16) =~= le_bytes(49, 4));
    assert(m.subrange(49, 53) =~= le_bytes(args.len(), 4));
    assert(forall|j: int| 0 <= j < 4 ==> m.subrange(0, 4)[j] == m[j]);
    assert(forall|j: int| 0 <= j < 4 ==> m.subrange(4, 8)[j] == m[4 + j]);
    assert(forall|j: int| 0 <= j < 4 ==> m.subrange(8, 12)[j] == m[8 + j]);
    assert(forall|j: int| 0 <= j < 4 ==> m.subrange(12, 16)[j] == m[12 + j]);
    assert(forall|j: int| 0 <= j < 4 ==> m.subrange(49, 53)[j] == m[49 + j]);
    assert(m.subrange(16, 48) =~= code_hash);
    assert(m.skip(53) =~= args);
}

/// The layout of witness args with a lock field: their size, the offset 16 of the lock,
/// the end twice, for the fields that are not there, and the lock with its length in
/// front. Each number takes four bytes, lowest first, and keeps its low 32 bits.
pub proof fn witness_args_layout(lock: Seq<u8>)
    ensures
        ({
            let m = witness_args_molecule(lock);
            let end = (20 + lock.len()) % 0x1_0000_0000;
            &&& m.len() == 20 + lock.len()
            &&& m[0] + 0x100 * m[1] + 0x1_0000 * m[2] + 0x100_0000 * m[3] == end
            &&& m[4] + 0x100 * m[5] + 0x1_0000 * m[6] + 0x100_0000 * m[7] == 16
            &&& m[8] + 0x100 * m[9] + 0x1_0000 * m[10] + 0x100_0000 * m[11] == end
            &&& m[12] + 0x100 * m[13] + 0x1_0000 * m[14] + 0x100_0000 * m[15] == end
            &&& m[16] + 0x100 * m[17] + 0x1_0000 * m[18] + 0x100_0000 * m[19] == lock.len()
                % 0x1_0000_0000
            &&& m.skip(20) == lock
        }),
{
    four_bytes_hold(20 + lock.len());
    four_bytes_hold(16);
    four_bytes_hold(lock.len());
    let m = witness_args_molecule(lock);
    let end = le_bytes(20 + lock.len(), 4);
    assert(m.subrange(0, 4) =~= end);
    assert(m.subrange(4, 8) =~= le_bytes(16, 4));
    assert(m.subrange(8, 12) =~= end);
    assert(m.subrange(12, 16) =~= end);
    assert(m.subrange(16, 20) =~= le_bytes(lock.len(), 4));
    assert(forall|j: int| 0 <= j < 4 ==> m.subrange(0, 4)[j] == m[j]);
    assert(forall|j: int| 0 <= j < 4 ==> m.subrange(4, 8)[j] == m[4 + j]);
    assert(forall|j: int| 0 <= j < 4 ==> m.subrange(8, 12)[j] == m[8 + j]);
    assert(forall|j: int| 0 <= j < 4 ==> m.subrange(12, 16)[j] == m[12 + j]);
    assert(forall|j: int| 0 <= j < 4 ==> m.subrange(16, 20)[j] == m[16 + j]);
    assert(m.skip(20) =~= lock);
}

/// A script is serialized with all its fields, and its hash is the blake2b hash of that.
pub proof fn script_hashes_cover_the_script(script: ScriptView)
    ensures
        script.molecule() == script_molecule(
            script.code_hash,
            script.hash_type.byte(),
            script.args,
        ),
        script.hash() == blake2b_digest(
            script_molecule(script.code_hash, script.hash_type.byte(), script.args),
        ),
{
}

/// The contents of a script are its fields.
pub proof fn script_views_are_fields(script: Script)
    ensures
        script@.code_hash == script.code_hash@,
        script@.hash_type == script.hash_type,
        script@.args == script.args@,
{
}

} // verus!
