//! The wire format of lock witnesses: fields in order, with no framing around
//! them. A number or an array has its own length; a byte string has a 4-byte
//! little-endian length in front.
use vstd::prelude::*;

use crate::bytes::push_bytes;
use crate::endian::{
    eight_bytes_spell, four_bytes_hold, le_bytes, lemma_le_bytes_len, lemma_le_value_of_bytes, lemma_pow256_values, le_value, push_le,
};

verus! {

/// The number of bytes in the length prefix of a byte string.
pub const PREFIX_LEN: usize = 4;

/// A byte string on the wire: its length, then its bytes. The prefix holds the
/// low 32 bits of the length.
pub open spec fn bytes_field(data: Seq<u8>) -> Seq<u8> {
    le_bytes(data.len(), PREFIX_LEN as nat) + data
}

/// A timelock-lock witness on the wire.
pub open spec fn timelock_witness(
    signature: Seq<u8>,
    unlock_after_ms: u64,
    extra: Seq<u8>,
) -> Seq<u8> {
    signature + le_bytes(unlock_after_ms as nat, 8) + bytes_field(extra)
}

/// Encodes a byte string: a 4-byte little-endian length, then the bytes.
pub fn encode_bytes_field(data: &[u8]) -> (wire: Vec<u8>)
    ensures
        wire@ == bytes_field(data@),
        wire@.len() == 4 + data@.len(),
        wire@[0] + 0x100 * wire@[1] + 0x1_0000 * wire@[2] + 0x100_0000 * wire@[3] == data@.len()
            % 0x1_0000_0000,
        wire@.skip(4) == data@,
{
    let mut wire: Vec<u8> = Vec::new();
    push_le(&mut wire, data.len() as u128, PREFIX_LEN);
    push_bytes(&mut wire, data);
    assert(wire@ =~= bytes_field(data@));
    proof {
        byte_string_layout(data@);
    }
    wire
}

/// Encodes a timelock-lock witness: the signature, the unlock time as 8
/// little-endian bytes, and the extra payload as a byte string.
pub fn encode_timelock_witness(
    signature: &[u8; 65],
    unlock_after_ms: u64,
    extra: &[u8],
) -> (wire: Vec<u8>)
    ensures
        wire@ == timelock_witness(signature@, unlock_after_ms, extra@),
{
    let mut wire: Vec<u8> = Vec::new();
    push_bytes(&mut wire, signature.as_slice());
    push_le(&mut wire, unlock_after_ms as u128, 8);
    let field: Vec<u8> = encode_bytes_field(extra);
    push_bytes(&mut wire, field.as_slice());
    assert(wire@ =~= timelock_witness(signature@, unlock_after_ms, extra@));
    wire
}

/// Where the fields of a timelock-lock witness stand: the signature in the first
/// 65 bytes, the unlock time in the next 8, the extra payload behind them.
pub proof fn timelock_witness_layout(signature: Seq<u8>, unlock_after_ms: u64, extra: Seq<u8>)
    requires
        signature.len() == 65,
    ensures
        ({
            let wire = timelock_witness(signature, unlock_after_ms, extra);
            &&& wire.len() == 77 + extra.len()
            &&& wire.take(65) == signature
            &&& le_value(wire.subrange(65, 73)) == unlock_after_ms
            &&& wire.skip(73) == bytes_field(extra)
            &&& wire.skip(77) == extra
        }),
{
    let wire = timelock_witness(signature, unlock_after_ms, extra);
    let time = le_bytes(unlock_after_ms as nat, 8);
    lemma_le_bytes_len(unlock_after_ms as nat, 8);
    lemma_le_bytes_len(extra.len(), PREFIX_LEN as nat);
    lemma_pow256_values();
    lemma_le_value_of_bytes(unlock_after_ms as nat, 8);
    assert(wire.take(65) =~= signature);
    assert(wire.subrange(65, 73) =~= time);
    assert(wire.skip(73) =~= bytes_field(extra));
    assert(wire.skip(77) =~= extra);
}

/// A timelock-lock witness on the wire tells its three fields.
pub proof fn timelock_witness_is_unique(
    signature: Seq<u8>,
    unlock_after_ms: u64,
    extra: Seq<u8>,
    other_signature: Seq<u8>,
    other_unlock_after_ms: u64,
    other_extra: Seq<u8>,
)
    requires
        signature.len() == 65,
        other_signature.len() == 65,
        timelock_witness(signature, unlock_after_ms, extra) == timelock_witness(
            other_signature,
            other_unlock_after_ms,
            other_extra,
        ),
    ensures
        signature == other_signature,
        unlock_after_ms == other_unlock_after_ms,
        extra == other_extra,
{
    timelock_witness_layout(signature, unlock_after_ms, extra);
    timelock_witness_layout(other_signature, other_unlock_after_ms, other_extra);
}

/// Replacing the signature in a timelock-lock witness changes its first 65 bytes
/// and no others: a witness that is valid but for its signature keeps its shape.
pub proof fn signing_keeps_the_rest(
    signature: Seq<u8>,
    blank: Seq<u8>,
    unlock_after_ms: u64,
    extra: Seq<u8>,
)
    requires
        signature.len() == 65,
        blank.len() == 65,
    ensures
        timelock_witness(signature, unlock_after_ms, extra) == signature + timelock_witness(
            blank,
            unlock_after_ms,
            extra,
        ).skip(65),
{
    let rest = le_bytes(unlock_after_ms as nat, 8) + bytes_field(extra);
    assert(timelock_witness(blank, unlock_after_ms, extra).skip(65) =~= rest);
    assert(timelock_witness(signature, unlock_after_ms, extra) =~= signature + rest);
}

/// A byte string on the wire: the first four bytes spell its length, lowest byte
/// first and up to 32 bits, and its own bytes follow.
pub proof fn byte_string_layout(data: Seq<u8>)
    ensures
        ({
            let wire = bytes_field(data);
            &&& wire.len() == 4 + data.len()
            &&& wire[0] + 0x100 * wire[1] + 0x1_0000 * wire[2] + 0x100_0000 * wire[3] == data.len()
                % 0x1_0000_0000
            &&& forall|i: int| 0 <= i < data.len() ==> #[trigger] wire[4 + i] == data[i]
            &&& wire.skip(4) == data
        }),
{
    four_bytes_hold(data.len());
    let wire = bytes_field(data);
    let prefix = le_bytes(data.len(), 4);
    assert(wire[0] == prefix[0] && wire[1] == prefix[1] && wire[2] == prefix[2] && wire[3]
        == prefix[3]);
    assert(wire.skip(4) =~= data);
}

/// The bytes of a timelock-lock witness: the signature, the unlock time in eight
/// bytes, the length of the payload in four, lowest byte first, and the payload.
pub proof fn timelock_witness_bytes(signature: Seq<u8>, unlock_after_ms: u64, extra: Seq<u8>)
    requires
        signature.len() == 65,
    ensures
        ({
            let wire = timelock_witness(signature, unlock_after_ms, extra);
            &&& wire.len() == 77 + extra.len()
            &&& forall|i: int| 0 <= i < 65 ==> #[trigger] wire[i] == signature[i]
            &&& wire[65] + 0x100 * wire[66] + 0x1_0000 * wire[67] + 0x100_0000 * wire[68]
                + 0x1_0000_0000 * wire[69] + 0x100_0000_0000 * wire[70] + 0x1_0000_0000_0000
                * wire[71] + 0x100_0000_0000_0000 * wire[72] == unlock_after_ms
            &&& wire[73] + 0x100 * wire[74] + 0x1_0000 * wire[75] + 0x100_0000 * wire[76]
                == extra.len() % 0x1_0000_0000
            &&& forall|i: int| 0 <= i < extra.len() ==> #[trigger] wire[77 + i] == extra[i]
        }),
{
    let wire = timelock_witness(signature, unlock_after_ms, extra);
    timelock_witness_layout(signature, unlock_after_ms, extra);
    let time = wire.subrange(65, 73);
    eight_bytes_spell(time);
    assert(forall|j: int| 0 <= j < 8 ==> time[j] == wire[65 + j]);
    byte_string_layout(extra);
    let field = wire.skip(73);
    assert(forall|j: int| 0 <= j < field.len() ==> field[j] == wire[73 + j]);
    assert(wire.take(65) =~= signature);
    assert forall|i: int| 0 <= i < 65 implies #[trigger] wire[i] == signature[i] by {
        assert(wire.take(65)[i] == wire[i]);
    }
    assert forall|i: int| 0 <= i < extra.len() implies #[trigger] wire[77 + i] == extra[i] by {
        assert(wire.skip(77)[i] == wire[77 + i]);
    }
}

} // verus!
