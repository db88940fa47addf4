//! Little-endian integers, as cell data and witnesses hold them.
use vstd::arithmetic::div_mod::lemma_div_denominator;
use vstd::arithmetic::power::{lemma_pow_positive, pow};
use vstd::prelude::*;

verus! {

/// 256 to the power `n`.
pub open spec fn pow256(n: nat) -> nat
    decreases n,
{
    if n == 0 {
        1
    } else {
        256 * pow256((n - 1) as nat)
    }
}

/// The `len` low bytes of `value`, least significant byte first.
pub open spec fn le_bytes(value: nat, len: nat) -> Seq<u8>
    decreases len,
{
    if len == 0 {
        Seq::empty()
    } else {
        seq![(value % 256) as u8] + le_bytes(value / 256, (len - 1) as nat)
    }
}

/// The number that `bytes` spell, least significant byte first.
pub open spec fn le_value(bytes: Seq<u8>) -> nat
    decreases bytes.len(),
{
    if bytes.len() == 0 {
        0
    } else {
        bytes[0] as nat + 256 * le_value(bytes.drop_first())
    }
}

pub proof fn lemma_le_bytes_len(value: nat, len: nat)
    ensures
        le_bytes(value, len).len() == len,
    decreases len,
{
    if len > 0 {
        lemma_le_bytes_len(value / 256, (len - 1) as nat);
    }
}

pub proof fn lemma_le_value_bound(bytes: Seq<u8>)
    ensures
        le_value(bytes) < pow256(bytes.len()),
    decreases bytes.len(),
{
    if bytes.len() > 0 {
        lemma_le_value_bound(bytes.drop_first());
    }
}

pub proof fn lemma_pow256_values()
    ensures
        pow256(4) == 0x1_0000_0000,
        pow256(8) == 0x1_0000_0000_0000_0000,
        pow256(16) == 0x1_0000_0000_0000_0000_0000_0000_0000_0000,
{
    reveal_with_fuel(pow256, 17);
}

pub proof fn lemma_pow256_monotone(m: nat, n: nat)
    requires
        m <= n,
    ensures
        1 <= pow256(m) <= pow256(n),
    decreases n,
{
    if n > 0 {
        if m < n {
            lemma_pow256_monotone(m, (n - 1) as nat);
        } else {
            lemma_pow256_monotone((m - 1) as nat, (n - 1) as nat);
        }
    }
}

/// Reading back the bytes of a number that fits gives the number.
pub proof fn lemma_le_value_of_bytes(value: nat, len: nat)
    requires
        value < pow256(len),
    ensures
        le_value(le_bytes(value, len)) == value,
    decreases len,
{
    if len > 0 {
        let tail = le_bytes(value / 256, (len - 1) as nat);
        lemma_le_value_of_bytes(value / 256, (len - 1) as nat);
        assert(le_bytes(value, len).drop_first() =~= tail);
        assert(le_bytes(value, len)[0] == (value % 256) as u8);
    }
}

/// Writing the number that some bytes spell gives the bytes.
pub proof fn lemma_le_bytes_of_value(bytes: Seq<u8>)
    ensures
        le_bytes(le_value(bytes), bytes.len()) == bytes,
    decreases bytes.len(),
{
    if bytes.len() > 0 {
        let tail = bytes.drop_first();
        lemma_le_bytes_of_value(tail);
        let value = le_value(bytes);
        assert(value % 256 == bytes[0] as nat);
        assert(value / 256 == le_value(tail));
        assert(seq![bytes[0]] + tail =~= bytes);
    } else {
        assert(bytes =~= Seq::<u8>::empty());
    }
}

/// Appends the `len` low bytes of `value` to `buf`.
pub fn push_le(buf: &mut Vec<u8>, value: u128, len: usize)
    ensures
        final(buf)@ == old(buf)@ + le_bytes(value as nat, len as nat),
{
    let mut rest: u128 = value;
    let mut i: usize = 0;
    assert(buf@ + le_bytes(rest as nat, len as nat) =~= old(buf)@ + le_bytes(
        value as nat,
        len as nat,
    ));
    while i < len
        invariant
            i <= len,
            buf@ + le_bytes(rest as nat, (len - i) as nat) == old(buf)@ + le_bytes(
                value as nat,
                len as nat,
            ),
        decreases len - i,
    {
        let ghost before = buf@;
        let low: u8 = (rest % 256) as u8;
        buf.push(low);
        assert(before + le_bytes(rest as nat, (len - i) as nat) =~= buf@ + le_bytes(
            (rest / 256) as nat,
            (len - i - 1) as nat,
        ));
        rest = rest / 256;
        i = i + 1;
    }
    assert(buf@ + le_bytes(rest as nat, 0) =~= buf@);
}

/// Reads the little-endian number in `data[from..from + len]`.
pub fn read_le(data: &[u8], from: usize, len: usize) -> (value: u128)
    requires
        from + len <= data@.len(),
        len <= 16,
    ensures
        value == le_value(data@.subrange(from as int, from + len)),
{
    let total: usize = data.len();
    let mut value: u128 = 0;
    let mut i: usize = len;
    while i > 0
        invariant
            i <= len <= 16,
            from + len <= total,
            total == data@.len(),
            value == le_value(data@.subrange(from + i, from + len)),
        decreases i,
    {
        let ghost tail = data@.subrange(from + i, from + len);
        i = i - 1;
        let ghost whole = data@.subrange(from + i, from + len);
        proof {
            assert(whole.drop_first() =~= tail);
            lemma_le_value_bound(whole);
            lemma_pow256_monotone(whole.len(), 16);
            lemma_pow256_values();
        }
        value = value * 256 + data[from + i] as u128;
    }
    value
}

/// Each byte of a number counts for its place: no bytes make zero, and one more byte
/// behind the others adds that byte times 256 to the power of its place.
pub proof fn bytes_weigh_by_place(bytes: Seq<u8>, next: u8)
    ensures
        le_value(Seq::empty()) == 0,
        le_value(bytes.push(next)) == le_value(bytes) + next * pow(256, bytes.len()),
    decreases bytes.len(),
{
    reveal(pow);
    if bytes.len() == 0 {
        assert(bytes.push(next).drop_first() =~= Seq::empty());
        assert(le_value(bytes.push(next).drop_first()) == 0);
    } else {
        let rest = bytes.drop_first();
        bytes_weigh_by_place(rest, next);
        assert(bytes.push(next).drop_first() =~= rest.push(next));
        assert(pow(256, bytes.len()) == 256 * pow(256, rest.len()));
        assert(256 * (next * pow(256, rest.len())) == next * (256 * pow(256, rest.len())))
            by (nonlinear_arith);
    }
}

/// The bytes of a number are its digits to the base 256, the lowest first.
pub proof fn bytes_are_digits(value: nat, len: nat)
    ensures
        le_bytes(value, len).len() == len,
        forall|i: int|
            0 <= i < len ==> #[trigger] le_bytes(value, len)[i] == (value as int / pow(
                256,
                i as nat,
            )) % 256,
    decreases len,
{
    reveal(pow);
    if len > 0 {
        let rest = le_bytes(value / 256, (len - 1) as nat);
        bytes_are_digits(value / 256, (len - 1) as nat);
        assert forall|i: int| 0 <= i < len implies #[trigger] le_bytes(value, len)[i] == (
        value as int / pow(256, i as nat)) % 256 by {
            if i == 0 {
                assert(pow(256, 0) == 1);
            } else {
                assert(le_bytes(value, len)[i] == rest[i - 1]);
                assert(pow(256, i as nat) == 256 * pow(256, (i - 1) as nat));
                lemma_pow_positive(256, (i - 1) as nat);
                lemma_div_denominator(value as int, 256, pow(256, (i - 1) as nat));
            }
        }
    }
}

/// What four bytes spell.
pub proof fn four_bytes_spell(b: Seq<u8>)
    requires
        b.len() == 4,
    ensures
        le_value(b) == b[0] + 0x100 * b[1] + 0x1_0000 * b[2] + 0x100_0000 * b[3],
{
    reveal_with_fuel(le_value, 5);
}

/// What eight bytes spell.
pub proof fn eight_bytes_spell(b: Seq<u8>)
    requires
        b.len() == 8,
    ensures
        le_value(b) == b[0] + 0x100 * b[1] + 0x1_0000 * b[2] + 0x100_0000 * b[3] + 0x1_0000_0000
            * b[4] + 0x100_0000_0000 * b[5] + 0x1_0000_0000_0000 * b[6] + 0x100_0000_0000_0000
            * b[7],
{
    reveal_with_fuel(le_value, 9);
}

/// What sixteen bytes spell: eight bytes, and eight more that count for 2 to the
/// power of 64.
pub proof fn sixteen_bytes_spell(b: Seq<u8>)
    requires
        b.len() == 16,
    ensures
        le_value(b) == b[0] + 0x100 * b[1] + 0x1_0000 * b[2] + 0x100_0000 * b[3] + 0x1_0000_0000
            * b[4] + 0x100_0000_0000 * b[5] + 0x1_0000_0000_0000 * b[6] + 0x100_0000_0000_0000
            * b[7] + 0x1_0000_0000_0000_0000 * (b[8] + 0x100 * b[9] + 0x1_0000 * b[10] + 0x100_0000
            * b[11] + 0x1_0000_0000 * b[12] + 0x100_0000_0000 * b[13] + 0x1_0000_0000_0000 * b[14]
            + 0x100_0000_0000_0000 * b[15]),
{
    reveal_with_fuel(le_value, 17);
}

/// The four bytes of a number spell it, but for what is above 32 bits.
pub proof fn four_bytes_hold(value: nat)
    ensures
        ({
            let b = le_bytes(value, 4);
            b.len() == 4 && b[0] + 0x100 * b[1] + 0x1_0000 * b[2] + 0x100_0000 * b[3] == value
                % 0x1_0000_0000
        }),
{
    reveal_with_fuel(le_bytes, 5);
}

} // verus!
