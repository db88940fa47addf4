//! What the command line and the environment hand in: text, read as UTF-8 bytes.
use vstd::prelude::*;
use vstd::slice::slice_subrange;
use vstd::utf8::encode_utf8;

use crate::bytes::same_bytes;

verus! {

/// Two texts are the same if their UTF-8 bytes are.
pub proof fn lemma_utf8_identifies(a: Seq<char>, b: Seq<char>)
    ensures
        encode_utf8(a) == encode_utf8(b) ==> a == b,
{
    vstd::utf8::encode_utf8_decode_utf8(a);
    vstd::utf8::encode_utf8_decode_utf8(b);
}

/// Whether two texts are the same.
pub fn same_text(a: &str, b: &str) -> (same: bool)
    ensures
        same == (a@ == b@),
{
    proof {
        lemma_utf8_identifies(a@, b@);
    }
    same_bytes(a.as_bytes(), b.as_bytes())
}

/// `text` without the `0x` prefixes in front of it, however many there are.
pub open spec fn without_0x(text: Seq<u8>) -> Seq<u8>
    decreases text.len(),
{
    if text.len() >= 2 && text[0] == 48 && text[1] == 120 {
        without_0x(text.skip(2))
    } else {
        text
    }
}

/// Drops the `0x` prefixes in front of `text`.
pub fn strip_0x(text: &[u8]) -> (rest: &[u8])
    ensures
        rest@ == without_0x(text@),
{
    let total: usize = text.len();
    let mut start: usize = 0;
    assert(text@.skip(0) =~= text@);
    while total - start >= 2 && text[start] == 48 && text[start + 1] == 120
        invariant
            start <= total,
            total == text@.len(),
            without_0x(text@.skip(start as int)) == without_0x(text@),
        decreases total - start,
    {
        assert(text@.skip(start as int).skip(2) =~= text@.skip(start + 2));
        start = start + 2;
    }
    assert(text@.subrange(start as int, total as int) =~= text@.skip(start as int));
    slice_subrange(text, start, total)
}

/// Whether every byte is a decimal digit.
pub open spec fn all_digits(text: Seq<u8>) -> bool {
    forall|i: int| 0 <= i < text.len() ==> 48 <= #[trigger] text[i] <= 57
}

/// The number that decimal digits spell.
pub open spec fn decimal_value(digits: Seq<u8>) -> nat
    decreases digits.len(),
{
    if digits.len() == 0 {
        0
    } else {
        10 * decimal_value(digits.drop_last()) + (digits.last() - 48) as nat
    }
}

/// The number that `text` spells: at least one decimal digit, with or without a
/// plus sign in front, and no more than 64 bits.
pub open spec fn number_of(text: Seq<u8>) -> Option<u64> {
    let digits = if text.len() > 0 && text[0] == 43 {
        text.skip(1)
    } else {
        text
    };
    if digits.len() > 0 && all_digits(digits) && decimal_value(digits) <= u64::MAX {
        Some(decimal_value(digits) as u64)
    } else {
        None
    }
}

/// A prefix of the digits spells no more than all of them.
proof fn lemma_prefix_value(digits: Seq<u8>, n: int)
    requires
        0 <= n <= digits.len(),
        all_digits(digits),
    ensures
        decimal_value(digits.take(n)) <= decimal_value(digits),
    decreases digits.len() - n,
{
    if n == digits.len() {
        assert(digits.take(n) =~= digits);
    } else {
        assert(digits.take(n + 1).drop_last() =~= digits.take(n));
        lemma_prefix_value(digits, n + 1);
    }
}

/// Reads an unsigned 64-bit decimal number.
pub fn parse_number(text: &[u8]) -> (number: Option<u64>)
    ensures
        number == number_of(text@),
{
    let total: usize = text.len();
    let start: usize = if total > 0 && text[0] == 43 {
        1
    } else {
        0
    };
    let ghost digits = text@.skip(start as int);
    proof {
        assert(text@.skip(0) =~= text@);
    }
    if start == total {
        return None;
    }
    let mut value: u64 = 0;
    let mut i: usize = start;
    assert(digits.take(0) =~= Seq::<u8>::empty());
    while i < total
        invariant
            start <= i <= total,
            total == text@.len(),
            digits == text@.skip(start as int),
            digits == (if text@.len() > 0 && text@[0] == 43 {
                text@.skip(1)
            } else {
                text@
            }),
            forall|j: int| 0 <= j < i - start ==> 48 <= #[trigger] digits[j] <= 57,
            value == decimal_value(digits.take(i - start)),
        decreases total - i,
    {
        let digit: u8 = text[i];
        assert(digit == digits[i - start]);
        if digit < 48 || digit > 57 {
            return None;
        }
        let next: u128 = value as u128 * 10 + (digit - 48) as u128;
        proof {
            assert(digits.take(i - start + 1).drop_last() =~= digits.take(i - start));
            assert(digits.take(i - start + 1).last() == digit);
        }
        if next > u64::MAX as u128 {
            proof {
                if all_digits(digits) {
                    lemma_prefix_value(digits, i - start + 1);
                }
            }
            return None;
        }
        value = next as u64;
        i = i + 1;
    }
    assert(digits.take(total - start) =~= digits);
    Some(value)
}

/// The decimal digit of a value below 10.
pub open spec fn decimal_digit(value: nat) -> char {
    (48 + value) as char
}

/// A number as decimal text, without leading zeros.
pub open spec fn decimal_text(value: nat) -> Seq<char>
    decreases value,
{
    if value < 10 {
        seq![decimal_digit(value)]
    } else {
        decimal_text(value / 10).push(decimal_digit(value % 10))
    }
}

/// The text of one decimal digit.
fn digit_text(value: u128) -> (text: &'static str)
    requires
        value < 10,
    ensures
        text@ == seq![decimal_digit(value as nat)],
{
    proof {
        reveal_strlit("0");
        reveal_strlit("1");
        reveal_strlit("2");
        reveal_strlit("3");
        reveal_strlit("4");
        reveal_strlit("5");
        reveal_strlit("6");
        reveal_strlit("7");
        reveal_strlit("8");
        reveal_strlit("9");
    }
    if value == 0 {
        "0"
    } else if value == 1 {
        "1"
    } else if value == 2 {
        "2"
    } else if value == 3 {
        "3"
    } else if value == 4 {
        "4"
    } else if value == 5 {
        "5"
    } else if value == 6 {
        "6"
    } else if value == 7 {
        "7"
    } else if value == 8 {
        "8"
    } else {
        "9"
    }
}

/// Writes a number in decimal.
pub fn decimal(value: u128) -> (text: String)
    ensures
        text@ == decimal_text(value as nat),
    decreases value,
{
    if value < 10 {
        digit_text(value).to_owned()
    } else {
        let mut text: String = decimal(value / 10);
        text.append(digit_text(value % 10));
        assert(text@ =~= decimal_text(value as nat));
        text
    }
}

/// Two texts, one behind the other.
pub fn join_text(front: &str, back: &str) -> (text: String)
    ensures
        text@ == front@ + back@,
{
    let mut text: String = front.to_owned();
    text.append(back);
    text
}

/// A prefix `0x` (the bytes 48 and 120) changes nothing, and text that has none is kept
/// as it is.
pub proof fn hex_prefixes_do_not_count(text: Seq<u8>)
    ensures
        without_0x(seq![48u8, 120u8] + text) == without_0x(text),
        text.len() < 2 || text[0] != 48 || text[1] != 120 ==> without_0x(text) == text,
{
    let prefixed = seq![48u8, 120u8] + text;
    assert(prefixed.skip(2) =~= text);
}

/// Each decimal digit counts ten times as much as the next one.
pub proof fn decimal_digits_weigh_by_place(digits: Seq<u8>, next: u8)
    requires
        48 <= next <= 57,
    ensures
        decimal_value(Seq::empty()) == 0,
        decimal_value(digits.push(next)) == 10 * decimal_value(digits) + (next - 48),
{
    assert(digits.push(next).drop_last() =~= digits);
}

/// What is a number: decimal digits and nothing else, at least one, with or without one
/// plus sign in front, up to 64 bits. Nothing else is.
pub proof fn numbers_are_decimal_digits(text: Seq<u8>)
    ensures
        text.len() > 0 && (forall|i: int|
            0 <= i < text.len() ==> 48 <= #[trigger] text[i] <= 57) ==> {
            &&& decimal_value(text) <= u64::MAX ==> number_of(text) == Some(
                decimal_value(text) as u64,
            )
            &&& decimal_value(text) <= u64::MAX ==> number_of(seq![43u8] + text) == Some(
                decimal_value(text) as u64,
            )
            &&& decimal_value(text) > u64::MAX ==> number_of(text) is None
            &&& decimal_value(text) > u64::MAX ==> number_of(seq![43u8] + text) is None
        },
        text.len() == 0 ==> number_of(text) is None,
        text == seq![43u8] ==> number_of(text) is None,
        (exists|i: int|
            0 <= i < text.len() && (#[trigger] text[i] < 48 || text[i] > 57) && (i > 0 || text[i]
                != 43)) ==> number_of(text) is None,
{
    assert((seq![43u8] + text).skip(1) =~= text);
    if exists|i: int|
        0 <= i < text.len() && (#[trigger] text[i] < 48 || text[i] > 57) && (i > 0 || text[i]
            != 43) {
        let i = choose|i: int|
            0 <= i < text.len() && (#[trigger] text[i] < 48 || text[i] > 57) && (i > 0 || text[i]
                != 43);
        if text[0] == 43 {
            assert(text.skip(1)[i - 1] == text[i]);
            assert(!all_digits(text.skip(1)));
        } else {
            assert(!all_digits(text));
        }
    }
}

/// Decimal text has only digits, at least one, and spells the number.
proof fn lemma_decimal_text(value: nat, bytes: Seq<u8>)
    requires
        bytes.len() == decimal_text(value).len(),
        forall|i: int| 0 <= i < bytes.len() ==> #[trigger] bytes[i] == decimal_text(value)[i] as u8,
    ensures
        bytes.len() > 0,
        forall|i: int| 0 <= i < bytes.len() ==> '0' <= #[trigger] decimal_text(value)[i] <= '9',
        decimal_value(bytes) == value,
    decreases value,
{
    let text = decimal_text(value);
    if value < 10 {
        assert(bytes.drop_last() =~= Seq::empty());
        assert(decimal_value(bytes.drop_last()) == 0);
    } else {
        let front = decimal_text(value / 10);
        let rest = bytes.drop_last();
        assert forall|i: int| 0 <= i < rest.len() implies #[trigger] rest[i] == front[i] as u8 by {
            assert(bytes[i] == text[i] as u8);
            assert(text[i] == front[i]);
        }
        lemma_decimal_text(value / 10, rest);
        assert(bytes.last() == text.last() as u8);
        assert forall|i: int| 0 <= i < bytes.len() implies '0' <= #[trigger] text[i] <= '9' by {
            if i < rest.len() {
                assert(text[i] == front[i]);
            }
        }
    }
}

/// A number that was written in decimal is read as itself.
pub proof fn decimal_reads_back(value: u64)
    ensures
        number_of(encode_utf8(decimal_text(value as nat))) == Some(value),
{
    let text = decimal_text(value as nat);
    let plain = Seq::new(text.len(), |i: int| text[i] as u8);
    lemma_decimal_text(value as nat, plain);
    vstd::utf8::is_ascii_chars_encode_utf8(text);
    let bytes = encode_utf8(text);
    assert(bytes =~= plain);
    assert forall|i: int| 0 <= i < bytes.len() implies 48 <= #[trigger] bytes[i] <= 57 by {
        assert(text[i] as u8 == bytes[i]);
    }
    assert(all_digits(bytes));
}

/// Decimal text has no leading zeros: it starts in zero only where it is all there is.
pub proof fn decimal_text_is_short(value: nat)
    ensures
        decimal_text(value).len() > 0,
        decimal_text(value)[0] == '0' ==> value == 0,
        value == 0 ==> decimal_text(value) == seq!['0'],
    decreases value,
{
    if value >= 10 {
        decimal_text_is_short(value / 10);
    }
}

} // verus!
