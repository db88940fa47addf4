//! Hexadecimal text.
use vstd::pervasive::unreached;
use vstd::prelude::*;
use vstd::utf8::encode_utf8;

use crate::text::decimal_text;

verus! {

/// Declares `hex::FromHexError`, whose variants and fields are all public.
#[verifier::external_type_specification]
pub struct ExFromHexError(hex::FromHexError);

/// Why a text is not hexadecimal.
#[derive(Debug, PartialEq, Eq)]
pub enum HexError {
    /// The byte at `index` is not a hexadecimal digit.
    InvalidHexCharacter { c: char, index: usize },
    /// The number of digits is odd.
    OddLength,
}

/// A character in quotes, as `hex` writes it in its errors.
pub uninterp spec fn quoted_character(c: char) -> Seq<char>;

/// The text for a fault in hexadecimal text.
pub open spec fn hex_message(error: HexError) -> Seq<char> {
    match error {
        HexError::InvalidHexCharacter { c, index } => "Invalid character "@ + quoted_character(c)
            + " at position "@ + decimal_text(index as nat),
        HexError::OddLength => "Odd number of digits"@,
    }
}

/// `hex::FromHexError` as text: for a bad character the named quotation of it and its
/// place, and a fixed text for an odd length.
#[verifier::external_body]
fn describe(error: &HexError) -> (text: String)
    ensures
        match *error {
            HexError::InvalidHexCharacter { c, index } => text@ == "Invalid character "@
                + quoted_character(c) + " at position "@ + decimal_text(index as nat),
            HexError::OddLength => text@ == "Odd number of digits"@,
        },
{
    match *error {
        HexError::InvalidHexCharacter { c, index } => {
            hex::FromHexError::InvalidHexCharacter { c, index }.to_string()
        },
        HexError::OddLength => hex::FromHexError::OddLength.to_string(),
    }
}

impl HexError {
    /// The message for the user.
    pub fn message(&self) -> (text: String)
        ensures
            text@ == hex_message(*self),
    {
        describe(self)
    }
}

/// The value of a hexadecimal digit, in either case.
pub open spec fn nibble(c: u8) -> Option<nat> {
    if 48 <= c <= 57 {
        Some((c - 48) as nat)
    } else if 97 <= c <= 102 {
        Some((c - 87) as nat)
    } else if 65 <= c <= 70 {
        Some((c - 55) as nat)
    } else {
        None
    }
}

/// The lower-case hexadecimal digit of a value below 16.
pub open spec fn digit(value: nat) -> char {
    if value < 10 {
        (48 + value) as char
    } else {
        (87 + value) as char
    }
}

/// How many hexadecimal digits `text` starts with.
pub open spec fn digits_in_front(text: Seq<u8>) -> nat
    decreases text.len(),
{
    if text.len() == 0 || nibble(text[0]) is None {
        0
    } else {
        1 + digits_in_front(text.drop_first())
    }
}

/// The bytes that hexadecimal digits spell, two digits to a byte.
pub open spec fn paired(text: Seq<u8>) -> Seq<u8> {
    Seq::new(
        text.len() / 2,
        |i: int| (16 * nibble(text[2 * i]).unwrap() + nibble(text[2 * i + 1]).unwrap()) as u8,
    )
}

/// What `text` is as hexadecimal: the bytes it spells, or the first fault.
pub open spec fn hex_value(text: Seq<u8>) -> Result<Seq<u8>, HexError> {
    let good = digits_in_front(text);
    if text.len() % 2 != 0 {
        Err(HexError::OddLength)
    } else if good < text.len() {
        Err(HexError::InvalidHexCharacter { c: text[good as int] as char, index: good as usize })
    } else {
        Ok(paired(text))
    }
}

/// The lower-case hexadecimal text of some bytes.
pub open spec fn hex_of(data: Seq<u8>) -> Seq<char> {
    Seq::new(
        2 * data.len(),
        |i: int|
            if i % 2 == 0 {
                digit(data[i / 2] as nat / 16)
            } else {
                digit(data[i / 2] as nat % 16)
            },
    )
}

/// `hex::decode`: digits of either case, two to a byte. An odd length is
/// reported before a wrong digit, and of the wrong digits the first; the error
/// for fixed-size outputs never comes.
#[verifier::external_body]
fn raw_decode(text: &[u8]) -> (result: Result<Vec<u8>, hex::FromHexError>)
    ensures
        !(result matches Err(hex::FromHexError::InvalidStringLength)),
        match result {
            Ok(data) => hex_value(text@) == Ok::<Seq<u8>, HexError>(data@),
            Err(hex::FromHexError::InvalidHexCharacter { c, index }) => hex_value(text@) == Err::<
                Seq<u8>,
                HexError,
            >(HexError::InvalidHexCharacter { c, index }),
            Err(_) => hex_value(text@) == Err::<Seq<u8>, HexError>(HexError::OddLength),
        },
{
    hex::decode(text)
}

/// `hex::encode`: two lower-case digits for each byte, the high one first.
#[verifier::external_body]
pub(crate) fn encode(data: &[u8]) -> (text: String)
    ensures
        text@ == hex_of(data@),
{
    hex::encode(data)
}

/// Reads hexadecimal text.
pub fn decode(text: &[u8]) -> (result: Result<Vec<u8>, HexError>)
    ensures
        match result {
            Ok(data) => hex_value(text@) == Ok::<Seq<u8>, HexError>(data@),
            Err(e) => hex_value(text@) == Err::<Seq<u8>, HexError>(e),
        },
{
    match raw_decode(text) {
        Ok(data) => Ok(data),
        Err(hex::FromHexError::InvalidHexCharacter { c, index }) => Err(
            HexError::InvalidHexCharacter { c, index },
        ),
        Err(hex::FromHexError::OddLength) => Err(HexError::OddLength),
        Err(hex::FromHexError::InvalidStringLength) => unreached(),
    }
}

proof fn lemma_all_digits(text: Seq<u8>)
    requires
        forall|i: int| 0 <= i < text.len() ==> nibble(#[trigger] text[i]) is Some,
    ensures
        digits_in_front(text) == text.len(),
    decreases text.len(),
{
    if text.len() > 0 {
        lemma_all_digits(text.drop_first());
    }
}

/// Hexadecimal text, read back, is the bytes that it was made of.
pub proof fn hex_reads_back(data: Seq<u8>)
    ensures
        hex_value(encode_utf8(hex_of(data))) == Ok::<Seq<u8>, HexError>(data),
{
    let chars = hex_of(data);
    let text = encode_utf8(chars);
    assert forall|i: int| 0 <= i < chars.len() implies '\0' <= #[trigger] chars[i] <= '\u{7f}' by {
        assert(data[i / 2] as nat / 16 < 16);
        assert(data[i / 2] as nat % 16 < 16);
    }
    vstd::utf8::is_ascii_chars_encode_utf8(chars);
    assert forall|i: int| 0 <= i < text.len() implies nibble(#[trigger] text[i]) == Some(
        if i % 2 == 0 {
            data[i / 2] as nat / 16
        } else {
            data[i / 2] as nat % 16
        },
    ) by {
        assert(chars[i] as u8 == text[i]);
        assert(data[i / 2] as nat / 16 < 16);
        assert(data[i / 2] as nat % 16 < 16);
    }
    lemma_all_digits(text);
    assert(paired(text) =~= data) by {
        assert forall|i: int| 0 <= i < data.len() implies paired(text)[i] == data[i] by {
            assert((2 * i) / 2 == i && (2 * i + 1) / 2 == i);
            assert((2 * i) % 2 == 0 && (2 * i + 1) % 2 == 1);
            assert(nibble(text[2 * i]) == Some(data[i] as nat / 16));
            assert(nibble(text[2 * i + 1]) == Some(data[i] as nat % 16));
        }
    }
}

/// No more digits stand in front than where the first other byte stands.
proof fn lemma_first_fault(text: Seq<u8>, n: int)
    requires
        0 <= n < text.len(),
        forall|i: int| 0 <= i < n ==> nibble(#[trigger] text[i]) is Some,
        nibble(text[n]) is None,
    ensures
        digits_in_front(text) == n,
    decreases n,
{
    if n > 0 {
        assert(nibble(text[0]) is Some);
        assert forall|i: int| 0 <= i < n - 1 implies nibble(#[trigger] text.drop_first()[i]) is Some
            by {
            assert(text.drop_first()[i] == text[i + 1]);
        }
        lemma_first_fault(text.drop_first(), n - 1);
    }
}

/// What hexadecimal text is read as, where it has an even number of digits 0 to 9, a to f
/// and A to F: one byte for each two digits, the high half first.
pub proof fn hex_pairs_make_bytes(text: Seq<u8>)
    requires
        text.len() % 2 == 0,
        forall|i: int|
            0 <= i < text.len() ==> (48 <= #[trigger] text[i] <= 57 || 97 <= text[i] <= 102 || 65
                <= text[i] <= 70),
    ensures
        hex_value(text) matches Ok(data) && data.len() == text.len() / 2 && forall|i: int|
            0 <= i < data.len() ==> {
                let high = text[2 * i];
                let low = text[2 * i + 1];
                &&& 48 <= high <= 57 ==> #[trigger] data[i] / 16 == high - 48
                &&& 97 <= high <= 102 ==> data[i] / 16 == high - 87
                &&& 65 <= high <= 70 ==> data[i] / 16 == high - 55
                &&& 48 <= low <= 57 ==> data[i] % 16 == low - 48
                &&& 97 <= low <= 102 ==> data[i] % 16 == low - 87
                &&& 65 <= low <= 70 ==> data[i] % 16 == low - 55
            },
{
    lemma_all_digits(text);
}

/// Where hexadecimal text is refused: first for an odd length, and else at the first byte
/// that is no digit, told with its place.
pub proof fn hex_faults_are_found(text: Seq<u8>, n: int)
    ensures
        text.len() % 2 != 0 ==> hex_value(text) == Err::<Seq<u8>, HexError>(HexError::OddLength),
        text.len() % 2 == 0 && 0 <= n < text.len() && (forall|i: int|
            0 <= i < n ==> (48 <= #[trigger] text[i] <= 57 || 97 <= text[i] <= 102 || 65 <= text[i]
                <= 70)) && !(48 <= text[n] <= 57 || 97 <= text[n] <= 102 || 65 <= text[n] <= 70)
            ==> hex_value(text) == Err::<Seq<u8>, HexError>(
            (HexError::InvalidHexCharacter { c: text[n] as char, index: n as usize }),
        ),
{
    if text.len() % 2 == 0 && 0 <= n < text.len() && (forall|i: int|
        0 <= i < n ==> (48 <= #[trigger] text[i] <= 57 || 97 <= text[i] <= 102 || 65 <= text[i]
            <= 70)) && !(48 <= text[n] <= 57 || 97 <= text[n] <= 102 || 65 <= text[n] <= 70) {
        lemma_first_fault(text, n);
    }
}

/// Bytes are written as two digits each, 0 to 9 and a to f, the high half first.
pub proof fn bytes_make_hex_pairs(data: Seq<u8>, i: int)
    requires
        0 <= i < data.len(),
    ensures
        hex_of(data).len() == 2 * data.len(),
        data[i] / 16 < 10 ==> hex_of(data)[2 * i] as int == 48 + data[i] / 16,
        data[i] / 16 >= 10 ==> hex_of(data)[2 * i] as int == 87 + data[i] / 16,
        data[i] % 16 < 10 ==> hex_of(data)[2 * i + 1] as int == 48 + data[i] % 16,
        data[i] % 16 >= 10 ==> hex_of(data)[2 * i + 1] as int == 87 + data[i] % 16,
{
    assert((2 * i) / 2 == i && (2 * i + 1) / 2 == i);
    assert((2 * i) % 2 == 0 && (2 * i + 1) % 2 == 1);
    assert(data[i] as nat / 16 < 16);
    assert(data[i] as nat % 16 < 16);
}

/// The messages for faults in hexadecimal text.
pub proof fn hex_messages_tell_the_fault(c: char, index: usize)
    ensures
        hex_message((HexError::InvalidHexCharacter { c, index })) == "Invalid character "@
            + quoted_character(c) + " at position "@ + decimal_text(index as nat),
        hex_message(HexError::OddLength) == "Odd number of digits"@,
{
}

} // verus!
