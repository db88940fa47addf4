//! CKB addresses.
use ckb_types::prelude::{Builder, Entity, Pack, Unpack};
use std::str::FromStr;
use vstd::arithmetic::power::pow;
use vstd::prelude::*;

use crate::script::{HashType, Script, ScriptView};
use crate::text::same_text;

verus! {

/// The power of two above the padding bits that `count` symbols of five bits
/// leave behind the last whole byte; none if a whole symbol is left over.
pub open spec fn padding_unit(count: nat) -> Option<nat> {
    let left = 5 * count % 8;
    if left == 0 {
        Some(1)
    } else if left == 1 {
        Some(2)
    } else if left == 2 {
        Some(4)
    } else if left == 3 {
        Some(8)
    } else if left == 4 {
        Some(16)
    } else {
        None
    }
}

/// Whether symbols of five bits fill at least one byte, with fewer than five bits
/// left over, all of them zero.
pub open spec fn fills_bytes(symbols: Seq<u8>) -> bool {
    symbols.len() >= 2 && (padding_unit(symbols.len()) matches Some(unit) && symbols.last() as nat
        % unit == 0)
}

/// Whether a prefix is that of an address: on the main network, or on the test
/// network.
pub open spec fn is_known_prefix(prefix: Seq<char>) -> bool {
    prefix == "ckb"@ || prefix == "ckt"@
}

/// The prefix and the values of the symbols in a bech32 text, without the
/// checksum, or the text of the decoder's error.
pub uninterp spec fn bech32_parts(text: Seq<char>) -> Result<(Seq<char>, Seq<u8>), Seq<char>>;

/// Whether an address can be read without a fault in its padding: a text that
/// decodes, with the prefix of an address, fills whole bytes.
pub open spec fn is_readable(text: Seq<char>) -> bool {
    match bech32_parts(text) {
        Ok((prefix, symbols)) => is_known_prefix(prefix) ==> fills_bytes(symbols),
        Err(_) => true,
    }
}

/// `bech32::decode`: the prefix in lower case and the values of the symbols, or
/// the text of the error; the result is the named one.
#[verifier::external_body]
fn decode_bech32(text: &str) -> (result: Result<(String, Vec<u8>), String>)
    ensures
        match result {
            Ok((prefix, symbols)) => bech32_parts(text@) == Ok::<
                (Seq<char>, Seq<u8>),
                Seq<char>,
            >((prefix@, symbols@)),
            Err(e) => bech32_parts(text@) == Err::<(Seq<char>, Seq<u8>), Seq<char>>(e@),
        },
{
    match bech32::decode(text) {
        Ok((prefix, data, _)) => Ok((prefix, data.iter().map(|s| s.to_u8()).collect())),
        Err(e) => Err(e.to_string()),
    }
}

/// Whether symbols of five bits fill whole bytes, but for zero bits.
pub fn check_padding(symbols: &[u8]) -> (fills: bool)
    ensures
        fills == fills_bytes(symbols@),
{
    let count: usize = symbols.len();
    if count < 2 {
        return false;
    }
    let left: usize = count % 8 * 5 % 8;
    assert(left == 5 * count % 8);
    let last: u8 = symbols[count - 1];
    if left == 0 {
        true
    } else if left == 1 {
        last % 2 == 0
    } else if left == 2 {
        last % 4 == 0
    } else if left == 3 {
        last % 8 == 0
    } else if left == 4 {
        last % 16 == 0
    } else {
        false
    }
}

/// Whether what a bech32 text decodes to can be read as an address without a
/// fault in its padding.
pub fn check_parts(prefix: &str, symbols: &[u8]) -> (readable: bool)
    ensures
        readable == (is_known_prefix(prefix@) ==> fills_bytes(symbols@)),
{
    !(same_text(prefix, "ckb") || same_text(prefix, "ckt")) || check_padding(symbols)
}

/// Whether an address can be read without a fault in its padding.
fn check_address(text: &str) -> (readable: bool)
    ensures
        readable == is_readable(text@),
{
    match decode_bech32(text) {
        Ok((prefix, symbols)) => check_parts(prefix.as_str(), symbols.as_slice()),
        Err(_) => true,
    }
}

/// The lock script that `ckb_sdk` reads from the text of an address, or the text
/// of its error.
pub uninterp spec fn address_lock(text: Seq<char>) -> Result<ScriptView, Seq<char>>;

/// The text of the address that `ckb_sdk` makes of a lock script, on the test
/// network or on the main network.
pub uninterp spec fn address_text(
    testnet: bool,
    code_hash: Seq<u8>,
    hash_type: u8,
    args: Seq<u8>,
) -> Seq<char>;

/// The code hash of the default lock, which checks a secp256k1 signature.
pub open spec fn sighash_code_hash() -> Seq<u8> {
    seq![
        0x9bu8, 0xd7, 0xe0, 0x6f, 0x3e, 0xcf, 0x4b, 0xe0, 0xf2, 0xfc, 0xd2, 0x18, 0x8b, 0x23, 0xf1,
        0xb9, 0xfc, 0xc8, 0x8e, 0x5d, 0x4b, 0x65, 0xa8, 0x63, 0x7b, 0x17, 0x72, 0x3b, 0xbd, 0xa3,
        0xcc, 0xe8,
    ]
}

/// `ckb_sdk::constants::SIGHASH_TYPE_HASH`: the bytes of the constant.
#[verifier::external_body]
pub(crate) fn sighash_type_hash() -> (code_hash: [u8; 32])
    ensures
        code_hash@ == sighash_code_hash(),
{
    ckb_sdk::constants::SIGHASH_TYPE_HASH.0
}

/// The address of a default lock with 20 bytes of args stands for that lock.
pub open spec fn reads_back(
    text: Seq<char>,
    code_hash: Seq<u8>,
    hash_type: u8,
    args: Seq<u8>,
) -> bool {
    code_hash == sighash_code_hash() && hash_type == HashType::Type.byte() && args.len() == 20
        ==> address_lock(text) == Ok::<ScriptView, Seq<char>>(
        ScriptView { code_hash, hash_type: HashType::Type, args },
    )
}

/// `ckb_sdk::Address::new` and its text: the result is the named one. The text
/// is padded with zero bits, and the address of a default lock with 20 bytes of
/// args is read back as that lock. The call takes a script whose size, as its
/// serialization holds it, fits in 32 bits.
#[verifier::external_body]
fn write_address(testnet: bool, code_hash: &[u8; 32], hash_type: u8, args: &[u8]) -> (text: String)
    requires
        exists|known: HashType| known.byte() == hash_type,
        args@.len() <= u32::MAX - 53,
    ensures
        text@ == address_text(testnet, code_hash@, hash_type, args@),
        is_readable(text@),
        reads_back(text@, code_hash@, hash_type, args@),
{
    let lock = ckb_types::packed::Script::new_builder()
        .code_hash(code_hash.pack())
        .hash_type(hash_type.into())
        .args(args.pack())
        .build();
    let network = match testnet {
        true => ckb_sdk::NetworkType::Testnet,
        false => ckb_sdk::NetworkType::Mainnet,
    };
    ckb_sdk::Address::new(network, ckb_sdk::AddressPayload::from(lock), true).to_string()
}

/// `ckb_sdk::Address::from_str`, and the code hash, hash type and args of the
/// address: the result is the named one. Text that does not decode as bech32 is
/// refused with the decoder's error, then a prefix that is not an address's. The
/// call takes text that passes both only where its symbols fill whole bytes.
#[verifier::external_body]
fn read_address(text: &str) -> (result: Result<Script, String>)
    requires
        is_readable(text@),
    ensures
        match result {
            Ok(lock) => address_lock(text@) == Ok::<ScriptView, Seq<char>>(lock@),
            Err(e) => address_lock(text@) == Err::<ScriptView, Seq<char>>(e@),
        },
        match bech32_parts(text@) {
            Err(reason) => result matches Err(e) && e@ == reason,
            Ok((prefix, _)) => is_known_prefix(prefix) || (result matches Err(e) && e@
                == "Invalid hrp: "@ + prefix),
        },
{
    let address = ckb_sdk::Address::from_str(text)?;
    let hash_type = match address.payload().hash_type() {
        ckb_types::core::ScriptHashType::Data => HashType::Data,
        ckb_types::core::ScriptHashType::Type => HashType::Type,
        ckb_types::core::ScriptHashType::Data1 => HashType::Data1,
        ckb_types::core::ScriptHashType::Data2 => HashType::Data2,
    };
    let code_hash = address.payload().code_hash(Some(address.network())).unpack();
    Ok(Script { code_hash, hash_type, args: address.payload().args().to_vec() })
}

/// Why an address cannot be used.
#[derive(Debug, PartialEq, Eq)]
pub enum AddressError {
    /// The text decodes and has the prefix of an address, but its symbols do not
    /// fill whole bytes, or the bits left over are not zero.
    Padding,
    /// The address is malformed, for the reason given.
    Malformed(String),
}

/// What the text of an address stands for: a lock script, a reason why it is
/// malformed, or, where only the padding is at fault, nothing.
pub open spec fn lock_of_address(text: Seq<char>) -> Result<ScriptView, Option<Seq<char>>> {
    if !is_readable(text) {
        Err(None)
    } else {
        match address_lock(text) {
            Ok(lock) => Ok(lock),
            Err(reason) => Err(Some(reason)),
        }
    }
}

/// The lock script that an address stands for. Text that does not decode, or has
/// another prefix, is refused for that reason before its padding is looked at.
pub fn parse_address(text: &str) -> (result: Result<Script, AddressError>)
    ensures
        match result {
            Ok(lock) => lock_of_address(text@) == Ok::<ScriptView, Option<Seq<char>>>(lock@),
            Err(AddressError::Padding) => lock_of_address(text@) == Err::<
                ScriptView,
                Option<Seq<char>>,
            >(None),
            Err(AddressError::Malformed(reason)) => lock_of_address(text@) == Err::<
                ScriptView,
                Option<Seq<char>>,
            >(Some(reason@)),
        },
        match bech32_parts(text@) {
            Err(reason) => lock_of_address(text@) == Err::<ScriptView, Option<Seq<char>>>(
                Some(reason),
            ),
            Ok((prefix, symbols)) => if !is_known_prefix(prefix) {
                lock_of_address(text@) == Err::<ScriptView, Option<Seq<char>>>(
                    Some("Invalid hrp: "@ + prefix),
                )
            } else {
                result matches Err(AddressError::Padding) <==> !fills_bytes(symbols)
            },
        },
{
    if !check_address(text) {
        return Err(AddressError::Padding);
    }
    match read_address(text) {
        Ok(lock) => Ok(lock),
        Err(reason) => Err(AddressError::Malformed(reason)),
    }
}

/// The text of the address of a lock script, on the test network or on the main
/// network.
pub fn format_address(testnet: bool, lock: &Script) -> (text: String)
    requires
        lock@.args.len() <= u32::MAX - 53,
    ensures
        text@ == address_text(testnet, lock@.code_hash, lock@.hash_type.byte(), lock@.args),
        is_default_lock(lock@) ==> lock_of_address(text@) == Ok::<
            ScriptView,
            Option<Seq<char>>,
        >(lock@),
{
    assert(lock.hash_type.byte() == lock@.hash_type.byte());
    write_address(testnet, &lock.code_hash, lock.hash_type.to_byte(), lock.args.as_slice())
}

/// Whether a script is the default lock, with 20 bytes of args.
pub open spec fn is_default_lock(lock: ScriptView) -> bool {
    lock.code_hash == sighash_code_hash() && lock.hash_type == HashType::Type && lock.args.len()
        == 20
}

/// Symbols of five bits fill whole bytes if they make at least one, leave fewer than five
/// bits over, and the last symbol ends in as many zero bits as are left over.
pub proof fn padding_is_zero_bits(symbols: Seq<u8>)
    ensures
        fills_bytes(symbols) <==> (symbols.len() >= 2 && 5 * symbols.len() % 8 < 5
            && symbols.last() as int % pow(2, 5 * symbols.len() % 8) == 0),
{
    reveal(pow);
    assert(pow(2, 0) == 1);
    assert(pow(2, 1) == 2 * pow(2, 0));
    assert(pow(2, 2) == 2 * pow(2, 1));
    assert(pow(2, 3) == 2 * pow(2, 2));
    assert(pow(2, 4) == 2 * pow(2, 3));
}

/// What an address stands for: the lock that it is read as, or the reason why it is
/// refused, but for text that decodes with the prefix `ckb` or `ckt` and does not fill
/// whole bytes.
pub proof fn addresses_stand_for_locks(text: Seq<char>)
    ensures
        ({
            let unfilled = bech32_parts(text) matches Ok((prefix, symbols)) && (prefix == "ckb"@
                || prefix == "ckt"@) && !fills_bytes(symbols);
            &&& unfilled ==> lock_of_address(text) == Err::<ScriptView, Option<Seq<char>>>(None)
            &&& !unfilled ==> (address_lock(text) matches Ok(lock) ==> lock_of_address(text)
                == Ok::<ScriptView, Option<Seq<char>>>(lock))
            &&& !unfilled ==> (address_lock(text) matches Err(reason) ==> lock_of_address(text)
                == Err::<ScriptView, Option<Seq<char>>>(Some(reason)))
        }),
{
}

/// The default lock has the code hash of the secp256k1 lock, is found by its type, and has
/// 20 bytes of args.
pub proof fn default_locks_have_20_bytes(lock: ScriptView)
    ensures
        is_default_lock(lock) <==> lock.code_hash == sighash_code_hash() && lock.hash_type
            == HashType::Type && lock.args.len() == 20,
        sighash_code_hash().len() == 32,
{
}

} // verus!
