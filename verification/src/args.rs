//! The positional arguments of the deployer's commands.
use vstd::prelude::*;
use vstd::utf8::encode_utf8;

use crate::bytes::read_array;
use crate::config::{hex_keys_read_back, key_value};
use crate::hex_text::{decode, hex_message, hex_of, hex_reads_back, hex_value, HexError};
use crate::key::{is_secret_key, InvalidSecretKey, SecretKey};
use crate::text::{
    decimal_reads_back, decimal_text, number_of, parse_number, same_text, strip_0x, without_0x,
};

verus! {

/// The bytes of an argument in hexadecimal.
pub open spec fn hex_arg(text: Seq<char>) -> Result<Seq<u8>, HexError> {
    hex_value(encode_utf8(text))
}

/// A transaction hash that is hexadecimal has 32 bytes.
pub open spec fn hash_arg_fits(text: Seq<char>) -> bool {
    hex_arg(text) matches Ok(bytes) ==> bytes.len() == 32
}

/// Reads an argument in hexadecimal.
fn parse_hex(text: &str) -> (result: Result<Vec<u8>, HexError>)
    ensures
        match result {
            Ok(data) => hex_arg(text@) == Ok::<Seq<u8>, HexError>(data@),
            Err(e) => hex_arg(text@) == Err::<Seq<u8>, HexError>(e),
        },
{
    decode(text.as_bytes())
}

/// Whether a transaction hash has a length that `parse_hash` takes.
pub fn hash_fits(text: &str) -> (fits: bool)
    ensures
        fits == hash_arg_fits(text@),
{
    match parse_hex(text) {
        Ok(bytes) => bytes.len() == 32,
        Err(_) => true,
    }
}

/// Whether the two transaction hashes of a spend command have lengths that its
/// parser takes: the second counts only where the first can be read.
pub open spec fn spend_hashes_fit(code: Seq<char>, locked: Seq<char>) -> bool {
    hash_arg_fits(code) && (hex_arg(code) is Ok ==> hash_arg_fits(locked))
}

/// Whether the two transaction hashes of a spend command have lengths that its
/// parser takes.
pub fn hashes_fit(code: &str, locked: &str) -> (fit: bool)
    ensures
        fit == spend_hashes_fit(code@, locked@),
{
    match parse_hex(code) {
        Ok(bytes) => bytes.len() == 32 && hash_fits(locked),
        Err(_) => true,
    }
}

/// Reads a transaction hash in hexadecimal.
pub fn parse_hash(text: &str) -> (result: Result<[u8; 32], HexError>)
    requires
        hash_arg_fits(text@),
    ensures
        match result {
            Ok(hash) => hex_arg(text@) == Ok::<Seq<u8>, HexError>(hash@),
            Err(e) => hex_arg(text@) == Err::<Seq<u8>, HexError>(e),
        },
{
    match parse_hex(text) {
        Ok(bytes) => {
            let hash: [u8; 32] = read_array(bytes.as_slice(), 0);
            assert(hash@ =~= bytes@);
            Ok(hash)
        },
        Err(e) => Err(e),
    }
}

/// The arguments of `spend-simple-lock`.
#[derive(Debug)]
pub struct SimpleSpendArgs {
    pub code_tx_hash: [u8; 32],
    pub preimage: Vec<u8>,
    pub idl_path: String,
    pub locked_tx_hash: [u8; 32],
}

/// The arguments of `spend-simple-lock` by their contents.
pub struct SimpleSpendView {
    pub code_tx_hash: Seq<u8>,
    pub preimage: Seq<u8>,
    pub idl_path: Seq<char>,
    pub locked_tx_hash: Seq<u8>,
}

impl View for SimpleSpendArgs {
    type V = SimpleSpendView;

    open spec fn view(&self) -> SimpleSpendView {
        SimpleSpendView {
            code_tx_hash: self.code_tx_hash@,
            preimage: self.preimage@,
            idl_path: self.idl_path@,
            locked_tx_hash: self.locked_tx_hash@,
        }
    }
}

/// What the arguments of `spend-simple-lock` say: the hash of the code cell's
/// transaction, the preimage, the path of the IDL file, and the hash of the
/// locked cell's transaction. The two hashes are read before the preimage.
pub open spec fn simple_spend(
    code: Seq<char>,
    preimage: Seq<char>,
    idl_path: Seq<char>,
    locked: Seq<char>,
) -> Result<SimpleSpendView, HexError> {
    match (hex_arg(code), hex_arg(locked), hex_arg(preimage)) {
        (Ok(code_tx_hash), Ok(locked_tx_hash), Ok(preimage)) => Ok(
            SimpleSpendView { code_tx_hash, preimage, idl_path, locked_tx_hash },
        ),
        (Err(e), _, _) => Err(e),
        (_, Err(e), _) => Err(e),
        (_, _, Err(e)) => Err(e),
    }
}

/// Reads the arguments of `spend-simple-lock`.
pub fn parse_simple_spend(args: &[String]) -> (result: Result<SimpleSpendArgs, HexError>)
    requires
        args@.len() >= 4,
        spend_hashes_fit(args@[0]@, args@[3]@),
    ensures
        match result {
            Ok(parsed) => simple_spend(args@[0]@, args@[1]@, args@[2]@, args@[3]@) == Ok::<
                SimpleSpendView,
                HexError,
            >(parsed@),
            Err(e) => simple_spend(args@[0]@, args@[1]@, args@[2]@, args@[3]@) == Err::<
                SimpleSpendView,
                HexError,
            >(e),
        },
{
    let code_tx_hash: [u8; 32] = match parse_hash(args[0].as_str()) {
        Ok(hash) => hash,
        Err(e) => {
            return Err(e);
        },
    };
    let locked_tx_hash: [u8; 32] = match parse_hash(args[3].as_str()) {
        Ok(hash) => hash,
        Err(e) => {
            return Err(e);
        },
    };
    let preimage: Vec<u8> = match parse_hex(args[1].as_str()) {
        Ok(bytes) => bytes,
        Err(e) => {
            return Err(e);
        },
    };
    Ok(SimpleSpendArgs { code_tx_hash, preimage, idl_path: args[2].clone(), locked_tx_hash })
}

/// Bytes written in hexadecimal on the command line are read back as they were.
pub proof fn simple_spend_reads_back(
    code_tx_hash: Seq<u8>,
    preimage: Seq<u8>,
    idl_path: Seq<char>,
    locked_tx_hash: Seq<u8>,
)
    ensures
        simple_spend(hex_of(code_tx_hash), hex_of(preimage), idl_path, hex_of(locked_tx_hash))
            == Ok::<SimpleSpendView, HexError>(
            SimpleSpendView { code_tx_hash, preimage, idl_path, locked_tx_hash },
        ),
{
    hex_reads_back(code_tx_hash);
    hex_reads_back(preimage);
    hex_reads_back(locked_tx_hash);
}

/// The arguments of `spend-timelock-lock`.
pub struct TimelockSpendArgs {
    pub code_tx_hash: [u8; 32],
    pub signing_key: SecretKey,
    pub unlock_after_ms: u64,
    pub extra: Vec<u8>,
    pub idl_path: String,
    pub locked_tx_hash: [u8; 32],
}

/// The arguments of `spend-timelock-lock` by their contents.
pub struct TimelockSpendView {
    pub code_tx_hash: Seq<u8>,
    pub signing_key: Seq<u8>,
    pub unlock_after_ms: u64,
    pub extra: Seq<u8>,
    pub idl_path: Seq<char>,
    pub locked_tx_hash: Seq<u8>,
}

impl View for TimelockSpendArgs {
    type V = TimelockSpendView;

    open spec fn view(&self) -> TimelockSpendView {
        TimelockSpendView {
            code_tx_hash: self.code_tx_hash@,
            signing_key: self.signing_key@,
            unlock_after_ms: self.unlock_after_ms,
            extra: self.extra@,
            idl_path: self.idl_path@,
            locked_tx_hash: self.locked_tx_hash@,
        }
    }
}

/// Why the arguments of `spend-timelock-lock` cannot be used.
#[derive(Debug, PartialEq, Eq)]
pub enum TimelockArgError {
    /// An argument is not hexadecimal.
    Hex(HexError),
    /// The unlock time is not an unsigned 64-bit number.
    UnlockTime,
    /// The signing key is not 32 bytes long.
    SigningKeyLength,
    /// The signing key is zero, or not below the curve order.
    InvalidSigningKey,
}

impl TimelockArgError {
    /// The text for the user.
    pub open spec fn text(self) -> Seq<char> {
        match self {
            TimelockArgError::Hex(e) => hex_message(e),
            TimelockArgError::UnlockTime => "unlock_after_ms must be a u64"@,
            TimelockArgError::SigningKeyLength => "signing key must be 32 bytes"@,
            TimelockArgError::InvalidSigningKey => "malformed or out-of-range secret key"@,
        }
    }

    /// The message for the user.
    pub fn message(&self) -> (text: String)
        ensures
            text@ == self.text(),
    {
        match self {
            TimelockArgError::Hex(e) => e.message(),
            TimelockArgError::UnlockTime => "unlock_after_ms must be a u64".to_owned(),
            TimelockArgError::SigningKeyLength => "signing key must be 32 bytes".to_owned(),
            TimelockArgError::InvalidSigningKey => InvalidSecretKey.message(),
        }
    }
}

/// The signing key that an argument spells, with or without `0x` in front.
pub open spec fn signing_key_arg(text: Seq<char>) -> Result<Seq<u8>, TimelockArgError> {
    match key_value(text) {
        Err(e) => Err(TimelockArgError::Hex(e)),
        Ok(bytes) => if bytes.len() != 32 {
            Err(TimelockArgError::SigningKeyLength)
        } else if !is_secret_key(bytes) {
            Err(TimelockArgError::InvalidSigningKey)
        } else {
            Ok(bytes)
        },
    }
}

/// What the arguments of `spend-timelock-lock` say: the hash of the code cell's
/// transaction, the signing key, the unlock time, the extra payload, the path of
/// the IDL file, and the hash of the locked cell's transaction. The two hashes
/// are read first, then the time, the payload and the key.
pub open spec fn timelock_spend(
    code: Seq<char>,
    signing_key: Seq<char>,
    unlock_after_ms: Seq<char>,
    extra: Seq<char>,
    idl_path: Seq<char>,
    locked: Seq<char>,
) -> Result<TimelockSpendView, TimelockArgError> {
    match (
        hex_arg(code),
        hex_arg(locked),
        number_of(encode_utf8(unlock_after_ms)),
        hex_arg(extra),
        signing_key_arg(signing_key),
    ) {
        (Err(e), _, _, _, _) => Err(TimelockArgError::Hex(e)),
        (_, Err(e), _, _, _) => Err(TimelockArgError::Hex(e)),
        (_, _, None, _, _) => Err(TimelockArgError::UnlockTime),
        (_, _, _, Err(e), _) => Err(TimelockArgError::Hex(e)),
        (_, _, _, _, Err(e)) => Err(e),
        (Ok(code_tx_hash), Ok(locked_tx_hash), Some(time), Ok(extra), Ok(signing_key)) => Ok(
            TimelockSpendView {
                code_tx_hash,
                signing_key,
                unlock_after_ms: time,
                extra,
                idl_path,
                locked_tx_hash,
            },
        ),
    }
}

/// Reads a signing key in hexadecimal.
fn parse_signing_key(text: &str) -> (result: Result<SecretKey, TimelockArgError>)
    ensures
        match result {
            Ok(key) => signing_key_arg(text@) == Ok::<Seq<u8>, TimelockArgError>(key@),
            Err(e) => signing_key_arg(text@) == Err::<Seq<u8>, TimelockArgError>(e),
        },
{
    let bytes: Vec<u8> = match decode(strip_0x(text.as_bytes())) {
        Ok(bytes) => bytes,
        Err(e) => {
            return Err(TimelockArgError::Hex(e));
        },
    };
    if bytes.len() != 32 {
        return Err(TimelockArgError::SigningKeyLength);
    }
    let array: [u8; 32] = read_array(bytes.as_slice(), 0);
    assert(array@ =~= bytes@);
    match SecretKey::from_byte_array(&array) {
        Ok(key) => Ok(key),
        Err(_) => Err(TimelockArgError::InvalidSigningKey),
    }
}

/// Reads the arguments of `spend-timelock-lock`.
pub fn parse_timelock_spend(args: &[String]) -> (result: Result<
    TimelockSpendArgs,
    TimelockArgError,
>)
    requires
        args@.len() >= 6,
        spend_hashes_fit(args@[0]@, args@[5]@),
    ensures
        match result {
            Ok(parsed) => timelock_spend(
                args@[0]@,
                args@[1]@,
                args@[2]@,
                args@[3]@,
                args@[4]@,
                args@[5]@,
            ) == Ok::<TimelockSpendView, TimelockArgError>(parsed@),
            Err(e) => timelock_spend(
                args@[0]@,
                args@[1]@,
                args@[2]@,
                args@[3]@,
                args@[4]@,
                args@[5]@,
            ) == Err::<TimelockSpendView, TimelockArgError>(e),
        },
{
    let code_tx_hash: [u8; 32] = match parse_hash(args[0].as_str()) {
        Ok(hash) => hash,
        Err(e) => {
            return Err(TimelockArgError::Hex(e));
        },
    };
    let locked_tx_hash: [u8; 32] = match parse_hash(args[5].as_str()) {
        Ok(hash) => hash,
        Err(e) => {
            return Err(TimelockArgError::Hex(e));
        },
    };
    let unlock_after_ms: u64 = match parse_number(args[2].as_str().as_bytes()) {
        Some(time) => time,
        None => {
            return Err(TimelockArgError::UnlockTime);
        },
    };
    let extra: Vec<u8> = match parse_hex(args[3].as_str()) {
        Ok(bytes) => bytes,
        Err(e) => {
            return Err(TimelockArgError::Hex(e));
        },
    };
    let signing_key: SecretKey = match parse_signing_key(args[1].as_str()) {
        Ok(key) => key,
        Err(e) => {
            return Err(e);
        },
    };
    Ok(
        TimelockSpendArgs {
            code_tx_hash,
            signing_key,
            unlock_after_ms,
            extra,
            idl_path: args[4].clone(),
            locked_tx_hash,
        },
    )
}

/// Why the arguments of a command that creates a cell cannot be used.
#[derive(Debug, PartialEq, Eq)]
pub enum CreateArgError {
    /// An argument is not hexadecimal.
    Hex(HexError),
    /// The public key is not 33 bytes long.
    PublicKeyLength,
    /// The commitment is not 32 bytes long.
    CommitmentLength,
}

impl CreateArgError {
    /// The text for the user.
    pub open spec fn text(self) -> Seq<char> {
        match self {
            CreateArgError::Hex(e) => hex_message(e),
            CreateArgError::PublicKeyLength => "public key must be 33 bytes"@,
            CreateArgError::CommitmentLength => "commitment must be 32 bytes"@,
        }
    }

    /// The message for the user.
    pub fn message(&self) -> (text: String)
        ensures
            text@ == self.text(),
    {
        match self {
            CreateArgError::Hex(e) => e.message(),
            CreateArgError::PublicKeyLength => "public key must be 33 bytes".to_owned(),
            CreateArgError::CommitmentLength => "commitment must be 32 bytes".to_owned(),
        }
    }
}

/// The arguments of `create-locked-cell`.
#[derive(Debug)]
pub struct CreateLockedArgs {
    pub code_tx_hash: [u8; 32],
    pub preimage: Vec<u8>,
}

/// Reads the arguments of `create-locked-cell`: the hash of the code cell's
/// transaction, and the preimage.
pub fn parse_create_locked(args: &[String]) -> (result: Result<CreateLockedArgs, CreateArgError>)
    requires
        args@.len() >= 2,
        hash_arg_fits(args@[0]@),
    ensures
        match (hex_arg(args@[0]@), hex_arg(args@[1]@)) {
            (Err(e), _) => result == Err::<CreateLockedArgs, CreateArgError>(
                CreateArgError::Hex(e),
            ),
            (_, Err(e)) => result == Err::<CreateLockedArgs, CreateArgError>(
                CreateArgError::Hex(e),
            ),
            (Ok(code), Ok(preimage)) => result matches Ok(parsed) && parsed.code_tx_hash@ == code
                && parsed.preimage@ == preimage,
        },
{
    let code_tx_hash: [u8; 32] = match parse_hash(args[0].as_str()) {
        Ok(hash) => hash,
        Err(e) => {
            return Err(CreateArgError::Hex(e));
        },
    };
    match parse_hex(args[1].as_str()) {
        Ok(preimage) => Ok(CreateLockedArgs { code_tx_hash, preimage }),
        Err(e) => Err(CreateArgError::Hex(e)),
    }
}

/// The arguments of `create-timelock-cell`.
#[derive(Debug)]
pub struct CreateTimelockArgs {
    pub code_tx_hash: [u8; 32],
    /// The compressed public key of whoever may spend the cell.
    pub public_key: [u8; 33],
    /// The hash that the extra payload must have, or zeros for any payload.
    pub commitment: [u8; 32],
}

/// The arguments of `create-timelock-cell` by their contents.
pub struct CreateTimelockView {
    pub code_tx_hash: Seq<u8>,
    pub public_key: Seq<u8>,
    pub commitment: Seq<u8>,
}

impl View for CreateTimelockArgs {
    type V = CreateTimelockView;

    open spec fn view(&self) -> CreateTimelockView {
        CreateTimelockView {
            code_tx_hash: self.code_tx_hash@,
            public_key: self.public_key@,
            commitment: self.commitment@,
        }
    }
}

/// The commitment that stands for none.
pub open spec fn no_commitment() -> Seq<u8> {
    Seq::new(32, |i: int| 0u8)
}

/// The public key that an argument spells.
pub open spec fn public_key_arg(text: Seq<char>) -> Result<Seq<u8>, CreateArgError> {
    match hex_arg(text) {
        Err(e) => Err(CreateArgError::Hex(e)),
        Ok(bytes) => if bytes.len() != 33 {
            Err(CreateArgError::PublicKeyLength)
        } else {
            Ok(bytes)
        },
    }
}

/// The commitment that an argument spells; no text stands for no commitment.
pub open spec fn commitment_arg(text: Seq<char>) -> Result<Seq<u8>, CreateArgError> {
    match hex_arg(text) {
        Err(e) => Err(CreateArgError::Hex(e)),
        Ok(bytes) => if text.len() == 0 {
            Ok(no_commitment())
        } else if bytes.len() != 32 {
            Err(CreateArgError::CommitmentLength)
        } else {
            Ok(bytes)
        },
    }
}

/// What the arguments of `create-timelock-cell` say: the hash of the code cell's
/// transaction, the public key and the commitment, read in this order.
pub open spec fn create_timelock(code: Seq<char>, public_key: Seq<char>, commitment: Seq<char>) -> Result<
    CreateTimelockView,
    CreateArgError,
> {
    match (hex_arg(code), public_key_arg(public_key), commitment_arg(commitment)) {
        (Err(e), _, _) => Err(CreateArgError::Hex(e)),
        (_, Err(e), _) => Err(e),
        (_, _, Err(e)) => Err(e),
        (Ok(code_tx_hash), Ok(public_key), Ok(commitment)) => Ok(
            CreateTimelockView { code_tx_hash, public_key, commitment },
        ),
    }
}

/// Reads a commitment in hexadecimal.
fn parse_commitment(text: &str) -> (result: Result<[u8; 32], CreateArgError>)
    ensures
        match result {
            Ok(commitment) => commitment_arg(text@) == Ok::<Seq<u8>, CreateArgError>(commitment@),
            Err(e) => commitment_arg(text@) == Err::<Seq<u8>, CreateArgError>(e),
        },
{
    let bytes: Vec<u8> = match parse_hex(text) {
        Ok(bytes) => bytes,
        Err(e) => {
            return Err(CreateArgError::Hex(e));
        },
    };
    if same_text(text, "") {
        let none: [u8; 32] = [0u8;32];
        proof {
            reveal_strlit("");
            assert(none@ =~= no_commitment());
        }
        return Ok(none);
    }
    proof {
        reveal_strlit("");
        assert(text@.len() == 0 ==> text@ =~= ""@);
    }
    if bytes.len() != 32 {
        return Err(CreateArgError::CommitmentLength);
    }
    let commitment: [u8; 32] = read_array(bytes.as_slice(), 0);
    assert(commitment@ =~= bytes@);
    Ok(commitment)
}

/// Reads the arguments of `create-timelock-cell`.
pub fn parse_create_timelock(args: &[String]) -> (result: Result<
    CreateTimelockArgs,
    CreateArgError,
>)
    requires
        args@.len() >= 3,
        hash_arg_fits(args@[0]@),
    ensures
        match result {
            Ok(parsed) => create_timelock(args@[0]@, args@[1]@, args@[2]@) == Ok::<
                CreateTimelockView,
                CreateArgError,
            >(parsed@),
            Err(e) => create_timelock(args@[0]@, args@[1]@, args@[2]@) == Err::<
                CreateTimelockView,
                CreateArgError,
            >(e),
        },
{
    let code_tx_hash: [u8; 32] = match parse_hash(args[0].as_str()) {
        Ok(hash) => hash,
        Err(e) => {
            return Err(CreateArgError::Hex(e));
        },
    };
    let key: Vec<u8> = match parse_hex(args[1].as_str()) {
        Ok(bytes) => bytes,
        Err(e) => {
            return Err(CreateArgError::Hex(e));
        },
    };
    if key.len() != 33 {
        return Err(CreateArgError::PublicKeyLength);
    }
    let public_key: [u8; 33] = read_array(key.as_slice(), 0);
    assert(public_key@ =~= key@);
    match parse_commitment(args[2].as_str()) {
        Ok(commitment) => Ok(CreateTimelockArgs { code_tx_hash, public_key, commitment }),
        Err(e) => Err(e),
    }
}

/// Why the key of a transfer cannot be used.
#[derive(Debug, PartialEq, Eq)]
pub enum SenderKeyError {
    /// The key is not hexadecimal.
    Hex(HexError),
    /// The key is zero, or not below the curve order.
    Invalid,
}

impl SenderKeyError {
    /// The text for the user.
    pub open spec fn text(self) -> Seq<char> {
        match self {
            SenderKeyError::Hex(e) => hex_message(e),
            SenderKeyError::Invalid => "malformed or out-of-range secret key"@,
        }
    }

    /// The message for the user.
    pub fn message(&self) -> (text: String)
        ensures
            text@ == self.text(),
    {
        match self {
            SenderKeyError::Hex(e) => e.message(),
            SenderKeyError::Invalid => InvalidSecretKey.message(),
        }
    }
}

/// Reads the sender's key of a transfer: 32 bytes in hexadecimal, with nothing in
/// front.
pub fn parse_sender_key(text: &str) -> (result: Result<SecretKey, SenderKeyError>)
    requires
        hash_arg_fits(text@),
    ensures
        match (hex_arg(text@), result) {
            (Err(e), Err(SenderKeyError::Hex(got))) => got == e,
            (Ok(bytes), Err(SenderKeyError::Invalid)) => !is_secret_key(bytes),
            (Ok(bytes), Ok(key)) => is_secret_key(bytes) && key@ == bytes,
            _ => false,
        },
{
    match parse_hash(text) {
        Err(e) => Err(SenderKeyError::Hex(e)),
        Ok(bytes) => match SecretKey::from_byte_array(&bytes) {
            Ok(key) => Ok(key),
            Err(_) => Err(SenderKeyError::Invalid),
        },
    }
}

/// Two hashes, a key, a time, a payload and a path, written on the command line in
/// hexadecimal and decimal, are read back as they were, each in its own field. The key may
/// have `0x` in front.
pub proof fn timelock_spend_reads_back(
    code_tx_hash: Seq<u8>,
    signing_key: Seq<u8>,
    unlock_after_ms: u64,
    extra: Seq<u8>,
    idl_path: Seq<char>,
    locked_tx_hash: Seq<u8>,
)
    requires
        signing_key.len() == 32,
        is_secret_key(signing_key),
    ensures
        timelock_spend(
            hex_of(code_tx_hash),
            hex_of(signing_key),
            decimal_text(unlock_after_ms as nat),
            hex_of(extra),
            idl_path,
            hex_of(locked_tx_hash),
        ) == Ok::<TimelockSpendView, TimelockArgError>(
            (TimelockSpendView {
                code_tx_hash,
                signing_key,
                unlock_after_ms,
                extra,
                idl_path,
                locked_tx_hash,
            }),
        ),
        timelock_spend(
            hex_of(code_tx_hash),
            "0x"@ + hex_of(signing_key),
            decimal_text(unlock_after_ms as nat),
            hex_of(extra),
            idl_path,
            hex_of(locked_tx_hash),
        ) == Ok::<TimelockSpendView, TimelockArgError>(
            (TimelockSpendView {
                code_tx_hash,
                signing_key,
                unlock_after_ms,
                extra,
                idl_path,
                locked_tx_hash,
            }),
        ),
{
    hex_reads_back(code_tx_hash);
    hex_reads_back(extra);
    hex_reads_back(locked_tx_hash);
    hex_keys_read_back(signing_key);
    decimal_reads_back(unlock_after_ms);
}

/// Arguments of `spend-timelock-lock` that are taken are kept, each in its own field, as
/// the bytes or the number that the argument spells.
pub proof fn timelock_spend_keeps_each_argument(
    code: Seq<char>,
    signing_key: Seq<char>,
    unlock_after_ms: Seq<char>,
    extra: Seq<char>,
    idl_path: Seq<char>,
    locked: Seq<char>,
)
    ensures
        timelock_spend(code, signing_key, unlock_after_ms, extra, idl_path, locked) matches Ok(
            taken,
        ) ==> {
            &&& hex_value(encode_utf8(code)) == Ok::<Seq<u8>, HexError>(taken.code_tx_hash)
            &&& hex_value(without_0x(encode_utf8(signing_key))) == Ok::<Seq<u8>, HexError>(
                taken.signing_key,
            )
            &&& taken.signing_key.len() == 32
            &&& is_secret_key(taken.signing_key)
            &&& number_of(encode_utf8(unlock_after_ms)) == Some(taken.unlock_after_ms)
            &&& hex_value(encode_utf8(extra)) == Ok::<Seq<u8>, HexError>(taken.extra)
            &&& taken.idl_path == idl_path
            &&& hex_value(encode_utf8(locked)) == Ok::<Seq<u8>, HexError>(taken.locked_tx_hash)
        },
{
}

/// The faults of the arguments of `spend-timelock-lock`, in the order in which they are
/// found: the two hashes, the time, the payload, and the key, for its digits, its length
/// and its value. Without a fault the arguments are taken.
pub proof fn timelock_spend_faults_come_in_order(
    code: Seq<char>,
    signing_key: Seq<char>,
    unlock_after_ms: Seq<char>,
    extra: Seq<char>,
    idl_path: Seq<char>,
    locked: Seq<char>,
)
    ensures
        ({
            let result = timelock_spend(
                code,
                signing_key,
                unlock_after_ms,
                extra,
                idl_path,
                locked,
            );
            let code_value = hex_value(encode_utf8(code));
            let locked_value = hex_value(encode_utf8(locked));
            let time = number_of(encode_utf8(unlock_after_ms));
            let extra_value = hex_value(encode_utf8(extra));
            let key = hex_value(without_0x(encode_utf8(signing_key)));
            let hashes = code_value is Ok && locked_value is Ok;
            let others = hashes && time is Some && extra_value is Ok;
            &&& code_value is Err ==> (result matches Err(e) && e == TimelockArgError::Hex(
                code_value->Err_0,
            ))
            &&& code_value is Ok && locked_value is Err ==> (result matches Err(e) && e
                == TimelockArgError::Hex(locked_value->Err_0))
            &&& hashes && time is None ==> (result matches Err(e) && e
                == TimelockArgError::UnlockTime)
            &&& hashes && time is Some && extra_value is Err ==> (result matches Err(e) && e
                == TimelockArgError::Hex(extra_value->Err_0))
            &&& others && key is Err ==> (result matches Err(e) && e == TimelockArgError::Hex(
                key->Err_0,
            ))
            &&& others && key is Ok && key->Ok_0.len() != 32 ==> (result matches Err(e) && e
                == TimelockArgError::SigningKeyLength)
            &&& others && key is Ok && key->Ok_0.len() == 32 && !is_secret_key(key->Ok_0) ==> (
            result matches Err(e) && e == TimelockArgError::InvalidSigningKey)
            &&& others && key is Ok && key->Ok_0.len() == 32 && is_secret_key(key->Ok_0)
                ==> result is Ok
        }),
{
}

/// Arguments of `spend-simple-lock` that are taken are kept, each in its own field; they
/// are refused for the first of the hashes and the preimage that is not hexadecimal, the
/// hashes first.
pub proof fn simple_spend_keeps_each_argument(
    code: Seq<char>,
    preimage: Seq<char>,
    idl_path: Seq<char>,
    locked: Seq<char>,
)
    ensures
        ({
            let result = simple_spend(code, preimage, idl_path, locked);
            let code_value = hex_value(encode_utf8(code));
            let locked_value = hex_value(encode_utf8(locked));
            let preimage_value = hex_value(encode_utf8(preimage));
            &&& result matches Ok(taken) ==> {
                &&& code_value == Ok::<Seq<u8>, HexError>(taken.code_tx_hash)
                &&& locked_value == Ok::<Seq<u8>, HexError>(taken.locked_tx_hash)
                &&& preimage_value == Ok::<Seq<u8>, HexError>(taken.preimage)
                &&& taken.idl_path == idl_path
            }
            &&& code_value is Ok && locked_value is Ok && preimage_value is Ok ==> result is Ok
            &&& code_value is Err ==> (result matches Err(e) && e == code_value->Err_0)
            &&& code_value is Ok && locked_value is Err ==> (result matches Err(e) && e
                == locked_value->Err_0)
            &&& code_value is Ok && locked_value is Ok && preimage_value is Err ==> (
            result matches Err(e) && e == preimage_value->Err_0)
        }),
{
}

/// Arguments of `create-timelock-cell` that are taken are kept, each in its own field: a
/// hash, a key of 33 bytes, and a commitment of 32 bytes, which are zeros where the text is
/// empty. They are refused for the first that is at fault.
pub proof fn create_timelock_keeps_each_argument(
    code: Seq<char>,
    public_key: Seq<char>,
    commitment: Seq<char>,
)
    ensures
        ({
            let result = create_timelock(code, public_key, commitment);
            let code_value = hex_value(encode_utf8(code));
            let key = hex_value(encode_utf8(public_key));
            let hash = hex_value(encode_utf8(commitment));
            let good_key = key is Ok && key->Ok_0.len() == 33;
            &&& result matches Ok(taken) ==> {
                &&& code_value == Ok::<Seq<u8>, HexError>(taken.code_tx_hash)
                &&& key == Ok::<Seq<u8>, HexError>(taken.public_key)
                &&& taken.public_key.len() == 33
                &&& taken.commitment.len() == 32
                &&& commitment.len() > 0 ==> hash == Ok::<Seq<u8>, HexError>(taken.commitment)
                &&& commitment.len() == 0 ==> forall|i: int|
                    0 <= i < 32 ==> #[trigger] taken.commitment[i] == 0
            }
            &&& code_value is Err ==> (result matches Err(e) && e == CreateArgError::Hex(
                code_value->Err_0,
            ))
            &&& code_value is Ok && key is Err ==> (result matches Err(e) && e
                == CreateArgError::Hex(key->Err_0))
            &&& code_value is Ok && key is Ok && key->Ok_0.len() != 33 ==> (result matches Err(e)
                && e == CreateArgError::PublicKeyLength)
            &&& code_value is Ok && good_key && hash is Err ==> (result matches Err(e) && e
                == CreateArgError::Hex(hash->Err_0))
            &&& code_value is Ok && good_key && hash is Ok && commitment.len() > 0
                && hash->Ok_0.len() != 32 ==> (result matches Err(e) && e
                == CreateArgError::CommitmentLength)
            &&& code_value is Ok && good_key && hash is Ok && (commitment.len() == 0
                || hash->Ok_0.len() == 32) ==> result is Ok
        }),
{
}

/// What a hash argument spells, and when its length fits: it has 32 bytes, or it cannot be
/// read at all. The second hash of a spend counts only where the first can be read.
pub proof fn hash_arguments_have_32_bytes(code: Seq<char>, locked: Seq<char>)
    ensures
        hex_arg(code) == hex_value(encode_utf8(code)),
        hash_arg_fits(code) <==> (hex_value(encode_utf8(code)) is Err || hex_value(
            encode_utf8(code),
        )->Ok_0.len() == 32),
        spend_hashes_fit(code, locked) <==> (hex_value(encode_utf8(code)) is Err || (hex_value(
            encode_utf8(code),
        )->Ok_0.len() == 32 && (hex_value(encode_utf8(locked)) is Err || hex_value(
            encode_utf8(locked),
        )->Ok_0.len() == 32))),
{
}

/// The contents of parsed arguments are their fields.
pub proof fn argument_views_are_fields(
    simple: SimpleSpendArgs,
    timelock: TimelockSpendArgs,
    create: CreateTimelockArgs,
)
    ensures
        simple@.code_tx_hash == simple.code_tx_hash@,
        simple@.preimage == simple.preimage@,
        simple@.idl_path == simple.idl_path@,
        simple@.locked_tx_hash == simple.locked_tx_hash@,
        timelock@.code_tx_hash == timelock.code_tx_hash@,
        timelock@.signing_key == timelock.signing_key@,
        timelock@.unlock_after_ms == timelock.unlock_after_ms,
        timelock@.extra == timelock.extra@,
        timelock@.idl_path == timelock.idl_path@,
        timelock@.locked_tx_hash == timelock.locked_tx_hash@,
        create@.code_tx_hash == create.code_tx_hash@,
        create@.public_key == create.public_key@,
        create@.commitment == create.commitment@,
{
}

/// The messages for arguments that cannot be used.
pub proof fn argument_messages_are_fixed(e: HexError)
    ensures
        TimelockArgError::Hex(e).text() == hex_message(e),
        TimelockArgError::UnlockTime.text() == "unlock_after_ms must be a u64"@,
        TimelockArgError::SigningKeyLength.text() == "signing key must be 32 bytes"@,
        TimelockArgError::InvalidSigningKey.text() == "malformed or out-of-range secret key"@,
        CreateArgError::Hex(e).text() == hex_message(e),
        CreateArgError::PublicKeyLength.text() == "public key must be 33 bytes"@,
        CreateArgError::CommitmentLength.text() == "commitment must be 32 bytes"@,
        SenderKeyError::Hex(e).text() == hex_message(e),
        SenderKeyError::Invalid.text() == "malformed or out-of-range secret key"@,
{
}

} // verus!
