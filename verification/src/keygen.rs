//! One-time generation of a key and its addresses.
use vstd::prelude::*;

use crate::address::{
    address_text, format_address, is_default_lock, lock_of_address, sighash_code_hash,
    sighash_type_hash,
};
use crate::bytes::copy_range;
use crate::config::{configuration, hex_keys_read_back};
use crate::hash::{blake2b_256, blake2b_digest};
use crate::hex_text::{encode, hex_of};
use crate::key::{public_key_of, SecretKey};
use crate::script::{HashType, Script, ScriptView};

verus! {

/// The default lock with the given args.
pub open spec fn default_lock(args: Seq<u8>) -> ScriptView {
    ScriptView { code_hash: sighash_code_hash(), hash_type: HashType::Type, args }
}

/// The default lock of whoever holds the key with this hash: its args are the
/// first 20 bytes of the blake2b hash of the compressed public key.
pub fn lock_of_key_hash(hash: &[u8; 32]) -> (lock: Script)
    ensures
        lock@ == default_lock(hash@.take(20)),
        is_default_lock(lock@),
        lock.args@ == hash@.subrange(0, 20),
        lock.code_hash@ == sighash_code_hash(),
        lock.hash_type == HashType::Type,
{
    let args: Vec<u8> = copy_range(hash.as_slice(), 0, 20);
    assert(args@ =~= hash@.take(20));
    Script { code_hash: sighash_type_hash(), hash_type: HashType::Type, args }
}

/// A key with the texts that a user needs of it.
#[derive(Debug, PartialEq, Eq)]
pub struct Account {
    /// The secret key in hexadecimal, with `0x` in front.
    pub private_key: String,
    pub testnet_address: String,
    pub mainnet_address: String,
}

/// The text of a secret key.
pub open spec fn private_key_text(secret: Seq<u8>) -> Seq<char> {
    "0x"@ + hex_of(secret)
}

/// The lock of whoever holds a secret key.
pub open spec fn key_lock(secret: Seq<u8>) -> ScriptView {
    default_lock(blake2b_digest(public_key_of(secret)).take(20))
}

/// Puts `0x` in front of hexadecimal digits.
fn with_0x(digits: &str) -> (text: String)
    ensures
        text@ == "0x"@ + digits@,
{
    let mut text: String = "0x".to_owned();
    text.append(digits);
    text
}

impl Account {
    /// The account of a secret key. Both addresses stand for the lock of the key.
    pub fn of_key(key: &SecretKey) -> (account: Account)
        ensures
            account.private_key@ == private_key_text(key@),
            account.testnet_address@ == address_text(
                true,
                key_lock(key@).code_hash,
                key_lock(key@).hash_type.byte(),
                key_lock(key@).args,
            ),
            account.mainnet_address@ == address_text(
                false,
                key_lock(key@).code_hash,
                key_lock(key@).hash_type.byte(),
                key_lock(key@).args,
            ),
            lock_of_address(account.testnet_address@) == Ok::<ScriptView, Option<Seq<char>>>(
                key_lock(key@),
            ),
            lock_of_address(account.mainnet_address@) == Ok::<ScriptView, Option<Seq<char>>>(
                key_lock(key@),
            ),
    {
        let public: [u8; 33] = key.public_key();
        let hash: [u8; 32] = blake2b_256(public.as_slice());
        let lock: Script = lock_of_key_hash(&hash);
        let digits: String = encode(key.secret_bytes().as_slice());
        Account {
            private_key: with_0x(digits.as_str()),
            testnet_address: format_address(true, &lock),
            mainnet_address: format_address(false, &lock),
        }
    }
}

/// The private key text of an account configures the deployer with that key.
pub proof fn account_key_configures(
    secret: Seq<u8>,
    address: Seq<char>,
    ckb_rpc: Option<Seq<char>>,
)
    requires
        secret.len() == 32,
    ensures
        configuration(Some(private_key_text(secret)), Some(address), ckb_rpc) matches Ok(config)
            && config.private_key_bytes == secret && config.address == address,
{
    hex_keys_read_back(secret);
}

/// The lock of a key holder: the default lock, found by its type, with the first 20 bytes
/// of the hash of the compressed public key as args.
pub proof fn key_locks_hold_the_key_hash(secret: Seq<u8>)
    requires
        blake2b_digest(public_key_of(secret)).len() == 32,
    ensures
        ({
            let lock = key_lock(secret);
            let hash = blake2b_digest(public_key_of(secret));
            &&& lock.code_hash == sighash_code_hash()
            &&& lock.hash_type == HashType::Type
            &&& lock.args.len() == 20
            &&& forall|i: int| 0 <= i < 20 ==> #[trigger] lock.args[i] == hash[i]
        }),
{
}

/// The text of a key: `0x`, then two digits for each of its bytes.
pub proof fn key_texts_are_hex(secret: Seq<u8>)
    ensures
        private_key_text(secret) == "0x"@ + hex_of(secret),
        private_key_text(secret).len() == 2 + 2 * secret.len(),
{
    reveal_strlit("0x");
}

} // verus!
