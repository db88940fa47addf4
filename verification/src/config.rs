//! The deployer's configuration, as the environment gives it.
use vstd::prelude::*;
use vstd::utf8::encode_utf8;

use crate::bytes::read_array;
use crate::hex_text::{decode, hex_message, hex_of, hex_reads_back, hex_value, HexError};
use crate::key::{is_secret_key, InvalidSecretKey, SecretKey};
use crate::text::{strip_0x, without_0x};

verus! {

/// The deployer's key, its address, and the node that it talks to.
#[derive(Debug)]
pub struct Config {
    pub private_key_bytes: [u8; 32],
    pub address: String,
    pub ckb_rpc: String,
}

/// A configuration by its contents.
pub struct ConfigView {
    pub private_key_bytes: Seq<u8>,
    pub address: Seq<char>,
    pub ckb_rpc: Seq<char>,
}

impl View for Config {
    type V = ConfigView;

    open spec fn view(&self) -> ConfigView {
        ConfigView {
            private_key_bytes: self.private_key_bytes@,
            address: self.address@,
            ckb_rpc: self.ckb_rpc@,
        }
    }
}

/// Why the environment gives no configuration.
#[derive(Debug, PartialEq, Eq)]
pub enum ConfigError {
    /// `PRIVATE_KEY` is not set.
    MissingPrivateKey,
    /// `TESTNET_ADDRESS` is not set.
    MissingAddress,
    /// `PRIVATE_KEY` is not hexadecimal.
    KeyNotHex(HexError),
    /// `PRIVATE_KEY` is not 32 bytes long.
    KeyLength,
}

impl ConfigError {
    /// The text for the user.
    pub open spec fn text(self) -> Seq<char> {
        match self {
            ConfigError::MissingPrivateKey => "PRIVATE_KEY not set in .env"@,
            ConfigError::MissingAddress => "TESTNET_ADDRESS not set in .env"@,
            ConfigError::KeyNotHex(_) => "PRIVATE_KEY is not valid hex"@,
            ConfigError::KeyLength => "PRIVATE_KEY must be exactly 32 bytes (64 hex chars)"@,
        }
    }

    /// The message for the user.
    pub fn message(&self) -> (text: &'static str)
        ensures
            text@ == self.text(),
    {
        match self {
            ConfigError::MissingPrivateKey => "PRIVATE_KEY not set in .env",
            ConfigError::MissingAddress => "TESTNET_ADDRESS not set in .env",
            ConfigError::KeyNotHex(_) => "PRIVATE_KEY is not valid hex",
            ConfigError::KeyLength => "PRIVATE_KEY must be exactly 32 bytes (64 hex chars)",
        }
    }

    /// What lies behind the error, if there is more to say.
    pub fn cause(&self) -> (cause: Option<String>)
        ensures
            match (*self, cause) {
                (ConfigError::KeyNotHex(e), Some(text)) => text@ == hex_message(e),
                (ConfigError::KeyNotHex(_), None) => false,
                (_, cause) => cause is None,
            },
    {
        match self {
            ConfigError::KeyNotHex(e) => Some(e.message()),
            _ => None,
        }
    }
}

/// The text of an optional variable.
pub open spec fn variable(value: Option<String>) -> Option<Seq<char>> {
    match value {
        Some(text) => Some(text@),
        None => None,
    }
}

/// The bytes of a private key that is written as hexadecimal text, with or
/// without `0x` in front.
pub open spec fn key_value(text: Seq<char>) -> Result<Seq<u8>, HexError> {
    hex_value(without_0x(encode_utf8(text)))
}

/// The configuration that three variables give.
pub open spec fn configuration(
    private_key: Option<Seq<char>>,
    address: Option<Seq<char>>,
    ckb_rpc: Option<Seq<char>>,
) -> Result<ConfigView, ConfigError> {
    match (private_key, address) {
        (None, _) => Err(ConfigError::MissingPrivateKey),
        (Some(_), None) => Err(ConfigError::MissingAddress),
        (Some(key), Some(address)) => match key_value(key) {
            Err(e) => Err(ConfigError::KeyNotHex(e)),
            Ok(bytes) => if bytes.len() != 32 {
                Err(ConfigError::KeyLength)
            } else {
                Ok(
                    ConfigView {
                        private_key_bytes: bytes,
                        address,
                        ckb_rpc: match ckb_rpc {
                            Some(url) => url,
                            None => "https://testnet.ckb.dev:8114"@,
                        },
                    },
                )
            },
        },
    }
}

impl Config {
    /// Reads the configuration from the values of `PRIVATE_KEY`,
    /// `TESTNET_ADDRESS` and `CKB_RPC`, each of which may be unset. The last has
    /// a default.
    pub fn from_env(
        private_key: Option<String>,
        address: Option<String>,
        ckb_rpc: Option<String>,
    ) -> (result: Result<Config, ConfigError>)
        ensures
            match result {
                Ok(config) => configuration(
                    variable(private_key),
                    variable(address),
                    variable(ckb_rpc),
                ) == Ok::<ConfigView, ConfigError>(config@),
                Err(e) => configuration(variable(private_key), variable(address), variable(ckb_rpc))
                    == Err::<ConfigView, ConfigError>(e),
            },
    {
        let private_key_hex: String = match private_key {
            Some(text) => text,
            None => {
                return Err(ConfigError::MissingPrivateKey);
            },
        };
        let address: String = match address {
            Some(text) => text,
            None => {
                return Err(ConfigError::MissingAddress);
            },
        };
        let ckb_rpc: String = match ckb_rpc {
            Some(text) => text,
            None => "https://testnet.ckb.dev:8114".to_owned(),
        };
        match decode(strip_0x(private_key_hex.as_str().as_bytes())) {
            Err(e) => Err(ConfigError::KeyNotHex(e)),
            Ok(bytes) => {
                if bytes.len() != 32 {
                    return Err(ConfigError::KeyLength);
                }
                let private_key_bytes: [u8; 32] = read_array(bytes.as_slice(), 0);
                assert(private_key_bytes@ =~= bytes@);
                Ok(Config { private_key_bytes, address, ckb_rpc })
            },
        }
    }

    /// The deployer's secret key.
    pub fn secret_key(&self) -> (result: Result<SecretKey, InvalidSecretKey>)
        ensures
            result is Ok <==> is_secret_key(self@.private_key_bytes),
            result matches Ok(key) ==> key@ == self@.private_key_bytes,
    {
        SecretKey::from_byte_array(&self.private_key_bytes)
    }
}

/// What three variables make a configuration of: the bytes that the key spells in
/// hexadecimal, 32 of them, the address as it is, and the node as it is, or the public
/// one of the test network.
pub proof fn variables_are_kept(key: Seq<char>, address: Seq<char>, ckb_rpc: Option<Seq<char>>)
    ensures
        configuration(Some(key), Some(address), ckb_rpc) is Ok <==> (hex_value(
            without_0x(encode_utf8(key)),
        ) matches Ok(bytes) && bytes.len() == 32),
        configuration(Some(key), Some(address), ckb_rpc) matches Ok(config) ==> {
            &&& hex_value(without_0x(encode_utf8(key))) == Ok::<Seq<u8>, HexError>(
                config.private_key_bytes,
            )
            &&& config.private_key_bytes.len() == 32
            &&& config.address == address
            &&& ckb_rpc matches Some(url) ==> config.ckb_rpc == url
            &&& ckb_rpc is None ==> config.ckb_rpc == "https://testnet.ckb.dev:8114"@
        },
{
}

/// The faults of the variables, in the order in which they are found: the key is not
/// there, the address is not there, the key is not hexadecimal, the key has another length.
pub proof fn variable_faults_come_in_order(
    key: Seq<char>,
    address: Option<Seq<char>>,
    ckb_rpc: Option<Seq<char>>,
)
    ensures
        configuration(None, address, ckb_rpc) == Err::<ConfigView, ConfigError>(
            ConfigError::MissingPrivateKey,
        ),
        configuration(Some(key), None, ckb_rpc) == Err::<ConfigView, ConfigError>(
            ConfigError::MissingAddress,
        ),
        address is Some ==> {
            &&& hex_value(without_0x(encode_utf8(key))) matches Err(e) ==> configuration(
                Some(key),
                address,
                ckb_rpc,
            ) == Err::<ConfigView, ConfigError>(ConfigError::KeyNotHex(e))
            &&& hex_value(without_0x(encode_utf8(key))) matches Ok(bytes) ==> (bytes.len() != 32
                ==> configuration(Some(key), address, ckb_rpc) == Err::<ConfigView, ConfigError>(
                ConfigError::KeyLength,
            ))
        },
{
}

/// The contents of a configuration are its fields, and those of a variable its text.
pub proof fn config_views_are_fields(config: Config, text: String)
    ensures
        config@.private_key_bytes == config.private_key_bytes@,
        config@.address == config.address@,
        config@.ckb_rpc == config.ckb_rpc@,
        variable(Some(text)) == Some(text@),
        variable(None) == None::<Seq<char>>,
{
}

/// The messages for a configuration that is not there.
pub proof fn config_messages_are_fixed(e: HexError)
    ensures
        ConfigError::MissingPrivateKey.text() == "PRIVATE_KEY not set in .env"@,
        ConfigError::MissingAddress.text() == "TESTNET_ADDRESS not set in .env"@,
        ConfigError::KeyNotHex(e).text() == "PRIVATE_KEY is not valid hex"@,
        ConfigError::KeyLength.text() == "PRIVATE_KEY must be exactly 32 bytes (64 hex chars)"@,
{
}

/// A key in hexadecimal, with or without `0x` in front, is read as the bytes that it was
/// made of.
pub proof fn hex_keys_read_back(key: Seq<u8>)
    ensures
        key_value(hex_of(key)) == Ok::<Seq<u8>, HexError>(key),
        key_value("0x"@ + hex_of(key)) == Ok::<Seq<u8>, HexError>(key),
{
    let digits = hex_of(key);
    let text = "0x"@ + digits;
    reveal_strlit("0x");
    assert forall|i: int| 0 <= i < digits.len() implies '\0' <= #[trigger] digits[i] <= 'f' by {
        assert(key[i / 2] as nat / 16 < 16);
        assert(key[i / 2] as nat % 16 < 16);
    }
    vstd::utf8::is_ascii_chars_encode_utf8(digits);
    vstd::utf8::is_ascii_chars_encode_utf8(text);
    let bytes = encode_utf8(text);
    assert(bytes.skip(2) =~= encode_utf8(digits));
    assert(bytes[0] == 48 && bytes[1] == 120);
    if key.len() > 0 {
        assert(digits[1] != 'x') by {
            assert(key[0] as nat % 16 < 16);
        }
        assert(encode_utf8(digits)[1] != 120);
    }
    assert(without_0x(encode_utf8(digits)) == encode_utf8(digits));
    assert(without_0x(bytes) == encode_utf8(digits));
    hex_reads_back(key);
}

} // verus!
