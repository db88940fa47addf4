//! Verified core of a CKB lock-script workspace: what its on-chain scripts
//! decide, and what its deployer puts into transactions.
//!
//! - On-chain scripts: `sudt`, `simple_lock`, `timelock_lock`, over the system
//!   errors in `sys`.
//! - Deployer: `commands`, `config` and `args` read what the user says;
//!   `deploy_script` and `spend` plan transactions; `idl` commits to interface
//!   descriptions and validates witnesses; `keygen` makes accounts.
//! - Formats: `wire` for witnesses, `script`, `cell`, `transaction` and `address`
//!   for the chain, `hex_text`, `text`, `endian` and `bytes` below them.
//! - Cryptography: `hash` and `key`.

pub mod address;
pub mod args;
pub mod bytes;
pub mod cell;
pub mod commands;
pub mod config;
pub mod deploy_script;
pub mod endian;
pub mod hash;
pub mod hex_text;
pub mod idl;
pub mod key;
pub mod keygen;
pub mod script;
pub mod simple_lock;
pub mod spend;
pub mod sudt;
pub mod sys;
pub mod text;
pub mod timelock_lock;
pub mod transaction;
pub mod wire;
