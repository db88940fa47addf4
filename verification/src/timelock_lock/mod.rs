//! The timelock-lock script: its args and its exit codes.
use vstd::prelude::*;

pub mod error;

use crate::bytes::push_bytes;

verus! {

/// The number of bytes in a compressed public key.
pub const PUBLIC_KEY_LEN: usize = 33;

/// The number of bytes in the script args: a compressed public key, then the
/// hash of the extra payload.
pub const ARGS_LEN: usize = 65;

/// The script args for a public key and a commitment to the extra payload. The
/// key stands in the first 33 bytes, the commitment in the other 32.
pub fn lock_args(public_key: &[u8; 33], commitment: &[u8; 32]) -> (args: Vec<u8>)
    ensures
        args@ == public_key@ + commitment@,
        args@.len() == ARGS_LEN,
        args@.take(PUBLIC_KEY_LEN as int) == public_key@,
        args@.skip(PUBLIC_KEY_LEN as int) == commitment@,
{
    let mut args: Vec<u8> = Vec::new();
    push_bytes(&mut args, public_key.as_slice());
    push_bytes(&mut args, commitment.as_slice());
    assert(args@ =~= public_key@ + commitment@);
    assert(args@.take(PUBLIC_KEY_LEN as int) =~= public_key@);
    assert(args@.skip(PUBLIC_KEY_LEN as int) =~= commitment@);
    args
}

} // verus!
