//! The simple-lock script: whoever knows the preimage of the hash in the script
//! args may spend the cell.
use vstd::prelude::*;

pub mod error;
pub mod witness;

use ckb_std::error::SysError;
use crate::bytes::same_bytes;
use crate::hash::{blake2b_256, blake2b_digest};
use crate::sys::script_view;
use crate::wire::bytes_field;
use self::error::{error_of_sys, Error};
use self::witness::{length_decides, loaded_preimage, loaded_view, preimage_reads_back, Witness};

verus! {

/// The hash that the preimage must have, or why the script args hold none.
pub open spec fn expected_hash(script: Result<Seq<u8>, SysError>) -> Result<Seq<u8>, Error> {
    match script {
        Err(e) => Err(error_of_sys(e)),
        Ok(args) => if args.len() != 32 {
            Err(Error::InvalidArgsLength)
        } else {
            Ok(args)
        },
    }
}

/// The preimage that the spender offers, or why the script stops before it
/// hashes one: the args are looked at first, then the witness.
pub open spec fn offered_preimage(
    script: Result<Seq<u8>, SysError>,
    loaded: Result<Option<Seq<u8>>, SysError>,
) -> Result<Seq<u8>, Error> {
    match expected_hash(script) {
        Err(e) => Err(e),
        Ok(_) => match loaded_preimage(loaded) {
            Err(_) => Err(Error::MissingWitness),
            Ok(preimage) => Ok(preimage),
        },
    }
}

/// Reads the preimage that the spender offers.
pub fn offer(
    script: &Result<Vec<u8>, SysError>,
    loaded: &Result<Option<Vec<u8>>, SysError>,
) -> (result: Result<Witness, Error>)
    requires
        !(*script matches Err(SysError::Unknown(_))),
    ensures
        match result {
            Ok(witness) => offered_preimage(script_view(*script), loaded_view(*loaded)) == Ok::<Seq<u8>, Error>(
                witness.preimage@,
            ),
            Err(e) => offered_preimage(script_view(*script), loaded_view(*loaded)) == Err::<Seq<u8>, Error>(e),
        },
{
    match script {
        Err(e) => {
            return Err(Error::from(*e));
        },
        Ok(args) => {
            if args.len() != 32 {
                return Err(Error::InvalidArgsLength);
            }
        },
    }
    match Witness::from_witness_args(loaded) {
        Ok(witness) => Ok(witness),
        Err(_) => Err(Error::MissingWitness),
    }
}

/// Compares the hash of the preimage with the hash in the script args.
pub fn compare_hash(actual: &[u8; 32], expected: &[u8]) -> (result: Result<(), Error>)
    ensures
        result == if actual@ == expected@ {
            Ok::<(), Error>(())
        } else {
            Err(Error::HashMismatch)
        },
{
    if same_bytes(actual.as_slice(), expected) {
        Ok(())
    } else {
        Err(Error::HashMismatch)
    }
}

/// What the script decides: `script` is what loading the script gave (its args,
/// or the failure), `loaded` what loading the witness args gave (their lock
/// field, or the failure).
pub open spec fn verdict(
    script: Result<Seq<u8>, SysError>,
    loaded: Result<Option<Seq<u8>>, SysError>,
) -> Result<(), Error> {
    match (expected_hash(script), offered_preimage(script, loaded)) {
        (Ok(expected), Ok(preimage)) => if blake2b_digest(preimage) == expected {
            Ok(())
        } else {
            Err(Error::HashMismatch)
        },
        (_, Err(e)) => Err(e),
        (Err(e), _) => Err(e),
    }
}

/// Checks that the witness holds the preimage of the hash in the script args.
pub fn check_hash(
    script: &Result<Vec<u8>, SysError>,
    loaded: &Result<Option<Vec<u8>>, SysError>,
) -> (result: Result<(), Error>)
    requires
        !(*script matches Err(SysError::Unknown(_))),
    ensures
        result == verdict(script_view(*script), loaded_view(*loaded)),
{
    let witness: Witness = match offer(script, loaded) {
        Ok(witness) => witness,
        Err(e) => {
            return Err(e);
        },
    };
    let actual: [u8; 32] = blake2b_256(witness.preimage.as_slice());
    match script {
        Ok(expected) => compare_hash(&actual, expected.as_slice()),
        Err(e) => Err(Error::from(*e)),
    }
}

/// Runs the script: zero to unlock the cell, else the error's exit code.
pub fn program_entry(
    script: &Result<Vec<u8>, SysError>,
    loaded: &Result<Option<Vec<u8>>, SysError>,
) -> (code: i8)
    requires
        !(*script matches Err(SysError::Unknown(_))),
    ensures
        code == match verdict(script_view(*script), loaded_view(*loaded)) {
            Ok(_) => 0i8,
            Err(e) => e.exit_code(),
        },
{
    match check_hash(script, loaded) {
        Ok(_) => 0,
        Err(e) => e.code(),
    }
}

/// A cell unlocks for the encoding of exactly those preimages that have the hash
/// in its args.
pub proof fn preimages_unlock(args: Seq<u8>, preimage: Seq<u8>)
    requires
        args.len() == 32,
        preimage.len() <= u32::MAX,
    ensures
        verdict(Ok(args), Ok(Some(bytes_field(preimage)))) is Ok <==> blake2b_digest(preimage)
            == args,
        blake2b_digest(preimage) != args ==> verdict(Ok(args), Ok(Some(bytes_field(preimage))))
            == Err::<(), Error>(Error::HashMismatch),
{
    preimage_reads_back(preimage);
}

/// Whatever the args, a cell stays locked without a witness that reads as a
/// preimage.
pub proof fn no_preimage_no_unlock(
    script: Result<Seq<u8>, SysError>,
    loaded: Result<Option<Seq<u8>>, SysError>,
)
    requires
        loaded_preimage(loaded) is Err,
    ensures
        verdict(script, loaded) is Err,
        expected_hash(script) is Ok ==> verdict(script, loaded) == Err::<(), Error>(
            Error::MissingWitness,
        ),
{
}

/// A cell unlocks if and only if the four bytes at the front of the lock field spell
/// how many bytes follow, lowest byte first, and the hash of those bytes is in the
/// args. A lock field of another shape is a missing witness; other bytes are a
/// mismatch.
pub proof fn unlocks_for_the_hashed_bytes(args: Seq<u8>, buf: Seq<u8>)
    requires
        args.len() == 32,
    ensures
        ({
            let well_formed = buf.len() >= 4 && buf[0] + 0x100 * buf[1] + 0x1_0000 * buf[2]
                + 0x100_0000 * buf[3] == buf.len() - 4;
            let result = verdict(Ok(args), Ok(Some(buf)));
            &&& result is Ok <==> well_formed && blake2b_digest(buf.skip(4)) == args
            &&& !well_formed ==> result == Err::<(), Error>(Error::MissingWitness)
            &&& well_formed && blake2b_digest(buf.skip(4)) != args ==> result == Err::<(), Error>(
                Error::HashMismatch,
            )
        }),
{
    length_decides(buf);
}

/// Args that are no hash, or a script that cannot be loaded, decide before any
/// witness is looked at; with good args a witness that is not there is missing.
pub proof fn args_decide_first(
    args: Seq<u8>,
    e: SysError,
    loaded: Result<Option<Seq<u8>>, SysError>,
)
    ensures
        args.len() != 32 ==> verdict(Ok(args), loaded) == Err::<(), Error>(
            Error::InvalidArgsLength,
        ),
        verdict(Err(e), loaded) == Err::<(), Error>(error_of_sys(e)),
        args.len() == 32 ==> verdict(Ok(args), Ok(None)) == Err::<(), Error>(Error::MissingWitness),
        args.len() == 32 ==> verdict(Ok(args), Err(e)) == Err::<(), Error>(Error::MissingWitness),
{
}

} // verus!
