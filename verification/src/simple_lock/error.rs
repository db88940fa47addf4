//! Exit codes of the simple-lock script.
use ckb_std::error::SysError;
use vstd::pervasive::unreached;
use vstd::prelude::*;

verus! {

/// Why the simple-lock script refuses to unlock a cell.
#[derive(Debug, Clone, Copy, PartialEq, Eq, Structural)]
pub enum Error {
    IndexOutOfBound,
    ItemMissing,
    LengthNotEnough,
    Encoding,
    InvalidFd,
    WaitFailure,
    OtherEndClosed,
    MaxVmsSpawned,
    MaxFdsCreated,
    /// The script args are not a 32-byte hash.
    InvalidArgsLength,
    /// There is no witness, or it does not spell a preimage.
    MissingWitness,
    /// The preimage does not have the hash in the script args.
    HashMismatch,
}

/// The script error that stands for a failed system call.
pub open spec fn error_of_sys(err: SysError) -> Error {
    match err {
        SysError::IndexOutOfBound => Error::IndexOutOfBound,
        SysError::ItemMissing => Error::ItemMissing,
        SysError::LengthNotEnough(_) => Error::LengthNotEnough,
        SysError::Encoding => Error::Encoding,
        SysError::InvalidFd => Error::InvalidFd,
        SysError::WaitFailure => Error::WaitFailure,
        SysError::OtherEndClosed => Error::OtherEndClosed,
        SysError::MaxVmsSpawned => Error::MaxVmsSpawned,
        SysError::MaxFdsCreated => Error::MaxFdsCreated,
        SysError::Unknown(_) => arbitrary(),
    }
}

impl Error {
    /// The error of a failed system call. An unknown error number has none.
    pub fn from(err: SysError) -> (error: Error)
        requires
            !(err is Unknown),
        ensures
            error == error_of_sys(err),
    {
        match err {
            SysError::IndexOutOfBound => Error::IndexOutOfBound,
            SysError::ItemMissing => Error::ItemMissing,
            SysError::LengthNotEnough(_) => Error::LengthNotEnough,
            SysError::Encoding => Error::Encoding,
            SysError::InvalidFd => Error::InvalidFd,
            SysError::WaitFailure => Error::WaitFailure,
            SysError::OtherEndClosed => Error::OtherEndClosed,
            SysError::MaxVmsSpawned => Error::MaxVmsSpawned,
            SysError::MaxFdsCreated => Error::MaxFdsCreated,
            SysError::Unknown(_) => unreached(),
        }
    }

    /// The exit code that the virtual machine reports for this error.
    pub open spec fn exit_code(self) -> i8 {
        match self {
            Error::IndexOutOfBound => 1,
            Error::ItemMissing => 2,
            Error::LengthNotEnough => 3,
            Error::Encoding => 4,
            Error::InvalidFd => 5,
            Error::WaitFailure => 6,
            Error::OtherEndClosed => 7,
            Error::MaxVmsSpawned => 8,
            Error::MaxFdsCreated => 9,
            Error::InvalidArgsLength => 10,
            Error::MissingWitness => 11,
            Error::HashMismatch => 12,
        }
    }

    /// The exit code that the virtual machine reports for this error.
    pub fn code(self) -> (code: i8)
        ensures
            code == self.exit_code(),
    {
        match self {
            Error::IndexOutOfBound => 1,
            Error::ItemMissing => 2,
            Error::LengthNotEnough => 3,
            Error::Encoding => 4,
            Error::InvalidFd => 5,
            Error::WaitFailure => 6,
            Error::OtherEndClosed => 7,
            Error::MaxVmsSpawned => 8,
            Error::MaxFdsCreated => 9,
            Error::InvalidArgsLength => 10,
            Error::MissingWitness => 11,
            Error::HashMismatch => 12,
        }
    }
}

/// An exit code tells which error it was, and never reads as success.
pub proof fn exit_codes_identify_errors(a: Error, b: Error)
    ensures
        a.exit_code() != 0,
        a.exit_code() == b.exit_code() ==> a == b,
{
}

/// The exit code of each error.
pub proof fn exit_codes_are_fixed()
    ensures
        Error::IndexOutOfBound.exit_code() == 1,
        Error::ItemMissing.exit_code() == 2,
        Error::LengthNotEnough.exit_code() == 3,
        Error::Encoding.exit_code() == 4,
        Error::InvalidFd.exit_code() == 5,
        Error::WaitFailure.exit_code() == 6,
        Error::OtherEndClosed.exit_code() == 7,
        Error::MaxVmsSpawned.exit_code() == 8,
        Error::MaxFdsCreated.exit_code() == 9,
        Error::InvalidArgsLength.exit_code() == 10,
        Error::MissingWitness.exit_code() == 11,
        Error::HashMismatch.exit_code() == 12,
{
}

/// A failed system call is reported as itself.
pub proof fn system_errors_keep_their_names(actual: usize)
    ensures
        error_of_sys(SysError::IndexOutOfBound) == Error::IndexOutOfBound,
        error_of_sys(SysError::ItemMissing) == Error::ItemMissing,
        error_of_sys(SysError::LengthNotEnough(actual)) == Error::LengthNotEnough,
        error_of_sys(SysError::Encoding) == Error::Encoding,
        error_of_sys(SysError::InvalidFd) == Error::InvalidFd,
        error_of_sys(SysError::WaitFailure) == Error::WaitFailure,
        error_of_sys(SysError::OtherEndClosed) == Error::OtherEndClosed,
        error_of_sys(SysError::MaxVmsSpawned) == Error::MaxVmsSpawned,
        error_of_sys(SysError::MaxFdsCreated) == Error::MaxFdsCreated,
{
}

} // verus!
