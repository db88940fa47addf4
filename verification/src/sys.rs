//! The system-call errors of the CKB virtual machine, as `ckb_std` reports them.
use ckb_std::error::SysError;
use vstd::prelude::*;

verus! {

/// Declares `ckb_std::error::SysError`, whose variants and fields are all public.
#[verifier::external_type_specification]
pub struct ExSysError(ckb_std::error::SysError);

/// What loading the script gave, with the args by their contents.
pub open spec fn script_view(script: Result<Vec<u8>, SysError>) -> Result<Seq<u8>, SysError> {
    match script {
        Ok(args) => Ok(args@),
        Err(e) => Err(e),
    }
}

/// The contents of loaded args are their bytes, and a failure stays what it is.
pub proof fn loaded_args_are_kept(args: Vec<u8>, e: SysError)
    ensures
        script_view(Ok(args)) == Ok::<Seq<u8>, SysError>(args@),
        script_view(Err(e)) == Err::<Seq<u8>, SysError>(e),
{
}

} // verus!
