//! The witness of the simple-lock script.
use ckb_std::error::SysError;
use vstd::prelude::*;

use crate::bytes::copy_range;
use crate::endian::{
    four_bytes_spell, le_bytes, lemma_le_bytes_len, lemma_le_bytes_of_value, lemma_le_value_bound,
    lemma_le_value_of_bytes, lemma_pow256_values, le_value, read_le,
};
use crate::wire::{bytes_field, PREFIX_LEN};

verus! {

/// Witness for the simple-lock script.
///
/// The lock unlocks a cell if blake2b_256(preimage) equals the 32-byte hash
/// stored in the script args. The preimage is provided by the spender.
#[derive(Debug, PartialEq, Eq)]
pub struct Witness {
    /// Preimage whose blake2b-256 hash must match the hash in script args.
    pub preimage: Vec<u8>,
}

/// Why a witness cannot be read.
#[derive(Debug, PartialEq, Eq)]
pub enum WitnessError {
    /// Loading the witness args failed.
    Load(SysError),
    /// The witness args have no lock field.
    MissingLockField,
    /// The buffer ends before the next `expected` bytes; `got` are left.
    FieldTooShort { expected: usize, got: usize },
    /// Bytes are left over after the last field.
    TrailingBytes { consumed: usize, total: usize },
}

/// The preimage in the lock field of the witness args.
pub open spec fn preimage_of(buf: Seq<u8>) -> Result<Seq<u8>, WitnessError> {
    let claimed = le_value(buf.take(PREFIX_LEN as int));
    if buf.len() < PREFIX_LEN {
        Err(WitnessError::FieldTooShort { expected: PREFIX_LEN, got: buf.len() as usize })
    } else if buf.len() < PREFIX_LEN + claimed {
        Err(
            WitnessError::FieldTooShort {
                expected: claimed as usize,
                got: (buf.len() - PREFIX_LEN) as usize,
            },
        )
    } else if buf.len() > PREFIX_LEN + claimed {
        Err(
            WitnessError::TrailingBytes {
                consumed: (PREFIX_LEN + claimed) as usize,
                total: buf.len() as usize,
            },
        )
    } else {
        Ok(buf.skip(PREFIX_LEN as int))
    }
}

/// What loading the witness args gave, with the lock field by its contents.
pub open spec fn loaded_view(loaded: Result<Option<Vec<u8>>, SysError>) -> Result<
    Option<Seq<u8>>,
    SysError,
> {
    match loaded {
        Err(e) => Err(e),
        Ok(None) => Ok(None),
        Ok(Some(buf)) => Ok(Some(buf@)),
    }
}

/// What loading the witness args gave, read as a preimage.
pub open spec fn loaded_preimage(loaded: Result<Option<Seq<u8>>, SysError>) -> Result<
    Seq<u8>,
    WitnessError,
> {
    match loaded {
        Err(e) => Err(WitnessError::Load(e)),
        Ok(None) => Err(WitnessError::MissingLockField),
        Ok(Some(buf)) => preimage_of(buf),
    }
}

impl Witness {
    /// Reads the witness from what loading the witness args gave: their lock
    /// field, if there is one, or the failure.
    pub fn from_witness_args(loaded: &Result<Option<Vec<u8>>, SysError>) -> (result: Result<
        Witness,
        WitnessError,
    >)
        ensures
            match result {
                Ok(witness) => loaded_preimage(loaded_view(*loaded)) == Ok::<Seq<u8>, WitnessError>(
                    witness.preimage@,
                ),
                Err(e) => loaded_preimage(loaded_view(*loaded)) == Err::<Seq<u8>, WitnessError>(e),
            },
    {
        let buf: &Vec<u8> = match loaded {
            Err(e) => {
                return Err(WitnessError::Load(*e));
            },
            Ok(None) => {
                return Err(WitnessError::MissingLockField);
            },
            Ok(Some(buf)) => buf,
        };
        let total: usize = buf.len();
        if total < PREFIX_LEN {
            return Err(WitnessError::FieldTooShort { expected: PREFIX_LEN, got: total });
        }
        let claimed: u128 = read_le(buf.as_slice(), 0, PREFIX_LEN);
        proof {
            assert(buf@.subrange(0, 0 + PREFIX_LEN) =~= buf@.take(PREFIX_LEN as int));
            lemma_le_value_bound(buf@.take(PREFIX_LEN as int));
            lemma_pow256_values();
        }
        let len: usize = claimed as usize;
        let left: usize = total - PREFIX_LEN;
        if left < len {
            return Err(WitnessError::FieldTooShort { expected: len, got: left });
        }
        if left > len {
            return Err(WitnessError::TrailingBytes { consumed: PREFIX_LEN + len, total });
        }
        let preimage: Vec<u8> = copy_range(buf.as_slice(), PREFIX_LEN, total);
        assert(buf@.subrange(PREFIX_LEN as int, total as int) =~= buf@.skip(PREFIX_LEN as int));
        Ok(Witness { preimage })
    }
}

/// A preimage reads back from its own encoding, for every length that the prefix
/// can hold.
pub proof fn preimage_reads_back(preimage: Seq<u8>)
    requires
        preimage.len() <= u32::MAX,
    ensures
        preimage_of(bytes_field(preimage)) == Ok::<Seq<u8>, WitnessError>(preimage),
{
    let buf = bytes_field(preimage);
    lemma_le_bytes_len(preimage.len(), PREFIX_LEN as nat);
    lemma_pow256_values();
    lemma_le_value_of_bytes(preimage.len(), PREFIX_LEN as nat);
    assert(buf.take(PREFIX_LEN as int) =~= le_bytes(preimage.len(), PREFIX_LEN as nat));
    assert(buf.skip(PREFIX_LEN as int) =~= preimage);
}

/// Nothing but the encoding of a preimage reads as that preimage.
pub proof fn preimage_has_one_encoding(buf: Seq<u8>)
    ensures
        preimage_of(buf) matches Ok(preimage) ==> buf == bytes_field(preimage),
{
    if let Ok(preimage) = preimage_of(buf) {
        let prefix = buf.take(PREFIX_LEN as int);
        lemma_le_bytes_of_value(prefix);
        assert(buf =~= prefix + preimage);
    }
}

/// A buffer is a preimage with its length in front, and nothing else: the first four
/// bytes, lowest first, spell how many bytes follow. If they spell more, the buffer is
/// too short; if they spell less, bytes are left over.
pub proof fn length_decides(buf: Seq<u8>)
    ensures
        buf.len() < 4 ==> preimage_of(buf) == Err::<Seq<u8>, WitnessError>(
            WitnessError::FieldTooShort { expected: 4, got: buf.len() as usize },
        ),
        buf.len() >= 4 ==> ({
            let claimed = buf[0] + 0x100 * buf[1] + 0x1_0000 * buf[2] + 0x100_0000 * buf[3];
            let follow = buf.len() - 4;
            &&& claimed == follow ==> preimage_of(buf) == Ok::<Seq<u8>, WitnessError>(buf.skip(4))
            &&& claimed > follow ==> preimage_of(buf) == Err::<Seq<u8>, WitnessError>(
                WitnessError::FieldTooShort { expected: claimed as usize, got: follow as usize },
            )
            &&& claimed < follow ==> preimage_of(buf) == Err::<Seq<u8>, WitnessError>(
                WitnessError::TrailingBytes {
                    consumed: (4 + claimed) as usize,
                    total: buf.len() as usize,
                },
            )
        }),
{
    if buf.len() >= 4 {
        four_bytes_spell(buf.take(4));
    }
}

/// The contents of a loaded lock field are its bytes.
pub proof fn loaded_bytes_are_kept(buf: Vec<u8>, e: SysError)
    ensures
        loaded_view(Ok(Some(buf))) == Ok::<Option<Seq<u8>>, SysError>(Some(buf@)),
        loaded_view(Ok(None)) == Ok::<Option<Seq<u8>>, SysError>(None),
        loaded_view(Err(e)) == Err::<Option<Seq<u8>>, SysError>(e),
{
}

} // verus!
