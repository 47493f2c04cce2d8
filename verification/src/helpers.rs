//! Small tools used in different wrappers

use vstd::prelude::*;
use crate::libc::{CStr, first_nul, lemma_first_nul, is_nul_terminated};

verus! {

/// Error from [slice_to_cstr]: the slice holds no null byte.
#[derive(Debug)]
pub struct FromBytesUntilNulError {}

/// The C string at the start of a byte buffer: the bytes up to and including the first null byte
///
/// This is how C fields that are treated with `strlen()` are read; a buffer without any null
/// byte is an error.
pub fn slice_to_cstr<'a>(bytes: &'a [u8]) -> (r: Result<CStr<'a>, FromBytesUntilNulError>)
    ensures
        r is Ok <==> exists|i: int| 0 <= i < bytes@.len() && bytes@[i] == 0,
        r matches Ok(s) ==> s.bytes_with_nul() == bytes@.take(first_nul(bytes@) + 1int),
{
    proof {
        lemma_first_nul(bytes@);
    }
    let mut index: usize = 0;
    while index < bytes.len()
        invariant
            index <= bytes@.len(),
            forall|i: int| 0 <= i < index ==> bytes@[i] != 0,
        decreases bytes@.len() - index,
    {
        if bytes[index] == 0 {
            proof {
                lemma_first_nul(bytes@);
                let f = first_nul(bytes@) as int;
                if f < index {
                    assert(bytes@[f] != 0);
                }
                if f > index {
                    assert(bytes@[index as int] != 0);
                }
                assert(f == index);
                assert(bytes@.take(f + 1) =~= bytes@.subrange(0, index + 1));
            }
            let with_nul = &bytes[0..index + 1];
            assert(is_nul_terminated(with_nul@));
            return Ok(CStr::from_bytes_with_nul_unchecked(with_nul));
        }
        index = index + 1;
    }
    Err(FromBytesUntilNulError {})
}

} // verus!
