//! C type names and a C string type
//!
//! [CStr] is a borrowed, null-terminated byte string in the form C functions of RIOT take and
//! return.

use vstd::prelude::*;
use vstd::string::StringSliceAdditionalSpecFns;

verus! {

pub type c_int = i32;
pub type c_uint = u32;
pub type c_char = i8;
pub type c_uchar = u8;
pub type c_schar = i8;
pub type c_long = i64;
pub type c_ulong = u64;
pub type c_short = i16;
pub type c_ushort = u16;
pub type c_longlong = i64;
pub type c_ulonglong = u64;

/// Whether `bytes` is a valid C string with its terminator: it ends in a null byte, and holds
/// no other null byte.
pub open spec fn is_nul_terminated(bytes: Seq<u8>) -> bool {
    &&& bytes.len() >= 1
    &&& bytes.last() == 0
    &&& forall|i: int| 0 <= i < bytes.len() - 1 ==> bytes[i] != 0
}

/// Index of the first null byte of `bytes` (or its length if there is none)
pub open spec fn first_nul(bytes: Seq<u8>) -> nat
    decreases bytes.len(),
{
    if bytes.len() == 0 {
        0
    } else if bytes[0] == 0 {
        0
    } else {
        1 + first_nul(bytes.drop_first())
    }
}

/// `first_nul` is the position of a null byte before which there is none.
pub proof fn lemma_first_nul(bytes: Seq<u8>)
    ensures
        first_nul(bytes) <= bytes.len(),
        forall|i: int| 0 <= i < first_nul(bytes) ==> bytes[i] != 0,
        first_nul(bytes) < bytes.len() ==> bytes[first_nul(bytes) as int] == 0,
    decreases bytes.len(),
{
    if bytes.len() > 0 && bytes[0] != 0 {
        lemma_first_nul(bytes.drop_first());
        assert forall|i: int| 0 <= i < first_nul(bytes) implies bytes[i] != 0 by {
            if i > 0 {
                assert(bytes[i] == bytes.drop_first()[i - 1]);
            }
        }
    }
}

/// Length of a C string: the number of bytes before the first null byte
///
/// The slice has to hold a null byte.
pub fn strlen(bytes: &[c_char]) -> (len: usize)
    requires
        exists|i: int| 0 <= i < bytes@.len() && bytes@[i] == 0,
    ensures
        len < bytes@.len(),
        bytes@[len as int] == 0,
        forall|i: int| 0 <= i < len ==> bytes@[i] != 0,
{
    let mut len: usize = 0;
    while bytes[len] != 0
        invariant
            len < bytes@.len(),
            forall|i: int| 0 <= i < len ==> bytes@[i] != 0,
            exists|i: int| 0 <= i < bytes@.len() && bytes@[i] == 0,
        decreases bytes@.len() - len,
    {
        len = len + 1;
        if len == bytes.len() {
            proof {
                let w = choose|i: int| 0 <= i < bytes@.len() && bytes@[i] == 0;
                assert(bytes@[w] != 0);
            }
        }
    }
    len
}

/// The error `str::from_utf8` reports for a byte sequence that is not UTF-8
#[verifier::external_type_specification]
#[verifier::external_body]
pub struct ExUtf8Error(core::str::Utf8Error);

/// Calls `core::str::from_utf8`, which returns the bytes as a `str` when they are valid UTF-8,
/// and an error otherwise.
#[verifier::external_body]
fn utf8_to_str(bytes: &[u8]) -> (r: Result<&str, core::str::Utf8Error>)
    ensures
        r is Ok <==> vstd::utf8::valid_utf8(bytes@),
        r matches Ok(s) ==> s.spec_bytes() == bytes@,
{
    core::str::from_utf8(bytes)
}

/// A borrowed C string: a sequence of non-null bytes followed by a null byte
pub struct CStr<'a> {
    inner: &'a [u8],
}

impl<'a> CStr<'a> {
    #[verifier::type_invariant]
    spec fn well_formed(self) -> bool {
        is_nul_terminated(self.inner@)
    }

    /// The bytes of the string, including the terminating null byte
    pub closed spec fn bytes_with_nul(self) -> Seq<u8> {
        self.inner@
    }

    /// View `bytes` (which must end in its only null byte) as a C string
    pub fn from_bytes_with_nul_unchecked(bytes: &'a [u8]) -> (s: CStr<'a>)
        requires
            is_nul_terminated(bytes@),
        ensures
            s.bytes_with_nul() == bytes@,
    {
        CStr { inner: bytes }
    }

    /// The bytes of the string, including the terminating null byte
    pub fn to_bytes_with_nul(&self) -> (bytes: &'a [u8])
        ensures
            bytes@ == self.bytes_with_nul(),
            is_nul_terminated(bytes@),
    {
        proof {
            use_type_invariant(self);
        }
        self.inner
    }

    /// The bytes of the string, without the terminating null byte
    pub fn to_bytes(&self) -> (bytes: &'a [u8])
        ensures
            bytes@ == self.bytes_with_nul().drop_last(),
            forall|i: int| 0 <= i < bytes@.len() ==> bytes@[i] != 0,
    {
        proof {
            use_type_invariant(self);
        }
        let bytes = self.to_bytes_with_nul();
        &bytes[0..bytes.len() - 1]
    }

    /// The string as a `str`, if its bytes are valid UTF-8
    pub fn to_str(&self) -> (r: Result<&'a str, core::str::Utf8Error>)
        ensures
            r is Ok <==> vstd::utf8::valid_utf8(self.bytes_with_nul().drop_last()),
            r matches Ok(s) ==> s.spec_bytes() == self.bytes_with_nul().drop_last(),
    {
        utf8_to_str(self.to_bytes())
    }
}

} // verus!
