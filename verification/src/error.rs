//! Common error handling components for the RIOT operating system
//!
//! Most fallible operations in the wrappers produce a [NumericError], which is a negative integer
//! (the negated form of an error constant from [crate::errno]). The
//! [NegativeErrorExt::negative_to_error()] trait method produces such errors from the return
//! values of C functions.

use vstd::prelude::*;
use crate::errno;

verus! {

/// An error that is expressed as a negative number
#[derive(Debug, PartialEq, Eq, Structural)]
pub struct NumericError {
    number: isize,
}

impl NumericError {
    /// The error number is always negative.
    #[verifier::type_invariant]
    spec fn is_negative(self) -> bool {
        self.number < 0
    }

    /// The (negative) number this error stands for.
    pub closed spec fn spec_number(self) -> int {
        self.number as int
    }

    /// Construct a NumericError from an error constant
    ///
    /// As error constants are in their unsigned positive form, this flips the argument's sign into
    /// the negative range.
    pub fn from_constant(name: isize) -> (err: Self)
        requires
            name > 0,
        ensures
            err.spec_number() == -name,
    {
        NumericError { number: -name }
    }

    /// Numeric value of the error
    pub fn number(&self) -> (n: isize)
        ensures
            n as int == self.spec_number(),
            n < 0,
    {
        proof {
            use_type_invariant(self);
        }
        self.number
    }
}

/// The outcome of an operation that may not be ready yet, in the form of `nb::Error`: either it
/// would have to block, or it failed with an error
#[derive(Debug, PartialEq, Eq, Structural)]
pub enum NbError<E> {
    WouldBlock,
    Other(E),
}

impl NumericError {
    /// Convert the error into an [NbError] that is [NbError::WouldBlock] if the error is
    /// `-EAGAIN`, and an actual error otherwise.
    pub fn again_is_wouldblock(self) -> (r: NbError<NumericError>)
        ensures
            self.spec_number() == -errno::EAGAIN ==> r == NbError::<NumericError>::WouldBlock,
            self.spec_number() != -errno::EAGAIN ==> r == NbError::Other(self),
    {
        if self.number() == -errno::EAGAIN {
            NbError::WouldBlock
        } else {
            NbError::Other(self)
        }
    }
}

/// Conversion of C style return values into a `Result`
pub trait NegativeErrorExt: Sized {
    type Out;

    /// The integer value of `self`
    spec fn numeric_value(&self) -> int;

    /// The integer value of a successful output
    spec fn out_value(out: Self::Out) -> int;

    /// Convert to a Result that is successful if the input value is zero or positive, or a
    /// NumericError if it is negative
    ///
    /// A negative value that does not fit an `isize` becomes `-EOVERFLOW`.
    fn negative_to_error(self) -> (r: Result<Self::Out, NumericError>)
        ensures
            r is Ok <==> self.numeric_value() >= 0,
            r matches Ok(v) ==> Self::out_value(v) == self.numeric_value(),
            r matches Err(e) ==> (if self.numeric_value() >= isize::MIN {
                e.spec_number() == self.numeric_value()
            } else {
                e.spec_number() == -errno::EOVERFLOW
            }),
    ;
}

impl NegativeErrorExt for isize {
    type Out = isize;

    open spec fn numeric_value(&self) -> int {
        *self as int
    }

    open spec fn out_value(out: isize) -> int {
        out as int
    }

    fn negative_to_error(self) -> (r: Result<isize, NumericError>) {
        if self >= 0 {
            Ok(self)
        } else {
            Err(NumericError { number: self })
        }
    }
}

impl NegativeErrorExt for i32 {
    type Out = i32;

    open spec fn numeric_value(&self) -> int {
        *self as int
    }

    open spec fn out_value(out: i32) -> int {
        out as int
    }

    fn negative_to_error(self) -> (r: Result<i32, NumericError>) {
        if self >= 0 {
            Ok(self)
        } else {
            Err(NumericError { number: self as isize })
        }
    }
}

impl NegativeErrorExt for i64 {
    type Out = i64;

    open spec fn numeric_value(&self) -> int {
        *self as int
    }

    open spec fn out_value(out: i64) -> int {
        out as int
    }

    fn negative_to_error(self) -> (r: Result<i64, NumericError>) {
        if self >= 0 {
            Ok(self)
        } else if self >= isize::MIN as i64 {
            Err(NumericError { number: self as isize })
        } else {
            Err(NumericError::from_constant(errno::EOVERFLOW))
        }
    }
}


} // verus!
