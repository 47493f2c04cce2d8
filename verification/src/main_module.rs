//! Tools for providing a RIOT main function: the exit status of a main function's result

use vstd::prelude::*;
use std::io::Write;

verus! {

/// A result trait for main methods, analogous to std::process::Termination
pub trait Termination: Sized {
    /// The exit status the value stands for
    spec fn status(self) -> i32;

    /// Report the value (printing an error where there is one) and give the exit status
    fn report(self) -> (code: i32)
        ensures
            code == self.status(),
    ;
}

impl Termination for () {
    open spec fn status(self) -> i32 {
        0
    }

    fn report(self) -> (code: i32) {
        0
    }
}

impl Termination for i32 {
    open spec fn status(self) -> i32 {
        self
    }

    fn report(self) -> (code: i32) {
        self
    }
}

/// Writes `Error: ` and the debug form of `err` as a line to standard output, through
/// `std::io::stdout` with `writeln!`. Nothing is stated of the output.
#[verifier::external_body]
fn print_error<E: core::fmt::Debug>(err: &E) {
    let _ = writeln!(std::io::stdout(), "Error: {:?}", err);
}

impl<E: core::fmt::Debug> Termination for Result<(), E> {
    open spec fn status(self) -> i32 {
        match self {
            Ok(()) => 0,
            Err(_) => 1,
        }
    }

    fn report(self) -> (code: i32) {
        match self {
            Ok(()) => ().report(),
            Err(err) => {
                print_error(&err);
                1
            },
        }
    }
}

} // verus!
