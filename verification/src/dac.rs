//! DAC lines

use vstd::prelude::*;

verus! {

/// Return value of `dac_init` on success
pub const DAC_OK: i32 = 0;
/// Return value of `dac_init` for a line that does not exist
pub const DAC_NOLINE: i32 = -1;

/// A DAC line, identified by its `dac_t` number
#[derive(Debug)]
pub struct DACLine {
    line: u32,
}

/// Errors of initializing a DAC line
#[derive(Debug, PartialEq, Eq, Structural)]
#[non_exhaustive]
pub enum DACError {
    /// The given line did not exist
    NoLine,
    /// An unknown error did occur
    Unknown,
}

impl DACLine {
    /// The line number
    pub closed spec fn spec_line(&self) -> u32 {
        self.line
    }

    /// The line after RIOT's `dac_init` on `line` returned `res`
    pub fn from_init_result(line: u32, res: i32) -> (r: Result<Self, DACError>)
        ensures
            r is Ok <==> res == DAC_OK,
            r matches Ok(l) ==> l.spec_line() == line,
            res == DAC_NOLINE ==> r == Err::<Self, DACError>(DACError::NoLine),
            res != DAC_OK && res != DAC_NOLINE ==> r == Err::<Self, DACError>(DACError::Unknown),
    {
        if res == DAC_OK {
            Ok(DACLine { line })
        } else if res == DAC_NOLINE {
            Err(DACError::NoLine)
        } else {
            Err(DACError::Unknown)
        }
    }

    /// Builds a DACLine from an already initialized line
    pub fn new_without_init(line: u32) -> (l: Self)
        ensures
            l.spec_line() == line,
    {
        DACLine { line }
    }

    /// The line number
    pub fn line(&self) -> (l: u32)
        ensures
            l == self.spec_line(),
    {
        self.line
    }
}

} // verus!
