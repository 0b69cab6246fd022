//! The verbosity levels that the command line accepts.

use vstd::prelude::*;

verus! {

/// A verbosity level, from the most verbose to the least; variants are
/// declared in order of severity.
#[derive(Copy, Clone, PartialEq, Eq, Structural, PartialOrd, Ord, Debug)]
pub enum VerboseSwapLevel {
    TRACE,
    DEBUG,
    INFO,
    WARN,
    ERROR,
}

/// The severity of a level: 0 for `TRACE` up to 4 for `ERROR`.
pub open spec fn severity_of(level: VerboseSwapLevel) -> u8 {
    match level {
        VerboseSwapLevel::TRACE => 0,
        VerboseSwapLevel::DEBUG => 1,
        VerboseSwapLevel::INFO => 2,
        VerboseSwapLevel::WARN => 3,
        VerboseSwapLevel::ERROR => 4,
    }
}

impl VerboseSwapLevel {
    /// The severity of the level: 0 for `TRACE` up to 4 for `ERROR`.
    pub fn severity(&self) -> (s: u8)
        ensures
            s == severity_of(*self),
    {
        match self {
            VerboseSwapLevel::TRACE => 0,
            VerboseSwapLevel::DEBUG => 1,
            VerboseSwapLevel::INFO => 2,
            VerboseSwapLevel::WARN => 3,
            VerboseSwapLevel::ERROR => 4,
        }
    }
}

/// Levels are told apart by their severity.
pub proof fn lemma_severity_identifies_level(a: VerboseSwapLevel, b: VerboseSwapLevel)
    ensures
        severity_of(a) == severity_of(b) <==> a == b,
{
}

} // verus!
