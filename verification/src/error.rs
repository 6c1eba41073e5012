//! The ways in which an instruction can fail.

use anchor_lang::prelude::ProgramError;
use vstd::prelude::*;

verus! {

/// The one refusal that the ledger issues by its own rules.
#[derive(Clone, Copy, Debug, PartialEq, Eq, Structural)]
pub enum HarkoError {
    /// The voice session has been ended: it takes no more data and cannot be
    /// ended again.
    SessionInactive,
}

impl HarkoError {
    /// The text that goes with the error.
    pub fn message(&self) -> (text: &'static str)
        ensures
            text@ == "Voice session is not active"@,
    {
        match self {
            HarkoError::SessionInactive => "Voice session is not active",
        }
    }
}

/// Why an instruction did not go through.
#[derive(Debug, PartialEq, Eq)]
pub enum Failure {
    /// The ledger's own rules refused it.
    Domain(HarkoError),
    /// The runtime failed underneath; its error is passed on untouched.
    Environment(ProgramError),
}

/// What an instruction that only needs the clock returns: success when the
/// clock could be read, and the runtime's error otherwise.
pub open spec fn clock_outcome(clock: Result<i64, ProgramError>) -> Result<(), Failure> {
    match clock {
        Ok(_) => Ok(()),
        Err(e) => Err(Failure::Environment(e)),
    }
}

/// What an instruction on a session returns: it is refused while the session
/// is inactive, whatever the clock says, and otherwise goes by the clock.
pub open spec fn session_outcome(
    is_active: bool,
    clock: Result<i64, ProgramError>,
) -> Result<(), Failure> {
    if is_active {
        clock_outcome(clock)
    } else {
        Err(Failure::Domain(HarkoError::SessionInactive))
    }
}

} // verus!
