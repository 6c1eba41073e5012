//! What the library takes from the chain it runs on: the address type, the
//! runtime's error type and the cluster clock. Everything in this file is
//! declared, not proved.

use anchor_lang::prelude::Clock;
use anchor_lang::prelude::ProgramError;
use anchor_lang::prelude::Pubkey;
use anchor_lang::prelude::SolanaSysvar;
use vstd::prelude::*;

verus! {

/// Declares `anchor_lang::prelude::Pubkey`, the 32-byte address of an account,
/// as a type whose inside is not looked at. The library stores addresses and
/// hands them on; it never reads their bytes.
#[verifier::external_type_specification]
#[verifier::external_body]
pub struct ExPubkey(Pubkey);

/// Declares `anchor_lang::prelude::ProgramError`, the runtime's error type, as
/// a type whose inside is not looked at. The library hands such an error to its
/// caller as it came.
#[verifier::external_type_specification]
#[verifier::external_body]
pub struct ExProgramError(ProgramError);

/// Reads the cluster clock with `Clock::get()` (the `get` of the `Sysvar` trait,
/// as implemented for `anchor_lang::prelude::Clock`) and keeps the field
/// `unix_timestamp` of what came back, or the error.
///
/// Nothing is claimed of the outcome: the time is whatever the runtime says,
/// and off chain the read fails.
#[verifier::external_body]
pub(crate) fn unix_timestamp() -> (clock: Result<i64, ProgramError>) {
    Clock::get().map(|clock| clock.unix_timestamp)
}

} // verus!
