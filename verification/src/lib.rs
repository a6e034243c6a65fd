//! State-transition logic of a fungible-token ledger: typed instructions
//! with their wire format, fixed-width records for mints, token accounts
//! and multisignature authorities, and the processor that applies an
//! instruction to the accounts of a call.

use vstd::prelude::*;
use crate::error::ProgramError;
use crate::pubkey::Pubkey;

pub mod account_info;
pub mod authority;
pub mod codec;
pub mod error;
pub mod instruction;
pub mod native_mint;
pub mod processor;
pub mod pubkey;
pub mod rent;
pub mod state;

verus! {

/// The identifier of the token program.
pub open spec fn spec_id() -> Pubkey {
    Pubkey(
        [
            6, 221, 246, 225, 215, 101, 161, 147, 217, 203, 225, 70, 206, 235, 121, 172,
            28, 180, 133, 237, 95, 91, 55, 145, 58, 140, 245, 133, 126, 255, 0, 169,
        ],
    )
}

/// The identifier of the token program.
pub fn id() -> (key: Pubkey)
    ensures
        key == spec_id(),
{
    Pubkey(
        [
            6, 221, 246, 225, 215, 101, 161, 147, 217, 203, 225, 70, 206, 235, 121, 172,
            28, 180, 133, 237, 95, 91, 55, 145, 58, 140, 245, 133, 126, 255, 0, 169,
        ],
    )
}

/// Whether `key` is the identifier of the token program.
pub fn check_id(key: &Pubkey) -> (r: bool)
    ensures
        r == (*key == spec_id()),
{
    let program = id();
    key == &program
}

/// Checks that the supplied program ID is the correct one for the token
/// program.
pub fn check_program_account(spl_token_program_id: &Pubkey) -> (r: Result<(), ProgramError>)
    ensures
        *spl_token_program_id == spec_id() ==> r is Ok,
        *spl_token_program_id != spec_id() ==> r == Err::<(), ProgramError>(
            ProgramError::IncorrectProgramId,
        ),
{
    if !check_id(spl_token_program_id) {
        return Err(ProgramError::IncorrectProgramId);
    }
    Ok(())
}

} // verus!
