//! `CloseAccount`: ending a token account.

use vstd::prelude::*;
use vstd::slice::slice_subrange;
use crate::account_info::{account_views, lemma_account_views_subrange, AccountInfo, AccountInfoView};
use crate::authority::spec_validate_owner;
use crate::codec::zeros;
use crate::error::{ProgramError, TokenError};
use crate::processor::{carried_out, Outcome, Processor};
use crate::pubkey::Pubkey;
use crate::state::{Account, ACCOUNT_LEN};

verus! {

/// The outcome of `CloseAccount`. The accounts are the account to close,
/// the destination of its balance, the authority, then the signers of a
/// multisignature authority.
///
/// The two accounts must differ. The account to close must be an
/// initialized token account that holds no tokens, unless it is native.
/// Its close authority, or its owner where it has none, must authorize
/// the call. Then its whole host-held balance moves to the destination and
/// its buffer is zeroed, which leaves it uninitialized.
pub open spec fn spec_process_close_account(
    program_id: Pubkey,
    accounts: Seq<AccountInfoView>,
) -> Outcome {
    if accounts.len() < 3 {
        Err(ProgramError::NotEnoughAccountKeys)
    } else {
        let source_info = accounts[0];
        let dest_info = accounts[1];
        let signers = accounts.subrange(3, accounts.len() as int);
        if source_info.key == dest_info.key {
            Err(ProgramError::InvalidAccountData)
        } else {
            match Account::spec_unpack(source_info.data) {
                Err(e) => Err(e),
                Ok(source) => if !source.spec_is_native() && source.amount != 0 {
                    Err(TokenError::NonNativeHashBalance.spec_program_error())
                } else {
                    match spec_validate_owner(
                        program_id,
                        match source.close_authority {
                            Some(key) => key,
                            None => source.owner,
                        },
                        accounts[2],
                        signers,
                    ) {
                        Err(e) => Err(e),
                        Ok(_) => if dest_info.lamports + source_info.lamports > u64::MAX {
                            Err(TokenError::Overflow.spec_program_error())
                        } else {
                            Ok(
                                accounts.update(
                                    0,
                                    AccountInfoView {
                                        lamports: 0,
                                        data: zeros(ACCOUNT_LEN as nat),
                                        ..source_info
                                    },
                                ).update(
                                    1,
                                    AccountInfoView {
                                        lamports: (dest_info.lamports + source_info.lamports) as u64,
                                        ..dest_info
                                    },
                                ),
                            )
                        },
                    }
                },
            }
        }
    }
}

/// Zeroes a buffer.
fn clear(dst: &mut [u8])
    ensures
        final(dst)@ == zeros(old(dst)@.len()),
{
    let mut i: usize = 0;
    while i < dst.len()
        invariant
            i <= dst@.len(),
            dst@.len() == old(dst)@.len(),
            forall|j: int| 0 <= j < i ==> dst@[j] == 0,
        decreases dst@.len() - i,
    {
        dst[i] = 0;
        i += 1;
    }
    assert(dst@ =~= zeros(old(dst)@.len()));
}

impl Processor {
    /// Decides a `CloseAccount`: the error with which it is refused, or
    /// the balance that the destination is to have.
    fn plan_close_account(program_id: &Pubkey, accounts: &[AccountInfo]) -> (r: Result<
        u64,
        ProgramError,
    >)
        ensures
            match spec_process_close_account(*program_id, account_views(accounts@)) {
                Err(e) => r == Err::<u64, ProgramError>(e),
                Ok(after) => {
                    &&& r is Ok
                    &&& accounts@.len() >= 3
                    &&& accounts@[0]@.data.len() == ACCOUNT_LEN
                    &&& after == account_views(accounts@).update(
                        0,
                        AccountInfoView {
                            lamports: 0,
                            data: zeros(ACCOUNT_LEN as nat),
                            ..accounts@[0]@
                        },
                    ).update(1, AccountInfoView { lamports: r->Ok_0, ..accounts@[1]@ })
                },
            },
    {
        let len: usize = accounts.len();
        if len < 3 {
            return Err(ProgramError::NotEnoughAccountKeys);
        }
        proof {
            lemma_account_views_subrange(accounts@, 3, len as int);
        }
        if accounts[0].key == accounts[1].key {
            return Err(ProgramError::InvalidAccountData);
        }
        let source_account = Account::unpack(accounts[0].data.as_slice())?;
        if !source_account.is_native() && source_account.amount != 0 {
            return Err(ProgramError::from(TokenError::NonNativeHashBalance));
        }
        let authority = match source_account.close_authority {
            Some(key) => key,
            None => source_account.owner,
        };
        Self::validate_owner(program_id, &authority, &accounts[2], slice_subrange(accounts, 3, len))?;
        match accounts[1].lamports.checked_add(accounts[0].lamports) {
            Some(sum) => Ok(sum),
            None => Err(ProgramError::from(TokenError::Overflow)),
        }
    }

    /// Processes a [CloseAccount](enum.TokenInstruction.html) instruction.
    pub fn process_close_account(program_id: &Pubkey, accounts: &mut [AccountInfo]) -> (r: Result<
        (),
        ProgramError,
    >)
        ensures
            carried_out(
                spec_process_close_account(*program_id, account_views(old(accounts)@)),
                old(accounts)@,
                final(accounts)@,
                r,
            ),
    {
        let dest_lamports = Self::plan_close_account(program_id, accounts)?;
        accounts[1].lamports = dest_lamports;
        accounts[0].lamports = 0;
        clear(accounts[0].data.as_mut_slice());
        proof {
            let expected = spec_process_close_account(*program_id, account_views(old(accounts)@));
            assert(account_views(accounts@) =~= expected->Ok_0);
        }
        Ok(())
    }
}

} // verus!
