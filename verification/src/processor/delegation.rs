//! `Approve` and `Revoke`: granting and ending a delegation.

use vstd::prelude::*;
use vstd::slice::slice_subrange;
use crate::account_info::{account_views, lemma_account_views_subrange, AccountInfo, AccountInfoView};
use crate::authority::spec_validate_owner;
use crate::error::{ProgramError, TokenError};
use crate::processor::{
    carried_out, refused_with, spec_check_mint, with_account, Outcome, Processor,
};
use crate::pubkey::Pubkey;
use crate::state::{Account, ACCOUNT_LEN};

verus! {

/// The outcome of `Approve`. The accounts are the source, the mint if
/// decimals are stated, the delegate, the owner, then the signers of a
/// multisignature owner.
///
/// The source must be an initialized token account that is not frozen,
/// and its owner must authorize the call. The delegate and the delegated
/// amount are then replaced: an earlier delegation does not add up.
pub open spec fn spec_process_approve(
    program_id: Pubkey,
    accounts: Seq<AccountInfoView>,
    amount: u64,
    expected_decimals: Option<u8>,
) -> Outcome {
    let k: int = if expected_decimals is Some {
        1
    } else {
        0
    };
    if accounts.len() < 3 + k {
        Err(ProgramError::NotEnoughAccountKeys)
    } else {
        let source_info = accounts[0];
        let signers = accounts.subrange(3 + k, accounts.len() as int);
        match Account::spec_unpack(source_info.data) {
            Err(e) => Err(e),
            Ok(source) => {
                let mint_check = match expected_decimals {
                    Some(decimals) => spec_check_mint(source.mint, accounts[1], decimals),
                    None => Ok(()),
                };
                if source.spec_is_frozen() {
                    Err(TokenError::AccountFrozen.spec_program_error())
                } else if mint_check is Err {
                    Err(mint_check->Err_0)
                } else {
                    match spec_validate_owner(program_id, source.owner, accounts[2 + k], signers) {
                        Err(e) => Err(e),
                        Ok(_) => Ok(
                            with_account(
                                accounts,
                                0,
                                Account {
                                    delegate: Some(accounts[1 + k].key),
                                    delegated_amount: amount,
                                    ..source
                                },
                                source_info.lamports,
                            ),
                        ),
                    }
                }
            },
        }
    }
}

/// The outcome of `Revoke`. The accounts are the source, the owner, then
/// the signers of a multisignature owner.
///
/// The source must be an initialized token account that is not frozen,
/// and its owner must authorize the call. The delegation then ends.
pub open spec fn spec_process_revoke(program_id: Pubkey, accounts: Seq<AccountInfoView>) -> Outcome {
    if accounts.len() < 1 {
        Err(ProgramError::NotEnoughAccountKeys)
    } else {
        let source_info = accounts[0];
        match Account::spec_unpack(source_info.data) {
            Err(e) => Err(e),
            Ok(source) => if accounts.len() < 2 {
                Err(ProgramError::NotEnoughAccountKeys)
            } else if source.spec_is_frozen() {
                Err(TokenError::AccountFrozen.spec_program_error())
            } else {
                match spec_validate_owner(
                    program_id,
                    source.owner,
                    accounts[1],
                    accounts.subrange(2, accounts.len() as int),
                ) {
                    Err(e) => Err(e),
                    Ok(_) => Ok(
                        with_account(
                            accounts,
                            0,
                            Account { delegate: None, delegated_amount: 0, ..source },
                            source_info.lamports,
                        ),
                    ),
                }
            },
        }
    }
}

impl Processor {
    /// Decides an `Approve`: the error with which it is refused, or the
    /// source as it is to be written.
    fn plan_approve(
        program_id: &Pubkey,
        accounts: &[AccountInfo],
        amount: u64,
        expected_decimals: Option<u8>,
    ) -> (r: Result<Account, ProgramError>)
        ensures
            match spec_process_approve(
                *program_id,
                account_views(accounts@),
                amount,
                expected_decimals,
            ) {
                Err(e) => r == Err::<Account, ProgramError>(e),
                Ok(after) => {
                    &&& r is Ok
                    &&& accounts@.len() >= 3
                    &&& accounts@[0]@.data.len() == ACCOUNT_LEN
                    &&& after == with_account(
                        account_views(accounts@),
                        0,
                        r->Ok_0,
                        accounts@[0]@.lamports,
                    )
                },
            },
    {
        let k: usize = if expected_decimals.is_some() {
            1
        } else {
            0
        };
        let len: usize = accounts.len();
        if len < 3 + k {
            return Err(ProgramError::NotEnoughAccountKeys);
        }
        proof {
            lemma_account_views_subrange(accounts@, 3 + k, len as int);
        }
        let mut source_account = Account::unpack(accounts[0].data.as_slice())?;
        if source_account.is_frozen() {
            return Err(ProgramError::from(TokenError::AccountFrozen));
        }
        if let Some(decimals) = expected_decimals {
            Self::check_mint(&source_account.mint, &accounts[1], decimals)?;
        }
        Self::validate_owner(
            program_id,
            &source_account.owner,
            &accounts[2 + k],
            slice_subrange(accounts, 3 + k, len),
        )?;
        source_account.delegate = Some(accounts[1 + k].key);
        source_account.delegated_amount = amount;
        Ok(source_account)
    }

    /// Process an [Approve](enum.TokenInstruction.html) instruction.
    pub fn process_approve(
        program_id: &Pubkey,
        accounts: &mut [AccountInfo],
        amount: u64,
        expected_decimals: Option<u8>,
    ) -> (r: Result<(), ProgramError>)
        ensures
            carried_out(
                spec_process_approve(
                    *program_id,
                    account_views(old(accounts)@),
                    amount,
                    expected_decimals,
                ),
                old(accounts)@,
                final(accounts)@,
                r,
            ),
    {
        let source_account = Self::plan_approve(program_id, accounts, amount, expected_decimals)?;
        let lamports: u64 = accounts[0].lamports;
        Self::write_account(accounts, 0, source_account, lamports);
        Ok(())
    }

    /// Decides a `Revoke`: the error with which it is refused, or the
    /// source as it is to be written.
    fn plan_revoke(program_id: &Pubkey, accounts: &[AccountInfo]) -> (r: Result<
        Account,
        ProgramError,
    >)
        ensures
            match spec_process_revoke(*program_id, account_views(accounts@)) {
                Err(e) => r == Err::<Account, ProgramError>(e),
                Ok(after) => {
                    &&& r is Ok
                    &&& accounts@.len() >= 2
                    &&& accounts@[0]@.data.len() == ACCOUNT_LEN
                    &&& after == with_account(
                        account_views(accounts@),
                        0,
                        r->Ok_0,
                        accounts@[0]@.lamports,
                    )
                },
            },
    {
        let len: usize = accounts.len();
        if len < 1 {
            return Err(ProgramError::NotEnoughAccountKeys);
        }
        let mut source_account = Account::unpack(accounts[0].data.as_slice())?;
        if len < 2 {
            return Err(ProgramError::NotEnoughAccountKeys);
        }
        proof {
            lemma_account_views_subrange(accounts@, 2, len as int);
        }
        if source_account.is_frozen() {
            return Err(ProgramError::from(TokenError::AccountFrozen));
        }
        Self::validate_owner(
            program_id,
            &source_account.owner,
            &accounts[1],
            slice_subrange(accounts, 2, len),
        )?;
        source_account.delegate = None;
        source_account.delegated_amount = 0;
        Ok(source_account)
    }

    /// Processes a [Revoke](enum.TokenInstruction.html) instruction.
    pub fn process_revoke(program_id: &Pubkey, accounts: &mut [AccountInfo]) -> (r: Result<
        (),
        ProgramError,
    >)
        ensures
            carried_out(
                spec_process_revoke(*program_id, account_views(old(accounts)@)),
                old(accounts)@,
                final(accounts)@,
                r,
            ),
    {
        let source_account = Self::plan_revoke(program_id, accounts)?;
        let lamports: u64 = accounts[0].lamports;
        Self::write_account(accounts, 0, source_account, lamports);
        Ok(())
    }
}

/// An `Approve` is refused with the frozen-account error when the source
/// is frozen.
pub proof fn lemma_approve_frozen_refused(
    program_id: Pubkey,
    accounts: Seq<AccountInfoView>,
    amount: u64,
    expected_decimals: Option<u8>,
)
    requires
        accounts.len() >= if expected_decimals is Some {
            4int
        } else {
            3int
        },
        Account::spec_unpack(accounts[0].data) is Ok,
        Account::spec_unpack(accounts[0].data)->Ok_0.spec_is_frozen(),
    ensures
        refused_with(
            spec_process_approve(program_id, accounts, amount, expected_decimals),
            TokenError::AccountFrozen,
        ),
{
}

/// A `Revoke` is refused with the frozen-account error when the source is
/// frozen.
pub proof fn lemma_revoke_frozen_refused(program_id: Pubkey, accounts: Seq<AccountInfoView>)
    requires
        accounts.len() >= 2,
        Account::spec_unpack(accounts[0].data) is Ok,
        Account::spec_unpack(accounts[0].data)->Ok_0.spec_is_frozen(),
    ensures
        refused_with(spec_process_revoke(program_id, accounts), TokenError::AccountFrozen),
{
}

} // verus!
