//! `Transfer`: moving tokens from one account to another.

use vstd::prelude::*;
use vstd::slice::slice_subrange;
use crate::account_info::{account_views, lemma_account_views_subrange, AccountInfo, AccountInfoView};
use crate::error::{ProgramError, TokenError};
use crate::processor::{
    carried_out, refused_with, spec_authorize_spend, spec_check_mint, with_account, Outcome,
    Processor,
};
use crate::pubkey::Pubkey;
use crate::state::{Account, ACCOUNT_LEN};

verus! {

/// The outcome of `Transfer`. The accounts are the source, the mint if
/// decimals are stated, the destination, the authority, then the signers
/// of a multisignature authority.
///
/// Both records must be initialized token accounts of one mint, neither
/// frozen, and the source must hold `amount`. The authority is the
/// source's delegate, whose delegation is drawn on, or its owner. A
/// transfer from an account to itself changes nothing. Otherwise `amount`
/// leaves the source and reaches the destination, and between accounts of
/// the native asset the same amount of host-held balance moves with it.
pub open spec fn spec_process_transfer(
    program_id: Pubkey,
    accounts: Seq<AccountInfoView>,
    amount: u64,
    expected_decimals: Option<u8>,
) -> Outcome {
    let k: int = if expected_decimals is Some {
        1
    } else {
        0
    };
    if accounts.len() < 3 + k {
        Err(ProgramError::NotEnoughAccountKeys)
    } else {
        let source_info = accounts[0];
        let dest_info = accounts[1 + k];
        let signers = accounts.subrange(3 + k, accounts.len() as int);
        match (Account::spec_unpack(source_info.data), Account::spec_unpack(dest_info.data)) {
            (Err(e), _) => Err(e),
            (Ok(_), Err(e)) => Err(e),
            (Ok(source), Ok(dest)) => {
                let mint_check = match expected_decimals {
                    Some(decimals) => spec_check_mint(source.mint, accounts[1], decimals),
                    None => Ok(()),
                };
                let self_transfer = source_info.key == dest_info.key;
                if source.spec_is_frozen() || dest.spec_is_frozen() {
                    Err(TokenError::AccountFrozen.spec_program_error())
                } else if source.amount < amount {
                    Err(TokenError::InsufficientFunds.spec_program_error())
                } else if source.mint != dest.mint {
                    Err(TokenError::MintMismatch.spec_program_error())
                } else if mint_check is Err {
                    Err(mint_check->Err_0)
                } else {
                    match spec_authorize_spend(
                        program_id,
                        source,
                        accounts[2 + k],
                        signers,
                        amount,
                        !self_transfer,
                    ) {
                        Err(e) => Err(e),
                        Ok(source) => if self_transfer {
                            Ok(accounts)
                        } else if dest.amount + amount > u64::MAX {
                            Err(TokenError::Overflow.spec_program_error())
                        } else if source.spec_is_native() && (source_info.lamports < amount
                            || dest_info.lamports + amount > u64::MAX) {
                            Err(TokenError::Overflow.spec_program_error())
                        } else {
                            let moved: int = if source.spec_is_native() {
                                amount as int
                            } else {
                                0
                            };
                            Ok(
                                with_account(
                                    with_account(
                                        accounts,
                                        0,
                                        Account {
                                            amount: (source.amount - amount) as u64,
                                            ..source
                                        },
                                        (source_info.lamports - moved) as u64,
                                    ),
                                    1 + k,
                                    Account { amount: (dest.amount + amount) as u64, ..dest },
                                    (dest_info.lamports + moved) as u64,
                                ),
                            )
                        },
                    }
                }
            },
        }
    }
}

impl Processor {
    /// Decides a `Transfer`: the error with which it is refused, or the
    /// source and destination as they are to be written, with their
    /// balances; nothing is to be written for a transfer from an account
    /// to itself.
    fn plan_transfer(
        program_id: &Pubkey,
        accounts: &[AccountInfo],
        amount: u64,
        expected_decimals: Option<u8>,
    ) -> (r: Result<Option<(Account, u64, Account, u64)>, ProgramError>)
        ensures
            match spec_process_transfer(
                *program_id,
                account_views(accounts@),
                amount,
                expected_decimals,
            ) {
                Err(e) => r == Err::<Option<(Account, u64, Account, u64)>, ProgramError>(e),
                Ok(after) => match r {
                    Ok(None) => after == account_views(accounts@),
                    Ok(Some((source, source_lamports, dest, dest_lamports))) => {
                        let k: int = if expected_decimals is Some {
                            1
                        } else {
                            0
                        };
                        &&& accounts@.len() >= 3 + k
                        &&& accounts@[0]@.data.len() == ACCOUNT_LEN
                        &&& accounts@[1 + k]@.data.len() == ACCOUNT_LEN
                        &&& after == with_account(
                            with_account(account_views(accounts@), 0, source, source_lamports),
                            1 + k,
                            dest,
                            dest_lamports,
                        )
                    },
                    Err(_) => false,
                },
            },
    {
        let k: usize = if expected_decimals.is_some() {
            1
        } else {
            0
        };
        let len: usize = accounts.len();
        if len < 3 + k {
            return Err(ProgramError::NotEnoughAccountKeys);
        }
        proof {
            lemma_account_views_subrange(accounts@, 3 + k, len as int);
        }
        let source_account = Account::unpack(accounts[0].data.as_slice())?;
        let mut dest_account = Account::unpack(accounts[1 + k].data.as_slice())?;

        if source_account.is_frozen() || dest_account.is_frozen() {
            return Err(ProgramError::from(TokenError::AccountFrozen));
        }
        if source_account.amount < amount {
            return Err(ProgramError::from(TokenError::InsufficientFunds));
        }
        if source_account.mint != dest_account.mint {
            return Err(ProgramError::from(TokenError::MintMismatch));
        }
        if let Some(decimals) = expected_decimals {
            Self::check_mint(&source_account.mint, &accounts[1], decimals)?;
        }
        let self_transfer = accounts[0].key == accounts[1 + k].key;
        let mut source_account = Self::authorize_spend(
            program_id,
            source_account,
            &accounts[2 + k],
            slice_subrange(accounts, 3 + k, len),
            amount,
            !self_transfer,
        )?;
        if self_transfer {
            return Ok(None);
        }
        source_account.amount = source_account.amount - amount;
        dest_account.amount = match dest_account.amount.checked_add(amount) {
            Some(sum) => sum,
            None => {
                return Err(ProgramError::from(TokenError::Overflow));
            },
        };
        let mut source_lamports: u64 = accounts[0].lamports;
        let mut dest_lamports: u64 = accounts[1 + k].lamports;
        if source_account.is_native() {
            source_lamports = match source_lamports.checked_sub(amount) {
                Some(rest) => rest,
                None => {
                    return Err(ProgramError::from(TokenError::Overflow));
                },
            };
            dest_lamports = match dest_lamports.checked_add(amount) {
                Some(sum) => sum,
                None => {
                    return Err(ProgramError::from(TokenError::Overflow));
                },
            };
        }
        Ok(Some((source_account, source_lamports, dest_account, dest_lamports)))
    }

    /// Processes a [Transfer](enum.TokenInstruction.html) instruction.
    pub fn process_transfer(
        program_id: &Pubkey,
        accounts: &mut [AccountInfo],
        amount: u64,
        expected_decimals: Option<u8>,
    ) -> (r: Result<(), ProgramError>)
        ensures
            carried_out(
                spec_process_transfer(
                    *program_id,
                    account_views(old(accounts)@),
                    amount,
                    expected_decimals,
                ),
                old(accounts)@,
                final(accounts)@,
                r,
            ),
    {
        let k: usize = if expected_decimals.is_some() {
            1
        } else {
            0
        };
        match Self::plan_transfer(program_id, accounts, amount, expected_decimals)? {
            None => {},
            Some((source, source_lamports, dest, dest_lamports)) => {
                Self::write_account(accounts, 0, source, source_lamports);
                Self::write_account(accounts, 1 + k, dest, dest_lamports);
            },
        }
        Ok(())
    }
}

/// The position of the destination among the accounts of a `Transfer`.
pub open spec fn spec_transfer_dest(expected_decimals: Option<u8>) -> int {
    if expected_decimals is Some {
        2
    } else {
        1
    }
}

/// Conservation: a transfer that is carried out between two different
/// accounts takes `amount` from the source and adds it to the destination,
/// so that the two hold together what they held before. Nothing else about
/// the two token accounts changes but the delegation that was drawn on,
/// and no other account changes.
#[verifier::spinoff_prover]
#[verifier::rlimit(40)]
pub proof fn lemma_transfer_conserves(
    program_id: Pubkey,
    accounts: Seq<AccountInfoView>,
    amount: u64,
    expected_decimals: Option<u8>,
)
    requires
        spec_process_transfer(program_id, accounts, amount, expected_decimals) is Ok,
        accounts[0].key != accounts[spec_transfer_dest(expected_decimals)].key,
    ensures
        ({
            let d = spec_transfer_dest(expected_decimals);
            let after = spec_process_transfer(program_id, accounts, amount, expected_decimals)->Ok_0;
            let source = Account::spec_unpack(accounts[0].data)->Ok_0;
            let dest = Account::spec_unpack(accounts[d].data)->Ok_0;
            let source_after = Account::spec_unpack(after[0].data);
            let dest_after = Account::spec_unpack(after[d].data);
            &&& after.len() == accounts.len()
            &&& source_after is Ok
            &&& dest_after is Ok
            &&& source_after->Ok_0.amount == source.amount - amount
            &&& dest_after->Ok_0.amount == dest.amount + amount
            &&& source_after->Ok_0.amount + dest_after->Ok_0.amount == source.amount + dest.amount
            &&& dest_after->Ok_0 == (Account { amount: dest_after->Ok_0.amount, ..dest })
            &&& source_after->Ok_0 == (Account {
                amount: source_after->Ok_0.amount,
                delegate: source_after->Ok_0.delegate,
                delegated_amount: source_after->Ok_0.delegated_amount,
                ..source
            })
            &&& after[0].lamports + after[d].lamports == accounts[0].lamports + accounts[d].lamports
            &&& forall|i: int|
                0 <= i < accounts.len() && i != 0 && i != d ==> after[i] == accounts[i]
        }),
{
    let d = spec_transfer_dest(expected_decimals);
    let after = spec_process_transfer(program_id, accounts, amount, expected_decimals)->Ok_0;
    let source = Account::spec_unpack(accounts[0].data)->Ok_0;
    let dest = Account::spec_unpack(accounts[d].data)->Ok_0;
    let spent = spec_authorize_spend(
        program_id,
        source,
        accounts[d + 1],
        accounts.subrange(d + 2, accounts.len() as int),
        amount,
        true,
    )->Ok_0;
    let source_written = Account { amount: (source.amount - amount) as u64, ..spent };
    let dest_written = Account { amount: (dest.amount + amount) as u64, ..dest };
    source_written.lemma_unpack_pack();
    dest_written.lemma_unpack_pack();
    assert(after[0].data == source_written.spec_pack());
    assert(after[d].data == dest_written.spec_pack());
}

/// A transfer from an account to itself never changes any account,
/// whatever the amount: either it is refused, or it is carried out and
/// leaves balance, delegate and delegated amount as they were.
pub proof fn lemma_self_transfer_changes_nothing(
    program_id: Pubkey,
    accounts: Seq<AccountInfoView>,
    amount: u64,
    expected_decimals: Option<u8>,
)
    requires
        accounts.len() > spec_transfer_dest(expected_decimals),
        accounts[0].key == accounts[spec_transfer_dest(expected_decimals)].key,
    ensures
        spec_process_transfer(program_id, accounts, amount, expected_decimals) is Ok
            ==> spec_process_transfer(program_id, accounts, amount, expected_decimals)->Ok_0
            == accounts,
{
}

/// A transfer that passes every check but whose sum at the destination,
/// or whose movement of host-held balance between native accounts, does
/// not fit in 64 bits is refused with the overflow error; being refused,
/// it leaves every account as it was.
pub proof fn lemma_transfer_overflow_refused(
    program_id: Pubkey,
    accounts: Seq<AccountInfoView>,
    amount: u64,
    expected_decimals: Option<u8>,
)
    requires
        accounts.len() >= spec_transfer_dest(expected_decimals) + 2,
        accounts[0].key != accounts[spec_transfer_dest(expected_decimals)].key,
        Account::spec_unpack(accounts[0].data) is Ok,
        Account::spec_unpack(accounts[spec_transfer_dest(expected_decimals)].data) is Ok,
        ({
            let d = spec_transfer_dest(expected_decimals);
            let source = Account::spec_unpack(accounts[0].data)->Ok_0;
            let dest = Account::spec_unpack(accounts[d].data)->Ok_0;
            &&& !source.spec_is_frozen()
            &&& !dest.spec_is_frozen()
            &&& source.amount >= amount
            &&& source.mint == dest.mint
            &&& expected_decimals is Some ==> spec_check_mint(
                source.mint,
                accounts[1],
                expected_decimals->0,
            ) is Ok
            &&& spec_authorize_spend(
                program_id,
                source,
                accounts[d + 1],
                accounts.subrange(d + 2, accounts.len() as int),
                amount,
                true,
            ) is Ok
            &&& {
                ||| dest.amount + amount > u64::MAX
                ||| source.spec_is_native() && accounts[0].lamports < amount
                ||| source.spec_is_native() && accounts[d].lamports + amount > u64::MAX
            }
        }),
    ensures
        refused_with(
            spec_process_transfer(program_id, accounts, amount, expected_decimals),
            TokenError::Overflow,
        ),
{
}

/// A transfer is refused with the frozen-account error when the source or
/// the destination is frozen.
pub proof fn lemma_transfer_frozen_refused(
    program_id: Pubkey,
    accounts: Seq<AccountInfoView>,
    amount: u64,
    expected_decimals: Option<u8>,
)
    requires
        accounts.len() >= spec_transfer_dest(expected_decimals) + 2,
        Account::spec_unpack(accounts[0].data) is Ok,
        Account::spec_unpack(accounts[spec_transfer_dest(expected_decimals)].data) is Ok,
        Account::spec_unpack(accounts[0].data)->Ok_0.spec_is_frozen() || Account::spec_unpack(
            accounts[spec_transfer_dest(expected_decimals)].data,
        )->Ok_0.spec_is_frozen(),
    ensures
        refused_with(
            spec_process_transfer(program_id, accounts, amount, expected_decimals),
            TokenError::AccountFrozen,
        ),
{
}

} // verus!
