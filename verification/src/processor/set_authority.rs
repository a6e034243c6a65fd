//! `SetAuthority`: replacing an authority of a token account or of a mint.

use vstd::prelude::*;
use vstd::slice::slice_subrange;
use crate::account_info::{account_views, lemma_account_views_subrange, AccountInfo, AccountInfoView};
use crate::authority::spec_validate_owner;
use crate::error::{ProgramError, TokenError};
use crate::instruction::AuthorityType;
use crate::processor::{carried_out, refused_with, with_account, with_mint, Outcome, Processor};
use crate::pubkey::Pubkey;
use crate::state::{Account, Mint, ACCOUNT_LEN, MINT_LEN};

verus! {

/// A record as `SetAuthority` is to write it.
pub enum AuthorityChange {
    /// The token account to write.
    OfAccount(Account),
    /// The mint to write.
    OfMint(Mint),
}

/// `SetAuthority` on a token account.
///
/// The account must not be frozen. The owner is replaced by a new owner,
/// which must be present, on the owner's authorization; the delegation
/// ends with it, and so does the close authority of a native account. The
/// close authority is replaced on the authorization of the close
/// authority, or of the owner where there is none. A token account has no
/// other authority.
pub open spec fn spec_set_account_authority(
    program_id: Pubkey,
    account: Account,
    authority_type: AuthorityType,
    new_authority: Option<Pubkey>,
    authority_info: AccountInfoView,
    signers: Seq<AccountInfoView>,
) -> Result<Account, ProgramError> {
    if account.spec_is_frozen() {
        Err(TokenError::AccountFrozen.spec_program_error())
    } else {
        match authority_type {
            AuthorityType::AccountOwner => match spec_validate_owner(
                program_id,
                account.owner,
                authority_info,
                signers,
            ) {
                Err(e) => Err(e),
                Ok(_) => match new_authority {
                    None => Err(TokenError::InvalidInstruction.spec_program_error()),
                    Some(owner) => Ok(
                        Account {
                            owner,
                            delegate: None,
                            delegated_amount: 0,
                            close_authority: if account.spec_is_native() {
                                None
                            } else {
                                account.close_authority
                            },
                            ..account
                        },
                    ),
                },
            },
            AuthorityType::CloseAccount => match spec_validate_owner(
                program_id,
                match account.close_authority {
                    Some(key) => key,
                    None => account.owner,
                },
                authority_info,
                signers,
            ) {
                Err(e) => Err(e),
                Ok(_) => Ok(Account { close_authority: new_authority, ..account }),
            },
            _ => Err(TokenError::AuthorityTypeNotSupported.spec_program_error()),
        }
    }
}

/// `SetAuthority` on a mint.
///
/// The mint authority is replaced on its own authorization; a mint
/// without one has a fixed supply and keeps it. The freeze authority is
/// replaced on its own authorization; a mint without one cannot freeze.
/// A mint has no other authority.
pub open spec fn spec_set_mint_authority(
    program_id: Pubkey,
    mint: Mint,
    authority_type: AuthorityType,
    new_authority: Option<Pubkey>,
    authority_info: AccountInfoView,
    signers: Seq<AccountInfoView>,
) -> Result<Mint, ProgramError> {
    match authority_type {
        AuthorityType::MintTokens => match mint.mint_authority {
            None => Err(TokenError::FixedSupply.spec_program_error()),
            Some(mint_authority) => match spec_validate_owner(
                program_id,
                mint_authority,
                authority_info,
                signers,
            ) {
                Err(e) => Err(e),
                Ok(_) => Ok(Mint { mint_authority: new_authority, ..mint }),
            },
        },
        AuthorityType::FreezeAccount => match mint.freeze_authority {
            None => Err(TokenError::MintCannotFreeze.spec_program_error()),
            Some(freeze_authority) => match spec_validate_owner(
                program_id,
                freeze_authority,
                authority_info,
                signers,
            ) {
                Err(e) => Err(e),
                Ok(_) => Ok(Mint { freeze_authority: new_authority, ..mint }),
            },
        },
        _ => Err(TokenError::AuthorityTypeNotSupported.spec_program_error()),
    }
}

/// The outcome of `SetAuthority`. The accounts are the record, the
/// current authority, then the signers of a multisignature authority.
///
/// The width of the record's buffer tells a token account from a mint; a
/// buffer of any other width is an invalid argument.
pub open spec fn spec_process_set_authority(
    program_id: Pubkey,
    accounts: Seq<AccountInfoView>,
    authority_type: AuthorityType,
    new_authority: Option<Pubkey>,
) -> Outcome {
    if accounts.len() < 2 {
        Err(ProgramError::NotEnoughAccountKeys)
    } else {
        let info = accounts[0];
        let signers = accounts.subrange(2, accounts.len() as int);
        if info.data.len() == ACCOUNT_LEN {
            match Account::spec_unpack(info.data) {
                Err(e) => Err(e),
                Ok(account) => match spec_set_account_authority(
                    program_id,
                    account,
                    authority_type,
                    new_authority,
                    accounts[1],
                    signers,
                ) {
                    Err(e) => Err(e),
                    Ok(account) => Ok(with_account(accounts, 0, account, info.lamports)),
                },
            }
        } else if info.data.len() == MINT_LEN {
            match Mint::spec_unpack(info.data) {
                Err(e) => Err(e),
                Ok(mint) => match spec_set_mint_authority(
                    program_id,
                    mint,
                    authority_type,
                    new_authority,
                    accounts[1],
                    signers,
                ) {
                    Err(e) => Err(e),
                    Ok(mint) => Ok(with_mint(accounts, 0, mint)),
                },
            }
        } else {
            Err(ProgramError::InvalidArgument)
        }
    }
}

impl Processor {
    /// Replaces an authority of a token account.
    pub fn set_account_authority(
        program_id: &Pubkey,
        account: Account,
        authority_type: AuthorityType,
        new_authority: Option<Pubkey>,
        authority_info: &AccountInfo,
        signers: &[AccountInfo],
    ) -> (r: Result<Account, ProgramError>)
        ensures
            r == spec_set_account_authority(
                *program_id,
                account,
                authority_type,
                new_authority,
                authority_info@,
                account_views(signers@),
            ),
    {
        let mut account = account;
        if account.is_frozen() {
            return Err(ProgramError::from(TokenError::AccountFrozen));
        }
        match authority_type {
            AuthorityType::AccountOwner => {
                Self::validate_owner(program_id, &account.owner, authority_info, signers)?;
                if let Some(authority) = new_authority {
                    account.owner = authority;
                } else {
                    return Err(ProgramError::from(TokenError::InvalidInstruction));
                }
                account.delegate = None;
                account.delegated_amount = 0;
                if account.is_native() {
                    account.close_authority = None;
                }
            },
            AuthorityType::CloseAccount => {
                let authority = match account.close_authority {
                    Some(key) => key,
                    None => account.owner,
                };
                Self::validate_owner(program_id, &authority, authority_info, signers)?;
                account.close_authority = new_authority;
            },
            _ => {
                return Err(ProgramError::from(TokenError::AuthorityTypeNotSupported));
            },
        }
        Ok(account)
    }

    /// Replaces an authority of a mint.
    pub fn set_mint_authority(
        program_id: &Pubkey,
        mint: Mint,
        authority_type: AuthorityType,
        new_authority: Option<Pubkey>,
        authority_info: &AccountInfo,
        signers: &[AccountInfo],
    ) -> (r: Result<Mint, ProgramError>)
        ensures
            r == spec_set_mint_authority(
                *program_id,
                mint,
                authority_type,
                new_authority,
                authority_info@,
                account_views(signers@),
            ),
    {
        let mut mint = mint;
        match authority_type {
            AuthorityType::MintTokens => {
                let mint_authority = match mint.mint_authority {
                    Some(key) => key,
                    None => {
                        return Err(ProgramError::from(TokenError::FixedSupply));
                    },
                };
                Self::validate_owner(program_id, &mint_authority, authority_info, signers)?;
                mint.mint_authority = new_authority;
            },
            AuthorityType::FreezeAccount => {
                let freeze_authority = match mint.freeze_authority {
                    Some(key) => key,
                    None => {
                        return Err(ProgramError::from(TokenError::MintCannotFreeze));
                    },
                };
                Self::validate_owner(program_id, &freeze_authority, authority_info, signers)?;
                mint.freeze_authority = new_authority;
            },
            _ => {
                return Err(ProgramError::from(TokenError::AuthorityTypeNotSupported));
            },
        }
        Ok(mint)
    }

    /// Decides a `SetAuthority`: the error with which it is refused, or
    /// the record as it is to be written.
    fn plan_set_authority(
        program_id: &Pubkey,
        accounts: &[AccountInfo],
        authority_type: AuthorityType,
        new_authority: Option<Pubkey>,
    ) -> (r: Result<AuthorityChange, ProgramError>)
        ensures
            match spec_process_set_authority(
                *program_id,
                account_views(accounts@),
                authority_type,
                new_authority,
            ) {
                Err(e) => r == Err::<AuthorityChange, ProgramError>(e),
                Ok(after) => accounts@.len() >= 2 && match r {
                    Ok(AuthorityChange::OfAccount(account)) => {
                        &&& accounts@[0]@.data.len() == ACCOUNT_LEN
                        &&& after == with_account(
                            account_views(accounts@),
                            0,
                            account,
                            accounts@[0]@.lamports,
                        )
                    },
                    Ok(AuthorityChange::OfMint(mint)) => {
                        &&& accounts@[0]@.data.len() == MINT_LEN
                        &&& after == with_mint(account_views(accounts@), 0, mint)
                    },
                    Err(_) => false,
                },
            },
    {
        let len: usize = accounts.len();
        if len < 2 {
            return Err(ProgramError::NotEnoughAccountKeys);
        }
        proof {
            lemma_account_views_subrange(accounts@, 2, len as int);
        }
        let signers = slice_subrange(accounts, 2, len);
        if accounts[0].data_len() == Account::get_packed_len() {
            let account = Account::unpack(accounts[0].data.as_slice())?;
            let account = Self::set_account_authority(
                program_id,
                account,
                authority_type,
                new_authority,
                &accounts[1],
                signers,
            )?;
            Ok(AuthorityChange::OfAccount(account))
        } else if accounts[0].data_len() == Mint::get_packed_len() {
            let mint = Mint::unpack(accounts[0].data.as_slice())?;
            let mint = Self::set_mint_authority(
                program_id,
                mint,
                authority_type,
                new_authority,
                &accounts[1],
                signers,
            )?;
            Ok(AuthorityChange::OfMint(mint))
        } else {
            Err(ProgramError::InvalidArgument)
        }
    }

    /// Processes a [SetAuthority](enum.TokenInstruction.html) instruction.
    pub fn process_set_authority(
        program_id: &Pubkey,
        accounts: &mut [AccountInfo],
        authority_type: AuthorityType,
        new_authority: Option<Pubkey>,
    ) -> (r: Result<(), ProgramError>)
        ensures
            carried_out(
                spec_process_set_authority(
                    *program_id,
                    account_views(old(accounts)@),
                    authority_type,
                    new_authority,
                ),
                old(accounts)@,
                final(accounts)@,
                r,
            ),
    {
        match Self::plan_set_authority(program_id, accounts, authority_type, new_authority)? {
            AuthorityChange::OfAccount(account) => {
                let lamports: u64 = accounts[0].lamports;
                Self::write_account(accounts, 0, account, lamports);
            },
            AuthorityChange::OfMint(mint) => {
                Self::write_mint(accounts, 0, mint);
            },
        }
        Ok(())
    }
}

/// A mint without a mint authority keeps its fixed supply: every
/// `SetAuthority` for the mint authority is refused with the fixed-supply
/// error, whoever signs and whatever the new authority.
pub proof fn lemma_fixed_supply_refuses_set_authority(
    program_id: Pubkey,
    accounts: Seq<AccountInfoView>,
    new_authority: Option<Pubkey>,
)
    requires
        accounts.len() >= 2,
        Mint::spec_unpack(accounts[0].data) is Ok,
        Mint::spec_unpack(accounts[0].data)->Ok_0.mint_authority is None,
    ensures
        refused_with(
            spec_process_set_authority(
                program_id,
                accounts,
                AuthorityType::MintTokens,
                new_authority,
            ),
            TokenError::FixedSupply,
        ),
{
    Mint::lemma_unpack_len(accounts[0].data);
}

/// A `SetAuthority` that is carried out on a mint for the mint authority
/// leaves the mint with the new authority and otherwise as it was; with
/// no new authority, it leaves the mint without one.
pub proof fn lemma_set_mint_authority_takes_effect(
    program_id: Pubkey,
    accounts: Seq<AccountInfoView>,
    new_authority: Option<Pubkey>,
)
    requires
        accounts[0].data.len() == MINT_LEN,
        spec_process_set_authority(
            program_id,
            accounts,
            AuthorityType::MintTokens,
            new_authority,
        ) is Ok,
    ensures
        ({
            let after = spec_process_set_authority(
                program_id,
                accounts,
                AuthorityType::MintTokens,
                new_authority,
            )->Ok_0;
            let mint = Mint::spec_unpack(accounts[0].data)->Ok_0;
            Mint::spec_unpack(after[0].data) == Ok::<Mint, ProgramError>(
                Mint { mint_authority: new_authority, ..mint },
            )
        }),
{
    let mint = Mint::spec_unpack(accounts[0].data)->Ok_0;
    (Mint { mint_authority: new_authority, ..mint }).lemma_unpack_pack();
}

} // verus!
