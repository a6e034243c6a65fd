//! Program state processor: one handler per instruction. A handler checks
//! every precondition on copies of the records and writes the records
//! back only when all of them hold, so a refused instruction leaves every
//! account as it was.

use vstd::prelude::*;
use crate::account_info::{account_views, AccountInfo, AccountInfoView};
use crate::authority::spec_validate_owner;
use crate::codec::zeros;
use crate::error::{ProgramError, TokenError};
use crate::instruction::{invalid_instruction, TokenInstruction};
use crate::processor::close::spec_process_close_account;
use crate::processor::delegation::{spec_process_approve, spec_process_revoke};
use crate::processor::initialize::{
    spec_process_initialize_account, spec_process_initialize_mint, spec_process_initialize_multisig,
};
use crate::processor::set_authority::{spec_process_set_authority, spec_set_account_authority};
use crate::processor::supply::{spec_process_burn, spec_process_mint_to};
use crate::processor::transfer::spec_process_transfer;
use crate::pubkey::Pubkey;
use crate::state::{Account, Mint, Multisig, ACCOUNT_LEN, MINT_LEN, MULTISIG_LEN};

pub mod close;
pub mod delegation;
pub mod initialize;
pub mod set_authority;
pub mod supply;
pub mod transfer;

verus! {

/// Program state handler.
pub struct Processor {}

/// What a handler is to do: the accounts as they are to be left, or the
/// error with which the instruction is refused.
pub type Outcome = Result<Seq<AccountInfoView>, ProgramError>;

/// Whether a handler that was given `before` and left `after` with result
/// `r` did what `expected` says: on success the accounts are the expected
/// ones, on refusal the error is the expected one and no account changed.
pub open spec fn carried_out(
    expected: Outcome,
    before: Seq<AccountInfo>,
    after: Seq<AccountInfo>,
    r: Result<(), ProgramError>,
) -> bool {
    match expected {
        Ok(views) => r is Ok && account_views(after) == views,
        Err(e) => r == Err::<(), ProgramError>(e) && account_views(after) == account_views(before),
    }
}

/// Whether an outcome is the refusal with the given failure of the token
/// program.
pub open spec fn refused_with(outcome: Outcome, error: TokenError) -> bool {
    outcome == Err::<Seq<AccountInfoView>, ProgramError>(error.spec_program_error())
}

/// The accounts with a token account and a balance written at `index`.
pub open spec fn with_account(
    accounts: Seq<AccountInfoView>,
    index: int,
    account: Account,
    lamports: u64,
) -> Seq<AccountInfoView> {
    accounts.update(
        index,
        AccountInfoView { lamports, data: account.spec_pack(), ..accounts[index] },
    )
}

/// The accounts with a mint written at `index`.
pub open spec fn with_mint(accounts: Seq<AccountInfoView>, index: int, mint: Mint) -> Seq<
    AccountInfoView,
> {
    accounts.update(index, AccountInfoView { data: mint.spec_pack(), ..accounts[index] })
}

/// The accounts with a multisignature authority written at `index`.
pub open spec fn with_multisig(
    accounts: Seq<AccountInfoView>,
    index: int,
    multisig: Multisig,
) -> Seq<AccountInfoView> {
    accounts.update(index, AccountInfoView { data: multisig.spec_pack(), ..accounts[index] })
}

/// The cross-check that an instruction which states the mint's decimals
/// asks for: the account belongs to the mint in `mint_info`, and that mint
/// has the stated decimals.
pub open spec fn spec_check_mint(
    account_mint: Pubkey,
    mint_info: AccountInfoView,
    expected_decimals: u8,
) -> Result<(), ProgramError> {
    if account_mint != mint_info.key {
        Err(TokenError::MintMismatch.spec_program_error())
    } else {
        match Mint::spec_unpack(mint_info.data) {
            Err(e) => Err(e),
            Ok(mint) => if expected_decimals != mint.decimals {
                Err(TokenError::MintDecimalsMismatch.spec_program_error())
            } else {
                Ok(())
            },
        }
    }
}

/// Authorization to take `amount` out of `account`, and the account with
/// the delegation drawn on.
///
/// Where the authority is the account's delegate, the delegate must be
/// authorized and the delegated amount must cover `amount`; if `draw` is
/// set the delegated amount goes down by `amount`, and a delegation that
/// reaches zero ends. Any other authority must be authorized as the owner,
/// and the account stays as it is.
pub open spec fn spec_authorize_spend(
    program_id: Pubkey,
    account: Account,
    authority: AccountInfoView,
    signers: Seq<AccountInfoView>,
    amount: u64,
    draw: bool,
) -> Result<Account, ProgramError> {
    if account.delegate == Some(authority.key) {
        match spec_validate_owner(program_id, authority.key, authority, signers) {
            Err(e) => Err(e),
            Ok(_) => if account.delegated_amount < amount {
                Err(TokenError::InsufficientFunds.spec_program_error())
            } else if !draw {
                Ok(account)
            } else {
                Ok(
                    Account {
                        delegated_amount: (account.delegated_amount - amount) as u64,
                        delegate: if account.delegated_amount == amount {
                            None
                        } else {
                            account.delegate
                        },
                        ..account
                    },
                )
            },
        }
    } else {
        match spec_validate_owner(program_id, account.owner, authority, signers) {
            Err(e) => Err(e),
            Ok(_) => Ok(account),
        }
    }
}

/// The outcome of a decoded instruction: that of its handler. The
/// instructions of this wire format state no decimals.
pub open spec fn spec_process_instruction(
    program_id: Pubkey,
    accounts: Seq<AccountInfoView>,
    instruction: TokenInstruction,
) -> Outcome {
    match instruction {
        TokenInstruction::InitializeMint { decimals, mint_authority, freeze_authority } => {
            spec_process_initialize_mint(accounts, decimals, mint_authority, freeze_authority, true)
        },
        TokenInstruction::InitializeMint2 { decimals, mint_authority, freeze_authority } => {
            spec_process_initialize_mint(accounts, decimals, mint_authority, freeze_authority, false)
        },
        TokenInstruction::InitializeAccount => spec_process_initialize_account(accounts, None, true),
        TokenInstruction::InitializeAccount2 { owner } => spec_process_initialize_account(
            accounts,
            Some(owner),
            true,
        ),
        TokenInstruction::InitializeMultisig { m } => spec_process_initialize_multisig(
            accounts,
            m,
            true,
        ),
        TokenInstruction::InitializeMultisig2 { m } => spec_process_initialize_multisig(
            accounts,
            m,
            false,
        ),
        TokenInstruction::Transfer { amount } => spec_process_transfer(
            program_id,
            accounts,
            amount,
            None,
        ),
        TokenInstruction::Approve { amount } => spec_process_approve(
            program_id,
            accounts,
            amount,
            None,
        ),
        TokenInstruction::Revoke => spec_process_revoke(program_id, accounts),
        TokenInstruction::SetAuthority { authority_type, new_authority } => {
            spec_process_set_authority(program_id, accounts, authority_type, new_authority)
        },
        TokenInstruction::MintTo { amount } => spec_process_mint_to(
            program_id,
            accounts,
            amount,
            None,
        ),
        TokenInstruction::Burn { amount } => spec_process_burn(program_id, accounts, amount, None),
        TokenInstruction::CloseAccount => spec_process_close_account(program_id, accounts),
    }
}

/// The outcome of a call: input that holds no instruction is refused as
/// an invalid instruction, any other is decoded and handled.
pub open spec fn spec_process(
    program_id: Pubkey,
    accounts: Seq<AccountInfoView>,
    input: Seq<u8>,
) -> Outcome {
    match TokenInstruction::spec_unpack(input) {
        None => Err(invalid_instruction()),
        Some(instruction) => spec_process_instruction(program_id, accounts, instruction),
    }
}

impl Processor {
    /// Processes an [Instruction](enum.Instruction.html).
    pub fn process(program_id: &Pubkey, accounts: &mut [AccountInfo], input: &[u8]) -> (r: Result<
        (),
        ProgramError,
    >)
        ensures
            carried_out(
                spec_process(*program_id, account_views(old(accounts)@), input@),
                old(accounts)@,
                final(accounts)@,
                r,
            ),
    {
        let instruction = TokenInstruction::unpack(input)?;
        match instruction {
            TokenInstruction::InitializeMint { decimals, mint_authority, freeze_authority } => {
                Self::process_initialize_mint(accounts, decimals, mint_authority, freeze_authority)
            },
            TokenInstruction::InitializeMint2 { decimals, mint_authority, freeze_authority } => {
                Self::process_initialize_mint2(accounts, decimals, mint_authority, freeze_authority)
            },
            TokenInstruction::InitializeAccount => Self::process_initialize_account(accounts),
            TokenInstruction::InitializeAccount2 { owner } => {
                Self::process_initialize_account2(accounts, owner)
            },
            TokenInstruction::InitializeMultisig { m } => {
                Self::process_initialize_multisig(accounts, m)
            },
            TokenInstruction::InitializeMultisig2 { m } => {
                Self::process_initialize_multisig2(accounts, m)
            },
            TokenInstruction::Transfer { amount } => {
                Self::process_transfer(program_id, accounts, amount, None)
            },
            TokenInstruction::Approve { amount } => {
                Self::process_approve(program_id, accounts, amount, None)
            },
            TokenInstruction::Revoke => Self::process_revoke(program_id, accounts),
            TokenInstruction::SetAuthority { authority_type, new_authority } => {
                Self::process_set_authority(program_id, accounts, authority_type, new_authority)
            },
            TokenInstruction::MintTo { amount } => {
                Self::process_mint_to(program_id, accounts, amount, None)
            },
            TokenInstruction::Burn { amount } => Self::procee_burn(program_id, accounts, amount, None),
            TokenInstruction::CloseAccount => Self::process_close_account(program_id, accounts),
        }
    }

    /// Checks an account's mint against the mint that accompanies an
    /// instruction and the decimals that the instruction states.
    pub fn check_mint(account_mint: &Pubkey, mint_info: &AccountInfo, expected_decimals: u8) -> (r:
        Result<(), ProgramError>)
        ensures
            r == spec_check_mint(*account_mint, mint_info@, expected_decimals),
    {
        if account_mint != &mint_info.key {
            return Err(ProgramError::from(TokenError::MintMismatch));
        }
        let mint = Mint::unpack(mint_info.data.as_slice())?;
        if expected_decimals != mint.decimals {
            return Err(ProgramError::from(TokenError::MintDecimalsMismatch));
        }
        Ok(())
    }

    /// Authorizes taking `amount` out of `account`, by its delegate or by
    /// its owner, and draws on the delegation if `draw` is set.
    pub fn authorize_spend(
        program_id: &Pubkey,
        account: Account,
        authority_info: &AccountInfo,
        signers: &[AccountInfo],
        amount: u64,
        draw: bool,
    ) -> (r: Result<Account, ProgramError>)
        ensures
            r == spec_authorize_spend(
                *program_id,
                account,
                authority_info@,
                account_views(signers@),
                amount,
                draw,
            ),
    {
        let mut account = account;
        match account.delegate {
            Some(delegate) if authority_info.key == delegate => {
                Self::validate_owner(program_id, &delegate, authority_info, signers)?;
                if account.delegated_amount < amount {
                    return Err(ProgramError::from(TokenError::InsufficientFunds));
                }
                if draw {
                    account.delegated_amount = account.delegated_amount - amount;
                    if account.delegated_amount == 0 {
                        account.delegate = None;
                    }
                }
            },
            _ => {
                Self::validate_owner(program_id, &account.owner, authority_info, signers)?;
            },
        };
        Ok(account)
    }

    /// Writes a token account and a balance to the account at `index`.
    pub(crate) fn write_account(
        accounts: &mut [AccountInfo],
        index: usize,
        account: Account,
        lamports: u64,
    )
        requires
            index < old(accounts)@.len(),
            old(accounts)@[index as int]@.data.len() == ACCOUNT_LEN,
        ensures
            account_views(final(accounts)@) == with_account(
                account_views(old(accounts)@),
                index as int,
                account,
                lamports,
            ),
            final(accounts)@.len() == old(accounts)@.len(),
            final(accounts)@[index as int]@.data == account.spec_pack(),
            forall|i: int|
                0 <= i < old(accounts)@.len() && i != index ==> final(accounts)@[i]@ == old(
                    accounts,
                )@[i]@,
    {
        let _ = Account::pack(account, accounts[index].data.as_mut_slice());
        accounts[index].lamports = lamports;
        assert(account_views(accounts@) =~= with_account(
            account_views(old(accounts)@),
            index as int,
            account,
            lamports,
        ));
    }

    /// Writes a mint to the account at `index`.
    pub(crate) fn write_mint(accounts: &mut [AccountInfo], index: usize, mint: Mint)
        requires
            index < old(accounts)@.len(),
            old(accounts)@[index as int]@.data.len() == MINT_LEN,
        ensures
            account_views(final(accounts)@) == with_mint(
                account_views(old(accounts)@),
                index as int,
                mint,
            ),
            final(accounts)@.len() == old(accounts)@.len(),
            final(accounts)@[index as int]@.data == mint.spec_pack(),
            forall|i: int|
                0 <= i < old(accounts)@.len() && i != index ==> final(accounts)@[i]@ == old(
                    accounts,
                )@[i]@,
    {
        let _ = Mint::pack(mint, accounts[index].data.as_mut_slice());
        assert(account_views(accounts@) =~= with_mint(
            account_views(old(accounts)@),
            index as int,
            mint,
        ));
    }

    /// Writes a multisignature authority to the account at `index`.
    pub(crate) fn write_multisig(accounts: &mut [AccountInfo], index: usize, multisig: Multisig)
        requires
            index < old(accounts)@.len(),
            old(accounts)@[index as int]@.data.len() == MULTISIG_LEN,
        ensures
            account_views(final(accounts)@) == with_multisig(
                account_views(old(accounts)@),
                index as int,
                multisig,
            ),
            final(accounts)@.len() == old(accounts)@.len(),
    {
        let _ = Multisig::pack(multisig, accounts[index].data.as_mut_slice());
        assert(account_views(accounts@) =~= with_multisig(
            account_views(old(accounts)@),
            index as int,
            multisig,
        ));
    }
}

/// Whether an account holds an initialized mint without a mint authority.
pub open spec fn has_fixed_supply(info: AccountInfoView) -> bool {
    Mint::spec_unpack(info.data) is Ok && Mint::spec_unpack(info.data)->Ok_0.mint_authority is None
}

/// A fixed supply is permanent: whatever instruction is carried out, an
/// account that held a mint without a mint authority still holds that
/// mint without one, with the same decimals and with no more supply than
/// before.
#[verifier::spinoff_prover]
#[verifier::rlimit(40)]
pub proof fn lemma_fixed_supply_is_permanent(
    program_id: Pubkey,
    accounts: Seq<AccountInfoView>,
    instruction: TokenInstruction,
    i: int,
)
    requires
        0 <= i < accounts.len(),
        has_fixed_supply(accounts[i]),
        spec_process_instruction(program_id, accounts, instruction) is Ok,
    ensures
        ({
            let after = spec_process_instruction(program_id, accounts, instruction)->Ok_0;
            let mint = Mint::spec_unpack(accounts[i].data)->Ok_0;
            &&& after.len() == accounts.len()
            &&& after[i].key == accounts[i].key
            &&& has_fixed_supply(after[i])
            &&& Mint::spec_unpack(after[i].data)->Ok_0.decimals == mint.decimals
            &&& Mint::spec_unpack(after[i].data)->Ok_0.supply <= mint.supply
        }),
{
    let mint = Mint::spec_unpack(accounts[i].data)->Ok_0;
    Mint::lemma_unpack_len(accounts[i].data);
    Account::lemma_unpack_len(accounts[0].data);
    Multisig::lemma_unpack_len(accounts[0].data);
    match instruction {
        TokenInstruction::Transfer { .. } => {
            Account::lemma_unpack_len(accounts[1].data);
        },
        TokenInstruction::SetAuthority { authority_type, new_authority } => {
            if i == 0 {
                (Mint { freeze_authority: new_authority, ..mint }).lemma_unpack_pack();
            }
        },
        TokenInstruction::MintTo { .. } => {
            Account::lemma_unpack_len(accounts[1].data);
        },
        TokenInstruction::Burn { amount } => {
            if i == 1 {
                (Mint { supply: (mint.supply - amount) as u64, ..mint }).lemma_unpack_pack();
            }
        },
        _ => {},
    }
}

/// A mint keeps its decimals: whatever instruction is carried out, an
/// account that held an initialized mint still holds one with the same
/// decimals, and its supply is as before unless the instruction is a
/// `MintTo` to this mint or a `Burn` from it.
#[verifier::spinoff_prover]
#[verifier::rlimit(40)]
pub proof fn lemma_mint_keeps_its_decimals(
    program_id: Pubkey,
    accounts: Seq<AccountInfoView>,
    instruction: TokenInstruction,
    i: int,
)
    requires
        0 <= i < accounts.len(),
        Mint::spec_unpack(accounts[i].data) is Ok,
        spec_process_instruction(program_id, accounts, instruction) is Ok,
    ensures
        ({
            let after = spec_process_instruction(program_id, accounts, instruction)->Ok_0;
            let mint = Mint::spec_unpack(accounts[i].data)->Ok_0;
            let mint_after = Mint::spec_unpack(after[i].data);
            &&& after.len() == accounts.len()
            &&& mint_after is Ok
            &&& mint_after->Ok_0.decimals == mint.decimals
            &&& mint_after->Ok_0.supply != mint.supply ==> {
                ||| instruction is MintTo && i == 0
                ||| instruction is Burn && i == 1
            }
        }),
{
    let mint = Mint::spec_unpack(accounts[i].data)->Ok_0;
    Mint::lemma_unpack_len(accounts[i].data);
    Account::lemma_unpack_len(accounts[0].data);
    Multisig::lemma_unpack_len(accounts[0].data);
    match instruction {
        TokenInstruction::Transfer { .. } => {
            Account::lemma_unpack_len(accounts[1].data);
        },
        TokenInstruction::SetAuthority { authority_type, new_authority } => {
            if i == 0 {
                (Mint { mint_authority: new_authority, ..mint }).lemma_unpack_pack();
                (Mint { freeze_authority: new_authority, ..mint }).lemma_unpack_pack();
            }
        },
        TokenInstruction::MintTo { amount } => {
            Account::lemma_unpack_len(accounts[1].data);
            if i == 0 {
                (Mint { supply: (mint.supply + amount) as u64, ..mint }).lemma_unpack_pack();
            }
        },
        TokenInstruction::Burn { amount } => {
            if i == 1 {
                (Mint { supply: (mint.supply - amount) as u64, ..mint }).lemma_unpack_pack();
            }
        },
        _ => {},
    }
}

/// A multisignature authority is immutable after creation: whatever
/// instruction is carried out, a record that held an initialized authority
/// is left byte for byte as it was.
#[verifier::spinoff_prover]
#[verifier::rlimit(40)]
pub proof fn lemma_multisig_is_immutable(
    program_id: Pubkey,
    accounts: Seq<AccountInfoView>,
    instruction: TokenInstruction,
    i: int,
)
    requires
        0 <= i < accounts.len(),
        Multisig::spec_unpack(accounts[i].data) is Ok,
        spec_process_instruction(program_id, accounts, instruction) is Ok,
    ensures
        ({
            let after = spec_process_instruction(program_id, accounts, instruction)->Ok_0;
            after.len() == accounts.len() && after[i].data == accounts[i].data
        }),
{
    Multisig::lemma_unpack_len(accounts[i].data);
    Mint::lemma_unpack_len(accounts[0].data);
    Account::lemma_unpack_len(accounts[0].data);
    Account::lemma_unpack_len(accounts[1].data);
    Mint::lemma_unpack_len(accounts[1].data);
}

/// A token account keeps its mint and its state: whatever instruction is
/// carried out, a record that held an initialized token account either is
/// the account that a `CloseAccount` zeroes, or still holds a token account
/// of the same mint in the same state, whose delegation is consistent if
/// it was.
#[verifier::spinoff_prover]
#[verifier::rlimit(40)]
pub proof fn lemma_token_account_keeps_its_mint(
    program_id: Pubkey,
    accounts: Seq<AccountInfoView>,
    instruction: TokenInstruction,
    i: int,
)
    requires
        0 <= i < accounts.len(),
        Account::spec_unpack(accounts[i].data) is Ok,
        spec_process_instruction(program_id, accounts, instruction) is Ok,
    ensures
        ({
            let after = spec_process_instruction(program_id, accounts, instruction)->Ok_0;
            let account = Account::spec_unpack(accounts[i].data)->Ok_0;
            let account_after = Account::spec_unpack(after[i].data);
            &&& after.len() == accounts.len()
            &&& {
                ||| instruction is CloseAccount && i == 0 && after[i].data == zeros(
                    ACCOUNT_LEN as nat,
                )
                ||| {
                    &&& account_after is Ok
                    &&& account_after->Ok_0.mint == account.mint
                    &&& account_after->Ok_0.state == account.state
                    &&& account.spec_delegation_consistent()
                        ==> account_after->Ok_0.spec_delegation_consistent()
                }
            }
        }),
{
    let account = Account::spec_unpack(accounts[i].data)->Ok_0;
    let signers3 = accounts.subrange(3, accounts.len() as int);
    Account::lemma_unpack_len(accounts[i].data);
    Mint::lemma_unpack_len(accounts[0].data);
    Multisig::lemma_unpack_len(accounts[0].data);
    match instruction {
        TokenInstruction::Transfer { amount } => {
            if accounts[0].key != accounts[1].key {
                let source = Account::spec_unpack(accounts[0].data)->Ok_0;
                let dest = Account::spec_unpack(accounts[1].data)->Ok_0;
                let spent = spec_authorize_spend(
                    program_id,
                    source,
                    accounts[2],
                    signers3,
                    amount,
                    true,
                )->Ok_0;
                (Account { amount: (source.amount - amount) as u64, ..spent }).lemma_unpack_pack();
                (Account { amount: (dest.amount + amount) as u64, ..dest }).lemma_unpack_pack();
            }
        },
        TokenInstruction::Approve { amount } => {
            if i == 0 {
                (Account {
                    delegate: Some(accounts[1].key),
                    delegated_amount: amount,
                    ..account
                }).lemma_unpack_pack();
            }
        },
        TokenInstruction::Revoke => {
            if i == 0 {
                (Account { delegate: None, delegated_amount: 0, ..account }).lemma_unpack_pack();
            }
        },
        TokenInstruction::SetAuthority { authority_type, new_authority } => {
            if i == 0 {
                spec_set_account_authority(
                    program_id,
                    account,
                    authority_type,
                    new_authority,
                    accounts[1],
                    accounts.subrange(2, accounts.len() as int),
                )->Ok_0.lemma_unpack_pack();
            }
        },
        TokenInstruction::MintTo { amount } => {
            Mint::lemma_unpack_len(accounts[0].data);
            if i == 1 {
                (Account { amount: (account.amount + amount) as u64, ..account }).lemma_unpack_pack();
            }
        },
        TokenInstruction::Burn { amount } => {
            Mint::lemma_unpack_len(accounts[1].data);
            if i == 0 {
                let spent = spec_authorize_spend(
                    program_id,
                    account,
                    accounts[2],
                    signers3,
                    amount,
                    true,
                )->Ok_0;
                (Account { amount: (account.amount - amount) as u64, ..spent }).lemma_unpack_pack();
            }
        },
        _ => {},
    }
}

} // verus!
