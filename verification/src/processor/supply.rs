//! `MintTo` and `Burn`: the two instructions that change a mint's supply.

use vstd::prelude::*;
use vstd::slice::slice_subrange;
use crate::account_info::{account_views, lemma_account_views_subrange, AccountInfo, AccountInfoView};
use crate::authority::spec_validate_owner;
use crate::error::{ProgramError, TokenError};
use crate::processor::{
    carried_out, refused_with, spec_authorize_spend, with_account, with_mint, Outcome, Processor,
};
use crate::pubkey::Pubkey;
use crate::state::{Account, Mint, ACCOUNT_LEN, MINT_LEN};

verus! {

/// The outcome of `MintTo`. The accounts are the mint, the destination,
/// the mint authority, then the signers of a multisignature authority.
///
/// The destination must be an initialized token account of the mint,
/// neither frozen nor native; the mint must still have a mint authority,
/// which must authorize the call. Then `amount` is added to the
/// destination and to the supply, unless either sum leaves 64 bits.
pub open spec fn spec_process_mint_to(
    program_id: Pubkey,
    accounts: Seq<AccountInfoView>,
    amount: u64,
    expected_decimals: Option<u8>,
) -> Outcome {
    if accounts.len() < 3 {
        Err(ProgramError::NotEnoughAccountKeys)
    } else {
        let mint_info = accounts[0];
        let dest_info = accounts[1];
        let signers = accounts.subrange(3, accounts.len() as int);
        match Account::spec_unpack(dest_info.data) {
            Err(e) => Err(e),
            Ok(dest) => if dest.spec_is_frozen() {
                Err(TokenError::AccountFrozen.spec_program_error())
            } else if dest.spec_is_native() {
                Err(TokenError::NativeNotSupported.spec_program_error())
            } else if mint_info.key != dest.mint {
                Err(TokenError::MintMismatch.spec_program_error())
            } else {
                match Mint::spec_unpack(mint_info.data) {
                    Err(e) => Err(e),
                    Ok(mint) => if expected_decimals is Some && expected_decimals->0
                        != mint.decimals {
                        Err(TokenError::MintDecimalsMismatch.spec_program_error())
                    } else {
                        match mint.mint_authority {
                            None => Err(TokenError::FixedSupply.spec_program_error()),
                            Some(mint_authority) => match spec_validate_owner(
                                program_id,
                                mint_authority,
                                accounts[2],
                                signers,
                            ) {
                                Err(e) => Err(e),
                                Ok(_) => if dest.amount + amount > u64::MAX || mint.supply + amount
                                    > u64::MAX {
                                    Err(TokenError::Overflow.spec_program_error())
                                } else {
                                    Ok(
                                        with_mint(
                                            with_account(
                                                accounts,
                                                1,
                                                Account {
                                                    amount: (dest.amount + amount) as u64,
                                                    ..dest
                                                },
                                                dest_info.lamports,
                                            ),
                                            0,
                                            Mint { supply: (mint.supply + amount) as u64, ..mint },
                                        ),
                                    )
                                },
                            },
                        }
                    },
                }
            },
        }
    }
}

/// The outcome of `Burn`. The accounts are the source, the mint, the
/// authority, then the signers of a multisignature authority.
///
/// The source must be an initialized token account of the mint, neither
/// frozen nor native, and hold `amount`. The authority is the source's
/// delegate, whose delegation is drawn on, or its owner. Then `amount` is
/// taken from the source and from the supply.
pub open spec fn spec_process_burn(
    program_id: Pubkey,
    accounts: Seq<AccountInfoView>,
    amount: u64,
    expected_decimals: Option<u8>,
) -> Outcome {
    if accounts.len() < 3 {
        Err(ProgramError::NotEnoughAccountKeys)
    } else {
        let source_info = accounts[0];
        let mint_info = accounts[1];
        let signers = accounts.subrange(3, accounts.len() as int);
        match (Account::spec_unpack(source_info.data), Mint::spec_unpack(mint_info.data)) {
            (Err(e), _) => Err(e),
            (Ok(_), Err(e)) => Err(e),
            (Ok(source), Ok(mint)) => if source.spec_is_frozen() {
                Err(TokenError::AccountFrozen.spec_program_error())
            } else if source.spec_is_native() {
                Err(TokenError::NativeNotSupported.spec_program_error())
            } else if source.amount < amount {
                Err(TokenError::InsufficientFunds.spec_program_error())
            } else if mint_info.key != source.mint {
                Err(TokenError::MintMismatch.spec_program_error())
            } else if expected_decimals is Some && expected_decimals->0 != mint.decimals {
                Err(TokenError::MintDecimalsMismatch.spec_program_error())
            } else {
                match spec_authorize_spend(program_id, source, accounts[2], signers, amount, true) {
                    Err(e) => Err(e),
                    Ok(source) => if mint.supply < amount {
                        Err(TokenError::Overflow.spec_program_error())
                    } else {
                        Ok(
                            with_mint(
                                with_account(
                                    accounts,
                                    0,
                                    Account { amount: (source.amount - amount) as u64, ..source },
                                    source_info.lamports,
                                ),
                                1,
                                Mint { supply: (mint.supply - amount) as u64, ..mint },
                            ),
                        )
                    },
                }
            },
        }
    }
}

impl Processor {
    /// Decides a `MintTo`: the error with which it is refused, or the
    /// destination and the mint as they are to be written.
    fn plan_mint_to(
        program_id: &Pubkey,
        accounts: &[AccountInfo],
        amount: u64,
        expected_decimals: Option<u8>,
    ) -> (r: Result<(Account, Mint), ProgramError>)
        ensures
            match spec_process_mint_to(
                *program_id,
                account_views(accounts@),
                amount,
                expected_decimals,
            ) {
                Err(e) => r == Err::<(Account, Mint), ProgramError>(e),
                Ok(after) => {
                    &&& r is Ok
                    &&& accounts@.len() >= 3
                    &&& accounts@[0]@.data.len() == MINT_LEN
                    &&& accounts@[1]@.data.len() == ACCOUNT_LEN
                    &&& after == with_mint(
                        with_account(
                            account_views(accounts@),
                            1,
                            r->Ok_0.0,
                            accounts@[1]@.lamports,
                        ),
                        0,
                        r->Ok_0.1,
                    )
                },
            },
    {
        let len: usize = accounts.len();
        if len < 3 {
            return Err(ProgramError::NotEnoughAccountKeys);
        }
        proof {
            lemma_account_views_subrange(accounts@, 3, len as int);
        }
        let mut dest_account = Account::unpack(accounts[1].data.as_slice())?;
        if dest_account.is_frozen() {
            return Err(ProgramError::from(TokenError::AccountFrozen));
        }
        if dest_account.is_native() {
            return Err(ProgramError::from(TokenError::NativeNotSupported));
        }
        if accounts[0].key != dest_account.mint {
            return Err(ProgramError::from(TokenError::MintMismatch));
        }
        let mut mint = Mint::unpack(accounts[0].data.as_slice())?;
        if let Some(decimals) = expected_decimals {
            if decimals != mint.decimals {
                return Err(ProgramError::from(TokenError::MintDecimalsMismatch));
            }
        }
        match mint.mint_authority {
            Some(mint_authority) => Self::validate_owner(
                program_id,
                &mint_authority,
                &accounts[2],
                slice_subrange(accounts, 3, len),
            )?,
            None => {
                return Err(ProgramError::from(TokenError::FixedSupply));
            },
        }
        dest_account.amount = match dest_account.amount.checked_add(amount) {
            Some(sum) => sum,
            None => {
                return Err(ProgramError::from(TokenError::Overflow));
            },
        };
        mint.supply = match mint.supply.checked_add(amount) {
            Some(sum) => sum,
            None => {
                return Err(ProgramError::from(TokenError::Overflow));
            },
        };
        Ok((dest_account, mint))
    }

    /// Processes a [MintTo](enum.TokenInstruction.html) instruction.
    pub fn process_mint_to(
        program_id: &Pubkey,
        accounts: &mut [AccountInfo],
        amount: u64,
        expected_decimals: Option<u8>,
    ) -> (r: Result<(), ProgramError>)
        ensures
            carried_out(
                spec_process_mint_to(
                    *program_id,
                    account_views(old(accounts)@),
                    amount,
                    expected_decimals,
                ),
                old(accounts)@,
                final(accounts)@,
                r,
            ),
    {
        let (dest_account, mint) = Self::plan_mint_to(
            program_id,
            accounts,
            amount,
            expected_decimals,
        )?;
        let lamports: u64 = accounts[1].lamports;
        Self::write_account(accounts, 1, dest_account, lamports);
        Self::write_mint(accounts, 0, mint);
        Ok(())
    }

    /// Decides a `Burn`: the error with which it is refused, or the source
    /// and the mint as they are to be written.
    fn plan_burn(
        program_id: &Pubkey,
        accounts: &[AccountInfo],
        amount: u64,
        expected_decimals: Option<u8>,
    ) -> (r: Result<(Account, Mint), ProgramError>)
        ensures
            match spec_process_burn(
                *program_id,
                account_views(accounts@),
                amount,
                expected_decimals,
            ) {
                Err(e) => r == Err::<(Account, Mint), ProgramError>(e),
                Ok(after) => {
                    &&& r is Ok
                    &&& accounts@.len() >= 3
                    &&& accounts@[0]@.data.len() == ACCOUNT_LEN
                    &&& accounts@[1]@.data.len() == MINT_LEN
                    &&& after == with_mint(
                        with_account(
                            account_views(accounts@),
                            0,
                            r->Ok_0.0,
                            accounts@[0]@.lamports,
                        ),
                        1,
                        r->Ok_0.1,
                    )
                },
            },
    {
        let len: usize = accounts.len();
        if len < 3 {
            return Err(ProgramError::NotEnoughAccountKeys);
        }
        proof {
            lemma_account_views_subrange(accounts@, 3, len as int);
        }
        let source_account = Account::unpack(accounts[0].data.as_slice())?;
        let mut mint = Mint::unpack(accounts[1].data.as_slice())?;

        if source_account.is_frozen() {
            return Err(ProgramError::from(TokenError::AccountFrozen));
        }
        if source_account.is_native() {
            return Err(ProgramError::from(TokenError::NativeNotSupported));
        }
        if source_account.amount < amount {
            return Err(ProgramError::from(TokenError::InsufficientFunds));
        }
        if accounts[1].key != source_account.mint {
            return Err(ProgramError::from(TokenError::MintMismatch));
        }
        if let Some(decimals) = expected_decimals {
            if decimals != mint.decimals {
                return Err(ProgramError::from(TokenError::MintDecimalsMismatch));
            }
        }
        let mut source_account = Self::authorize_spend(
            program_id,
            source_account,
            &accounts[2],
            slice_subrange(accounts, 3, len),
            amount,
            true,
        )?;
        source_account.amount = source_account.amount - amount;
        mint.supply = match mint.supply.checked_sub(amount) {
            Some(rest) => rest,
            None => {
                return Err(ProgramError::from(TokenError::Overflow));
            },
        };
        Ok((source_account, mint))
    }

    /// Processes a [Burn](enum.TokenInstruction.html) instruction.
    pub fn procee_burn(
        program_id: &Pubkey,
        accounts: &mut [AccountInfo],
        amount: u64,
        expected_decimals: Option<u8>,
    ) -> (r: Result<(), ProgramError>)
        ensures
            carried_out(
                spec_process_burn(
                    *program_id,
                    account_views(old(accounts)@),
                    amount,
                    expected_decimals,
                ),
                old(accounts)@,
                final(accounts)@,
                r,
            ),
    {
        let (source_account, mint) = Self::plan_burn(
            program_id,
            accounts,
            amount,
            expected_decimals,
        )?;
        let lamports: u64 = accounts[0].lamports;
        Self::write_account(accounts, 0, source_account, lamports);
        Self::write_mint(accounts, 1, mint);
        Ok(())
    }
}

/// A `MintTo` is refused with the frozen-account error when the
/// destination is frozen.
pub proof fn lemma_mint_to_frozen_refused(
    program_id: Pubkey,
    accounts: Seq<AccountInfoView>,
    amount: u64,
    expected_decimals: Option<u8>,
)
    requires
        accounts.len() >= 3,
        Account::spec_unpack(accounts[1].data) is Ok,
        Account::spec_unpack(accounts[1].data)->Ok_0.spec_is_frozen(),
    ensures
        refused_with(
            spec_process_mint_to(program_id, accounts, amount, expected_decimals),
            TokenError::AccountFrozen,
        ),
{
}

/// A `Burn` is refused with the frozen-account error when the source is
/// frozen.
pub proof fn lemma_burn_frozen_refused(
    program_id: Pubkey,
    accounts: Seq<AccountInfoView>,
    amount: u64,
    expected_decimals: Option<u8>,
)
    requires
        accounts.len() >= 3,
        Account::spec_unpack(accounts[0].data) is Ok,
        Mint::spec_unpack(accounts[1].data) is Ok,
        Account::spec_unpack(accounts[0].data)->Ok_0.spec_is_frozen(),
    ensures
        refused_with(
            spec_process_burn(program_id, accounts, amount, expected_decimals),
            TokenError::AccountFrozen,
        ),
{
}

/// A `MintTo` that passes every check but whose sum at the destination or
/// in the supply does not fit in 64 bits is refused with the overflow
/// error; being refused, it leaves every account as it was.
pub proof fn lemma_mint_to_overflow_refused(
    program_id: Pubkey,
    accounts: Seq<AccountInfoView>,
    amount: u64,
    expected_decimals: Option<u8>,
)
    requires
        accounts.len() >= 3,
        Account::spec_unpack(accounts[1].data) is Ok,
        Mint::spec_unpack(accounts[0].data) is Ok,
        ({
            let dest = Account::spec_unpack(accounts[1].data)->Ok_0;
            let mint = Mint::spec_unpack(accounts[0].data)->Ok_0;
            &&& !dest.spec_is_frozen()
            &&& !dest.spec_is_native()
            &&& accounts[0].key == dest.mint
            &&& expected_decimals is Some ==> expected_decimals->0 == mint.decimals
            &&& mint.mint_authority is Some
            &&& spec_validate_owner(
                program_id,
                mint.mint_authority->0,
                accounts[2],
                accounts.subrange(3, accounts.len() as int),
            ) is Ok
            &&& dest.amount + amount > u64::MAX || mint.supply + amount > u64::MAX
        }),
    ensures
        refused_with(
            spec_process_mint_to(program_id, accounts, amount, expected_decimals),
            TokenError::Overflow,
        ),
{
}

/// A `Burn` that passes every check but takes more than the supply holds
/// is refused with the overflow error; being refused, it leaves every
/// account as it was.
pub proof fn lemma_burn_overflow_refused(
    program_id: Pubkey,
    accounts: Seq<AccountInfoView>,
    amount: u64,
    expected_decimals: Option<u8>,
)
    requires
        accounts.len() >= 3,
        Account::spec_unpack(accounts[0].data) is Ok,
        Mint::spec_unpack(accounts[1].data) is Ok,
        ({
            let source = Account::spec_unpack(accounts[0].data)->Ok_0;
            let mint = Mint::spec_unpack(accounts[1].data)->Ok_0;
            &&& !source.spec_is_frozen()
            &&& !source.spec_is_native()
            &&& source.amount >= amount
            &&& accounts[1].key == source.mint
            &&& expected_decimals is Some ==> expected_decimals->0 == mint.decimals
            &&& spec_authorize_spend(
                program_id,
                source,
                accounts[2],
                accounts.subrange(3, accounts.len() as int),
                amount,
                true,
            ) is Ok
            &&& mint.supply < amount
        }),
    ensures
        refused_with(
            spec_process_burn(program_id, accounts, amount, expected_decimals),
            TokenError::Overflow,
        ),
{
}

/// What `MintTo` and `Burn` write when they are carried out: exact sums,
/// never wrapped ones. A `MintTo` adds `amount` to the destination and to
/// the supply; a `Burn` takes it from the source and from the supply.
pub proof fn lemma_supply_follows_balance(
    program_id: Pubkey,
    accounts: Seq<AccountInfoView>,
    amount: u64,
    expected_decimals: Option<u8>,
)
    ensures
        spec_process_mint_to(program_id, accounts, amount, expected_decimals) matches Ok(after)
            ==> {
            &&& Account::spec_unpack(after[1].data) is Ok
            &&& Mint::spec_unpack(after[0].data) is Ok
            &&& Account::spec_unpack(after[1].data)->Ok_0.amount == Account::spec_unpack(
                accounts[1].data,
            )->Ok_0.amount + amount
            &&& Mint::spec_unpack(after[0].data)->Ok_0.supply == Mint::spec_unpack(
                accounts[0].data,
            )->Ok_0.supply + amount
        },
        spec_process_burn(program_id, accounts, amount, expected_decimals) matches Ok(after) ==> {
            &&& Account::spec_unpack(after[0].data) is Ok
            &&& Mint::spec_unpack(after[1].data) is Ok
            &&& Account::spec_unpack(after[0].data)->Ok_0.amount == Account::spec_unpack(
                accounts[0].data,
            )->Ok_0.amount - amount
            &&& Mint::spec_unpack(after[1].data)->Ok_0.supply == Mint::spec_unpack(
                accounts[1].data,
            )->Ok_0.supply - amount
        },
{
    if spec_process_mint_to(program_id, accounts, amount, expected_decimals) is Ok {
        let dest = Account::spec_unpack(accounts[1].data)->Ok_0;
        let mint = Mint::spec_unpack(accounts[0].data)->Ok_0;
        (Account { amount: (dest.amount + amount) as u64, ..dest }).lemma_unpack_pack();
        (Mint { supply: (mint.supply + amount) as u64, ..mint }).lemma_unpack_pack();
    }
    if spec_process_burn(program_id, accounts, amount, expected_decimals) is Ok {
        let source = Account::spec_unpack(accounts[0].data)->Ok_0;
        let mint = Mint::spec_unpack(accounts[1].data)->Ok_0;
        let spent = spec_authorize_spend(
            program_id,
            source,
            accounts[2],
            accounts.subrange(3, accounts.len() as int),
            amount,
            true,
        )->Ok_0;
        (Account { amount: (source.amount - amount) as u64, ..spent }).lemma_unpack_pack();
        (Mint { supply: (mint.supply - amount) as u64, ..mint }).lemma_unpack_pack();
    }
}

/// A mint without a mint authority has a fixed supply: no `MintTo` on it
/// is ever carried out, and one that passes the checks on the destination
/// and the decimals is refused with the fixed-supply error.
pub proof fn lemma_fixed_supply_refuses_mint_to(
    program_id: Pubkey,
    accounts: Seq<AccountInfoView>,
    amount: u64,
    expected_decimals: Option<u8>,
)
    requires
        accounts.len() >= 1,
        Mint::spec_unpack(accounts[0].data) is Ok,
        Mint::spec_unpack(accounts[0].data)->Ok_0.mint_authority is None,
    ensures
        spec_process_mint_to(program_id, accounts, amount, expected_decimals) is Err,
        ({
            let dest = Account::spec_unpack(accounts[1].data);
            let mint = Mint::spec_unpack(accounts[0].data)->Ok_0;
            &&& accounts.len() >= 3
            &&& dest is Ok
            &&& !dest->Ok_0.spec_is_frozen()
            &&& !dest->Ok_0.spec_is_native()
            &&& accounts[0].key == dest->Ok_0.mint
            &&& expected_decimals is Some ==> expected_decimals->0 == mint.decimals
        }) ==> refused_with(
            spec_process_mint_to(program_id, accounts, amount, expected_decimals),
            TokenError::FixedSupply,
        ),
{
}

} // verus!
