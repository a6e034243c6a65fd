//! `InitializeMint`, `InitializeAccount` and `InitializeMultisig`, each
//! with and without the rent check.

use vstd::prelude::*;
use crate::account_info::{account_views, AccountInfo, AccountInfoView};
use crate::error::{ProgramError, TokenError};
use crate::instruction::{MAX_SIGNERS, MID_SIGNERS};
use crate::native_mint;
use crate::processor::{carried_out, with_account, with_mint, with_multisig, Outcome, Processor};
use crate::pubkey::Pubkey;
use crate::rent::{rent_check, spec_rent_check};
use crate::state::{Account, AccountState, Mint, Multisig};

verus! {

/// What the rent check says of the record in the first account, where
/// the instruction asks for the check: the rent account stands at
/// `rent_index`. An instruction that asks for none passes.
pub open spec fn spec_rent_of_first(
    accounts: Seq<AccountInfoView>,
    rent_sysvar_account: bool,
    rent_index: int,
) -> Result<bool, ProgramError> {
    if !rent_sysvar_account {
        Ok(true)
    } else if accounts.len() <= rent_index || accounts.len() < 1 {
        Err(ProgramError::NotEnoughAccountKeys)
    } else {
        spec_rent_check(accounts[rent_index], accounts[0].lamports, accounts[0].data.len())
    }
}

/// Initializing the mint in the first account, given what the rent check
/// said.
///
/// The buffer must hold a mint that is not initialized, and the balance
/// must be exempt from rent. The mint starts with the given decimals and
/// authorities and a supply of zero.
pub open spec fn spec_initialize_mint_record(
    accounts: Seq<AccountInfoView>,
    decimals: u8,
    mint_authority: Pubkey,
    freeze_authority: Option<Pubkey>,
    rent_exempt: bool,
) -> Outcome {
    if accounts.len() < 1 {
        Err(ProgramError::NotEnoughAccountKeys)
    } else {
        match Mint::spec_unpack_unchecked(accounts[0].data) {
            Err(e) => Err(e),
            Ok(mint) => if mint.is_initialized {
                Err(TokenError::AlreadyInUse.spec_program_error())
            } else if !rent_exempt {
                Err(TokenError::NotRentExempt.spec_program_error())
            } else {
                Ok(
                    with_mint(
                        accounts,
                        0,
                        Mint {
                            mint_authority: Some(mint_authority),
                            supply: 0,
                            decimals,
                            is_initialized: true,
                            freeze_authority,
                        },
                    ),
                )
            },
        }
    }
}

/// The outcome of `InitializeMint`. The accounts are the mint and, with
/// the rent check, the rent account.
pub open spec fn spec_process_initialize_mint(
    accounts: Seq<AccountInfoView>,
    decimals: u8,
    mint_authority: Pubkey,
    freeze_authority: Option<Pubkey>,
    rent_sysvar_account: bool,
) -> Outcome {
    if accounts.len() < 1 {
        Err(ProgramError::NotEnoughAccountKeys)
    } else {
        match spec_rent_of_first(accounts, rent_sysvar_account, 1) {
            Err(e) => Err(e),
            Ok(rent_exempt) => spec_initialize_mint_record(
                accounts,
                decimals,
                mint_authority,
                freeze_authority,
                rent_exempt,
            ),
        }
    }
}

/// Initializing the token account in the first account for the mint in
/// the second, given what the rent check said.
///
/// The buffer must hold a token account that is not initialized, the
/// balance must be exempt from rent, and the mint must be the native mint
/// or hold an initialized mint. The account starts with no tokens and no
/// delegate; an account of the native mint is marked with the host-held
/// balance it starts with.
pub open spec fn spec_initialize_account_record(
    accounts: Seq<AccountInfoView>,
    owner: Pubkey,
    rent_exempt: bool,
) -> Outcome {
    if accounts.len() < 2 {
        Err(ProgramError::NotEnoughAccountKeys)
    } else {
        let new_info = accounts[0];
        let mint_info = accounts[1];
        let is_native_mint = mint_info.key == native_mint::spec_id();
        match Account::spec_unpack_unchecked(new_info.data) {
            Err(e) => Err(e),
            Ok(account) => if account.spec_is_initialized() {
                Err(TokenError::AlreadyInUse.spec_program_error())
            } else if !rent_exempt {
                Err(TokenError::NotRentExempt.spec_program_error())
            } else if !is_native_mint && Mint::spec_unpack(mint_info.data) is Err {
                Err(TokenError::InvalidMint.spec_program_error())
            } else {
                Ok(
                    with_account(
                        accounts,
                        0,
                        Account {
                            mint: mint_info.key,
                            owner,
                            amount: 0,
                            delegate: None,
                            state: AccountState::Initialized,
                            is_native: if is_native_mint {
                                Some(new_info.lamports)
                            } else {
                                None
                            },
                            delegated_amount: 0,
                            close_authority: None,
                        },
                        new_info.lamports,
                    ),
                )
            },
        }
    }
}

/// The outcome of `InitializeAccount`. The accounts are the new account,
/// the mint, the owner unless the instruction carries it, and, with the
/// rent check, the rent account.
pub open spec fn spec_process_initialize_account(
    accounts: Seq<AccountInfoView>,
    owner: Option<Pubkey>,
    rent_sysvar_account: bool,
) -> Outcome {
    let o: int = if owner is None {
        1
    } else {
        0
    };
    if accounts.len() < 2 + o {
        Err(ProgramError::NotEnoughAccountKeys)
    } else {
        match spec_rent_of_first(accounts, rent_sysvar_account, 2 + o) {
            Err(e) => Err(e),
            Ok(rent_exempt) => spec_initialize_account_record(
                accounts,
                match owner {
                    Some(key) => key,
                    None => accounts[2].key,
                },
                rent_exempt,
            ),
        }
    }
}

/// The signer in slot `i` of a new multisignature authority: the key of
/// the `i`-th account from `first` on for the `n` slots in use, and what the
/// buffer held for the others.
pub open spec fn spec_new_signer(
    accounts: Seq<AccountInfoView>,
    first: int,
    n: int,
    before: Multisig,
    i: int,
) -> Pubkey {
    if i < n {
        accounts[first + i].key
    } else {
        before.signers[i]
    }
}

/// A new multisignature authority with threshold `m` whose `n` signers are
/// the accounts from `first` on.
pub open spec fn spec_new_multisig(
    accounts: Seq<AccountInfoView>,
    m: u8,
    first: int,
    n: int,
    before: Multisig,
) -> Multisig {
    Multisig {
        m,
        n: n as u8,
        is_initialized: true,
        signers: [
            spec_new_signer(accounts, first, n, before, 0),
            spec_new_signer(accounts, first, n, before, 1),
            spec_new_signer(accounts, first, n, before, 2),
            spec_new_signer(accounts, first, n, before, 3),
            spec_new_signer(accounts, first, n, before, 4),
            spec_new_signer(accounts, first, n, before, 5),
            spec_new_signer(accounts, first, n, before, 6),
            spec_new_signer(accounts, first, n, before, 7),
            spec_new_signer(accounts, first, n, before, 8),
            spec_new_signer(accounts, first, n, before, 9),
            spec_new_signer(accounts, first, n, before, 10),
        ],
    }
}

/// Initializing the multisignature authority in the first account, whose
/// signers are the accounts from `first` on, given what the rent check
/// said.
///
/// The buffer must hold an authority that is not initialized, and the
/// balance must be exempt from rent. There must be between 1 and 11
/// signers, and the threshold `m` must lie between 1 and their number.
pub open spec fn spec_initialize_multisig_record(
    accounts: Seq<AccountInfoView>,
    m: u8,
    first: int,
    rent_exempt: bool,
) -> Outcome {
    if accounts.len() < 1 || first < 1 || accounts.len() < first {
        Err(ProgramError::NotEnoughAccountKeys)
    } else {
        let n = accounts.len() - first;
        match Multisig::spec_unpack_unchecked(accounts[0].data) {
            Err(e) => Err(e),
            Ok(before) => if before.is_initialized {
                Err(TokenError::AlreadyInUse.spec_program_error())
            } else if !rent_exempt {
                Err(TokenError::NotRentExempt.spec_program_error())
            } else if n < MID_SIGNERS || n > MAX_SIGNERS {
                Err(TokenError::InvalidNumberOfProvidedSigners.spec_program_error())
            } else if m < MID_SIGNERS || m > n {
                Err(TokenError::InvalidNumberOfRequiredSigners.spec_program_error())
            } else {
                Ok(with_multisig(accounts, 0, spec_new_multisig(accounts, m, first, n, before)))
            },
        }
    }
}

/// The outcome of `InitializeMultisig`. The accounts are the authority,
/// with the rent check the rent account, then the signers.
pub open spec fn spec_process_initialize_multisig(
    accounts: Seq<AccountInfoView>,
    m: u8,
    rent_sysvar_account: bool,
) -> Outcome {
    if accounts.len() < 1 {
        Err(ProgramError::NotEnoughAccountKeys)
    } else {
        match spec_rent_of_first(accounts, rent_sysvar_account, 1) {
            Err(e) => Err(e),
            Ok(rent_exempt) => spec_initialize_multisig_record(
                accounts,
                m,
                if rent_sysvar_account {
                    2
                } else {
                    1
                },
                rent_exempt,
            ),
        }
    }
}

impl Processor {
    /// Consults the rent account at `rent_index` about the record in the
    /// first account, where the instruction asks for it.
    fn rent_of_first(accounts: &[AccountInfo], rent_sysvar_account: bool, rent_index: usize) -> (r:
        Result<bool, ProgramError>)
        ensures
            r == spec_rent_of_first(account_views(accounts@), rent_sysvar_account, rent_index as int),
    {
        if !rent_sysvar_account {
            return Ok(true);
        }
        if accounts.len() <= rent_index || accounts.len() < 1 {
            return Err(ProgramError::NotEnoughAccountKeys);
        }
        rent_check(&accounts[rent_index], accounts[0].lamports, accounts[0].data.len())
    }

    /// Initializes the mint in the first account, given whether its
    /// balance is exempt from rent.
    pub fn initialize_mint_record(
        accounts: &mut [AccountInfo],
        decimals: u8,
        mint_authority: Pubkey,
        freeze_authority: Option<Pubkey>,
        rent_exempt: bool,
    ) -> (r: Result<(), ProgramError>)
        ensures
            carried_out(
                spec_initialize_mint_record(
                    account_views(old(accounts)@),
                    decimals,
                    mint_authority,
                    freeze_authority,
                    rent_exempt,
                ),
                old(accounts)@,
                final(accounts)@,
                r,
            ),
    {
        if accounts.len() < 1 {
            return Err(ProgramError::NotEnoughAccountKeys);
        }
        let mut mint = Mint::unpack_unchecked(accounts[0].data.as_slice())?;
        if mint.is_initialized {
            return Err(ProgramError::from(TokenError::AlreadyInUse));
        }
        if !rent_exempt {
            return Err(ProgramError::from(TokenError::NotRentExempt));
        }
        mint.mint_authority = Some(mint_authority);
        mint.supply = 0;
        mint.decimals = decimals;
        mint.is_initialized = true;
        mint.freeze_authority = freeze_authority;
        Self::write_mint(accounts, 0, mint);
        Ok(())
    }

    fn _process_initialize_mint(
        accounts: &mut [AccountInfo],
        decimals: u8,
        mint_authority: Pubkey,
        freeze_authority: Option<Pubkey>,
        rent_sysvar_account: bool,
    ) -> (r: Result<(), ProgramError>)
        ensures
            carried_out(
                spec_process_initialize_mint(
                    account_views(old(accounts)@),
                    decimals,
                    mint_authority,
                    freeze_authority,
                    rent_sysvar_account,
                ),
                old(accounts)@,
                final(accounts)@,
                r,
            ),
    {
        if accounts.len() < 1 {
            return Err(ProgramError::NotEnoughAccountKeys);
        }
        let rent_exempt = Self::rent_of_first(accounts, rent_sysvar_account, 1)?;
        Self::initialize_mint_record(accounts, decimals, mint_authority, freeze_authority, rent_exempt)
    }

    /// Processes an [InitializeMint](enum.TokenInstruction.html) instruction.
    pub fn process_initialize_mint(
        accounts: &mut [AccountInfo],
        decimals: u8,
        mint_authority: Pubkey,
        freeze_authority: Option<Pubkey>,
    ) -> (r: Result<(), ProgramError>)
        ensures
            carried_out(
                spec_process_initialize_mint(
                    account_views(old(accounts)@),
                    decimals,
                    mint_authority,
                    freeze_authority,
                    true,
                ),
                old(accounts)@,
                final(accounts)@,
                r,
            ),
    {
        Self::_process_initialize_mint(accounts, decimals, mint_authority, freeze_authority, true)
    }

    /// Processes an [InitializeMint2](enum.TokenInstruction.html) instruction.
    pub fn process_initialize_mint2(
        accounts: &mut [AccountInfo],
        decimals: u8,
        mint_authority: Pubkey,
        freeze_authority: Option<Pubkey>,
    ) -> (r: Result<(), ProgramError>)
        ensures
            carried_out(
                spec_process_initialize_mint(
                    account_views(old(accounts)@),
                    decimals,
                    mint_authority,
                    freeze_authority,
                    false,
                ),
                old(accounts)@,
                final(accounts)@,
                r,
            ),
    {
        Self::_process_initialize_mint(accounts, decimals, mint_authority, freeze_authority, false)
    }

    /// Initializes the token account in the first account for the mint in
    /// the second, given whether its balance is exempt from rent.
    pub fn initialize_account_record(accounts: &mut [AccountInfo], owner: Pubkey, rent_exempt: bool) -> (r:
        Result<(), ProgramError>)
        ensures
            carried_out(
                spec_initialize_account_record(account_views(old(accounts)@), owner, rent_exempt),
                old(accounts)@,
                final(accounts)@,
                r,
            ),
    {
        if accounts.len() < 2 {
            return Err(ProgramError::NotEnoughAccountKeys);
        }
        let mut account = Account::unpack_unchecked(accounts[0].data.as_slice())?;
        if account.is_initialized() {
            return Err(ProgramError::from(TokenError::AlreadyInUse));
        }
        if !rent_exempt {
            return Err(ProgramError::from(TokenError::NotRentExempt));
        }
        let is_native_mint = native_mint::check_id(&accounts[1].key);
        if !is_native_mint {
            if Mint::unpack(accounts[1].data.as_slice()).is_err() {
                return Err(ProgramError::from(TokenError::InvalidMint));
            }
        }
        let lamports: u64 = accounts[0].lamports;
        account.mint = accounts[1].key;
        account.owner = owner;
        account.amount = 0;
        account.delegate = None;
        account.state = AccountState::Initialized;
        account.is_native = if is_native_mint {
            Some(lamports)
        } else {
            None
        };
        account.delegated_amount = 0;
        account.close_authority = None;
        Self::write_account(accounts, 0, account, lamports);
        Ok(())
    }

    fn _process_initialize_account(
        accounts: &mut [AccountInfo],
        owner: Option<&Pubkey>,
        rent_sysvar_account: bool,
    ) -> (r: Result<(), ProgramError>)
        ensures
            carried_out(
                spec_process_initialize_account(
                    account_views(old(accounts)@),
                    match owner {
                        Some(key) => Some(*key),
                        None => None,
                    },
                    rent_sysvar_account,
                ),
                old(accounts)@,
                final(accounts)@,
                r,
            ),
    {
        let o: usize = if owner.is_none() {
            1
        } else {
            0
        };
        if accounts.len() < 2 + o {
            return Err(ProgramError::NotEnoughAccountKeys);
        }
        let owner = match owner {
            Some(key) => *key,
            None => accounts[2].key,
        };
        let rent_exempt = Self::rent_of_first(accounts, rent_sysvar_account, 2 + o)?;
        Self::initialize_account_record(accounts, owner, rent_exempt)
    }

    /// Processes an [InitializeAccount](enum.TokenInstruction.html) instruction.
    pub fn process_initialize_account(accounts: &mut [AccountInfo]) -> (r: Result<(), ProgramError>)
        ensures
            carried_out(
                spec_process_initialize_account(account_views(old(accounts)@), None, true),
                old(accounts)@,
                final(accounts)@,
                r,
            ),
    {
        Self::_process_initialize_account(accounts, None, true)
    }

    /// Processes an [InitializeAccount2](enum.TokenInstruction.html) instruction.
    pub fn process_initialize_account2(accounts: &mut [AccountInfo], owner: Pubkey) -> (r: Result<
        (),
        ProgramError,
    >)
        ensures
            carried_out(
                spec_process_initialize_account(account_views(old(accounts)@), Some(owner), true),
                old(accounts)@,
                final(accounts)@,
                r,
            ),
    {
        Self::_process_initialize_account(accounts, Some(&owner), true)
    }

    /// Processes an `InitializeAccount2` instruction that comes without
    /// the rent account: no rent check is made.
    pub fn process_initialize_account3(accounts: &mut [AccountInfo], owner: Pubkey) -> (r: Result<
        (),
        ProgramError,
    >)
        ensures
            carried_out(
                spec_process_initialize_account(account_views(old(accounts)@), Some(owner), false),
                old(accounts)@,
                final(accounts)@,
                r,
            ),
    {
        Self::_process_initialize_account(accounts, Some(&owner), false)
    }

    /// Initializes the multisignature authority in the first account with
    /// the accounts from `first` on as its signers, given whether its
    /// balance is exempt from rent.
    pub fn initialize_multisig_record(
        accounts: &mut [AccountInfo],
        m: u8,
        first: usize,
        rent_exempt: bool,
    ) -> (r: Result<(), ProgramError>)
        ensures
            carried_out(
                spec_initialize_multisig_record(
                    account_views(old(accounts)@),
                    m,
                    first as int,
                    rent_exempt,
                ),
                old(accounts)@,
                final(accounts)@,
                r,
            ),
    {
        let len: usize = accounts.len();
        if len < 1 || first < 1 || len < first {
            return Err(ProgramError::NotEnoughAccountKeys);
        }
        let before = Multisig::unpack_unchecked(accounts[0].data.as_slice())?;
        if before.is_initialized {
            return Err(ProgramError::from(TokenError::AlreadyInUse));
        }
        if !rent_exempt {
            return Err(ProgramError::from(TokenError::NotRentExempt));
        }
        let n: usize = len - first;
        if n < MID_SIGNERS || n > MAX_SIGNERS {
            return Err(ProgramError::from(TokenError::InvalidNumberOfProvidedSigners));
        }
        if (m as usize) < MID_SIGNERS || m as usize > n {
            return Err(ProgramError::from(TokenError::InvalidNumberOfRequiredSigners));
        }
        let mut multisig = before;
        multisig.m = m;
        multisig.n = n as u8;
        multisig.is_initialized = true;
        let ghost views = account_views(accounts@);
        let mut i: usize = 0;
        while i < n
            invariant
                i <= n,
                n <= 11,
                first + n == accounts@.len(),
                views == account_views(accounts@),
                multisig.m == m,
                multisig.n == n,
                multisig.is_initialized,
                forall|j: int|
                    0 <= j < i ==> multisig.signers[j] == spec_new_signer(
                        views,
                        first as int,
                        n as int,
                        before,
                        j,
                    ),
                forall|j: int| i <= j < 11 ==> multisig.signers[j] == before.signers[j],
            decreases n - i,
        {
            multisig.signers[i] = accounts[first + i].key;
            i += 1;
        }
        proof {
            let target = spec_new_multisig(views, m, first as int, n as int, before);
            assert(multisig.signers =~= target.signers);
            assert(multisig == target);
        }
        Self::write_multisig(accounts, 0, multisig);
        Ok(())
    }

    fn _process_initialize_multisig(accounts: &mut [AccountInfo], m: u8, rent_sysvar_account: bool) -> (r:
        Result<(), ProgramError>)
        ensures
            carried_out(
                spec_process_initialize_multisig(
                    account_views(old(accounts)@),
                    m,
                    rent_sysvar_account,
                ),
                old(accounts)@,
                final(accounts)@,
                r,
            ),
    {
        if accounts.len() < 1 {
            return Err(ProgramError::NotEnoughAccountKeys);
        }
        let rent_exempt = Self::rent_of_first(accounts, rent_sysvar_account, 1)?;
        let first: usize = if rent_sysvar_account {
            2
        } else {
            1
        };
        Self::initialize_multisig_record(accounts, m, first, rent_exempt)
    }

    /// Processes a [InitializeMultisig](enum.TokenInstruction.html) instruction.
    pub fn process_initialize_multisig(accounts: &mut [AccountInfo], m: u8) -> (r: Result<
        (),
        ProgramError,
    >)
        ensures
            carried_out(
                spec_process_initialize_multisig(account_views(old(accounts)@), m, true),
                old(accounts)@,
                final(accounts)@,
                r,
            ),
    {
        Self::_process_initialize_multisig(accounts, m, true)
    }

    /// Processes a [InitializeMultisig2](enum.TokenInstruction.html) instruction.
    pub fn process_initialize_multisig2(accounts: &mut [AccountInfo], m: u8) -> (r: Result<
        (),
        ProgramError,
    >)
        ensures
            carried_out(
                spec_process_initialize_multisig(account_views(old(accounts)@), m, false),
                old(accounts)@,
                final(accounts)@,
                r,
            ),
    {
        Self::_process_initialize_multisig(accounts, m, false)
    }
}

/// A multisignature authority that has just been initialized is well
/// formed: its signers are the keys of the signer accounts, in order, and
/// its threshold lies between 1 and their number.
pub proof fn lemma_new_multisig_is_well_formed(
    accounts: Seq<AccountInfoView>,
    m: u8,
    first: int,
    rent_exempt: bool,
)
    requires
        spec_initialize_multisig_record(accounts, m, first, rent_exempt) is Ok,
    ensures
        ({
            let after = spec_initialize_multisig_record(accounts, m, first, rent_exempt)->Ok_0;
            let multisig = Multisig::spec_unpack(after[0].data);
            &&& multisig is Ok
            &&& multisig->Ok_0.spec_well_formed()
            &&& multisig->Ok_0.m == m
            &&& multisig->Ok_0.n == accounts.len() - first
            &&& forall|k: int|
                0 <= k < accounts.len() - first ==> multisig->Ok_0.signers[k] == accounts[first
                    + k].key
        }),
{
    let n = accounts.len() - first;
    let before = Multisig::spec_unpack_unchecked(accounts[0].data)->Ok_0;
    let multisig = spec_new_multisig(accounts, m, first, n, before);
    multisig.lemma_unpack_pack();
    assert forall|k: int| 0 <= k < n implies multisig.signers[k] == accounts[first + k].key by {
        assert(multisig.signers[k] == spec_new_signer(accounts, first, n, before, k));
    }
}

} // verus!
