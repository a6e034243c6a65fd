//! Fixed-width records: mints, token accounts and multisignature
//! authorities, with their byte layouts.
//!
//! Every record starts with a flag byte that is zero in a buffer that was
//! never written, so a zeroed buffer reads as a record that is not
//! initialized.

use vstd::prelude::*;
use vstd::bytes::{spec_u64_from_le_bytes, spec_u64_to_le_bytes};
use vstd::bytes::lemma_auto_spec_u64_to_from_le_bytes;
use crate::codec::{
    append_key, append_option_key, append_option_u64, append_u64, lemma_option_key_canonical,
    lemma_option_key_round_trip, lemma_option_u64_canonical, lemma_option_u64_round_trip,
    read_key, read_option_key, read_option_u64, read_u64, spec_flag, spec_pack_option_key,
    spec_pack_option_u64, spec_unflag, spec_unpack_option_key, spec_unpack_option_u64, unflag,
    zeros,
};
use crate::error::ProgramError;
use crate::pubkey::Pubkey;

verus! {

/// Width in bytes of a packed mint.
pub const MINT_LEN: usize = 76;

/// Width in bytes of a packed token account.
pub const ACCOUNT_LEN: usize = 156;

/// Width in bytes of a packed multisignature authority.
pub const MULTISIG_LEN: usize = 355;

/// Copies `bytes` over `dst`, which has the same length.
fn overwrite(dst: &mut [u8], bytes: &Vec<u8>)
    requires
        old(dst)@.len() == bytes@.len(),
    ensures
        final(dst)@ == bytes@,
{
    let mut i: usize = 0;
    while i < bytes.len()
        invariant
            i <= bytes@.len(),
            dst@.len() == bytes@.len(),
            forall|j: int| 0 <= j < i ==> dst@[j] == bytes@[j],
        decreases bytes@.len() - i,
    {
        dst[i] = bytes[i];
        i += 1;
    }
    assert(dst@ =~= bytes@);
}

/// A token type: its supply, precision and authorities.
#[derive(Clone, Copy, Debug, PartialEq, Eq)]
pub struct Mint {
    /// The key that may mint new tokens; without one the supply is fixed.
    pub mint_authority: Option<Pubkey>,
    /// Total supply of tokens.
    pub supply: u64,
    /// Number of base 10 digits to the right of the decimal place.
    pub decimals: u8,
    /// Whether the record has been initialized.
    pub is_initialized: bool,
    /// The key that may freeze token accounts of this mint.
    pub freeze_authority: Option<Pubkey>,
}

impl Mint {
    /// The 76 bytes of a mint: flag, decimals, the two optional authorities
    /// and the supply.
    #[verifier::opaque]
    pub open spec fn spec_pack(self) -> Seq<u8> {
        seq![spec_flag(self.is_initialized), self.decimals] + spec_pack_option_key(
            self.mint_authority,
        ) + spec_pack_option_key(self.freeze_authority) + spec_u64_to_le_bytes(self.supply)
    }

    /// The mint that a buffer holds, initialized or not.
    #[verifier::opaque]
    pub open spec fn spec_unpack_unchecked(b: Seq<u8>) -> Result<Mint, ProgramError> {
        if b.len() != MINT_LEN {
            Err(ProgramError::InvalidAccountData)
        } else {
            match (
                spec_unflag(b[0]),
                spec_unpack_option_key(b.subrange(2, 35)),
                spec_unpack_option_key(b.subrange(35, 68)),
            ) {
                (Some(is_initialized), Some(mint_authority), Some(freeze_authority)) => Ok(
                    Mint {
                        mint_authority,
                        supply: spec_u64_from_le_bytes(b.subrange(68, 76)),
                        decimals: b[1],
                        is_initialized,
                        freeze_authority,
                    },
                ),
                _ => Err(ProgramError::InvalidAccountData),
            }
        }
    }

    /// The initialized mint that a buffer holds.
    pub open spec fn spec_unpack(b: Seq<u8>) -> Result<Mint, ProgramError> {
        match Mint::spec_unpack_unchecked(b) {
            Ok(mint) => if mint.is_initialized {
                Ok(mint)
            } else {
                Err(ProgramError::UninitializedAccount)
            },
            Err(e) => Err(e),
        }
    }

    /// Only a buffer of the record's width unpacks.
    pub proof fn lemma_unpack_len(b: Seq<u8>)
        ensures
            Mint::spec_unpack_unchecked(b) is Ok ==> b.len() == MINT_LEN,
            Mint::spec_unpack(b) is Ok ==> b.len() == MINT_LEN,
    {
        reveal(Mint::spec_unpack_unchecked);
    }

    /// Packing then unpacking gives the mint back.
    pub proof fn lemma_unpack_pack(self)
        ensures
            self.spec_pack().len() == MINT_LEN,
            Mint::spec_unpack_unchecked(self.spec_pack()) == Ok::<Mint, ProgramError>(self),
    {
        reveal(Mint::spec_pack);
        reveal(Mint::spec_unpack_unchecked);
        let b = self.spec_pack();
        lemma_auto_spec_u64_to_from_le_bytes();
        lemma_option_key_round_trip(self.mint_authority);
        lemma_option_key_round_trip(self.freeze_authority);
        assert(b.subrange(2, 35) =~= spec_pack_option_key(self.mint_authority));
        assert(b.subrange(35, 68) =~= spec_pack_option_key(self.freeze_authority));
        assert(b.subrange(68, 76) =~= spec_u64_to_le_bytes(self.supply));
    }

    /// A buffer that unpacks is the packing of what it unpacks to.
    pub proof fn lemma_pack_unpack(b: Seq<u8>)
        requires
            Mint::spec_unpack_unchecked(b) is Ok,
        ensures
            Mint::spec_unpack_unchecked(b)->Ok_0.spec_pack() == b,
    {
        reveal(Mint::spec_pack);
        reveal(Mint::spec_unpack_unchecked);
        let mint = Mint::spec_unpack_unchecked(b)->Ok_0;
        lemma_auto_spec_u64_to_from_le_bytes();
        lemma_option_key_canonical(b.subrange(2, 35));
        lemma_option_key_canonical(b.subrange(35, 68));
        assert(mint.spec_pack() =~= b);
    }

    /// A buffer of zeros of the right width holds a mint that is not
    /// initialized.
    pub proof fn lemma_zeroed_is_uninitialized()
        ensures
            Mint::spec_unpack_unchecked(zeros(MINT_LEN as nat)) is Ok,
            !Mint::spec_unpack_unchecked(zeros(MINT_LEN as nat))->Ok_0.is_initialized,
            Mint::spec_unpack(zeros(MINT_LEN as nat)) == Err::<Mint, ProgramError>(
                ProgramError::UninitializedAccount,
            ),
    {
        reveal(Mint::spec_pack);
        reveal(Mint::spec_unpack_unchecked);
        let b = zeros(MINT_LEN as nat);
        assert(b.subrange(2, 35).subrange(1, 33) =~= zeros(32));
        assert(b.subrange(35, 68).subrange(1, 33) =~= zeros(32));
    }

    /// The width of a packed mint.
    pub fn get_packed_len() -> (len: usize)
        ensures
            len == MINT_LEN,
    {
        MINT_LEN
    }

    /// Whether the mint has been initialized.
    pub fn is_initialized(&self) -> (r: bool)
        ensures
            r == self.is_initialized,
    {
        self.is_initialized
    }

    fn to_bytes(&self) -> (bytes: Vec<u8>)
        ensures
            bytes@ == self.spec_pack(),
            bytes@.len() == MINT_LEN,
    {
        proof {
            reveal(Mint::spec_pack);
            reveal(Mint::spec_unpack_unchecked);
        }
        let mut buf: Vec<u8> = Vec::new();
        buf.push(if self.is_initialized { 1 } else { 0 });
        buf.push(self.decimals);
        assert(buf@ =~= seq![spec_flag(self.is_initialized), self.decimals]);
        append_option_key(&mut buf, &self.mint_authority);
        append_option_key(&mut buf, &self.freeze_authority);
        append_u64(&mut buf, self.supply);
        proof {
            self.lemma_unpack_pack();
        }
        buf
    }

    /// Reads a mint from a buffer of exactly its width, whether or not it
    /// is initialized.
    pub fn unpack_unchecked(input: &[u8]) -> (r: Result<Mint, ProgramError>)
        ensures
            r == Mint::spec_unpack_unchecked(input@),
            r is Ok ==> input@.len() == MINT_LEN,
    {
        proof {
            reveal(Mint::spec_pack);
            reveal(Mint::spec_unpack_unchecked);
        }
        if input.len() != MINT_LEN {
            return Err(ProgramError::InvalidAccountData);
        }
        let is_initialized = unflag(input[0]);
        let mint_authority = read_option_key(input, 2);
        let freeze_authority = read_option_key(input, 35);
        match (is_initialized, mint_authority, freeze_authority) {
            (Some(is_initialized), Some(mint_authority), Some(freeze_authority)) => Ok(
                Mint {
                    mint_authority,
                    supply: read_u64(input, 68),
                    decimals: input[1],
                    is_initialized,
                    freeze_authority,
                },
            ),
            _ => Err(ProgramError::InvalidAccountData),
        }
    }

    /// Reads an initialized mint from a buffer of exactly its width.
    pub fn unpack(input: &[u8]) -> (r: Result<Mint, ProgramError>)
        ensures
            r == Mint::spec_unpack(input@),
            r is Ok ==> input@.len() == MINT_LEN,
    {
        let mint = Mint::unpack_unchecked(input)?;
        if mint.is_initialized {
            Ok(mint)
        } else {
            Err(ProgramError::UninitializedAccount)
        }
    }

    /// Writes a mint over a buffer of exactly its width; any other buffer
    /// is left as it is.
    pub fn pack(src: Mint, dst: &mut [u8]) -> (r: Result<(), ProgramError>)
        ensures
            old(dst)@.len() == MINT_LEN ==> r is Ok && final(dst)@ == src.spec_pack(),
            old(dst)@.len() != MINT_LEN ==> r == Err::<(), ProgramError>(
                ProgramError::InvalidAccountData,
            ) && final(dst)@ == old(dst)@,
    {
        if dst.len() != MINT_LEN {
            return Err(ProgramError::InvalidAccountData);
        }
        let bytes = src.to_bytes();
        overwrite(dst, &bytes);
        Ok(())
    }
}

/// Life-cycle state of a token account.
#[derive(Clone, Copy, Debug, PartialEq, Eq, Structural)]
pub enum AccountState {
    /// The record has not been initialized.
    Uninitialized,
    /// The record is initialized and usable.
    Initialized,
    /// The record is frozen: every operation on its balance or its
    /// authorities is refused.
    Frozen,
}

impl AccountState {
    /// The leading byte of a token account in this state.
    pub open spec fn spec_byte(self) -> u8 {
        match self {
            AccountState::Uninitialized => 0,
            AccountState::Initialized => 1,
            AccountState::Frozen => 2,
        }
    }

    /// The state that a leading byte stands for, if any.
    pub open spec fn spec_from_byte(b: u8) -> Option<AccountState> {
        if b == 0 {
            Some(AccountState::Uninitialized)
        } else if b == 1 {
            Some(AccountState::Initialized)
        } else if b == 2 {
            Some(AccountState::Frozen)
        } else {
            None
        }
    }

    fn to_byte(&self) -> (b: u8)
        ensures
            b == self.spec_byte(),
    {
        match self {
            AccountState::Uninitialized => 0,
            AccountState::Initialized => 1,
            AccountState::Frozen => 2,
        }
    }

    fn from_byte(b: u8) -> (state: Option<AccountState>)
        ensures
            state == AccountState::spec_from_byte(b),
    {
        if b == 0 {
            Some(AccountState::Uninitialized)
        } else if b == 1 {
            Some(AccountState::Initialized)
        } else if b == 2 {
            Some(AccountState::Frozen)
        } else {
            None
        }
    }
}

/// A balance of one mint, held by one owner.
#[derive(Clone, Copy, Debug, PartialEq, Eq)]
pub struct Account {
    /// The mint of the tokens held.
    pub mint: Pubkey,
    /// The owner of the account.
    pub owner: Pubkey,
    /// The number of tokens held.
    pub amount: u64,
    /// A key that may move up to `delegated_amount` tokens for the owner.
    pub delegate: Option<Pubkey>,
    /// The life-cycle state.
    pub state: AccountState,
    /// Present on an account of the native mint: the host-held balance that
    /// does not count as tokens.
    pub is_native: Option<u64>,
    /// The number of tokens the delegate may still move.
    pub delegated_amount: u64,
    /// A key that may close the account in place of the owner.
    pub close_authority: Option<Pubkey>,
}

impl Account {
    /// The 156 bytes of a token account: state, mint, owner, amount,
    /// delegate, delegated amount, native marker and close authority.
    #[verifier::opaque]
    pub open spec fn spec_pack(self) -> Seq<u8> {
        seq![self.state.spec_byte()] + self.mint@ + self.owner@ + spec_u64_to_le_bytes(
            self.amount,
        ) + spec_pack_option_key(self.delegate) + spec_u64_to_le_bytes(self.delegated_amount)
            + spec_pack_option_u64(self.is_native) + spec_pack_option_key(self.close_authority)
    }

    /// The token account that a buffer holds, initialized or not.
    #[verifier::opaque]
    pub open spec fn spec_unpack_unchecked(b: Seq<u8>) -> Result<Account, ProgramError> {
        if b.len() != ACCOUNT_LEN {
            Err(ProgramError::InvalidAccountData)
        } else {
            match (
                AccountState::spec_from_byte(b[0]),
                spec_unpack_option_key(b.subrange(73, 106)),
                spec_unpack_option_u64(b.subrange(114, 123)),
                spec_unpack_option_key(b.subrange(123, 156)),
            ) {
                (Some(state), Some(delegate), Some(is_native), Some(close_authority)) => Ok(
                    Account {
                        mint: Pubkey::spec_new(b.subrange(1, 33)),
                        owner: Pubkey::spec_new(b.subrange(33, 65)),
                        amount: spec_u64_from_le_bytes(b.subrange(65, 73)),
                        delegate,
                        state,
                        is_native,
                        delegated_amount: spec_u64_from_le_bytes(b.subrange(106, 114)),
                        close_authority,
                    },
                ),
                _ => Err(ProgramError::InvalidAccountData),
            }
        }
    }

    /// The initialized token account that a buffer holds.
    pub open spec fn spec_unpack(b: Seq<u8>) -> Result<Account, ProgramError> {
        match Account::spec_unpack_unchecked(b) {
            Ok(account) => if account.spec_is_initialized() {
                Ok(account)
            } else {
                Err(ProgramError::UninitializedAccount)
            },
            Err(e) => Err(e),
        }
    }

    /// Whether the delegation is consistent: an amount is delegated only
    /// while there is a delegate.
    pub open spec fn spec_delegation_consistent(self) -> bool {
        self.delegate is None ==> self.delegated_amount == 0
    }

    /// Whether the account has been initialized.
    pub open spec fn spec_is_initialized(self) -> bool {
        self.state != AccountState::Uninitialized
    }

    /// Whether the account is frozen.
    pub open spec fn spec_is_frozen(self) -> bool {
        self.state == AccountState::Frozen
    }

    /// Whether the account holds the native asset.
    pub open spec fn spec_is_native(self) -> bool {
        self.is_native is Some
    }

    /// Only a buffer of the record's width unpacks.
    pub proof fn lemma_unpack_len(b: Seq<u8>)
        ensures
            Account::spec_unpack_unchecked(b) is Ok ==> b.len() == ACCOUNT_LEN,
            Account::spec_unpack(b) is Ok ==> b.len() == ACCOUNT_LEN,
    {
        reveal(Account::spec_unpack_unchecked);
    }

    /// Packing then unpacking gives the account back.
    pub proof fn lemma_unpack_pack(self)
        ensures
            self.spec_pack().len() == ACCOUNT_LEN,
            Account::spec_unpack_unchecked(self.spec_pack()) == Ok::<Account, ProgramError>(self),
    {
        reveal(Account::spec_pack);
        reveal(Account::spec_unpack_unchecked);
        let b = self.spec_pack();
        lemma_auto_spec_u64_to_from_le_bytes();
        lemma_option_key_round_trip(self.delegate);
        lemma_option_key_round_trip(self.close_authority);
        lemma_option_u64_round_trip(self.is_native);
        Pubkey::lemma_view_injective(self.mint, self.owner);
        Pubkey::lemma_view_injective(self.owner, self.mint);
        assert(b.subrange(1, 33) =~= self.mint@);
        assert(b.subrange(33, 65) =~= self.owner@);
        assert(b.subrange(65, 73) =~= spec_u64_to_le_bytes(self.amount));
        assert(b.subrange(73, 106) =~= spec_pack_option_key(self.delegate));
        assert(b.subrange(106, 114) =~= spec_u64_to_le_bytes(self.delegated_amount));
        assert(b.subrange(114, 123) =~= spec_pack_option_u64(self.is_native));
        assert(b.subrange(123, 156) =~= spec_pack_option_key(self.close_authority));
    }

    /// A buffer that unpacks is the packing of what it unpacks to.
    pub proof fn lemma_pack_unpack(b: Seq<u8>)
        requires
            Account::spec_unpack_unchecked(b) is Ok,
        ensures
            Account::spec_unpack_unchecked(b)->Ok_0.spec_pack() == b,
    {
        reveal(Account::spec_pack);
        reveal(Account::spec_unpack_unchecked);
        let account = Account::spec_unpack_unchecked(b)->Ok_0;
        lemma_auto_spec_u64_to_from_le_bytes();
        lemma_option_key_canonical(b.subrange(73, 106));
        lemma_option_u64_canonical(b.subrange(114, 123));
        lemma_option_key_canonical(b.subrange(123, 156));
        Pubkey::lemma_spec_new(b.subrange(1, 33));
        Pubkey::lemma_spec_new(b.subrange(33, 65));
        assert(account.mint@ =~= b.subrange(1, 33));
        assert(account.owner@ =~= b.subrange(33, 65));
        assert(account.spec_pack() =~= b);
    }

    /// A buffer of zeros of the right width holds an account that is not
    /// initialized.
    pub proof fn lemma_zeroed_is_uninitialized()
        ensures
            Account::spec_unpack_unchecked(zeros(ACCOUNT_LEN as nat)) is Ok,
            !Account::spec_unpack_unchecked(zeros(ACCOUNT_LEN as nat))->Ok_0.spec_is_initialized(),
            Account::spec_unpack(zeros(ACCOUNT_LEN as nat)) == Err::<Account, ProgramError>(
                ProgramError::UninitializedAccount,
            ),
    {
        reveal(Account::spec_pack);
        reveal(Account::spec_unpack_unchecked);
        let b = zeros(ACCOUNT_LEN as nat);
        assert(b.subrange(73, 106).subrange(1, 33) =~= zeros(32));
        assert(b.subrange(114, 123).subrange(1, 9) =~= zeros(8));
        assert(b.subrange(123, 156).subrange(1, 33) =~= zeros(32));
    }

    /// The width of a packed token account.
    pub fn get_packed_len() -> (len: usize)
        ensures
            len == ACCOUNT_LEN,
    {
        ACCOUNT_LEN
    }

    /// Whether the account has been initialized.
    pub fn is_initialized(&self) -> (r: bool)
        ensures
            r == self.spec_is_initialized(),
    {
        !matches!(self.state, AccountState::Uninitialized)
    }

    /// Whether the account is frozen.
    pub fn is_frozen(&self) -> (r: bool)
        ensures
            r == self.spec_is_frozen(),
    {
        matches!(self.state, AccountState::Frozen)
    }

    /// Whether the account holds the native asset.
    pub fn is_native(&self) -> (r: bool)
        ensures
            r == self.spec_is_native(),
    {
        self.is_native.is_some()
    }

    fn to_bytes(&self) -> (bytes: Vec<u8>)
        ensures
            bytes@ == self.spec_pack(),
            bytes@.len() == ACCOUNT_LEN,
    {
        proof {
            reveal(Account::spec_pack);
            reveal(Account::spec_unpack_unchecked);
        }
        let mut buf: Vec<u8> = Vec::new();
        buf.push(self.state.to_byte());
        assert(buf@ =~= seq![self.state.spec_byte()]);
        append_key(&mut buf, &self.mint);
        append_key(&mut buf, &self.owner);
        append_u64(&mut buf, self.amount);
        append_option_key(&mut buf, &self.delegate);
        append_u64(&mut buf, self.delegated_amount);
        append_option_u64(&mut buf, &self.is_native);
        append_option_key(&mut buf, &self.close_authority);
        proof {
            self.lemma_unpack_pack();
        }
        buf
    }

    /// Reads a token account from a buffer of exactly its width, whether or
    /// not it is initialized.
    pub fn unpack_unchecked(input: &[u8]) -> (r: Result<Account, ProgramError>)
        ensures
            r == Account::spec_unpack_unchecked(input@),
            r is Ok ==> input@.len() == ACCOUNT_LEN,
    {
        proof {
            reveal(Account::spec_pack);
            reveal(Account::spec_unpack_unchecked);
        }
        if input.len() != ACCOUNT_LEN {
            return Err(ProgramError::InvalidAccountData);
        }
        let state = AccountState::from_byte(input[0]);
        let delegate = read_option_key(input, 73);
        let is_native = read_option_u64(input, 114);
        let close_authority = read_option_key(input, 123);
        match (state, delegate, is_native, close_authority) {
            (Some(state), Some(delegate), Some(is_native), Some(close_authority)) => Ok(
                Account {
                    mint: read_key(input, 1),
                    owner: read_key(input, 33),
                    amount: read_u64(input, 65),
                    delegate,
                    state,
                    is_native,
                    delegated_amount: read_u64(input, 106),
                    close_authority,
                },
            ),
            _ => Err(ProgramError::InvalidAccountData),
        }
    }

    /// Reads an initialized token account from a buffer of exactly its
    /// width.
    pub fn unpack(input: &[u8]) -> (r: Result<Account, ProgramError>)
        ensures
            r == Account::spec_unpack(input@),
            r is Ok ==> input@.len() == ACCOUNT_LEN,
    {
        let account = Account::unpack_unchecked(input)?;
        if account.is_initialized() {
            Ok(account)
        } else {
            Err(ProgramError::UninitializedAccount)
        }
    }

    /// Writes a token account over a buffer of exactly its width; any other
    /// buffer is left as it is.
    pub fn pack(src: Account, dst: &mut [u8]) -> (r: Result<(), ProgramError>)
        ensures
            old(dst)@.len() == ACCOUNT_LEN ==> r is Ok && final(dst)@ == src.spec_pack(),
            old(dst)@.len() != ACCOUNT_LEN ==> r == Err::<(), ProgramError>(
                ProgramError::InvalidAccountData,
            ) && final(dst)@ == old(dst)@,
    {
        if dst.len() != ACCOUNT_LEN {
            return Err(ProgramError::InvalidAccountData);
        }
        let bytes = src.to_bytes();
        overwrite(dst, &bytes);
        Ok(())
    }
}

/// The bytes of a run of identifiers, one after the other.
pub open spec fn spec_pack_keys(keys: Seq<Pubkey>) -> Seq<u8> {
    Seq::new(32 * keys.len(), |i: int| keys[i / 32]@[i % 32])
}

/// The identifier in slot `k` of a packed multisignature authority.
pub open spec fn spec_signer_at(b: Seq<u8>, k: int) -> Pubkey {
    Pubkey::spec_new(b.subrange(3 + 32 * k, 35 + 32 * k))
}

/// A set of signers of which a threshold number must sign.
#[derive(Clone, Copy, Debug, PartialEq, Eq)]
pub struct Multisig {
    /// Number of signers required.
    pub m: u8,
    /// Number of valid signers.
    pub n: u8,
    /// Whether the record has been initialized.
    pub is_initialized: bool,
    /// The signer slots, of which the first `n` are meaningful.
    pub signers: [Pubkey; 11],
}

impl Multisig {
    /// The 355 bytes of a multisignature authority: flag, threshold, signer
    /// count and the eleven signer slots.
    #[verifier::opaque]
    pub open spec fn spec_pack(self) -> Seq<u8> {
        seq![spec_flag(self.is_initialized), self.m, self.n] + spec_pack_keys(self.signers@)
    }

    /// The multisignature authority that a buffer holds, initialized or
    /// not.
    #[verifier::opaque]
    pub open spec fn spec_unpack_unchecked(b: Seq<u8>) -> Result<Multisig, ProgramError> {
        if b.len() != MULTISIG_LEN {
            Err(ProgramError::InvalidAccountData)
        } else {
            match spec_unflag(b[0]) {
                Some(is_initialized) => Ok(
                    Multisig {
                        m: b[1],
                        n: b[2],
                        is_initialized,
                        signers: [
                            spec_signer_at(b, 0),
                            spec_signer_at(b, 1),
                            spec_signer_at(b, 2),
                            spec_signer_at(b, 3),
                            spec_signer_at(b, 4),
                            spec_signer_at(b, 5),
                            spec_signer_at(b, 6),
                            spec_signer_at(b, 7),
                            spec_signer_at(b, 8),
                            spec_signer_at(b, 9),
                            spec_signer_at(b, 10),
                        ],
                    },
                ),
                None => Err(ProgramError::InvalidAccountData),
            }
        }
    }

    /// Whether threshold and signer count are in range: between 1 and 11
    /// signers, and a threshold between 1 and their number.
    pub open spec fn spec_well_formed(self) -> bool {
        1 <= self.m <= self.n <= 11
    }

    /// The initialized multisignature authority that a buffer holds.
    pub open spec fn spec_unpack(b: Seq<u8>) -> Result<Multisig, ProgramError> {
        match Multisig::spec_unpack_unchecked(b) {
            Ok(multisig) => if multisig.is_initialized {
                Ok(multisig)
            } else {
                Err(ProgramError::UninitializedAccount)
            },
            Err(e) => Err(e),
        }
    }

    /// Only a buffer of the record's width unpacks.
    pub proof fn lemma_unpack_len(b: Seq<u8>)
        ensures
            Multisig::spec_unpack_unchecked(b) is Ok ==> b.len() == MULTISIG_LEN,
            Multisig::spec_unpack(b) is Ok ==> b.len() == MULTISIG_LEN,
    {
        reveal(Multisig::spec_unpack_unchecked);
    }

    /// Packing then unpacking gives the authority back.
    pub proof fn lemma_unpack_pack(self)
        ensures
            self.spec_pack().len() == MULTISIG_LEN,
            Multisig::spec_unpack_unchecked(self.spec_pack()) == Ok::<Multisig, ProgramError>(
                self,
            ),
    {
        reveal(Multisig::spec_pack);
        reveal(Multisig::spec_unpack_unchecked);
        let b = self.spec_pack();
        self.lemma_packed_slot(0);
        self.lemma_packed_slot(1);
        self.lemma_packed_slot(2);
        self.lemma_packed_slot(3);
        self.lemma_packed_slot(4);
        self.lemma_packed_slot(5);
        self.lemma_packed_slot(6);
        self.lemma_packed_slot(7);
        self.lemma_packed_slot(8);
        self.lemma_packed_slot(9);
        self.lemma_packed_slot(10);
        assert(b[0] == spec_flag(self.is_initialized) && b[1] == self.m && b[2] == self.n);
        let back = Multisig::spec_unpack_unchecked(b)->Ok_0;
        assert(back.signers =~= self.signers);
    }

    /// Slot `k` of a packed authority holds signer `k`.
    proof fn lemma_packed_slot(self, k: int)
        requires
            0 <= k < 11,
        ensures
            self.spec_pack().len() == MULTISIG_LEN,
            spec_signer_at(self.spec_pack(), k) == self.signers[k],
    {
        reveal(Multisig::spec_pack);
        reveal(Multisig::spec_unpack_unchecked);
        let b = self.spec_pack();
        let slot = b.subrange(3 + 32 * k, 35 + 32 * k);
        assert forall|j: int| 0 <= j < 32 implies slot[j] == self.signers[k]@[j] by {
            let i = 32 * k + j;
            assert(i / 32 == k && i % 32 == j);
            assert(slot[j] == b[3 + i]);
            assert(b[3 + i] == spec_pack_keys(self.signers@)[i]);
        }
        Pubkey::lemma_view_injective(self.signers[k], self.signers[k]);
        assert(slot =~= self.signers[k]@);
    }

    /// A buffer that unpacks is the packing of what it unpacks to.
    pub proof fn lemma_pack_unpack(b: Seq<u8>)
        requires
            Multisig::spec_unpack_unchecked(b) is Ok,
        ensures
            Multisig::spec_unpack_unchecked(b)->Ok_0.spec_pack() == b,
    {
        reveal(Multisig::spec_pack);
        reveal(Multisig::spec_unpack_unchecked);
        let multisig = Multisig::spec_unpack_unchecked(b)->Ok_0;
        assert forall|k: int| 0 <= k < 11 implies multisig.signers[k]@ == b.subrange(
            3 + 32 * k,
            35 + 32 * k,
        ) by {
            Pubkey::lemma_spec_new(b.subrange(3 + 32 * k, 35 + 32 * k));
            assert(multisig.signers[k] == spec_signer_at(b, k));
            assert(b.subrange(3 + 32 * k, 35 + 32 * k).subrange(0, 32) =~= b.subrange(
                3 + 32 * k,
                35 + 32 * k,
            ));
        }
        let packed = multisig.spec_pack();
        assert forall|i: int| 0 <= i < 355 implies packed[i] == b[i] by {
            if i >= 3 {
                let k = (i - 3) / 32;
                assert(multisig.signers[k]@[(i - 3) % 32] == b.subrange(3 + 32 * k, 35 + 32 * k)[(i
                    - 3) % 32]);
            }
        }
        assert(packed =~= b);
    }

    /// A buffer of zeros of the right width holds an authority that is not
    /// initialized.
    pub proof fn lemma_zeroed_is_uninitialized()
        ensures
            Multisig::spec_unpack_unchecked(zeros(MULTISIG_LEN as nat)) is Ok,
            !Multisig::spec_unpack_unchecked(zeros(MULTISIG_LEN as nat))->Ok_0.is_initialized,
            Multisig::spec_unpack(zeros(MULTISIG_LEN as nat)) == Err::<Multisig, ProgramError>(
                ProgramError::UninitializedAccount,
            ),
    {
        reveal(Multisig::spec_unpack_unchecked);
    }

    /// The width of a packed multisignature authority.
    pub fn get_packed_len() -> (len: usize)
        ensures
            len == MULTISIG_LEN,
    {
        MULTISIG_LEN
    }

    /// Whether the authority has been initialized.
    pub fn is_initialized(&self) -> (r: bool)
        ensures
            r == self.is_initialized,
    {
        self.is_initialized
    }

    fn to_bytes(&self) -> (bytes: Vec<u8>)
        ensures
            bytes@ == self.spec_pack(),
            bytes@.len() == MULTISIG_LEN,
    {
        proof {
            reveal(Multisig::spec_pack);
            reveal(Multisig::spec_unpack_unchecked);
        }
        let mut buf: Vec<u8> = Vec::new();
        buf.push(if self.is_initialized { 1 } else { 0 });
        buf.push(self.m);
        buf.push(self.n);
        let ghost head = seq![spec_flag(self.is_initialized), self.m, self.n];
        assert(buf@ =~= head + spec_pack_keys(self.signers@.subrange(0, 0)));
        let mut k: usize = 0;
        while k < 11
            invariant
                k <= 11,
                head.len() == 3,
                buf@ == head + spec_pack_keys(self.signers@.subrange(0, k as int)),
            decreases 11 - k,
        {
            append_key(&mut buf, &self.signers[k]);
            k += 1;
            assert(buf@ =~= head + spec_pack_keys(self.signers@.subrange(0, k as int)));
        }
        assert(self.signers@.subrange(0, 11) =~= self.signers@);
        buf
    }

    /// Reads a multisignature authority from a buffer of exactly its width,
    /// whether or not it is initialized.
    pub fn unpack_unchecked(input: &[u8]) -> (r: Result<Multisig, ProgramError>)
        ensures
            r == Multisig::spec_unpack_unchecked(input@),
            r is Ok ==> input@.len() == MULTISIG_LEN,
    {
        proof {
            reveal(Multisig::spec_pack);
            reveal(Multisig::spec_unpack_unchecked);
        }
        if input.len() != MULTISIG_LEN {
            return Err(ProgramError::InvalidAccountData);
        }
        let is_initialized = match unflag(input[0]) {
            Some(flag) => flag,
            None => {
                return Err(ProgramError::InvalidAccountData);
            },
        };
        let mut signers = [Pubkey::default(); 11];
        let mut k: usize = 0;
        while k < 11
            invariant
                k <= 11,
                input@.len() == MULTISIG_LEN,
                forall|j: int| 0 <= j < k ==> signers[j] == spec_signer_at(input@, j),
            decreases 11 - k,
        {
            signers[k] = read_key(input, 3 + 32 * k);
            k += 1;
        }
        let multisig = Multisig { m: input[1], n: input[2], is_initialized, signers };
        assert(multisig.signers =~= Multisig::spec_unpack_unchecked(input@)->Ok_0.signers);
        Ok(multisig)
    }

    /// Reads an initialized multisignature authority from a buffer of
    /// exactly its width.
    pub fn unpack(input: &[u8]) -> (r: Result<Multisig, ProgramError>)
        ensures
            r == Multisig::spec_unpack(input@),
            r is Ok ==> input@.len() == MULTISIG_LEN,
    {
        let multisig = Multisig::unpack_unchecked(input)?;
        if multisig.is_initialized {
            Ok(multisig)
        } else {
            Err(ProgramError::UninitializedAccount)
        }
    }

    /// Writes a multisignature authority over a buffer of exactly its
    /// width; any other buffer is left as it is.
    pub fn pack(src: Multisig, dst: &mut [u8]) -> (r: Result<(), ProgramError>)
        ensures
            old(dst)@.len() == MULTISIG_LEN ==> r is Ok && final(dst)@ == src.spec_pack(),
            old(dst)@.len() != MULTISIG_LEN ==> r == Err::<(), ProgramError>(
                ProgramError::InvalidAccountData,
            ) && final(dst)@ == old(dst)@,
    {
        if dst.len() != MULTISIG_LEN {
            return Err(ProgramError::InvalidAccountData);
        }
        let bytes = src.to_bytes();
        overwrite(dst, &bytes);
        Ok(())
    }
}

} // verus!
