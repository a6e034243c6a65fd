//! Instructions of the token ledger and their wire format: an opcode byte
//! followed by the fixed-width fields of the variant.

use vstd::prelude::*;
use vstd::bytes::{spec_u64_from_le_bytes, spec_u64_to_le_bytes};
use vstd::bytes::lemma_auto_spec_u64_to_from_le_bytes;
use vstd::slice::slice_subrange;
use crate::codec::{append_key, append_option_key, append_u64, read_u64, spec_pack_option_key};
use crate::check_program_account;
use crate::error::{ProgramError, TokenError};
use crate::pubkey::Pubkey;
use crate::rent::{rent_sysvar_id, spec_rent_sysvar_id};
use crate::spec_id;

verus! {

/// Minimum number of multisignature signers (min N).
pub const MID_SIGNERS: usize = 1;

/// Maximum number of multisignature signers (max N).
pub const MAX_SIGNERS: usize = 11;

/// The error with which a malformed instruction is refused.
pub open spec fn invalid_instruction() -> ProgramError {
    TokenError::InvalidInstruction.spec_program_error()
}

/// Specifies the authority type for the `SetAuthority` instruction.
#[derive(Clone, Copy, Debug, PartialEq, Eq, Structural)]
pub enum AuthorityType {
    /// Authority to mint new tokens.
    MintTokens,
    /// Authority to freeze any account associated with the mint.
    FreezeAccount,
    /// Owner of a given token account.
    AccountOwner,
    /// Authority to close a token account.
    CloseAccount,
}

impl AuthorityType {
    /// The byte that stands for an authority type on the wire.
    pub open spec fn spec_into(self) -> u8 {
        match self {
            AuthorityType::MintTokens => 0,
            AuthorityType::FreezeAccount => 1,
            AuthorityType::AccountOwner => 2,
            AuthorityType::CloseAccount => 3,
        }
    }

    /// The authority type that a byte stands for, if any.
    pub open spec fn spec_from(index: u8) -> Option<AuthorityType> {
        match index {
            0 => Some(AuthorityType::MintTokens),
            1 => Some(AuthorityType::FreezeAccount),
            2 => Some(AuthorityType::AccountOwner),
            3 => Some(AuthorityType::CloseAccount),
            _ => None,
        }
    }

    /// Encodes the authority type as one byte.
    pub fn into(&self) -> (index: u8)
        ensures
            index == self.spec_into(),
            AuthorityType::spec_from(index) == Some(*self),
    {
        match self {
            AuthorityType::MintTokens => 0,
            AuthorityType::FreezeAccount => 1,
            AuthorityType::AccountOwner => 2,
            AuthorityType::CloseAccount => 3,
        }
    }

    /// Decodes an authority type; any byte above 3 is an invalid
    /// instruction.
    pub fn from(index: u8) -> (r: Result<AuthorityType, ProgramError>)
        ensures
            match AuthorityType::spec_from(index) {
                Some(authority_type) => r == Ok::<AuthorityType, ProgramError>(authority_type),
                None => r == Err::<AuthorityType, ProgramError>(invalid_instruction()),
            },
            r is Ok <==> index <= 3,
    {
        match index {
            0 => Ok(AuthorityType::MintTokens),
            1 => Ok(AuthorityType::FreezeAccount),
            2 => Ok(AuthorityType::AccountOwner),
            3 => Ok(AuthorityType::CloseAccount),
            _ => Err(ProgramError::from(TokenError::InvalidInstruction)),
        }
    }
}

/// Instructions supported by the token program.
#[derive(Clone, Copy, Debug, PartialEq, Eq)]
pub enum TokenInstruction {
    /// Initializes a new mint. The rent sysvar accompanies the mint.
    InitializeMint {
        /// Number of base 10 digits to the right of the decimal place.
        decimals: u8,
        /// The authority/multisignature to mint tokens.
        mint_authority: Pubkey,
        /// The freeze authority/multisignature of the mint.
        freeze_authority: Option<Pubkey>,
    },
    /// Initializes a new account to hold tokens; its owner is named by an
    /// accompanying account.
    InitializeAccount,
    /// Initializes a multisignature account with N provided signers.
    InitializeMultisig {
        /// The number of signers (M) required to validate this
        /// multisignature account.
        m: u8,
    },
    /// Transfers tokens from one account to another, either directly or via
    /// a delegate.
    Transfer {
        /// The amount of tokens to transfer.
        amount: u64,
    },
    /// Approves a delegate, who is given authority over tokens on behalf of
    /// the source account's owner.
    Approve {
        /// The amount of tokens the delegate is approved for.
        amount: u64,
    },
    /// Revokes the delegate's authority.
    Revoke,
    /// Sets a new authority of a mint or account.
    SetAuthority {
        /// The type of authority to update.
        authority_type: AuthorityType,
        /// The new authority.
        new_authority: Option<Pubkey>,
    },
    /// Mints new tokens to an account. The native mint does not support
    /// minting.
    MintTo {
        /// The amount of new tokens to mint.
        amount: u64,
    },
    /// Burns tokens by removing them from an account. Accounts of the
    /// native mint are closed instead.
    Burn {
        /// The amount of tokens to burn.
        amount: u64,
    },
    /// Closes an account by moving all its host-held balance to the
    /// destination account.
    CloseAccount,
    /// Like `InitializeAccount`, but the owner is carried by the
    /// instruction rather than by an account.
    InitializeAccount2 {
        /// The new account's owner/multisignature.
        owner: Pubkey,
    },
    /// Like `InitializeMultisig`, but without the rent sysvar.
    InitializeMultisig2 {
        /// The number of signers (M) required to validate this
        /// multisignature account.
        m: u8,
    },
    /// Like `InitializeMint`, but without the rent sysvar.
    InitializeMint2 {
        /// Number of base 10 digits to the right of the decimal place.
        decimals: u8,
        /// The authority/multisignature to mint tokens.
        mint_authority: Pubkey,
        /// The freeze authority/multisignature of the mint.
        freeze_authority: Option<Pubkey>,
    },
}

/// Reads an optional identifier from the front of an instruction's fields:
/// a flag of 0 or 1 and 32 bytes, which are not looked at when the flag
/// is 0. `None` when the field is cut short or the flag is neither.
pub open spec fn spec_unpack_pubkey_option(b: Seq<u8>) -> Option<Option<Pubkey>> {
    if b.len() < 33 {
        None
    } else if b[0] == 0 {
        Some(None)
    } else if b[0] == 1 {
        Some(Some(Pubkey::spec_new(b.subrange(1, 33))))
    } else {
        None
    }
}

impl TokenInstruction {
    /// The opcode of the instruction.
    pub open spec fn spec_tag(self) -> u8 {
        match self {
            TokenInstruction::InitializeMint { .. } => 0,
            TokenInstruction::InitializeAccount => 1,
            TokenInstruction::InitializeMultisig { .. } => 2,
            TokenInstruction::Transfer { .. } => 3,
            TokenInstruction::Approve { .. } => 4,
            TokenInstruction::Revoke => 5,
            TokenInstruction::SetAuthority { .. } => 6,
            TokenInstruction::MintTo { .. } => 7,
            TokenInstruction::Burn { .. } => 8,
            TokenInstruction::CloseAccount => 9,
            TokenInstruction::InitializeAccount2 { .. } => 10,
            TokenInstruction::InitializeMultisig2 { .. } => 11,
            TokenInstruction::InitializeMint2 { .. } => 12,
        }
    }

    /// The number of bytes of the packed instruction, opcode included.
    pub open spec fn spec_packed_len(self) -> nat {
        match self {
            TokenInstruction::InitializeMint { .. } | TokenInstruction::InitializeMint2 { .. } => 67,
            TokenInstruction::InitializeAccount
            | TokenInstruction::Revoke
            | TokenInstruction::CloseAccount => 1,
            TokenInstruction::InitializeMultisig { .. }
            | TokenInstruction::InitializeMultisig2 { .. } => 2,
            TokenInstruction::Transfer { .. }
            | TokenInstruction::Approve { .. }
            | TokenInstruction::MintTo { .. }
            | TokenInstruction::Burn { .. } => 9,
            TokenInstruction::SetAuthority { .. } => 35,
            TokenInstruction::InitializeAccount2 { .. } => 33,
        }
    }

    /// The fields of the instruction as they follow the opcode.
    pub open spec fn spec_pack_fields(self) -> Seq<u8> {
        match self {
            TokenInstruction::InitializeMint { decimals, mint_authority, freeze_authority }
            | TokenInstruction::InitializeMint2 { decimals, mint_authority, freeze_authority } => {
                seq![decimals] + mint_authority@ + spec_pack_option_key(freeze_authority)
            },
            TokenInstruction::InitializeAccount
            | TokenInstruction::Revoke
            | TokenInstruction::CloseAccount => Seq::empty(),
            TokenInstruction::InitializeMultisig { m }
            | TokenInstruction::InitializeMultisig2 { m } => seq![m],
            TokenInstruction::Transfer { amount }
            | TokenInstruction::Approve { amount }
            | TokenInstruction::MintTo { amount }
            | TokenInstruction::Burn { amount } => spec_u64_to_le_bytes(amount),
            TokenInstruction::SetAuthority { authority_type, new_authority } => {
                seq![authority_type.spec_into()] + spec_pack_option_key(new_authority)
            },
            TokenInstruction::InitializeAccount2 { owner } => owner@,
        }
    }

    /// The packed instruction: the opcode, then the fields.
    pub open spec fn spec_pack(self) -> Seq<u8> {
        seq![self.spec_tag()] + self.spec_pack_fields()
    }

    /// The mint parameters that follow the opcode of either instruction
    /// that initializes a mint.
    pub open spec fn spec_unpack_mint_fields(rest: Seq<u8>) -> Option<(u8, Pubkey, Option<Pubkey>)> {
        if rest.len() < 66 {
            None
        } else {
            match spec_unpack_pubkey_option(rest.subrange(33, rest.len() as int)) {
                Some(freeze_authority) => Some(
                    (rest[0], Pubkey::spec_new(rest.subrange(1, 33)), freeze_authority),
                ),
                None => None,
            }
        }
    }

    /// The amount that follows the opcode of an instruction that carries
    /// one.
    pub open spec fn spec_unpack_amount(rest: Seq<u8>) -> Option<u64> {
        if rest.len() < 8 {
            None
        } else {
            Some(spec_u64_from_le_bytes(rest.subrange(0, 8)))
        }
    }

    /// The instruction that a buffer holds. `None` for an empty buffer, an
    /// opcode above 12, a buffer shorter than the variant is wide, an
    /// authority type above 3 or a presence flag above 1. Bytes after the
    /// variant's width are not looked at.
    pub open spec fn spec_unpack(input: Seq<u8>) -> Option<TokenInstruction> {
        if input.len() == 0 {
            None
        } else {
            let tag = input[0];
            let rest = input.subrange(1, input.len() as int);
            if tag == 0 {
                match TokenInstruction::spec_unpack_mint_fields(rest) {
                    Some((decimals, mint_authority, freeze_authority)) => Some(
                        TokenInstruction::InitializeMint {
                            decimals,
                            mint_authority,
                            freeze_authority,
                        },
                    ),
                    None => None,
                }
            } else if tag == 1 {
                Some(TokenInstruction::InitializeAccount)
            } else if tag == 2 {
                if rest.len() < 1 {
                    None
                } else {
                    Some(TokenInstruction::InitializeMultisig { m: rest[0] })
                }
            } else if tag == 3 {
                match TokenInstruction::spec_unpack_amount(rest) {
                    Some(amount) => Some(TokenInstruction::Transfer { amount }),
                    None => None,
                }
            } else if tag == 4 {
                match TokenInstruction::spec_unpack_amount(rest) {
                    Some(amount) => Some(TokenInstruction::Approve { amount }),
                    None => None,
                }
            } else if tag == 5 {
                Some(TokenInstruction::Revoke)
            } else if tag == 6 {
                if rest.len() < 34 {
                    None
                } else {
                    match (
                        AuthorityType::spec_from(rest[0]),
                        spec_unpack_pubkey_option(rest.subrange(1, rest.len() as int)),
                    ) {
                        (Some(authority_type), Some(new_authority)) => Some(
                            TokenInstruction::SetAuthority { authority_type, new_authority },
                        ),
                        _ => None,
                    }
                }
            } else if tag == 7 {
                match TokenInstruction::spec_unpack_amount(rest) {
                    Some(amount) => Some(TokenInstruction::MintTo { amount }),
                    None => None,
                }
            } else if tag == 8 {
                match TokenInstruction::spec_unpack_amount(rest) {
                    Some(amount) => Some(TokenInstruction::Burn { amount }),
                    None => None,
                }
            } else if tag == 9 {
                Some(TokenInstruction::CloseAccount)
            } else if tag == 10 {
                if rest.len() < 32 {
                    None
                } else {
                    Some(
                        TokenInstruction::InitializeAccount2 {
                            owner: Pubkey::spec_new(rest.subrange(0, 32)),
                        },
                    )
                }
            } else if tag == 11 {
                if rest.len() < 1 {
                    None
                } else {
                    Some(TokenInstruction::InitializeMultisig2 { m: rest[0] })
                }
            } else if tag == 12 {
                match TokenInstruction::spec_unpack_mint_fields(rest) {
                    Some((decimals, mint_authority, freeze_authority)) => Some(
                        TokenInstruction::InitializeMint2 {
                            decimals,
                            mint_authority,
                            freeze_authority,
                        },
                    ),
                    None => None,
                }
            } else {
                None
            }
        }
    }

    /// Unpacking a packed instruction gives the instruction back, and a
    /// packed instruction is exactly as long as its variant is wide.
    pub proof fn lemma_unpack_pack(self)
        ensures
            self.spec_pack().len() == self.spec_packed_len(),
            self.spec_pack()[0] == self.spec_tag(),
            TokenInstruction::spec_unpack(self.spec_pack()) == Some(self),
    {
        let b = self.spec_pack();
        let rest = b.subrange(1, b.len() as int);
        assert(rest =~= self.spec_pack_fields());
        lemma_auto_spec_u64_to_from_le_bytes();
        match self {
            TokenInstruction::InitializeMint { decimals, mint_authority, freeze_authority }
            | TokenInstruction::InitializeMint2 { decimals, mint_authority, freeze_authority } => {
                Pubkey::lemma_view_injective(mint_authority, mint_authority);
                assert(rest.subrange(1, 33) =~= mint_authority@);
                assert(rest.subrange(33, rest.len() as int) =~= spec_pack_option_key(
                    freeze_authority,
                ));
                lemma_unpack_option_key(freeze_authority);
            },
            TokenInstruction::Transfer { amount }
            | TokenInstruction::Approve { amount }
            | TokenInstruction::MintTo { amount }
            | TokenInstruction::Burn { amount } => {
                assert(rest.subrange(0, 8) =~= spec_u64_to_le_bytes(amount));
            },
            TokenInstruction::SetAuthority { authority_type, new_authority } => {
                assert(rest.subrange(1, rest.len() as int) =~= spec_pack_option_key(new_authority));
                lemma_unpack_option_key(new_authority);
            },
            TokenInstruction::InitializeAccount2 { owner } => {
                Pubkey::lemma_view_injective(owner, owner);
                assert(rest.subrange(0, 32) =~= owner@);
            },
            _ => {},
        }
    }

    /// Unpacks a byte buffer into a [`TokenInstruction`].
    pub fn unpack(input: &[u8]) -> (r: Result<TokenInstruction, ProgramError>)
        ensures
            match TokenInstruction::spec_unpack(input@) {
                Some(instruction) => r == Ok::<TokenInstruction, ProgramError>(instruction),
                None => r == Err::<TokenInstruction, ProgramError>(invalid_instruction()),
            },
    {
        if input.len() == 0 {
            return Err(ProgramError::from(TokenError::InvalidInstruction));
        }
        let tag = input[0];
        let rest = slice_subrange(input, 1, input.len());
        match tag {
            0 | 12 => {
                if rest.len() < 1 {
                    return Err(ProgramError::from(TokenError::InvalidInstruction));
                }
                let decimals = rest[0];
                let ghost fields = rest@;
                let (mint_authority, rest) = Self::unpack_pubkey(slice_subrange(rest, 1, rest.len()))?;
                let (freeze_authority, _rest) = Self::unpack_pubkey_option(rest)?;
                assert(fields.subrange(1, fields.len() as int).subrange(0, 32) =~= fields.subrange(
                    1,
                    33,
                ));
                assert(fields.subrange(1, fields.len() as int).subrange(32, fields.len() - 1)
                    =~= fields.subrange(33, fields.len() as int));
                if tag == 0 {
                    Ok(TokenInstruction::InitializeMint { decimals, mint_authority, freeze_authority })
                } else {
                    Ok(
                        TokenInstruction::InitializeMint2 {
                            decimals,
                            mint_authority,
                            freeze_authority,
                        },
                    )
                }
            },
            1 => Ok(TokenInstruction::InitializeAccount),
            2 | 11 => {
                if rest.len() < 1 {
                    return Err(ProgramError::from(TokenError::InvalidInstruction));
                }
                let m = rest[0];
                if tag == 2 {
                    Ok(TokenInstruction::InitializeMultisig { m })
                } else {
                    Ok(TokenInstruction::InitializeMultisig2 { m })
                }
            },
            3 | 4 | 7 | 8 => {
                if rest.len() < 8 {
                    return Err(ProgramError::from(TokenError::InvalidInstruction));
                }
                let amount = read_u64(rest, 0);
                if tag == 3 {
                    Ok(TokenInstruction::Transfer { amount })
                } else if tag == 4 {
                    Ok(TokenInstruction::Approve { amount })
                } else if tag == 7 {
                    Ok(TokenInstruction::MintTo { amount })
                } else {
                    Ok(TokenInstruction::Burn { amount })
                }
            },
            5 => Ok(TokenInstruction::Revoke),
            6 => {
                if rest.len() < 34 {
                    return Err(ProgramError::from(TokenError::InvalidInstruction));
                }
                let authority_type = AuthorityType::from(rest[0])?;
                let (new_authority, _rest) = Self::unpack_pubkey_option(
                    slice_subrange(rest, 1, rest.len()),
                )?;
                Ok(TokenInstruction::SetAuthority { authority_type, new_authority })
            },
            9 => Ok(TokenInstruction::CloseAccount),
            10 => {
                let (owner, _rest) = Self::unpack_pubkey(rest)?;
                Ok(TokenInstruction::InitializeAccount2 { owner })
            },
            _ => Err(ProgramError::from(TokenError::InvalidInstruction)),
        }
    }

    /// Packs a [`TokenInstruction`] into a byte buffer of exactly the
    /// variant's width.
    pub fn pack(&self) -> (buf: Vec<u8>)
        ensures
            buf@ == self.spec_pack(),
            buf@.len() == self.spec_packed_len(),
    {
        let mut buf: Vec<u8> = Vec::new();
        match self {
            TokenInstruction::InitializeMint { decimals, mint_authority, freeze_authority } => {
                buf.push(0);
                buf.push(*decimals);
                append_key(&mut buf, mint_authority);
                Self::pack_pubkey_option(freeze_authority, &mut buf);
            },
            TokenInstruction::InitializeAccount => {
                buf.push(1);
            },
            TokenInstruction::InitializeMultisig { m } => {
                buf.push(2);
                buf.push(*m);
            },
            TokenInstruction::Transfer { amount } => {
                buf.push(3);
                append_u64(&mut buf, *amount);
            },
            TokenInstruction::Approve { amount } => {
                buf.push(4);
                append_u64(&mut buf, *amount);
            },
            TokenInstruction::Revoke => {
                buf.push(5);
            },
            TokenInstruction::SetAuthority { authority_type, new_authority } => {
                buf.push(6);
                buf.push(authority_type.into());
                Self::pack_pubkey_option(new_authority, &mut buf);
            },
            TokenInstruction::MintTo { amount } => {
                buf.push(7);
                append_u64(&mut buf, *amount);
            },
            TokenInstruction::Burn { amount } => {
                buf.push(8);
                append_u64(&mut buf, *amount);
            },
            TokenInstruction::CloseAccount => {
                buf.push(9);
            },
            TokenInstruction::InitializeAccount2 { owner } => {
                buf.push(10);
                append_key(&mut buf, owner);
            },
            TokenInstruction::InitializeMultisig2 { m } => {
                buf.push(11);
                buf.push(*m);
            },
            TokenInstruction::InitializeMint2 { decimals, mint_authority, freeze_authority } => {
                buf.push(12);
                buf.push(*decimals);
                append_key(&mut buf, mint_authority);
                Self::pack_pubkey_option(freeze_authority, &mut buf);
            },
        };
        proof {
            self.lemma_unpack_pack();
            assert(buf@ =~= self.spec_pack());
        }
        buf
    }

    /// Splits an identifier off the front of `input`.
    fn unpack_pubkey(input: &[u8]) -> (r: Result<(Pubkey, &[u8]), ProgramError>)
        ensures
            input@.len() >= 32 ==> r is Ok && r->Ok_0.0 == Pubkey::spec_new(input@.subrange(0, 32))
                && r->Ok_0.1@ == input@.subrange(32, input@.len() as int),
            input@.len() < 32 ==> r == Err::<(Pubkey, &[u8]), ProgramError>(invalid_instruction()),
    {
        if input.len() >= 32 {
            let key = slice_subrange(input, 0, 32);
            let rest = slice_subrange(input, 32, input.len());
            let pk = Pubkey::new(key);
            Ok((pk, rest))
        } else {
            Err(ProgramError::from(TokenError::InvalidInstruction))
        }
    }

    /// Splits an optional identifier off the front of `input`.
    fn unpack_pubkey_option(input: &[u8]) -> (r: Result<(Option<Pubkey>, &[u8]), ProgramError>)
        ensures
            match spec_unpack_pubkey_option(input@) {
                Some(key) => r is Ok && r->Ok_0.0 == key && r->Ok_0.1@ == input@.subrange(
                    33,
                    input@.len() as int,
                ),
                None => r == Err::<(Option<Pubkey>, &[u8]), ProgramError>(invalid_instruction()),
            },
    {
        if input.len() < 33 {
            return Err(ProgramError::from(TokenError::InvalidInstruction));
        }
        let rest = slice_subrange(input, 33, input.len());
        if input[0] == 0 {
            Ok((None, rest))
        } else if input[0] == 1 {
            let pk = Pubkey::new(slice_subrange(input, 1, 33));
            Ok((Some(pk), rest))
        } else {
            Err(ProgramError::from(TokenError::InvalidInstruction))
        }
    }

    /// Appends an optional identifier to `buf`: the presence flag and 32
    /// bytes, zero when there is none.
    fn pack_pubkey_option(value: &Option<Pubkey>, buf: &mut Vec<u8>)
        ensures
            final(buf)@ == old(buf)@ + spec_pack_option_key(*value),
    {
        append_option_key(buf, value);
    }
}

/// Reading an optional identifier as an instruction field undoes its
/// packing.
pub proof fn lemma_unpack_option_key(key: Option<Pubkey>)
    ensures
        spec_pack_option_key(key).len() == 33,
        spec_unpack_pubkey_option(spec_pack_option_key(key)) == Some(key),
{
    let b = spec_pack_option_key(key);
    match key {
        Some(k) => {
            Pubkey::lemma_view_injective(k, k);
            assert(b.subrange(1, 33) =~= k@);
        },
        None => {},
    }
}

/// An account that an instruction names, and how the instruction uses
/// it.
#[derive(Clone, Copy, Debug, PartialEq, Eq)]
pub struct AccountMeta {
    /// The identifier of the account.
    pub pubkey: Pubkey,
    /// Whether the instruction needs the signature of `pubkey`.
    pub is_signer: bool,
    /// Whether the instruction may write to the account.
    pub is_writable: bool,
}

impl AccountMeta {
    /// An account that the instruction may write to.
    pub fn new(pubkey: Pubkey, is_signer: bool) -> (meta: AccountMeta)
        ensures
            meta == (AccountMeta { pubkey, is_signer, is_writable: true }),
    {
        AccountMeta { pubkey, is_signer, is_writable: true }
    }

    /// An account that the instruction only reads.
    pub fn new_readonly(pubkey: Pubkey, is_signer: bool) -> (meta: AccountMeta)
        ensures
            meta == (AccountMeta { pubkey, is_signer, is_writable: false }),
    {
        AccountMeta { pubkey, is_signer, is_writable: false }
    }
}

/// An instruction as a client hands it to the host: the program to run,
/// the accounts in the order in which the program expects them, and the
/// packed instruction.
#[derive(Clone, Debug, PartialEq, Eq)]
pub struct Instruction {
    /// The program that executes the instruction.
    pub program_id: Pubkey,
    /// The accounts that the instruction names.
    pub accounts: Vec<AccountMeta>,
    /// The packed instruction.
    pub data: Vec<u8>,
}

/// The mathematical content of an `Instruction`.
pub struct InstructionView {
    /// The program that executes the instruction.
    pub program_id: Pubkey,
    /// The accounts that the instruction names, in order.
    pub accounts: Seq<AccountMeta>,
    /// The bytes of the packed instruction.
    pub data: Seq<u8>,
}

impl View for Instruction {
    type V = InstructionView;

    open spec fn view(&self) -> InstructionView {
        InstructionView { program_id: self.program_id, accounts: self.accounts@, data: self.data@ }
    }
}

/// The outcome of building an instruction for the program
/// `token_program_id`: an incorrect program is refused, the token program
/// gets the instruction `expected`.
pub open spec fn built(
    token_program_id: Pubkey,
    expected: InstructionView,
    r: Result<Instruction, ProgramError>,
) -> bool {
    if token_program_id == spec_id() {
        r is Ok && r->Ok_0@ == expected
    } else {
        r is Err && r->Err_0 == ProgramError::IncorrectProgramId
    }
}

/// The accounts of a `Transfer`: source and destination, writable; the
/// authority, read-only, which signs itself unless signers are named; then
/// the signers, read-only and signing.
pub open spec fn spec_transfer_accounts(
    source: Pubkey,
    destination: Pubkey,
    authority: Pubkey,
    signers: Seq<Pubkey>,
) -> Seq<AccountMeta> {
    seq![
        AccountMeta { pubkey: source, is_signer: false, is_writable: true },
        AccountMeta { pubkey: destination, is_signer: false, is_writable: true },
        AccountMeta { pubkey: authority, is_signer: signers.len() == 0, is_writable: false },
    ] + Seq::new(
        signers.len(),
        |i: int| AccountMeta { pubkey: signers[i], is_signer: true, is_writable: false },
    )
}

/// Creates a `InitializeMint` instruction.
pub fn initialize_mint(
    token_program_id: &Pubkey,
    mint_pubkey: &Pubkey,
    mint_authority_pubkey: &Pubkey,
    freeze_authority_pubkey: Option<&Pubkey>,
    decimals: u8,
) -> (r: Result<Instruction, ProgramError>)
    ensures
        built(
            *token_program_id,
            InstructionView {
                program_id: *token_program_id,
                accounts: seq![
                    AccountMeta { pubkey: *mint_pubkey, is_signer: false, is_writable: true },
                    AccountMeta {
                        pubkey: spec_rent_sysvar_id(),
                        is_signer: false,
                        is_writable: false,
                    },
                ],
                data: (TokenInstruction::InitializeMint {
                    decimals,
                    mint_authority: *mint_authority_pubkey,
                    freeze_authority: match freeze_authority_pubkey {
                        Some(key) => Some(*key),
                        None => None,
                    },
                }).spec_pack(),
            },
            r,
        ),
{
    check_program_account(token_program_id)?;
    let freeze_authority = match freeze_authority_pubkey {
        Some(key) => Some(*key),
        None => None,
    };
    let data = TokenInstruction::InitializeMint {
        mint_authority: *mint_authority_pubkey,
        freeze_authority,
        decimals,
    }.pack();

    let mut accounts: Vec<AccountMeta> = Vec::new();
    accounts.push(AccountMeta::new(*mint_pubkey, false));
    accounts.push(AccountMeta::new_readonly(rent_sysvar_id(), false));
    let instruction = Instruction { program_id: *token_program_id, accounts, data };
    assert(instruction@.accounts =~= seq![
        AccountMeta { pubkey: *mint_pubkey, is_signer: false, is_writable: true },
        AccountMeta { pubkey: spec_rent_sysvar_id(), is_signer: false, is_writable: false },
    ]);
    Ok(instruction)
}

/// Creates a `InitializeAccount` instruction.
pub fn initialize_account(
    token_program_id: &Pubkey,
    account_pubkey: &Pubkey,
    mint_pubkey: &Pubkey,
    owner_pubkey: &Pubkey,
) -> (r: Result<Instruction, ProgramError>)
    ensures
        built(
            *token_program_id,
            InstructionView {
                program_id: *token_program_id,
                accounts: seq![
                    AccountMeta { pubkey: *account_pubkey, is_signer: false, is_writable: true },
                    AccountMeta { pubkey: *mint_pubkey, is_signer: false, is_writable: false },
                    AccountMeta { pubkey: *owner_pubkey, is_signer: false, is_writable: false },
                    AccountMeta {
                        pubkey: spec_rent_sysvar_id(),
                        is_signer: false,
                        is_writable: true,
                    },
                ],
                data: TokenInstruction::InitializeAccount.spec_pack(),
            },
            r,
        ),
{
    check_program_account(token_program_id)?;
    let data = TokenInstruction::InitializeAccount.pack();

    let mut accounts: Vec<AccountMeta> = Vec::new();
    accounts.push(AccountMeta::new(*account_pubkey, false));
    accounts.push(AccountMeta::new_readonly(*mint_pubkey, false));
    accounts.push(AccountMeta::new_readonly(*owner_pubkey, false));
    accounts.push(AccountMeta::new(rent_sysvar_id(), false));
    let instruction = Instruction { program_id: *token_program_id, accounts, data };
    assert(instruction@.accounts =~= seq![
        AccountMeta { pubkey: *account_pubkey, is_signer: false, is_writable: true },
        AccountMeta { pubkey: *mint_pubkey, is_signer: false, is_writable: false },
        AccountMeta { pubkey: *owner_pubkey, is_signer: false, is_writable: false },
        AccountMeta { pubkey: spec_rent_sysvar_id(), is_signer: false, is_writable: true },
    ]);
    Ok(instruction)
}

/// Creates a `Transfer` instruction.
pub fn tranfer(
    token_program_id: &Pubkey,
    source_pubkey: &Pubkey,
    destination_pubkey: &Pubkey,
    authority_pubkey: &Pubkey,
    signer_pubkeys: &[&Pubkey],
    amount: u64,
) -> (r: Result<Instruction, ProgramError>)
    ensures
        built(
            *token_program_id,
            InstructionView {
                program_id: *token_program_id,
                accounts: spec_transfer_accounts(
                    *source_pubkey,
                    *destination_pubkey,
                    *authority_pubkey,
                    Seq::new(signer_pubkeys@.len(), |i: int| *signer_pubkeys@[i]),
                ),
                data: (TokenInstruction::Transfer { amount }).spec_pack(),
            },
            r,
        ),
{
    check_program_account(token_program_id)?;
    let data = TokenInstruction::Transfer { amount }.pack();

    let ghost signers = Seq::new(signer_pubkeys@.len(), |i: int| *signer_pubkeys@[i]);
    let ghost expected = spec_transfer_accounts(
        *source_pubkey,
        *destination_pubkey,
        *authority_pubkey,
        signers,
    );
    let mut accounts: Vec<AccountMeta> = Vec::new();
    accounts.push(AccountMeta::new(*source_pubkey, false));
    accounts.push(AccountMeta::new(*destination_pubkey, false));
    accounts.push(AccountMeta::new_readonly(*authority_pubkey, signer_pubkeys.len() == 0));
    let mut i: usize = 0;
    while i < signer_pubkeys.len()
        invariant
            i <= signer_pubkeys@.len(),
            signers == Seq::new(signer_pubkeys@.len(), |i: int| *signer_pubkeys@[i]),
            expected == spec_transfer_accounts(
                *source_pubkey,
                *destination_pubkey,
                *authority_pubkey,
                signers,
            ),
            accounts@ == expected.subrange(0, 3 + i),
        decreases signer_pubkeys@.len() - i,
    {
        accounts.push(AccountMeta::new_readonly(*signer_pubkeys[i], true));
        i += 1;
        assert(accounts@ =~= expected.subrange(0, 3 + i));
    }
    assert(accounts@ =~= expected);
    Ok(Instruction { program_id: *token_program_id, accounts, data })
}

} // verus!
