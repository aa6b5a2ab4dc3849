//! Instruction builders: one value object per operation, holding the
//! accounts it needs and its scalar arguments. Each builds its call
//! descriptor, accounts in the order the token program indexes them, and
//! sends it.

use vstd::prelude::*;
use pinocchio::account_info::AccountInfo;
use pinocchio::instruction::Signer;
use pinocchio::program_error::ProgramError;
use crate::call::{
    readonly_role, signer_role, writable_role, writable_signer_role, AccountRole,
    CallDescriptor, CallView, Address,
};
use crate::codec::{
    amount_decimals_payload, amount_payload, encode_amount, encode_amount_decimals, encode_tag,
    encode_tag_key, encode_wide_tag_key, tag_key_payload, tag_payload, wide_tag_key_payload,
    APPROVE, APPROVE_CHECKED, BURN, BURN_CHECKED, CLOSE_ACCOUNT, FREEZE_ACCOUNT,
    INITIALIZE_ACCOUNT, INITIALIZE_ACCOUNT_2, INITIALIZE_ACCOUNT_3, MINT_TO, MINT_TO_CHECKED,
    REVOKE, SYNC_NATIVE, THAW_ACCOUNT, TRANSFER, TRANSFER_CHECKED,
};

verus! {

/// Moves `amount` tokens from one account to another.
///
/// Accounts, in order:
///   0. `from` (writable)
///   1. `to` (writable)
///   2. `authority` (signer)
pub struct Transfer<'a> {
    /// Source account.
    pub from: &'a AccountInfo,
    /// Destination account.
    pub to: &'a AccountInfo,
    /// Owner or delegate of the source.
    pub authority: &'a AccountInfo,
    /// Amount to move.
    pub amount: u64,
}

impl<'a> Transfer<'a> {
    /// The call this operation sends to `program`.
    pub fn descriptor(&self, program: &Address) -> (r: CallDescriptor<'a>)
        ensures
            r@ == (CallView {
                program_id: program@,
                accounts: seq![self.from, self.to, self.authority],
                roles: seq![writable_role(), writable_role(), signer_role()],
                data: amount_payload(TRANSFER, self.amount),
            }),
            r.well_formed(),
    {
        CallDescriptor::new(
            program,
            vec![self.from, self.to, self.authority],
            vec![AccountRole::writable(), AccountRole::writable(), AccountRole::readonly_signer()],
            encode_amount(TRANSFER, self.amount),
        )
    }

    pub fn invoke(&self, program: &Address) -> Result<(), ProgramError> {
        self.invoke_signed(program, &[])
    }

    pub fn invoke_signed(&self, program: &Address, signers: &[Signer]) -> Result<(), ProgramError> {
        self.descriptor(program).execute(signers)
    }
}

/// Moves `amount` tokens, checked against the mint's `decimals`.
///
/// Accounts, in order:
///   0. `from` (writable)
///   1. `mint` (read-only)
///   2. `to` (writable)
///   3. `authority` (signer)
pub struct TransferChecked<'a> {
    /// Source account.
    pub from: &'a AccountInfo,
    /// Mint of the tokens.
    pub mint: &'a AccountInfo,
    /// Destination account.
    pub to: &'a AccountInfo,
    /// Owner or delegate of the source.
    pub authority: &'a AccountInfo,
    /// Amount to move.
    pub amount: u64,
    /// Decimals the mint is expected to have.
    pub decimals: u8,
}

impl<'a> TransferChecked<'a> {
    /// The call this operation sends to `program`.
    pub fn descriptor(&self, program: &Address) -> (r: CallDescriptor<'a>)
        ensures
            r@ == (CallView {
                program_id: program@,
                accounts: seq![self.from, self.mint, self.to, self.authority],
                roles: seq![writable_role(), readonly_role(), writable_role(), signer_role()],
                data: amount_decimals_payload(TRANSFER_CHECKED, self.amount, self.decimals),
            }),
            r.well_formed(),
    {
        CallDescriptor::new(
            program,
            vec![self.from, self.mint, self.to, self.authority],
            vec![AccountRole::writable(), AccountRole::readonly(), AccountRole::writable(), AccountRole::readonly_signer()],
            encode_amount_decimals(TRANSFER_CHECKED, self.amount, self.decimals),
        )
    }

    pub fn invoke(&self, program: &Address) -> Result<(), ProgramError> {
        self.invoke_signed(program, &[])
    }

    pub fn invoke_signed(&self, program: &Address, signers: &[Signer]) -> Result<(), ProgramError> {
        self.descriptor(program).execute(signers)
    }
}

/// Mints `amount` new tokens to an account.
///
/// Accounts, in order:
///   0. `mint` (writable)
///   1. `token` (writable)
///   2. `mint_authority` (signer)
pub struct MintTo<'a> {
    /// The mint.
    pub mint: &'a AccountInfo,
    /// Account that receives the tokens.
    pub token: &'a AccountInfo,
    /// The mint's minting authority.
    pub mint_authority: &'a AccountInfo,
    /// Amount to mint.
    pub amount: u64,
}

impl<'a> MintTo<'a> {
    /// The call this operation sends to `program`.
    pub fn descriptor(&self, program: &Address) -> (r: CallDescriptor<'a>)
        ensures
            r@ == (CallView {
                program_id: program@,
                accounts: seq![self.mint, self.token, self.mint_authority],
                roles: seq![writable_role(), writable_role(), signer_role()],
                data: amount_payload(MINT_TO, self.amount),
            }),
            r.well_formed(),
    {
        CallDescriptor::new(
            program,
            vec![self.mint, self.token, self.mint_authority],
            vec![AccountRole::writable(), AccountRole::writable(), AccountRole::readonly_signer()],
            encode_amount(MINT_TO, self.amount),
        )
    }

    pub fn invoke(&self, program: &Address) -> Result<(), ProgramError> {
        self.invoke_signed(program, &[])
    }

    pub fn invoke_signed(&self, program: &Address, signers: &[Signer]) -> Result<(), ProgramError> {
        self.descriptor(program).execute(signers)
    }
}

/// Mints `amount` new tokens, checked against the mint's `decimals`.
///
/// Accounts, in order:
///   0. `mint` (writable)
///   1. `token` (writable)
///   2. `mint_authority` (signer)
pub struct MintToChecked<'a> {
    /// The mint.
    pub mint: &'a AccountInfo,
    /// Account that receives the tokens.
    pub token: &'a AccountInfo,
    /// The mint's minting authority.
    pub mint_authority: &'a AccountInfo,
    /// Amount to mint.
    pub amount: u64,
    /// Decimals the mint is expected to have.
    pub decimals: u8,
}

impl<'a> MintToChecked<'a> {
    /// The call this operation sends to `program`.
    pub fn descriptor(&self, program: &Address) -> (r: CallDescriptor<'a>)
        ensures
            r@ == (CallView {
                program_id: program@,
                accounts: seq![self.mint, self.token, self.mint_authority],
                roles: seq![writable_role(), writable_role(), signer_role()],
                data: amount_decimals_payload(MINT_TO_CHECKED, self.amount, self.decimals),
            }),
            r.well_formed(),
    {
        CallDescriptor::new(
            program,
            vec![self.mint, self.token, self.mint_authority],
            vec![AccountRole::writable(), AccountRole::writable(), AccountRole::readonly_signer()],
            encode_amount_decimals(MINT_TO_CHECKED, self.amount, self.decimals),
        )
    }

    pub fn invoke(&self, program: &Address) -> Result<(), ProgramError> {
        self.invoke_signed(program, &[])
    }

    pub fn invoke_signed(&self, program: &Address, signers: &[Signer]) -> Result<(), ProgramError> {
        self.descriptor(program).execute(signers)
    }
}

/// Burns `amount` tokens from an account.
///
/// Accounts, in order:
///   0. `token` (writable)
///   1. `mint` (writable)
///   2. `authority` (signer)
pub struct Burn<'a> {
    /// Account to burn from.
    pub token: &'a AccountInfo,
    /// The mint.
    pub mint: &'a AccountInfo,
    /// Owner or delegate of the account.
    pub authority: &'a AccountInfo,
    /// Amount to burn.
    pub amount: u64,
}

impl<'a> Burn<'a> {
    /// The call this operation sends to `program`.
    pub fn descriptor(&self, program: &Address) -> (r: CallDescriptor<'a>)
        ensures
            r@ == (CallView {
                program_id: program@,
                accounts: seq![self.token, self.mint, self.authority],
                roles: seq![writable_role(), writable_role(), signer_role()],
                data: amount_payload(BURN, self.amount),
            }),
            r.well_formed(),
    {
        CallDescriptor::new(
            program,
            vec![self.token, self.mint, self.authority],
            vec![AccountRole::writable(), AccountRole::writable(), AccountRole::readonly_signer()],
            encode_amount(BURN, self.amount),
        )
    }

    pub fn invoke(&self, program: &Address) -> Result<(), ProgramError> {
        self.invoke_signed(program, &[])
    }

    pub fn invoke_signed(&self, program: &Address, signers: &[Signer]) -> Result<(), ProgramError> {
        self.descriptor(program).execute(signers)
    }
}

/// Burns `amount` tokens, checked against the mint's `decimals`.
///
/// Accounts, in order:
///   0. `token` (writable)
///   1. `mint` (writable)
///   2. `authority` (signer)
pub struct BurnChecked<'a> {
    /// Account to burn from.
    pub token: &'a AccountInfo,
    /// The mint.
    pub mint: &'a AccountInfo,
    /// Owner or delegate of the account.
    pub authority: &'a AccountInfo,
    /// Amount to burn.
    pub amount: u64,
    /// Decimals the mint is expected to have.
    pub decimals: u8,
}

impl<'a> BurnChecked<'a> {
    /// The call this operation sends to `program`.
    pub fn descriptor(&self, program: &Address) -> (r: CallDescriptor<'a>)
        ensures
            r@ == (CallView {
                program_id: program@,
                accounts: seq![self.token, self.mint, self.authority],
                roles: seq![writable_role(), writable_role(), signer_role()],
                data: amount_decimals_payload(BURN_CHECKED, self.amount, self.decimals),
            }),
            r.well_formed(),
    {
        CallDescriptor::new(
            program,
            vec![self.token, self.mint, self.authority],
            vec![AccountRole::writable(), AccountRole::writable(), AccountRole::readonly_signer()],
            encode_amount_decimals(BURN_CHECKED, self.amount, self.decimals),
        )
    }

    pub fn invoke(&self, program: &Address) -> Result<(), ProgramError> {
        self.invoke_signed(program, &[])
    }

    pub fn invoke_signed(&self, program: &Address, signers: &[Signer]) -> Result<(), ProgramError> {
        self.descriptor(program).execute(signers)
    }
}

/// Lets a delegate move up to `amount` tokens of an account.
///
/// Accounts, in order:
///   0. `source` (writable)
///   1. `delegate` (read-only)
///   2. `authority` (signer)
pub struct Approve<'a> {
    /// The account.
    pub source: &'a AccountInfo,
    /// The delegate.
    pub delegate: &'a AccountInfo,
    /// Owner of the account.
    pub authority: &'a AccountInfo,
    /// Amount the delegate may move.
    pub amount: u64,
}

impl<'a> Approve<'a> {
    /// The call this operation sends to `program`.
    pub fn descriptor(&self, program: &Address) -> (r: CallDescriptor<'a>)
        ensures
            r@ == (CallView {
                program_id: program@,
                accounts: seq![self.source, self.delegate, self.authority],
                roles: seq![writable_role(), readonly_role(), signer_role()],
                data: amount_payload(APPROVE, self.amount),
            }),
            r.well_formed(),
    {
        CallDescriptor::new(
            program,
            vec![self.source, self.delegate, self.authority],
            vec![AccountRole::writable(), AccountRole::readonly(), AccountRole::readonly_signer()],
            encode_amount(APPROVE, self.amount),
        )
    }

    pub fn invoke(&self, program: &Address) -> Result<(), ProgramError> {
        self.invoke_signed(program, &[])
    }

    pub fn invoke_signed(&self, program: &Address, signers: &[Signer]) -> Result<(), ProgramError> {
        self.descriptor(program).execute(signers)
    }
}

/// Lets a delegate move up to `amount` tokens, checked against the mint's `decimals`.
///
/// Accounts, in order:
///   0. `source` (writable)
///   1. `mint` (read-only)
///   2. `delegate` (read-only)
///   3. `authority` (signer)
pub struct ApproveChecked<'a> {
    /// The account.
    pub source: &'a AccountInfo,
    /// Mint of the tokens.
    pub mint: &'a AccountInfo,
    /// The delegate.
    pub delegate: &'a AccountInfo,
    /// Owner of the account.
    pub authority: &'a AccountInfo,
    /// Amount the delegate may move.
    pub amount: u64,
    /// Decimals the mint is expected to have.
    pub decimals: u8,
}

impl<'a> ApproveChecked<'a> {
    /// The call this operation sends to `program`.
    pub fn descriptor(&self, program: &Address) -> (r: CallDescriptor<'a>)
        ensures
            r@ == (CallView {
                program_id: program@,
                accounts: seq![self.source, self.mint, self.delegate, self.authority],
                roles: seq![writable_role(), readonly_role(), readonly_role(), signer_role()],
                data: amount_decimals_payload(APPROVE_CHECKED, self.amount, self.decimals),
            }),
            r.well_formed(),
    {
        CallDescriptor::new(
            program,
            vec![self.source, self.mint, self.delegate, self.authority],
            vec![AccountRole::writable(), AccountRole::readonly(), AccountRole::readonly(), AccountRole::readonly_signer()],
            encode_amount_decimals(APPROVE_CHECKED, self.amount, self.decimals),
        )
    }

    pub fn invoke(&self, program: &Address) -> Result<(), ProgramError> {
        self.invoke_signed(program, &[])
    }

    pub fn invoke_signed(&self, program: &Address, signers: &[Signer]) -> Result<(), ProgramError> {
        self.descriptor(program).execute(signers)
    }
}

/// Removes the delegate of an account.
///
/// Accounts, in order:
///   0. `token` (writable)
///   1. `authority` (signer)
pub struct Revoke<'a> {
    /// The account.
    pub token: &'a AccountInfo,
    /// Owner of the account.
    pub authority: &'a AccountInfo,
}

impl<'a> Revoke<'a> {
    /// The call this operation sends to `program`.
    pub fn descriptor(&self, program: &Address) -> (r: CallDescriptor<'a>)
        ensures
            r@ == (CallView {
                program_id: program@,
                accounts: seq![self.token, self.authority],
                roles: seq![writable_role(), signer_role()],
                data: tag_payload(REVOKE),
            }),
            r.well_formed(),
    {
        CallDescriptor::new(
            program,
            vec![self.token, self.authority],
            vec![AccountRole::writable(), AccountRole::readonly_signer()],
            encode_tag(REVOKE),
        )
    }

    pub fn invoke(&self, program: &Address) -> Result<(), ProgramError> {
        self.invoke_signed(program, &[])
    }

    pub fn invoke_signed(&self, program: &Address, signers: &[Signer]) -> Result<(), ProgramError> {
        self.descriptor(program).execute(signers)
    }
}

/// Freezes an initialized account with the mint's freeze authority.
///
/// Accounts, in order:
///   0. `token` (writable)
///   1. `mint` (read-only)
///   2. `freeze_authority` (signer)
pub struct FreezeAccount<'a> {
    /// Account to freeze.
    pub token: &'a AccountInfo,
    /// The mint.
    pub mint: &'a AccountInfo,
    /// The mint's freeze authority.
    pub freeze_authority: &'a AccountInfo,
}

impl<'a> FreezeAccount<'a> {
    /// The call this operation sends to `program`.
    pub fn descriptor(&self, program: &Address) -> (r: CallDescriptor<'a>)
        ensures
            r@ == (CallView {
                program_id: program@,
                accounts: seq![self.token, self.mint, self.freeze_authority],
                roles: seq![writable_role(), readonly_role(), signer_role()],
                data: tag_payload(FREEZE_ACCOUNT),
            }),
            r.well_formed(),
    {
        CallDescriptor::new(
            program,
            vec![self.token, self.mint, self.freeze_authority],
            vec![AccountRole::writable(), AccountRole::readonly(), AccountRole::readonly_signer()],
            encode_tag(FREEZE_ACCOUNT),
        )
    }

    pub fn invoke(&self, program: &Address) -> Result<(), ProgramError> {
        self.invoke_signed(program, &[])
    }

    pub fn invoke_signed(&self, program: &Address, signers: &[Signer]) -> Result<(), ProgramError> {
        self.descriptor(program).execute(signers)
    }
}

/// Thaws a frozen account with the mint's freeze authority.
///
/// Accounts, in order:
///   0. `token` (writable)
///   1. `mint` (read-only)
///   2. `freeze_authority` (signer)
pub struct ThawAccount<'a> {
    /// Account to thaw.
    pub token: &'a AccountInfo,
    /// The mint.
    pub mint: &'a AccountInfo,
    /// The mint's freeze authority.
    pub freeze_authority: &'a AccountInfo,
}

impl<'a> ThawAccount<'a> {
    /// The call this operation sends to `program`.
    pub fn descriptor(&self, program: &Address) -> (r: CallDescriptor<'a>)
        ensures
            r@ == (CallView {
                program_id: program@,
                accounts: seq![self.token, self.mint, self.freeze_authority],
                roles: seq![writable_role(), readonly_role(), signer_role()],
                data: tag_payload(THAW_ACCOUNT),
            }),
            r.well_formed(),
    {
        CallDescriptor::new(
            program,
            vec![self.token, self.mint, self.freeze_authority],
            vec![AccountRole::writable(), AccountRole::readonly(), AccountRole::readonly_signer()],
            encode_tag(THAW_ACCOUNT),
        )
    }

    pub fn invoke(&self, program: &Address) -> Result<(), ProgramError> {
        self.invoke_signed(program, &[])
    }

    pub fn invoke_signed(&self, program: &Address, signers: &[Signer]) -> Result<(), ProgramError> {
        self.descriptor(program).execute(signers)
    }
}

/// Closes an account and moves its lamports to a destination.
///
/// Accounts, in order:
///   0. `token` (writable)
///   1. `destination` (writable)
///   2. `authority` (signer)
pub struct CloseAccount<'a> {
    /// Account to close.
    pub token: &'a AccountInfo,
    /// Account that receives the lamports.
    pub destination: &'a AccountInfo,
    /// Owner of the account.
    pub authority: &'a AccountInfo,
}

impl<'a> CloseAccount<'a> {
    /// The call this operation sends to `program`.
    pub fn descriptor(&self, program: &Address) -> (r: CallDescriptor<'a>)
        ensures
            r@ == (CallView {
                program_id: program@,
                accounts: seq![self.token, self.destination, self.authority],
                roles: seq![writable_role(), writable_role(), signer_role()],
                data: tag_payload(CLOSE_ACCOUNT),
            }),
            r.well_formed(),
    {
        CallDescriptor::new(
            program,
            vec![self.token, self.destination, self.authority],
            vec![AccountRole::writable(), AccountRole::writable(), AccountRole::readonly_signer()],
            encode_tag(CLOSE_ACCOUNT),
        )
    }

    pub fn invoke(&self, program: &Address) -> Result<(), ProgramError> {
        self.invoke_signed(program, &[])
    }

    pub fn invoke_signed(&self, program: &Address, signers: &[Signer]) -> Result<(), ProgramError> {
        self.descriptor(program).execute(signers)
    }
}

/// Brings the token amount of a native account in line with its lamports.
///
/// Accounts, in order:
///   0. `native_token` (writable)
pub struct SyncNative<'a> {
    /// The native token account.
    pub native_token: &'a AccountInfo,
}

impl<'a> SyncNative<'a> {
    /// The call this operation sends to `program`.
    pub fn descriptor(&self, program: &Address) -> (r: CallDescriptor<'a>)
        ensures
            r@ == (CallView {
                program_id: program@,
                accounts: seq![self.native_token],
                roles: seq![writable_role()],
                data: tag_payload(SYNC_NATIVE),
            }),
            r.well_formed(),
    {
        let accounts = vec![self.native_token];
        let roles = vec![AccountRole::writable()];
        assert(accounts@ =~= seq![self.native_token]);
        assert(roles@ =~= seq![writable_role()]);
        CallDescriptor::new(program, accounts, roles, encode_tag(SYNC_NATIVE))
    }

    pub fn invoke(&self, program: &Address) -> Result<(), ProgramError> {
        self.invoke_signed(program, &[])
    }

    pub fn invoke_signed(&self, program: &Address, signers: &[Signer]) -> Result<(), ProgramError> {
        self.descriptor(program).execute(signers)
    }
}

/// Initializes a new token account; the owner is passed as an account.
///
/// Accounts, in order:
///   0. `token` (writable, signer)
///   1. `mint` (read-only)
///   2. `owner` (read-only)
///   3. `rent_sysvar` (read-only)
pub struct InitilizeAccount<'a> {
    /// The new account.
    pub token: &'a AccountInfo,
    /// Mint of the new account.
    pub mint: &'a AccountInfo,
    /// Owner of the new account.
    pub owner: &'a AccountInfo,
    /// The rent sysvar.
    pub rent_sysvar: &'a AccountInfo,
}

impl<'a> InitilizeAccount<'a> {
    /// The call this operation sends to `program`.
    pub fn descriptor(&self, program: &Address) -> (r: CallDescriptor<'a>)
        ensures
            r@ == (CallView {
                program_id: program@,
                accounts: seq![self.token, self.mint, self.owner, self.rent_sysvar],
                roles: seq![writable_signer_role(), readonly_role(), readonly_role(), readonly_role()],
                data: tag_payload(INITIALIZE_ACCOUNT),
            }),
            r.well_formed(),
    {
        CallDescriptor::new(
            program,
            vec![self.token, self.mint, self.owner, self.rent_sysvar],
            vec![AccountRole::writable_signer(), AccountRole::readonly(), AccountRole::readonly(), AccountRole::readonly()],
            encode_tag(INITIALIZE_ACCOUNT),
        )
    }

    pub fn invoke(&self, program: &Address) -> Result<(), ProgramError> {
        self.invoke_signed(program, &[])
    }

    pub fn invoke_signed(&self, program: &Address, signers: &[Signer]) -> Result<(), ProgramError> {
        self.descriptor(program).execute(signers)
    }
}

/// Initializes a new token account; the owner is an argument, after a 4-byte discriminator.
///
/// Accounts, in order:
///   0. `token` (writable, signer)
///   1. `mint` (read-only)
///   2. `rent_sysvar` (read-only)
pub struct InitilizeAccount2<'a> {
    /// The new account.
    pub token: &'a AccountInfo,
    /// Mint of the new account.
    pub mint: &'a AccountInfo,
    /// The rent sysvar.
    pub rent_sysvar: &'a AccountInfo,
    /// Owner of the new account.
    pub owner: Address,
}

impl<'a> InitilizeAccount2<'a> {
    /// The call this operation sends to `program`.
    pub fn descriptor(&self, program: &Address) -> (r: CallDescriptor<'a>)
        ensures
            r@ == (CallView {
                program_id: program@,
                accounts: seq![self.token, self.mint, self.rent_sysvar],
                roles: seq![writable_signer_role(), readonly_role(), readonly_role()],
                data: wide_tag_key_payload(INITIALIZE_ACCOUNT_2 as u32, self.owner@),
            }),
            r.well_formed(),
    {
        CallDescriptor::new(
            program,
            vec![self.token, self.mint, self.rent_sysvar],
            vec![AccountRole::writable_signer(), AccountRole::readonly(), AccountRole::readonly()],
            encode_wide_tag_key(INITIALIZE_ACCOUNT_2 as u32, &self.owner),
        )
    }

    pub fn invoke(&self, program: &Address) -> Result<(), ProgramError> {
        self.invoke_signed(program, &[])
    }

    pub fn invoke_signed(&self, program: &Address, signers: &[Signer]) -> Result<(), ProgramError> {
        self.descriptor(program).execute(signers)
    }
}

/// Initializes a new token account without the rent sysvar; the owner is an argument.
///
/// Accounts, in order:
///   0. `token` (writable)
///   1. `mint` (read-only)
pub struct InitilizeAccount3<'a> {
    /// The new account.
    pub token: &'a AccountInfo,
    /// Mint of the new account.
    pub mint: &'a AccountInfo,
    /// Owner of the new account.
    pub owner: Address,
}

impl<'a> InitilizeAccount3<'a> {
    /// The call this operation sends to `program`.
    pub fn descriptor(&self, program: &Address) -> (r: CallDescriptor<'a>)
        ensures
            r@ == (CallView {
                program_id: program@,
                accounts: seq![self.token, self.mint],
                roles: seq![writable_role(), readonly_role()],
                data: tag_key_payload(INITIALIZE_ACCOUNT_3, self.owner@),
            }),
            r.well_formed(),
    {
        CallDescriptor::new(
            program,
            vec![self.token, self.mint],
            vec![AccountRole::writable(), AccountRole::readonly()],
            encode_tag_key(INITIALIZE_ACCOUNT_3, &self.owner),
        )
    }

    pub fn invoke(&self, program: &Address) -> Result<(), ProgramError> {
        self.invoke_signed(program, &[])
    }

    pub fn invoke_signed(&self, program: &Address, signers: &[Signer]) -> Result<(), ProgramError> {
        self.descriptor(program).execute(signers)
    }
}

} // verus!
