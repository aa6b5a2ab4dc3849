//! Call descriptors: the target program, the ordered account list with the
//! permission of each account, and the payload bytes.

use vstd::prelude::*;
use pinocchio::account_info::AccountInfo;
use pinocchio::instruction::Signer;
use pinocchio::program_error::ProgramError;

verus! {

/// The runtime's account handle, carried through opaque.
#[verifier::external_type_specification]
#[verifier::external_body]
pub struct ExAccountInfo(AccountInfo);

/// The seeds of a program-derived signer, carried through opaque.
#[verifier::external_type_specification]
#[verifier::external_body]
pub struct ExSigner<'a, 'b>(Signer<'a, 'b>);

/// The runtime's error, carried through opaque.
#[verifier::external_type_specification]
#[verifier::external_body]
pub struct ExProgramError(ProgramError);

/// A 32-byte account or program address.
pub type Address = [u8; 32];

/// How the called program may use one account of the call.
#[derive(Clone, Copy, Debug, PartialEq, Eq, Structural)]
pub struct AccountRole {
    pub writable: bool,
    pub signer: bool,
}

impl AccountRole {
    pub open spec fn spec_new(writable: bool, signer: bool) -> AccountRole {
        AccountRole { writable, signer }
    }

    pub fn readonly() -> (r: AccountRole)
        ensures
            r == AccountRole::spec_new(false, false),
    {
        AccountRole { writable: false, signer: false }
    }

    pub fn writable() -> (r: AccountRole)
        ensures
            r == AccountRole::spec_new(true, false),
    {
        AccountRole { writable: true, signer: false }
    }

    pub fn readonly_signer() -> (r: AccountRole)
        ensures
            r == AccountRole::spec_new(false, true),
    {
        AccountRole { writable: false, signer: true }
    }

    pub fn writable_signer() -> (r: AccountRole)
        ensures
            r == AccountRole::spec_new(true, true),
    {
        AccountRole { writable: true, signer: true }
    }
}

pub open spec fn readonly_role() -> AccountRole {
    AccountRole::spec_new(false, false)
}

pub open spec fn writable_role() -> AccountRole {
    AccountRole::spec_new(true, false)
}

pub open spec fn signer_role() -> AccountRole {
    AccountRole::spec_new(false, true)
}

pub open spec fn writable_signer_role() -> AccountRole {
    AccountRole::spec_new(true, true)
}

/// Why a call could not be prepared or did not succeed.
#[derive(Debug)]
pub enum TokenError {
    /// The number of supplied accounts is not the number the operation takes.
    NotEnoughAccountKeys,
    /// The inbound payload is empty, has an unknown discriminator, or its
    /// arguments are truncated.
    InvalidInstructionData,
    /// The account is not owned by the expected program.
    InvalidAccountOwner,
    /// The account's extension data is malformed.
    InvalidAccountData,
    /// The account holds no record of the requested extension.
    ExtensionNotFound,
    /// The invoked program or the runtime failed the call.
    External(ProgramError),
}

/// A fully assembled call: target program, accounts in order with their
/// roles, and the payload.
pub struct CallDescriptor<'a> {
    pub program_id: Address,
    pub accounts: Vec<&'a AccountInfo>,
    pub roles: Vec<AccountRole>,
    pub data: Vec<u8>,
}

/// The mathematical content of a call descriptor.
pub struct CallView<'a> {
    pub program_id: Seq<u8>,
    pub accounts: Seq<&'a AccountInfo>,
    pub roles: Seq<AccountRole>,
    pub data: Seq<u8>,
}

impl<'a> View for CallDescriptor<'a> {
    type V = CallView<'a>;

    open spec fn view(&self) -> CallView<'a> {
        CallView {
            program_id: self.program_id@,
            accounts: self.accounts@,
            roles: self.roles@,
            data: self.data@,
        }
    }
}

impl<'a> CallDescriptor<'a> {
    /// Assembles a descriptor; there is one role for each account.
    pub fn new(program_id: &Address, accounts: Vec<&'a AccountInfo>, roles: Vec<AccountRole>, data: Vec<u8>) -> (r: CallDescriptor<'a>)
        requires
            accounts@.len() == roles@.len(),
        ensures
            r@ == (CallView { program_id: program_id@, accounts: accounts@, roles: roles@, data: data@ }),
    {
        CallDescriptor { program_id: *program_id, accounts, roles, data }
    }

    pub open spec fn well_formed(&self) -> bool {
        self.accounts@.len() == self.roles@.len()
    }

    /// Hands the call to the runtime together with the signing authorities
    /// of program-derived addresses; the runtime's outcome is returned
    /// unchanged.
    pub fn execute(&self, signers: &[Signer]) -> (r: Result<(), ProgramError>)
        requires
            self.well_formed(),
    {
        invoke_call(self, signers)
    }
}

/// The view of a prepared call, or the error that stopped it.
pub open spec fn planned<'a>(r: Result<CallDescriptor<'a>, TokenError>) -> Result<CallView<'a>, TokenError> {
    match r {
        Ok(d) => Ok(d@),
        Err(e) => Err(e),
    }
}

/// Relies on pinocchio::cpi::slice_invoke_signed: performs the call through
/// the runtime and reports its outcome.
#[verifier::external_body]
fn invoke_call(call: &CallDescriptor, signers: &[Signer]) -> (r: Result<(), ProgramError>)
    requires
        call.accounts@.len() == call.roles@.len(),
{
    let metas: Vec<pinocchio::instruction::AccountMeta> = call.accounts.iter().zip(call.roles.iter())
        .map(|(a, r)| pinocchio::instruction::AccountMeta::new(a.key(), r.writable, r.signer))
        .collect();
    let instruction = pinocchio::instruction::Instruction {
        program_id: &call.program_id,
        data: &call.data,
        accounts: &metas,
    };
    pinocchio::cpi::slice_invoke_signed(&instruction, &call.accounts, signers)
}

} // verus!
