//! The instruction router: maps the leading discriminator byte of an
//! inbound payload to its operation, checks the supplied accounts and the
//! argument bytes, and builds and sends the operation's call.

use vstd::prelude::*;
use vstd::slice::slice_subrange;
use vstd::bytes::{
    lemma_auto_spec_u32_to_from_le_bytes, lemma_auto_spec_u64_to_from_le_bytes,
    spec_u64_from_le_bytes, spec_u64_to_le_bytes,
};
use pinocchio::account_info::AccountInfo;
use crate::call::{
    planned, readonly_role, signer_role, writable_role, writable_signer_role, Address,
    AccountRole, CallDescriptor, CallView, TokenError,
};
use crate::codec::{
    amount_decimals_payload, amount_payload, le32, read_key, read_le32, read_le64, read_u64_le, tag_key_payload,
    tag_payload, wide_tag_key_payload, APPROVE, APPROVE_CHECKED, BURN, BURN_CHECKED,
    CLOSE_ACCOUNT, FREEZE_ACCOUNT, INITIALIZE_ACCOUNT, INITIALIZE_ACCOUNT_2,
    INITIALIZE_ACCOUNT_3, MINT_TO, MINT_TO_CHECKED, REVOKE, SYNC_NATIVE, THAW_ACCOUNT, TRANSFER,
    TRANSFER_CHECKED,
};
use crate::instructions::{
    Approve, ApproveChecked, Burn, BurnChecked, CloseAccount, FreezeAccount, InitilizeAccount,
    InitilizeAccount2, InitilizeAccount3, MintTo, MintToChecked, Revoke, SyncNative, ThawAccount,
    Transfer, TransferChecked,
};

verus! {

/// The operations the router accepts.
#[derive(Clone, Copy, Debug, PartialEq, Eq, Structural)]
pub enum TestInstruction {
    InitializeAccount,
    Transfer,
    Approve,
    Revoke,
    MintTo,
    Burn,
    CloseAccount,
    FreezeAccount,
    ThawAccount,
    TransferChecked,
    ApproveChecked,
    MintToChecked,
    BurnChecked,
    InitializeAccount2,
    SyncNative,
    InitializeAccount3,
}

/// The operation whose discriminator is `b`, if any.
pub open spec fn instruction_of(b: u8) -> Option<TestInstruction> {
    if b == INITIALIZE_ACCOUNT {
        Some(TestInstruction::InitializeAccount)
    } else if b == TRANSFER {
        Some(TestInstruction::Transfer)
    } else if b == APPROVE {
        Some(TestInstruction::Approve)
    } else if b == REVOKE {
        Some(TestInstruction::Revoke)
    } else if b == MINT_TO {
        Some(TestInstruction::MintTo)
    } else if b == BURN {
        Some(TestInstruction::Burn)
    } else if b == CLOSE_ACCOUNT {
        Some(TestInstruction::CloseAccount)
    } else if b == FREEZE_ACCOUNT {
        Some(TestInstruction::FreezeAccount)
    } else if b == THAW_ACCOUNT {
        Some(TestInstruction::ThawAccount)
    } else if b == TRANSFER_CHECKED {
        Some(TestInstruction::TransferChecked)
    } else if b == APPROVE_CHECKED {
        Some(TestInstruction::ApproveChecked)
    } else if b == MINT_TO_CHECKED {
        Some(TestInstruction::MintToChecked)
    } else if b == BURN_CHECKED {
        Some(TestInstruction::BurnChecked)
    } else if b == INITIALIZE_ACCOUNT_2 {
        Some(TestInstruction::InitializeAccount2)
    } else if b == SYNC_NATIVE {
        Some(TestInstruction::SyncNative)
    } else if b == INITIALIZE_ACCOUNT_3 {
        Some(TestInstruction::InitializeAccount3)
    } else {
        None
    }
}

/// The discriminator of `ix`.
pub open spec fn discriminator(ix: TestInstruction) -> u8 {
    match ix {
        TestInstruction::InitializeAccount => INITIALIZE_ACCOUNT,
        TestInstruction::Transfer => TRANSFER,
        TestInstruction::Approve => APPROVE,
        TestInstruction::Revoke => REVOKE,
        TestInstruction::MintTo => MINT_TO,
        TestInstruction::Burn => BURN,
        TestInstruction::CloseAccount => CLOSE_ACCOUNT,
        TestInstruction::FreezeAccount => FREEZE_ACCOUNT,
        TestInstruction::ThawAccount => THAW_ACCOUNT,
        TestInstruction::TransferChecked => TRANSFER_CHECKED,
        TestInstruction::ApproveChecked => APPROVE_CHECKED,
        TestInstruction::MintToChecked => MINT_TO_CHECKED,
        TestInstruction::BurnChecked => BURN_CHECKED,
        TestInstruction::InitializeAccount2 => INITIALIZE_ACCOUNT_2,
        TestInstruction::SyncNative => SYNC_NATIVE,
        TestInstruction::InitializeAccount3 => INITIALIZE_ACCOUNT_3,
    }
}

/// How many accounts `ix` is dispatched with: those of its call, then the
/// token program.
pub open spec fn account_count(ix: TestInstruction) -> nat {
    match ix {
        TestInstruction::InitializeAccount => 5,
        TestInstruction::Transfer => 4,
        TestInstruction::Approve => 4,
        TestInstruction::Revoke => 3,
        TestInstruction::MintTo => 4,
        TestInstruction::Burn => 4,
        TestInstruction::CloseAccount => 4,
        TestInstruction::FreezeAccount => 4,
        TestInstruction::ThawAccount => 4,
        TestInstruction::TransferChecked => 5,
        TestInstruction::ApproveChecked => 5,
        TestInstruction::MintToChecked => 4,
        TestInstruction::BurnChecked => 4,
        TestInstruction::InitializeAccount2 => 4,
        TestInstruction::SyncNative => 2,
        TestInstruction::InitializeAccount3 => 3,
    }
}

/// How many argument bytes `ix` reads.
pub open spec fn args_len(ix: TestInstruction) -> nat {
    match ix {
        TestInstruction::InitializeAccount => 0,
        TestInstruction::Transfer => 8,
        TestInstruction::Approve => 8,
        TestInstruction::Revoke => 0,
        TestInstruction::MintTo => 8,
        TestInstruction::Burn => 8,
        TestInstruction::CloseAccount => 0,
        TestInstruction::FreezeAccount => 0,
        TestInstruction::ThawAccount => 0,
        TestInstruction::TransferChecked => 9,
        TestInstruction::ApproveChecked => 9,
        TestInstruction::MintToChecked => 9,
        TestInstruction::BurnChecked => 9,
        TestInstruction::InitializeAccount2 => 32,
        TestInstruction::SyncNative => 0,
        TestInstruction::InitializeAccount3 => 32,
    }
}

/// The roles of the accounts of the call of `ix`.
pub open spec fn roles_of(ix: TestInstruction) -> Seq<AccountRole> {
    match ix {
        TestInstruction::InitializeAccount => seq![writable_signer_role(), readonly_role(), readonly_role(), readonly_role()],
        TestInstruction::Transfer => seq![writable_role(), writable_role(), signer_role()],
        TestInstruction::Approve => seq![writable_role(), readonly_role(), signer_role()],
        TestInstruction::Revoke => seq![writable_role(), signer_role()],
        TestInstruction::MintTo => seq![writable_role(), writable_role(), signer_role()],
        TestInstruction::Burn => seq![writable_role(), writable_role(), signer_role()],
        TestInstruction::CloseAccount => seq![writable_role(), writable_role(), signer_role()],
        TestInstruction::FreezeAccount => seq![writable_role(), readonly_role(), signer_role()],
        TestInstruction::ThawAccount => seq![writable_role(), readonly_role(), signer_role()],
        TestInstruction::TransferChecked => seq![writable_role(), readonly_role(), writable_role(), signer_role()],
        TestInstruction::ApproveChecked => seq![writable_role(), readonly_role(), readonly_role(), signer_role()],
        TestInstruction::MintToChecked => seq![writable_role(), writable_role(), signer_role()],
        TestInstruction::BurnChecked => seq![writable_role(), writable_role(), signer_role()],
        TestInstruction::InitializeAccount2 => seq![writable_signer_role(), readonly_role(), readonly_role()],
        TestInstruction::SyncNative => seq![writable_role()],
        TestInstruction::InitializeAccount3 => seq![writable_role(), readonly_role()],
    }
}

/// The payload of the call of `ix` with arguments `args`.
pub open spec fn payload_of(ix: TestInstruction, args: Seq<u8>) -> Seq<u8> {
    match ix {
        TestInstruction::InitializeAccount => tag_payload(INITIALIZE_ACCOUNT),
        TestInstruction::Transfer => amount_payload(TRANSFER, read_le64(args, 0)),
        TestInstruction::Approve => amount_payload(APPROVE, read_le64(args, 0)),
        TestInstruction::Revoke => tag_payload(REVOKE),
        TestInstruction::MintTo => amount_payload(MINT_TO, read_le64(args, 0)),
        TestInstruction::Burn => amount_payload(BURN, read_le64(args, 0)),
        TestInstruction::CloseAccount => tag_payload(CLOSE_ACCOUNT),
        TestInstruction::FreezeAccount => tag_payload(FREEZE_ACCOUNT),
        TestInstruction::ThawAccount => tag_payload(THAW_ACCOUNT),
        TestInstruction::TransferChecked => amount_decimals_payload(TRANSFER_CHECKED, read_le64(args, 0), args[8]),
        TestInstruction::ApproveChecked => amount_decimals_payload(APPROVE_CHECKED, read_le64(args, 0), args[8]),
        TestInstruction::MintToChecked => amount_decimals_payload(MINT_TO_CHECKED, read_le64(args, 0), args[8]),
        TestInstruction::BurnChecked => amount_decimals_payload(BURN_CHECKED, read_le64(args, 0), args[8]),
        TestInstruction::InitializeAccount2 => wide_tag_key_payload(INITIALIZE_ACCOUNT_2 as u32, args.subrange(0, 32)),
        TestInstruction::SyncNative => tag_payload(SYNC_NATIVE),
        TestInstruction::InitializeAccount3 => tag_key_payload(INITIALIZE_ACCOUNT_3, args.subrange(0, 32)),
    }
}

/// The first `n` of `accounts`, by reference.
pub open spec fn passed<'a>(accounts: &'a [AccountInfo], n: int) -> Seq<&'a AccountInfo> {
    Seq::new(n as nat, |i: int| &accounts@[i])
}

/// The call that `ix` makes with `accounts` and `args`, or why it makes none.
pub open spec fn call_plan<'a>(ix: TestInstruction, accounts: &'a [AccountInfo], args: Seq<u8>, program: Seq<u8>) -> Result<CallView<'a>, TokenError> {
    if accounts@.len() != account_count(ix) {
        Err(TokenError::NotEnoughAccountKeys)
    } else if args.len() < args_len(ix) {
        Err(TokenError::InvalidInstructionData)
    } else {
        Ok(CallView {
            program_id: program,
            accounts: passed(accounts, account_count(ix) - 1),
            roles: roles_of(ix),
            data: payload_of(ix, args),
        })
    }
}

/// What dispatching the inbound payload `data` gives.
pub open spec fn dispatch_plan<'a>(accounts: &'a [AccountInfo], data: Seq<u8>, program: Seq<u8>) -> Result<CallView<'a>, TokenError> {
    if data.len() == 0 {
        Err(TokenError::InvalidInstructionData)
    } else {
        match instruction_of(data[0]) {
            None => Err(TokenError::InvalidInstructionData),
            Some(ix) => call_plan(ix, accounts, data.subrange(1, data.len() as int), program),
        }
    }
}

impl TestInstruction {
    /// The operation whose discriminator is `*value`; an unknown one is
    /// invalid instruction data.
    pub fn try_from(value: &u8) -> (r: Result<TestInstruction, TokenError>)
        ensures
            match instruction_of(*value) {
                Some(ix) => r == Ok::<TestInstruction, TokenError>(ix),
                None => r == Err::<TestInstruction, TokenError>(TokenError::InvalidInstructionData),
            },
    {
        match *value {
            INITIALIZE_ACCOUNT => Ok(TestInstruction::InitializeAccount),
            TRANSFER => Ok(TestInstruction::Transfer),
            APPROVE => Ok(TestInstruction::Approve),
            REVOKE => Ok(TestInstruction::Revoke),
            MINT_TO => Ok(TestInstruction::MintTo),
            BURN => Ok(TestInstruction::Burn),
            CLOSE_ACCOUNT => Ok(TestInstruction::CloseAccount),
            FREEZE_ACCOUNT => Ok(TestInstruction::FreezeAccount),
            THAW_ACCOUNT => Ok(TestInstruction::ThawAccount),
            TRANSFER_CHECKED => Ok(TestInstruction::TransferChecked),
            APPROVE_CHECKED => Ok(TestInstruction::ApproveChecked),
            MINT_TO_CHECKED => Ok(TestInstruction::MintToChecked),
            BURN_CHECKED => Ok(TestInstruction::BurnChecked),
            INITIALIZE_ACCOUNT_2 => Ok(TestInstruction::InitializeAccount2),
            SYNC_NATIVE => Ok(TestInstruction::SyncNative),
            INITIALIZE_ACCOUNT_3 => Ok(TestInstruction::InitializeAccount3),
            _ => Err(TokenError::InvalidInstructionData),
        }
    }

    pub fn account_count(&self) -> (r: usize)
        ensures
            r == account_count(*self),
    {
        match self {
            TestInstruction::InitializeAccount => 5,
            TestInstruction::Transfer => 4,
            TestInstruction::Approve => 4,
            TestInstruction::Revoke => 3,
            TestInstruction::MintTo => 4,
            TestInstruction::Burn => 4,
            TestInstruction::CloseAccount => 4,
            TestInstruction::FreezeAccount => 4,
            TestInstruction::ThawAccount => 4,
            TestInstruction::TransferChecked => 5,
            TestInstruction::ApproveChecked => 5,
            TestInstruction::MintToChecked => 4,
            TestInstruction::BurnChecked => 4,
            TestInstruction::InitializeAccount2 => 4,
            TestInstruction::SyncNative => 2,
            TestInstruction::InitializeAccount3 => 3,
        }
    }

    pub fn args_len(&self) -> (r: usize)
        ensures
            r == args_len(*self),
    {
        match self {
            TestInstruction::InitializeAccount => 0,
            TestInstruction::Transfer => 8,
            TestInstruction::Approve => 8,
            TestInstruction::Revoke => 0,
            TestInstruction::MintTo => 8,
            TestInstruction::Burn => 8,
            TestInstruction::CloseAccount => 0,
            TestInstruction::FreezeAccount => 0,
            TestInstruction::ThawAccount => 0,
            TestInstruction::TransferChecked => 9,
            TestInstruction::ApproveChecked => 9,
            TestInstruction::MintToChecked => 9,
            TestInstruction::BurnChecked => 9,
            TestInstruction::InitializeAccount2 => 32,
            TestInstruction::SyncNative => 0,
            TestInstruction::InitializeAccount3 => 32,
        }
    }
}

/// Builds the call of `ix` from the supplied accounts and argument bytes.
/// The account count is checked first, then the argument length; nothing is
/// built when either is wrong.
pub fn build_call<'a>(ix: TestInstruction, accounts: &'a [AccountInfo], args: &[u8], program: &Address) -> (r: Result<CallDescriptor<'a>, TokenError>)
    ensures
        planned(r) == call_plan(ix, accounts, args@, program@),
        r matches Ok(d) ==> d.well_formed(),
{
    if accounts.len() != ix.account_count() {
        return Err(TokenError::NotEnoughAccountKeys);
    }
    if args.len() < ix.args_len() {
        return Err(TokenError::InvalidInstructionData);
    }
    let d = match ix {
        TestInstruction::InitializeAccount => InitilizeAccount { token: &accounts[0], mint: &accounts[1], owner: &accounts[2], rent_sysvar: &accounts[3] }.descriptor(program),
        TestInstruction::Transfer => Transfer { from: &accounts[0], to: &accounts[1], authority: &accounts[2], amount: read_u64_le(args, 0) }.descriptor(program),
        TestInstruction::Approve => Approve { source: &accounts[0], delegate: &accounts[1], authority: &accounts[2], amount: read_u64_le(args, 0) }.descriptor(program),
        TestInstruction::Revoke => Revoke { token: &accounts[0], authority: &accounts[1] }.descriptor(program),
        TestInstruction::MintTo => MintTo { mint: &accounts[0], token: &accounts[1], mint_authority: &accounts[2], amount: read_u64_le(args, 0) }.descriptor(program),
        TestInstruction::Burn => Burn { token: &accounts[0], mint: &accounts[1], authority: &accounts[2], amount: read_u64_le(args, 0) }.descriptor(program),
        TestInstruction::CloseAccount => CloseAccount { token: &accounts[0], destination: &accounts[1], authority: &accounts[2] }.descriptor(program),
        TestInstruction::FreezeAccount => FreezeAccount { token: &accounts[0], mint: &accounts[1], freeze_authority: &accounts[2] }.descriptor(program),
        TestInstruction::ThawAccount => ThawAccount { token: &accounts[0], mint: &accounts[1], freeze_authority: &accounts[2] }.descriptor(program),
        TestInstruction::TransferChecked => TransferChecked { from: &accounts[0], mint: &accounts[1], to: &accounts[2], authority: &accounts[3], amount: read_u64_le(args, 0), decimals: args[8] }.descriptor(program),
        TestInstruction::ApproveChecked => ApproveChecked { source: &accounts[0], mint: &accounts[1], delegate: &accounts[2], authority: &accounts[3], amount: read_u64_le(args, 0), decimals: args[8] }.descriptor(program),
        TestInstruction::MintToChecked => MintToChecked { mint: &accounts[0], token: &accounts[1], mint_authority: &accounts[2], amount: read_u64_le(args, 0), decimals: args[8] }.descriptor(program),
        TestInstruction::BurnChecked => BurnChecked { token: &accounts[0], mint: &accounts[1], authority: &accounts[2], amount: read_u64_le(args, 0), decimals: args[8] }.descriptor(program),
        TestInstruction::InitializeAccount2 => InitilizeAccount2 { token: &accounts[0], mint: &accounts[1], rent_sysvar: &accounts[2], owner: read_key(args, 0) }.descriptor(program),
        TestInstruction::SyncNative => SyncNative { native_token: &accounts[0] }.descriptor(program),
        TestInstruction::InitializeAccount3 => InitilizeAccount3 { token: &accounts[0], mint: &accounts[1], owner: read_key(args, 0) }.descriptor(program),
    };
    proof {
        assert(d@.accounts =~= passed(accounts, account_count(ix) - 1));
    }
    Ok(d)
}

/// Reads the discriminator of the inbound payload `data` and builds the call
/// of its operation from the remaining bytes. An empty payload or an unknown
/// discriminator is rejected before any account is looked at.
pub fn prepare_instruction<'a>(program: &Address, accounts: &'a [AccountInfo], data: &[u8]) -> (r: Result<CallDescriptor<'a>, TokenError>)
    ensures
        planned(r) == dispatch_plan(accounts, data@, program@),
        r matches Ok(d) ==> d.well_formed(),
{
    if data.len() == 0 {
        return Err(TokenError::InvalidInstructionData);
    }
    let ix = match TestInstruction::try_from(&data[0]) {
        Ok(ix) => ix,
        Err(e) => return Err(e),
    };
    let args = slice_subrange(data, 1, data.len());
    build_call(ix, accounts, args, program)
}

/// Sends a prepared call; a failure of the runtime or of the called program
/// is passed on unchanged.
fn send(call: Result<CallDescriptor, TokenError>) -> (r: Result<(), TokenError>)
    requires
        call matches Ok(d) ==> d.well_formed(),
    ensures
        call matches Err(e) ==> r == Err::<(), TokenError>(e),
        r matches Ok(_) ==> call is Ok,
        call is Ok ==> (r is Ok || r matches Err(TokenError::External(_))),
{
    match call {
        Ok(d) => match d.execute(&[]) {
            Ok(()) => Ok(()),
            Err(e) => Err(TokenError::External(e)),
        },
        Err(e) => Err(e),
    }
}

/// Dispatches one inbound instruction to `program`: decodes it, builds the
/// call and sends it. When the payload or the accounts are rejected, no call
/// is made and the error is returned.
pub fn process_instruction(program: &Address, accounts: &[AccountInfo], instruction_data: &[u8]) -> (r: Result<(), TokenError>)
    ensures
        dispatch_plan(accounts, instruction_data@, program@) matches Err(e) ==> r == Err::<(), TokenError>(e),
        r matches Ok(_) ==> dispatch_plan(accounts, instruction_data@, program@) is Ok,
        dispatch_plan(accounts, instruction_data@, program@) is Ok ==> (r is Ok || r matches Err(TokenError::External(_))),
{
    send(prepare_instruction(program, accounts, instruction_data))
}

/// Runs the handler of `ix` on `accounts` and the argument bytes `data`.
fn run(ix: TestInstruction, accounts: &[AccountInfo], data: &[u8], program: &Address) -> (r: Result<(), TokenError>)
    ensures
        call_plan(ix, accounts, data@, program@) matches Err(e) ==> r == Err::<(), TokenError>(e),
        r matches Ok(_) ==> call_plan(ix, accounts, data@, program@) is Ok,
        call_plan(ix, accounts, data@, program@) is Ok ==> (r is Ok || r matches Err(TokenError::External(_))),
{
    send(build_call(ix, accounts, data, program))
}

/// Transfers: accounts `from, to, authority, token program`; `data` holds the
/// little-endian amount.
pub fn transfer(program: &Address, accounts: &[AccountInfo], data: &[u8]) -> (r: Result<(), TokenError>)
    ensures
        call_plan(TestInstruction::Transfer, accounts, data@, program@) matches Err(e) ==> r == Err::<(), TokenError>(e),
        r matches Ok(_) ==> call_plan(TestInstruction::Transfer, accounts, data@, program@) is Ok,
        call_plan(TestInstruction::Transfer, accounts, data@, program@) is Ok ==> (r is Ok || r matches Err(TokenError::External(_))),
{
    run(TestInstruction::Transfer, accounts, data, program)
}

/// Revokes a delegate: accounts `token, authority, token program`.
pub fn revoke(program: &Address, accounts: &[AccountInfo]) -> (r: Result<(), TokenError>)
    ensures
        call_plan(TestInstruction::Revoke, accounts, Seq::empty(), program@) matches Err(e) ==> r == Err::<(), TokenError>(e),
        r matches Ok(_) ==> call_plan(TestInstruction::Revoke, accounts, Seq::empty(), program@) is Ok,
        call_plan(TestInstruction::Revoke, accounts, Seq::empty(), program@) is Ok ==> (r is Ok || r matches Err(TokenError::External(_))),
{
    let none: [u8; 0] = [];
    assert(none@ =~= Seq::<u8>::empty());
    run(TestInstruction::Revoke, accounts, none.as_slice(), program)
}

/// Thaws an account: accounts `token, mint, freeze authority, token program`.
pub fn thaw_account(program: &Address, accounts: &[AccountInfo]) -> (r: Result<(), TokenError>)
    ensures
        call_plan(TestInstruction::ThawAccount, accounts, Seq::empty(), program@) matches Err(e) ==> r == Err::<(), TokenError>(e),
        r matches Ok(_) ==> call_plan(TestInstruction::ThawAccount, accounts, Seq::empty(), program@) is Ok,
        call_plan(TestInstruction::ThawAccount, accounts, Seq::empty(), program@) is Ok ==> (r is Ok || r matches Err(TokenError::External(_))),
{
    let none: [u8; 0] = [];
    assert(none@ =~= Seq::<u8>::empty());
    run(TestInstruction::ThawAccount, accounts, none.as_slice(), program)
}

/// Syncs a native account: accounts `native token, token program`.
pub fn sync_native(program: &Address, accounts: &[AccountInfo]) -> (r: Result<(), TokenError>)
    ensures
        call_plan(TestInstruction::SyncNative, accounts, Seq::empty(), program@) matches Err(e) ==> r == Err::<(), TokenError>(e),
        r matches Ok(_) ==> call_plan(TestInstruction::SyncNative, accounts, Seq::empty(), program@) is Ok,
        call_plan(TestInstruction::SyncNative, accounts, Seq::empty(), program@) is Ok ==> (r is Ok || r matches Err(TokenError::External(_))),
{
    let none: [u8; 0] = [];
    assert(none@ =~= Seq::<u8>::empty());
    run(TestInstruction::SyncNative, accounts, none.as_slice(), program)
}

/// Closes an account: accounts `token, destination, authority, token program`.
pub fn close_account(program: &Address, accounts: &[AccountInfo]) -> (r: Result<(), TokenError>)
    ensures
        call_plan(TestInstruction::CloseAccount, accounts, Seq::empty(), program@) matches Err(e) ==> r == Err::<(), TokenError>(e),
        r matches Ok(_) ==> call_plan(TestInstruction::CloseAccount, accounts, Seq::empty(), program@) is Ok,
        call_plan(TestInstruction::CloseAccount, accounts, Seq::empty(), program@) is Ok ==> (r is Ok || r matches Err(TokenError::External(_))),
{
    let none: [u8; 0] = [];
    assert(none@ =~= Seq::<u8>::empty());
    run(TestInstruction::CloseAccount, accounts, none.as_slice(), program)
}

/// Freezes an account: accounts `token, mint, freeze authority, token program`.
pub fn freeze_account(program: &Address, accounts: &[AccountInfo]) -> (r: Result<(), TokenError>)
    ensures
        call_plan(TestInstruction::FreezeAccount, accounts, Seq::empty(), program@) matches Err(e) ==> r == Err::<(), TokenError>(e),
        r matches Ok(_) ==> call_plan(TestInstruction::FreezeAccount, accounts, Seq::empty(), program@) is Ok,
        call_plan(TestInstruction::FreezeAccount, accounts, Seq::empty(), program@) is Ok ==> (r is Ok || r matches Err(TokenError::External(_))),
{
    let none: [u8; 0] = [];
    assert(none@ =~= Seq::<u8>::empty());
    run(TestInstruction::FreezeAccount, accounts, none.as_slice(), program)
}

/// Burns, checked against the decimals: accounts `token, mint, authority,
/// token program`; `data` holds the little-endian amount, then the decimals.
pub fn burn_checked(program: &Address, accounts: &[AccountInfo], data: &[u8]) -> (r: Result<(), TokenError>)
    ensures
        call_plan(TestInstruction::BurnChecked, accounts, data@, program@) matches Err(e) ==> r == Err::<(), TokenError>(e),
        r matches Ok(_) ==> call_plan(TestInstruction::BurnChecked, accounts, data@, program@) is Ok,
        call_plan(TestInstruction::BurnChecked, accounts, data@, program@) is Ok ==> (r is Ok || r matches Err(TokenError::External(_))),
{
    run(TestInstruction::BurnChecked, accounts, data, program)
}

/// The discriminator table is a bijection between the accepted operations
/// and their discriminators.
pub proof fn lemma_discriminator_table(ix: TestInstruction, b: u8)
    ensures
        instruction_of(discriminator(ix)) == Some(ix),
        instruction_of(b) == Some(ix) ==> discriminator(ix) == b,
{
}

/// A payload whose first byte is not in the discriminator table is
/// rejected as invalid instruction data, whatever the accounts and the
/// remaining bytes.
pub proof fn lemma_unknown_discriminator_rejected<'a>(b: u8, rest: Seq<u8>, accounts: &'a [AccountInfo], program: Seq<u8>)
    requires
        instruction_of(b) is None,
    ensures
        dispatch_plan(accounts, seq![b] + rest, program) == Err::<CallView<'a>, TokenError>(TokenError::InvalidInstructionData),
{
}

/// Dispatching a payload that starts with the discriminator of `ix` gives
/// exactly what the handler of `ix` gives on the remaining bytes.
pub proof fn lemma_dispatch_selects_handler<'a>(ix: TestInstruction, args: Seq<u8>, accounts: &'a [AccountInfo], program: Seq<u8>)
    ensures
        dispatch_plan(accounts, seq![discriminator(ix)] + args, program) == call_plan(ix, accounts, args, program),
{
    assert((seq![discriminator(ix)] + args).subrange(1, args.len() + 1int) =~= args);
}

/// A handler given fewer accounts than it takes fails with "not enough
/// account keys", and no call is built.
pub proof fn lemma_account_count_guard<'a>(ix: TestInstruction, args: Seq<u8>, accounts: &'a [AccountInfo], program: Seq<u8>)
    requires
        accounts@.len() < account_count(ix),
    ensures
        call_plan(ix, accounts, args, program) == Err::<CallView<'a>, TokenError>(TokenError::NotEnoughAccountKeys),
{
}

/// The discriminator bytes that open the payload of `ix`: one byte, or four
/// little-endian bytes for the operation that uses the wide form.
pub open spec fn header_of(ix: TestInstruction) -> Seq<u8> {
    match ix {
        TestInstruction::InitializeAccount2 => le32(INITIALIZE_ACCOUNT_2 as u32),
        _ => seq![discriminator(ix)],
    }
}

/// Every operation's payload starts with its discriminator, read back at the
/// width of its family, and has a fixed length: the header's and the
/// arguments' together, whatever the argument values.
pub proof fn lemma_payload_header_of_every_operation(ix: TestInstruction, args: Seq<u8>)
    requires
        args.len() >= args_len(ix),
    ensures
        payload_of(ix, args).len() == header_of(ix).len() + args_len(ix),
        ix != TestInstruction::InitializeAccount2 ==> payload_of(ix, args)[0] == discriminator(ix),
        ix == TestInstruction::InitializeAccount2 ==> read_le32(payload_of(ix, args), 0) == INITIALIZE_ACCOUNT_2 as u32,
{
    lemma_payload_forwards_arguments(ix, args);
    lemma_auto_spec_u32_to_from_le_bytes();
    assert(payload_of(ix, args).subrange(0, header_of(ix).len() as int) =~= header_of(ix));
}

/// Every operation's payload is its discriminator header followed by exactly
/// the argument bytes it reads, unchanged.
pub proof fn lemma_payload_forwards_arguments(ix: TestInstruction, args: Seq<u8>)
    requires
        args.len() >= args_len(ix),
    ensures
        payload_of(ix, args) == header_of(ix) + args.subrange(0, args_len(ix) as int),
{
    lemma_auto_spec_u64_to_from_le_bytes();
    lemma_auto_spec_u32_to_from_le_bytes();
    let amount = args.subrange(0, 8);
    if args.len() >= 8 {
        assert(spec_u64_to_le_bytes(spec_u64_from_le_bytes(amount)) == amount);
    }
    if args_len(ix) == 9 {
        assert(args.subrange(0, 9) =~= amount + seq![args[8]]);
    }
    assert(payload_of(ix, args) =~= header_of(ix) + args.subrange(0, args_len(ix) as int));
}

} // verus!
