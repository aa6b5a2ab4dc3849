//! The extension decoder: finds the fixed-size record of one extension in
//! the type-length-value region that follows an account's base state, and
//! the CPI guard extension built on it.

use vstd::prelude::*;
use vstd::bytes::spec_u16_from_le_bytes;
use pinocchio::account_info::AccountInfo;
use pinocchio::instruction::Signer;
use pinocchio::program_error::ProgramError;
use crate::call::{signer_role, writable_role, AccountRole, CallDescriptor, CallView, Address, TokenError};
use crate::codec::{encode_tag_pair, read_u16_le, tag_pair_payload, CPI_GUARD_DISABLE, CPI_GUARD_ENABLE, CPI_GUARD_EXTENSION};

verus! {

/// Length of a mint's base state.
pub const MINT_LEN: usize = 82;
/// Length of a token account's base state.
pub const TOKEN_ACCOUNT_LEN: usize = 165;
/// Offset of the byte that says which base state an extensible account has;
/// a mint is padded up to the token account's length before it.
pub const ACCOUNT_TYPE_OFFSET: usize = TOKEN_ACCOUNT_LEN;
/// Offset of the first extension record.
pub const EXTENSIONS_START: usize = ACCOUNT_TYPE_OFFSET + 1;
/// Length of a record header: a 2-byte type tag, then a 2-byte length.
pub const RECORD_HEADER_LEN: usize = 4;
/// The account type byte of a mint.
pub const ACCOUNT_TYPE_MINT: u8 = 1;
/// The account type byte of a token account.
pub const ACCOUNT_TYPE_TOKEN_ACCOUNT: u8 = 2;
/// The type tag that marks the end of the records.
pub const EXTENSION_UNINITIALIZED: u16 = 0;
/// The type tag of the CPI guard record.
pub const EXTENSION_CPI_GUARD: u16 = 11;

/// The kind of base state an extension may be attached to.
#[derive(Clone, Copy, Debug, PartialEq, Eq, Structural)]
pub enum BaseState {
    Mint,
    TokenAccount,
}

pub open spec fn account_type_of(base: BaseState) -> u8 {
    match base {
        BaseState::Mint => ACCOUNT_TYPE_MINT,
        BaseState::TokenAccount => ACCOUNT_TYPE_TOKEN_ACCOUNT,
    }
}

/// The little-endian `u16` at `pos` of `data`.
pub open spec fn le16_at(data: Seq<u8>, pos: int) -> u16 {
    spec_u16_from_le_bytes(data.subrange(pos, pos + 2))
}

/// Scans the records from `pos` on for the one tagged `tag`: `Ok` gives the
/// offset of its payload.
pub open spec fn scan_records(data: Seq<u8>, pos: int, tag: u16, len: u16) -> Result<int, TokenError>
    decreases data.len() - pos,
{
    if pos < 0 || pos >= data.len() {
        Err(TokenError::ExtensionNotFound)
    } else if pos + RECORD_HEADER_LEN > data.len() {
        Err(TokenError::InvalidAccountData)
    } else {
        let t = le16_at(data, pos);
        let l = le16_at(data, pos + 2);
        if t == EXTENSION_UNINITIALIZED {
            Err(TokenError::ExtensionNotFound)
        } else if pos + RECORD_HEADER_LEN + l > data.len() {
            Err(TokenError::InvalidAccountData)
        } else if t == tag {
            if l == len {
                Ok(pos + RECORD_HEADER_LEN)
            } else {
                Err(TokenError::InvalidAccountData)
            }
        } else {
            scan_records(data, pos + RECORD_HEADER_LEN + l, tag, len)
        }
    }
}

/// Where the payload of the `tag` record of `len` bytes stands in the data
/// of an account attached to `base`, the account's owner being checked first.
pub open spec fn extension_offset(owner_ok: bool, data: Seq<u8>, base: BaseState, tag: u16, len: u16) -> Result<int, TokenError> {
    if !owner_ok {
        Err(TokenError::InvalidAccountOwner)
    } else if data.len() <= ACCOUNT_TYPE_OFFSET {
        Err(TokenError::ExtensionNotFound)
    } else if data[ACCOUNT_TYPE_OFFSET as int] != account_type_of(base) {
        Err(TokenError::InvalidAccountData)
    } else {
        scan_records(data, EXTENSIONS_START as int, tag, len)
    }
}

/// Finds the payload of the `tag` record, of exactly `len` bytes, in the
/// data of an account attached to `base`. `owner_ok` says whether the account
/// is owned by the extensible token program; if not, nothing is read.
pub fn locate_extension(owner_ok: bool, data: &[u8], base: BaseState, tag: u16, len: u16) -> (r: Result<usize, TokenError>)
    ensures
        match extension_offset(owner_ok, data@, base, tag, len) {
            Ok(p) => r == Ok::<usize, TokenError>(p as usize) && 0 <= p && p + len <= data@.len(),
            Err(e) => r == Err::<usize, TokenError>(e),
        },
{
    if !owner_ok {
        return Err(TokenError::InvalidAccountOwner);
    }
    let n = data.len();
    if n <= ACCOUNT_TYPE_OFFSET {
        return Err(TokenError::ExtensionNotFound);
    }
    let account_type = match base {
        BaseState::Mint => ACCOUNT_TYPE_MINT,
        BaseState::TokenAccount => ACCOUNT_TYPE_TOKEN_ACCOUNT,
    };
    if data[ACCOUNT_TYPE_OFFSET] != account_type {
        return Err(TokenError::InvalidAccountData);
    }
    let mut pos: usize = EXTENSIONS_START;
    loop
        invariant
            n == data@.len(),
            owner_ok,
            data@[ACCOUNT_TYPE_OFFSET as int] == account_type_of(base),
            EXTENSIONS_START <= pos <= n,
            scan_records(data@, pos as int, tag, len) == scan_records(data@, EXTENSIONS_START as int, tag, len),
        decreases n - pos,
    {
        if pos >= n {
            return Err(TokenError::ExtensionNotFound);
        }
        if n - pos < RECORD_HEADER_LEN {
            return Err(TokenError::InvalidAccountData);
        }
        let t = read_u16_le(data, pos);
        let l = read_u16_le(data, pos + 2);
        if t == EXTENSION_UNINITIALIZED {
            return Err(TokenError::ExtensionNotFound);
        }
        if n - pos - RECORD_HEADER_LEN < l as usize {
            return Err(TokenError::InvalidAccountData);
        }
        if t == tag {
            if l == len {
                return Ok(pos + RECORD_HEADER_LEN);
            }
            return Err(TokenError::InvalidAccountData);
        }
        pos = pos + RECORD_HEADER_LEN + l as usize;
    }
}

/// Records from `pos` on are well bounded up to the end marker or the end of
/// the data, and none is tagged `tag`.
pub open spec fn records_lack(data: Seq<u8>, pos: int, tag: u16) -> bool
    decreases data.len() - pos,
{
    if pos < 0 || pos >= data.len() {
        true
    } else if pos + RECORD_HEADER_LEN > data.len() {
        false
    } else {
        let t = le16_at(data, pos);
        let l = le16_at(data, pos + 2);
        if t == EXTENSION_UNINITIALIZED {
            true
        } else if pos + RECORD_HEADER_LEN + l > data.len() || t == tag {
            false
        } else {
            records_lack(data, pos + RECORD_HEADER_LEN + l, tag)
        }
    }
}

/// An account that is not owned by the extensible token program is
/// rejected with an ownership error, whatever its data holds.
pub proof fn lemma_wrong_owner_rejected(data: Seq<u8>, base: BaseState, tag: u16, len: u16)
    ensures
        extension_offset(false, data, base, tag, len) == Err::<int, TokenError>(TokenError::InvalidAccountOwner),
{
}

/// Data whose account type byte names another base state is rejected as
/// invalid account data.
pub proof fn lemma_wrong_base_state_rejected(data: Seq<u8>, base: BaseState, tag: u16, len: u16)
    requires
        data.len() > ACCOUNT_TYPE_OFFSET,
        data[ACCOUNT_TYPE_OFFSET as int] != account_type_of(base),
    ensures
        extension_offset(true, data, base, tag, len) == Err::<int, TokenError>(TokenError::InvalidAccountData),
{
}

/// The scan from `pos` steps over well-bounded records, none of them the end
/// marker or tagged `tag`, and arrives at the record at `at`.
pub open spec fn scan_reaches(data: Seq<u8>, pos: int, at: int, tag: u16) -> bool
    decreases data.len() - pos,
{
    if pos == at {
        true
    } else if pos < 0 || pos > at || pos + RECORD_HEADER_LEN > data.len() {
        false
    } else {
        let t = le16_at(data, pos);
        let l = le16_at(data, pos + 2);
        if t == EXTENSION_UNINITIALIZED || t == tag || pos + RECORD_HEADER_LEN + l > data.len() {
            false
        } else {
            scan_reaches(data, pos + RECORD_HEADER_LEN + l, at, tag)
        }
    }
}

proof fn lemma_scan_skips(data: Seq<u8>, pos: int, at: int, tag: u16, len: u16)
    requires
        scan_reaches(data, pos, at, tag),
    ensures
        scan_records(data, pos, tag, len) == scan_records(data, at, tag, len),
    decreases data.len() - pos,
{
    if pos != at {
        let l = le16_at(data, pos + 2);
        lemma_scan_skips(data, pos + RECORD_HEADER_LEN + l, at, tag, len);
    }
}

/// A record that the scan reaches, that carries the requested tag but
/// declares a length other than the extension's, is rejected as invalid
/// account data.
pub proof fn lemma_wrong_length_rejected(data: Seq<u8>, base: BaseState, at: int, tag: u16, len: u16)
    requires
        data.len() > ACCOUNT_TYPE_OFFSET,
        data[ACCOUNT_TYPE_OFFSET as int] == account_type_of(base),
        scan_reaches(data, EXTENSIONS_START as int, at, tag),
        at + RECORD_HEADER_LEN <= data.len(),
        tag != EXTENSION_UNINITIALIZED,
        le16_at(data, at) == tag,
        le16_at(data, at + 2) != len,
    ensures
        extension_offset(true, data, base, tag, len) == Err::<int, TokenError>(TokenError::InvalidAccountData),
{
    lemma_scan_skips(data, EXTENSIONS_START as int, at, tag, len);
}

proof fn lemma_scan_without_tag(data: Seq<u8>, pos: int, tag: u16, len: u16)
    requires
        records_lack(data, pos, tag),
    ensures
        scan_records(data, pos, tag, len) == Err::<int, TokenError>(TokenError::ExtensionNotFound),
    decreases data.len() - pos,
{
    if pos >= 0 && pos + RECORD_HEADER_LEN <= data.len() {
        let t = le16_at(data, pos);
        let l = le16_at(data, pos + 2);
        if t != EXTENSION_UNINITIALIZED {
            lemma_scan_without_tag(data, pos + RECORD_HEADER_LEN + l, tag, len);
        }
    }
}

/// Data whose records are well formed and carry no record with the
/// requested tag gives "extension not found".
pub proof fn lemma_absent_extension_not_found(data: Seq<u8>, base: BaseState, tag: u16, len: u16)
    requires
        data.len() > ACCOUNT_TYPE_OFFSET,
        data[ACCOUNT_TYPE_OFFSET as int] == account_type_of(base),
        records_lack(data, EXTENSIONS_START as int, tag),
    ensures
        extension_offset(true, data, base, tag, len) == Err::<int, TokenError>(TokenError::ExtensionNotFound),
{
    lemma_scan_without_tag(data, EXTENSIONS_START as int, tag, len);
}

proof fn lemma_scan_found(data: Seq<u8>, pos: int, tag: u16, len: u16)
    ensures
        scan_records(data, pos, tag, len) matches Ok(p) ==> {
            &&& pos + RECORD_HEADER_LEN <= p
            &&& le16_at(data, p - RECORD_HEADER_LEN) == tag
            &&& le16_at(data, p - 2) == len
            &&& p + len <= data.len()
        },
    decreases data.len() - pos,
{
    if pos >= 0 && pos + RECORD_HEADER_LEN <= data.len() {
        let t = le16_at(data, pos);
        let l = le16_at(data, pos + 2);
        if t != EXTENSION_UNINITIALIZED && pos + RECORD_HEADER_LEN + l <= data.len() && t != tag {
            lemma_scan_found(data, pos + RECORD_HEADER_LEN + l, tag, len);
        }
    }
}

/// A payload that is found belongs to the owner-checked account's base
/// state, sits right after a header with the requested tag and length, and
/// lies wholly inside the data.
pub proof fn lemma_found_extension_matches(owner_ok: bool, data: Seq<u8>, base: BaseState, tag: u16, len: u16)
    ensures
        extension_offset(owner_ok, data, base, tag, len) matches Ok(p) ==> {
            &&& owner_ok
            &&& data[ACCOUNT_TYPE_OFFSET as int] == account_type_of(base)
            &&& EXTENSIONS_START + RECORD_HEADER_LEN <= p
            &&& le16_at(data, p - RECORD_HEADER_LEN) == tag
            &&& le16_at(data, p - 2) == len
            &&& p + len <= data.len()
        },
{
    lemma_scan_found(data, EXTENSIONS_START as int, tag, len);
}

/// State of the CPI guard extension of a token account.
#[derive(Clone, Copy, Debug, PartialEq, Eq, Structural)]
pub struct CpiGuard {
    /// Lock privileged token operations from happening via CPI.
    pub lock_cpi: bool,
}

/// Length of the CPI guard record's payload.
pub const CPI_GUARD_LEN: u16 = 1;

/// What decoding the CPI guard of an account gives.
pub open spec fn cpi_guard_of(owner_ok: bool, data: Seq<u8>) -> Result<CpiGuard, TokenError> {
    match extension_offset(owner_ok, data, CpiGuard::BASE_STATE, EXTENSION_CPI_GUARD, CPI_GUARD_LEN) {
        Ok(p) => Ok(CpiGuard { lock_cpi: data[p] != 0 }),
        Err(e) => Err(e),
    }
}

/// Relies on pinocchio's AccountInfo::is_owned_by: compares the account's
/// owner with `program`; nothing is promised of the answer.
pub assume_specification[ AccountInfo::is_owned_by ](account: &AccountInfo, program: &pinocchio::pubkey::Pubkey) -> bool;

/// Relies on pinocchio's AccountInfo::try_borrow_data: a shared borrow of
/// the account's data, copied out, or the error of a conflicting borrow.
#[verifier::external_body]
fn account_data(account: &AccountInfo) -> (r: Result<Vec<u8>, ProgramError>) {
    match account.try_borrow_data() {
        Ok(data) => Ok(data.to_vec()),
        Err(e) => Err(e),
    }
}

impl CpiGuard {
    /// The attachment rule of the CPI guard: it extends token accounts.
    pub const BASE_STATE: BaseState = BaseState::TokenAccount;

    /// Decodes the CPI guard from an account's data; `owner_ok` says whether
    /// the account is owned by the extensible token program.
    pub fn from_bytes(owner_ok: bool, data: &[u8]) -> (r: Result<CpiGuard, TokenError>)
        ensures
            r == cpi_guard_of(owner_ok, data@),
    {
        match locate_extension(owner_ok, data, CpiGuard::BASE_STATE, EXTENSION_CPI_GUARD, CPI_GUARD_LEN) {
            Ok(p) => Ok(CpiGuard { lock_cpi: data[p] != 0 }),
            Err(e) => Err(e),
        }
    }

    /// Reads the CPI guard of an account. Ownership by `token_2022` is checked
    /// before the data is borrowed.
    pub fn from_account_info(account_info: &AccountInfo, token_2022: &Address) -> (r: Result<CpiGuard, TokenError>)
        ensures
            r matches Err(TokenError::External(_)) || exists|owner_ok: bool, d: Seq<u8>| r == cpi_guard_of(owner_ok, d),
    {
        if !account_info.is_owned_by(token_2022) {
            let nothing: [u8; 0] = [];
            let r = CpiGuard::from_bytes(false, nothing.as_slice());
            assert(r == cpi_guard_of(false, nothing@));
            return r;
        }
        match account_data(account_info) {
            Ok(data) => {
                let r = CpiGuard::from_bytes(true, data.as_slice());
                assert(r == cpi_guard_of(true, data@));
                r
            },
            Err(e) => Err(TokenError::External(e)),
        }
    }
}

/// Turns on the CPI guard of a token account.
///
/// Accounts, in order:
///   0. `account` (writable)
///   1. `account_owner` (signer)
pub struct EnableCpiGuard<'a> {
    /// Account to enable the CPI guard on.
    pub account: &'a AccountInfo,
    /// The account's owner.
    pub account_owner: &'a AccountInfo,
}

impl<'a> EnableCpiGuard<'a> {
    /// The call this operation sends to `program`.
    pub fn descriptor(&self, program: &Address) -> (r: CallDescriptor<'a>)
        ensures
            r@ == (CallView {
                program_id: program@,
                accounts: seq![self.account, self.account_owner],
                roles: seq![writable_role(), signer_role()],
                data: tag_pair_payload(CPI_GUARD_EXTENSION, CPI_GUARD_ENABLE),
            }),
            r.well_formed(),
    {
        CallDescriptor::new(
            program,
            vec![self.account, self.account_owner],
            vec![AccountRole::writable(), AccountRole::readonly_signer()],
            encode_tag_pair(CPI_GUARD_EXTENSION, CPI_GUARD_ENABLE),
        )
    }

    pub fn invoke(&self, program: &Address) -> Result<(), ProgramError> {
        self.invoke_signed(program, &[])
    }

    pub fn invoke_signed(&self, program: &Address, signers: &[Signer]) -> Result<(), ProgramError> {
        self.descriptor(program).execute(signers)
    }
}

/// Turns off the CPI guard of a token account.
///
/// Accounts, in order:
///   0. `account` (writable)
///   1. `account_owner` (signer)
pub struct DisableCpiGuard<'a> {
    /// Account to disable the CPI guard on.
    pub account: &'a AccountInfo,
    /// The account's owner.
    pub account_owner: &'a AccountInfo,
}

impl<'a> DisableCpiGuard<'a> {
    /// The call this operation sends to `program`.
    pub fn descriptor(&self, program: &Address) -> (r: CallDescriptor<'a>)
        ensures
            r@ == (CallView {
                program_id: program@,
                accounts: seq![self.account, self.account_owner],
                roles: seq![writable_role(), signer_role()],
                data: tag_pair_payload(CPI_GUARD_EXTENSION, CPI_GUARD_DISABLE),
            }),
            r.well_formed(),
    {
        CallDescriptor::new(
            program,
            vec![self.account, self.account_owner],
            vec![AccountRole::writable(), AccountRole::readonly_signer()],
            encode_tag_pair(CPI_GUARD_EXTENSION, CPI_GUARD_DISABLE),
        )
    }

    pub fn invoke(&self, program: &Address) -> Result<(), ProgramError> {
        self.invoke_signed(program, &[])
    }

    pub fn invoke_signed(&self, program: &Address, signers: &[Signer]) -> Result<(), ProgramError> {
        self.descriptor(program).execute(signers)
    }
}

} // verus!
