use token_cpi::call::TokenError;
use token_cpi::extensions::{
    locate_extension, BaseState, CpiGuard, ACCOUNT_TYPE_MINT, ACCOUNT_TYPE_OFFSET,
    ACCOUNT_TYPE_TOKEN_ACCOUNT, EXTENSIONS_START, EXTENSION_CPI_GUARD,
};

fn account_with(records: &[u8]) -> Vec<u8> {
    let mut data = vec![0u8; EXTENSIONS_START];
    data[ACCOUNT_TYPE_OFFSET] = ACCOUNT_TYPE_TOKEN_ACCOUNT;
    data.extend_from_slice(records);
    data
}

#[test]
fn wrong_owner_is_rejected_whatever_the_data() {
    let good = account_with(&[11, 0, 1, 0, 1]);
    assert!(matches!(CpiGuard::from_bytes(false, &good), Err(TokenError::InvalidAccountOwner)));
    assert!(matches!(CpiGuard::from_bytes(false, &[]), Err(TokenError::InvalidAccountOwner)));
}

#[test]
fn cpi_guard_found() {
    let on = account_with(&[11, 0, 1, 0, 1]);
    assert_eq!(CpiGuard::from_bytes(true, &on).unwrap(), CpiGuard { lock_cpi: true });
    let off = account_with(&[11, 0, 1, 0, 0]);
    assert_eq!(CpiGuard::from_bytes(true, &off).unwrap(), CpiGuard { lock_cpi: false });
}

#[test]
fn cpi_guard_found_after_other_records() {
    let data = account_with(&[7, 0, 0, 0, 3, 0, 2, 0, 0xAA, 0xBB, 11, 0, 1, 0, 1]);
    assert_eq!(CpiGuard::from_bytes(true, &data).unwrap(), CpiGuard { lock_cpi: true });
    assert_eq!(
        locate_extension(true, &data, BaseState::TokenAccount, EXTENSION_CPI_GUARD, 1).unwrap(),
        EXTENSIONS_START + 14
    );
}

#[test]
fn wrong_declared_length_is_corrupt() {
    let data = account_with(&[11, 0, 2, 0, 1, 1]);
    assert!(matches!(CpiGuard::from_bytes(true, &data), Err(TokenError::InvalidAccountData)));
}

#[test]
fn no_matching_tag_is_not_found() {
    let data = account_with(&[7, 0, 0, 0, 3, 0, 2, 0, 0xAA, 0xBB]);
    assert!(matches!(CpiGuard::from_bytes(true, &data), Err(TokenError::ExtensionNotFound)));
    let empty = account_with(&[]);
    assert!(matches!(CpiGuard::from_bytes(true, &empty), Err(TokenError::ExtensionNotFound)));
    let ended = account_with(&[0, 0, 0, 0, 11, 0, 1, 0, 1]);
    assert!(matches!(CpiGuard::from_bytes(true, &ended), Err(TokenError::ExtensionNotFound)));
}

#[test]
fn base_state_without_extensions_is_not_found() {
    let data = vec![0u8; 165];
    assert!(matches!(CpiGuard::from_bytes(true, &data), Err(TokenError::ExtensionNotFound)));
}

#[test]
fn wrong_base_state_is_rejected() {
    let mut data = account_with(&[11, 0, 1, 0, 1]);
    data[ACCOUNT_TYPE_OFFSET] = ACCOUNT_TYPE_MINT;
    assert!(matches!(CpiGuard::from_bytes(true, &data), Err(TokenError::InvalidAccountData)));
    assert_eq!(
        locate_extension(true, &data, BaseState::Mint, EXTENSION_CPI_GUARD, 1).unwrap(),
        EXTENSIONS_START + 4
    );
}

#[test]
fn truncated_records_are_corrupt() {
    let header = account_with(&[11, 0, 1]);
    assert!(matches!(CpiGuard::from_bytes(true, &header), Err(TokenError::InvalidAccountData)));
    let payload = account_with(&[7, 0, 9, 0, 1, 2]);
    assert!(matches!(CpiGuard::from_bytes(true, &payload), Err(TokenError::InvalidAccountData)));
}

#[test]
fn wrong_declared_length_after_other_records_is_corrupt() {
    let data = account_with(&[7, 0, 0, 0, 3, 0, 2, 0, 0xAA, 0xBB, 11, 0, 2, 0, 1, 1]);
    assert!(matches!(CpiGuard::from_bytes(true, &data), Err(TokenError::InvalidAccountData)));
}
