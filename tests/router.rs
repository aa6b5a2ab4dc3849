use token_cpi::call::TokenError;
use token_cpi::router::{build_call, prepare_instruction, process_instruction, TestInstruction};

const PROGRAM: [u8; 32] = [6u8; 32];

const KNOWN: [(u8, TestInstruction); 16] = [
    (1, TestInstruction::InitializeAccount),
    (3, TestInstruction::Transfer),
    (4, TestInstruction::Approve),
    (5, TestInstruction::Revoke),
    (7, TestInstruction::MintTo),
    (8, TestInstruction::Burn),
    (9, TestInstruction::CloseAccount),
    (10, TestInstruction::FreezeAccount),
    (11, TestInstruction::ThawAccount),
    (12, TestInstruction::TransferChecked),
    (13, TestInstruction::ApproveChecked),
    (14, TestInstruction::MintToChecked),
    (15, TestInstruction::BurnChecked),
    (16, TestInstruction::InitializeAccount2),
    (17, TestInstruction::SyncNative),
    (18, TestInstruction::InitializeAccount3),
];

#[test]
fn unrecognized_discriminator_ff() {
    let r = process_instruction(&PROGRAM, &[], &[0xFF]);
    assert!(matches!(r, Err(TokenError::InvalidInstructionData)));
    let r = process_instruction(&PROGRAM, &[], &[0xFF, 1, 2, 3, 4, 5, 6, 7, 8, 9]);
    assert!(matches!(r, Err(TokenError::InvalidInstructionData)));
}

#[test]
fn every_unknown_byte_is_rejected() {
    for b in 0..=255u8 {
        let known = KNOWN.iter().any(|(d, _)| *d == b);
        let r = TestInstruction::try_from(&b);
        assert_eq!(r.is_ok(), known, "byte {}", b);
        if !known {
            assert!(matches!(prepare_instruction(&PROGRAM, &[], &[b, 0, 0]), Err(TokenError::InvalidInstructionData)));
        }
    }
}

#[test]
fn discriminator_table() {
    for (b, ix) in KNOWN {
        assert_eq!(TestInstruction::try_from(&b).unwrap(), ix);
    }
}

#[test]
fn empty_payload_is_rejected() {
    assert!(matches!(process_instruction(&PROGRAM, &[], &[]), Err(TokenError::InvalidInstructionData)));
}

#[test]
fn too_few_accounts_fail_before_building() {
    for (b, ix) in KNOWN {
        let args = [0u8; 40];
        assert!(matches!(build_call(ix, &[], &args, &PROGRAM), Err(TokenError::NotEnoughAccountKeys)));
        let mut data = vec![b];
        data.extend_from_slice(&args);
        assert!(matches!(process_instruction(&PROGRAM, &[], &data), Err(TokenError::NotEnoughAccountKeys)));
    }
}

#[test]
fn account_counts_and_argument_lengths() {
    let expected: [(TestInstruction, usize, usize); 5] = [
        (TestInstruction::Transfer, 4, 8),
        (TestInstruction::TransferChecked, 5, 9),
        (TestInstruction::SyncNative, 2, 0),
        (TestInstruction::InitializeAccount, 5, 0),
        (TestInstruction::InitializeAccount2, 4, 32),
    ];
    for (ix, accounts, args) in expected {
        assert_eq!(ix.account_count(), accounts);
        assert_eq!(ix.args_len(), args);
    }
}
