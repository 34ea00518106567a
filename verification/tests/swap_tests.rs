use dex_swap::Mode;
use dex_swap::RaydiumCPMM;
use dex_swap::RaydiumCPMMSwapAccounts;
use dex_swap::raydium_cpmm::RAYDIUM_CPMM_PROGRAM_ID;
use dex_swap::raydium_cpmm::SWAP_BASE_INPUT_DISCRIMINATOR;
use dex_swap::raydium_cpmm::SWAP_BASE_OUTPUT_DISCRIMINATOR;
use dex_swap::swap::pubkey_eq;
use dex_swap::swap_signed;
use dex_swap::try_from_swap_context;

use pinocchio::account_info::AccountInfo;
use pinocchio::program_error::ProgramError;

#[test]
fn instruction_data_exact_in_layout() {
    let data = RaydiumCPMM::instruction_data(Mode::ExactIn, 1, 2);
    let mut expected = vec![2u8, 218, 138, 235, 79, 201, 25, 102];
    expected.extend_from_slice(&[1, 0, 0, 0, 0, 0, 0, 0]);
    expected.extend_from_slice(&[2, 0, 0, 0, 0, 0, 0, 0]);
    assert_eq!(data, expected);
}

#[test]
fn instruction_data_exact_out_layout() {
    let data = RaydiumCPMM::instruction_data(Mode::ExactOut, 3, 4);
    let mut expected = vec![55u8, 217, 98, 86, 163, 74, 180, 173];
    expected.extend_from_slice(&[3, 0, 0, 0, 0, 0, 0, 0]);
    expected.extend_from_slice(&[4, 0, 0, 0, 0, 0, 0, 0]);
    assert_eq!(data, expected);
}

#[test]
fn instruction_data_amounts_are_little_endian() {
    let data = RaydiumCPMM::instruction_data(Mode::ExactIn, u64::MAX, 0x0102030405060708);
    assert_eq!(data.len(), 24);
    assert_eq!(&data[8..16], &[255u8; 8]);
    assert_eq!(&data[16..24], &[8, 7, 6, 5, 4, 3, 2, 1]);
}

#[test]
fn instruction_data_zero_amounts() {
    let data = RaydiumCPMM::instruction_data(Mode::ExactOut, 0, 0);
    assert_eq!(&data[0..8], &SWAP_BASE_OUTPUT_DISCRIMINATOR);
    assert_eq!(&data[8..24], &[0u8; 16]);
}

#[test]
fn empty_account_list_is_refused() {
    let accounts: &[AccountInfo] = &[];
    let result = try_from_swap_context(accounts);
    assert!(matches!(result, Err(ProgramError::NotEnoughAccountKeys)));
}

#[test]
fn swap_on_empty_account_list_errors() {
    let accounts: &[AccountInfo] = &[];
    assert_eq!(
        swap_signed(accounts, 5, 6, Mode::ExactIn, &[]),
        Err(ProgramError::NotEnoughAccountKeys)
    );
    assert_eq!(
        dex_swap::swap(accounts, 5, 6, Mode::ExactOut),
        Err(ProgramError::NotEnoughAccountKeys)
    );
}

#[test]
fn raydium_accounts_need_fourteen_entries() {
    let accounts: &[AccountInfo] = &[];
    let result = RaydiumCPMMSwapAccounts::try_from(accounts);
    assert!(matches!(result, Err(ProgramError::NotEnoughAccountKeys)));
}

#[test]
fn default_mode_is_exact_in() {
    assert_eq!(Mode::default(), Mode::ExactIn);
}

#[test]
fn pubkey_eq_matches_byte_equality() {
    let a = [7u8; 32];
    let mut b = [7u8; 32];
    assert!(pubkey_eq(&a, &b));
    b[31] = 8;
    assert!(!pubkey_eq(&a, &b));
    assert!(pubkey_eq(&RAYDIUM_CPMM_PROGRAM_ID, &RAYDIUM_CPMM_PROGRAM_ID));
}

#[test]
fn swap_instruction_carries_program_id_metas_and_payload() {
    let key = [9u8; 32];
    let metas = [pinocchio::instruction::AccountMeta::readonly(&key)];
    let data = RaydiumCPMM::instruction_data(Mode::ExactIn, 1, 2);
    let ix = RaydiumCPMM::swap_instruction(&metas, &data);
    assert_eq!(ix.program_id, &RAYDIUM_CPMM_PROGRAM_ID);
    assert_eq!(ix.data, &data[..]);
    assert_eq!(ix.accounts.len(), 1);
    assert_eq!(ix.accounts[0].pubkey, &key);
    assert!(!ix.accounts[0].is_writable);
    assert!(!ix.accounts[0].is_signer);
}

#[test]
fn discriminators_are_distinct() {
    assert_ne!(SWAP_BASE_INPUT_DISCRIMINATOR, SWAP_BASE_OUTPUT_DISCRIMINATOR);
    assert_eq!(SWAP_BASE_INPUT_DISCRIMINATOR[0], 2);
    assert_eq!(SWAP_BASE_OUTPUT_DISCRIMINATOR[0], 55);
}

#[test]
fn program_id_is_the_raydium_cpmm_key() {
    assert_eq!(RAYDIUM_CPMM_PROGRAM_ID.len(), 32);
    assert_eq!(RAYDIUM_CPMM_PROGRAM_ID[0], 169);
    assert_eq!(RAYDIUM_CPMM_PROGRAM_ID[31], 115);
}
