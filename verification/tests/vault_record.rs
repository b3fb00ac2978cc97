use tokentrade::Address;
use tokentrade::LibConstant;
use tokentrade::Vault;

fn addr(tag: u8) -> Address {
    Address { bytes: [tag; 32] }
}

fn derive_vault(program_id: &Address, mint: &Address) -> (Address, u8) {
    let pid = solana_program::pubkey::Pubkey::new_from_array(program_id.bytes);
    let mint_key = solana_program::pubkey::Pubkey::new_from_array(mint.bytes);
    let (address, bump) = solana_program::pubkey::Pubkey::find_program_address(
        &[b"vault", mint_key.as_ref()],
        &pid,
    );
    (Address { bytes: address.to_bytes() }, bump)
}

#[test]
fn vault_record_with_derived_address_checks() {
    let program_id = addr(11);
    let mint = addr(12);
    let (vault_address, _bump) = derive_vault(&program_id, &mint);
    let record = Vault { admin: addr(13), vault: vault_address, mint };
    assert!(record.check(&program_id));
}

#[test]
fn vault_record_with_foreign_address_fails_check() {
    let program_id = addr(11);
    let mint = addr(12);
    let record = Vault { admin: addr(13), vault: mint, mint };
    assert!(!record.check(&program_id));
    let record = Vault { admin: addr(13), vault: program_id, mint };
    assert!(!record.check(&program_id));
}

#[test]
fn derivation_is_deterministic_and_leaves_the_curve_inputs() {
    let program_id = addr(11);
    let mint = addr(12);
    let (first, first_bump) = derive_vault(&program_id, &mint);
    let (second, second_bump) = derive_vault(&program_id, &mint);
    assert_eq!(first.bytes, second.bytes);
    assert_eq!(first_bump, second_bump);
    assert_ne!(first.bytes, program_id.bytes);
    assert_ne!(first.bytes, mint.bytes);
}

#[test]
fn constants_hold_the_fixed_rate_and_record_size() {
    assert_eq!(LibConstant::TRANSFER_RATE, 10);
    assert_eq!(LibConstant::TOKEN_TRANSFER_ACCOUNT_LEN, 96);
}
