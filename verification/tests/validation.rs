use anchor_lang::prelude::Pubkey;
use solana_escrow_engine::address::Address;
use solana_escrow_engine::context::Context;
use solana_escrow_engine::errors::{EscrowError, InstructionError};
use solana_escrow_engine::initialize_escrow;
use solana_escrow_engine::instructions::deposit::Deposit;
use solana_escrow_engine::instructions::initialize::{handler, InitializeEscrow, InitializeEscrowBumps};
use solana_escrow_engine::pda::{check_address, derive_address, escrow_seeds, find_address, vault_seeds};
use solana_escrow_engine::state::{escrow_seed, vault_seed, EscrowAccount, EscrowState, VaultAccount, MAX_DESCRIPTION};

fn key(n: u8) -> Address {
    Address::new_from_array([n; 32])
}

fn accounts(buyer: Address) -> InitializeEscrow {
    InitializeEscrow { buyer, escrow_key: key(9), vault_key: key(10) }
}

fn bumps() -> InitializeEscrowBumps {
    InitializeEscrowBumps { escrow: 254, vault: 253 }
}

fn init(seller: Address, arbiter: Address, amount: u64, description: &str) -> Result<EscrowAccount, EscrowError> {
    handler(&accounts(key(1)), bumps(), 7, seller, arbiter, amount, description.to_string(), 12)
        .map(|(escrow, _)| escrow)
}

#[test]
fn accepts_a_valid_agreement() {
    let escrow = init(key(2), key(3), 1, "x").unwrap();
    assert_eq!(escrow.escrow_bump, 254);
    assert_eq!(escrow.vault_bump, 253);
    assert_eq!(escrow.created_at, 12);
    assert_eq!(escrow.escrow_id, 7);
}

#[test]
fn rejects_a_long_description() {
    let long = "a".repeat(MAX_DESCRIPTION + 1);
    assert_eq!(init(key(2), key(3), 1, &long).err(), Some(EscrowError::DescriptionTooLong));
    let fits = "a".repeat(MAX_DESCRIPTION);
    assert!(init(key(2), key(3), 1, &fits).is_ok());
}

#[test]
fn counts_the_description_in_bytes() {
    // 100 two-byte characters fit; 101 do not.
    let fits = "é".repeat(100);
    assert!(init(key(2), key(3), 1, &fits).is_ok());
    let long = "é".repeat(101);
    assert_eq!(init(key(2), key(3), 1, &long).err(), Some(EscrowError::DescriptionTooLong));
}

#[test]
fn rejects_a_zero_amount() {
    assert_eq!(init(key(2), key(3), 0, "x").err(), Some(EscrowError::InvalidAmount));
}

#[test]
fn rejects_buyer_as_seller() {
    assert_eq!(init(key(1), key(3), 5, "x").err(), Some(EscrowError::BuyerCannotBeSeller));
}

#[test]
fn rejects_buyer_or_seller_as_arbiter() {
    assert_eq!(init(key(2), key(1), 5, "x").err(), Some(EscrowError::InvalidArbiter));
    assert_eq!(init(key(2), key(2), 5, "x").err(), Some(EscrowError::InvalidArbiter));
}

#[test]
fn checks_in_order() {
    let long = "a".repeat(MAX_DESCRIPTION + 1);
    assert_eq!(init(key(1), key(1), 0, &long).err(), Some(EscrowError::DescriptionTooLong));
    assert_eq!(init(key(1), key(1), 0, "x").err(), Some(EscrowError::InvalidAmount));
    assert_eq!(init(key(1), key(1), 1, "x").err(), Some(EscrowError::BuyerCannotBeSeller));
}

#[test]
fn error_codes_names_and_messages() {
    let all = [
        EscrowError::DescriptionTooLong,
        EscrowError::InvalidAmount,
        EscrowError::BuyerCannotBeSeller,
        EscrowError::InvalidArbiter,
        EscrowError::Unauthorized,
        EscrowError::InvalidState,
        EscrowError::InvalidSeller,
        EscrowError::InvalidBuyer,
        EscrowError::EscrowNotSettled,
    ];
    for (i, e) in all.iter().enumerate() {
        assert_eq!(e.code(), 6000 + i as u32);
        assert_eq!(u32::from(*e), 6000 + i as u32);
    }
    assert_eq!(EscrowError::Unauthorized.name(), "Unauthorized");
    assert_eq!(EscrowError::EscrowNotSettled.name(), "EscrowNotSettled");
    assert_eq!(EscrowError::DescriptionTooLong.message(), "Description exceeds 200 character limit");
    assert_eq!(EscrowError::InvalidState.message(), "Escrow is not in the required state for this operation");
    assert_eq!(EscrowError::InvalidBuyer.message(), "Provided buyer account does not match escrow record");
}

#[test]
fn account_sizes() {
    assert_eq!(EscrowAccount::SIZE, 335);
    assert_eq!(VaultAccount::SIZE, 8);
}

#[test]
fn seeds_layout() {
    assert_eq!(escrow_seed(), b"escrow".to_vec());
    assert_eq!(vault_seed(), b"vault".to_vec());
    let seeds = escrow_seeds(&key(5), 0x0102030405060708);
    assert_eq!(seeds, vec![b"escrow".to_vec(), vec![5u8; 32], vec![8, 7, 6, 5, 4, 3, 2, 1]]);
    let vseeds = vault_seeds(&key(5), 1);
    assert_eq!(vseeds, vec![b"vault".to_vec(), vec![5u8; 32], vec![1, 0, 0, 0, 0, 0, 0, 0]]);
}

#[test]
fn derived_addresses_match_the_runtime() {
    let program = key(77);
    let seeds = escrow_seeds(&key(5), 3);
    let (found, bump) = find_address(&seeds, &program).unwrap();
    let (expected, expected_bump) = Pubkey::find_program_address(
        &[b"escrow", &[5u8; 32], &3u64.to_le_bytes()],
        &Pubkey::new_from_array([77u8; 32]),
    );
    assert_eq!(found.to_bytes(), expected.to_bytes());
    assert_eq!(bump, expected_bump);
    assert_ne!(found, program);
    assert_eq!(derive_address(&seeds, bump, &program), Some(found));
    assert_eq!(check_address(&found, &seeds, bump, &program), Ok(()));
    assert_eq!(check_address(&program, &seeds, bump, &program), Err(InstructionError::ConstraintSeeds));
}

#[test]
fn too_long_seed_derives_nothing() {
    let seeds = vec![vec![0u8; 33]];
    assert_eq!(derive_address(&seeds, 255, &key(1)), None);
    assert_eq!(find_address(&seeds, &key(1)), None);
}

#[test]
fn escrow_and_vault_live_apart() {
    let program = key(77);
    let e = find_address(&escrow_seeds(&key(5), 3), &program).unwrap().0;
    let v = find_address(&vault_seeds(&key(5), 3), &program).unwrap().0;
    let other = find_address(&escrow_seeds(&key(5), 4), &program).unwrap().0;
    assert_ne!(e, v);
    assert_ne!(e, other);
}

#[test]
fn initialize_rejects_a_wrong_escrow_address() {
    let ctx = Context { program_id: key(77), accounts: accounts(key(1)) };
    let r = initialize_escrow(&ctx, 7, key(2), key(3), 1, "x".to_string(), 0);
    assert_eq!(r.err(), Some(InstructionError::ConstraintSeeds));
}

#[test]
fn deposit_rejects_a_wrong_vault() {
    let program = key(77);
    let buyer = key(1);
    let escrow_key = find_address(&escrow_seeds(&buyer, 7), &program).unwrap().0;
    let vault_key = find_address(&vault_seeds(&buyer, 7), &program).unwrap().0;
    let ctx = Context { program_id: program, accounts: InitializeEscrow { buyer, escrow_key, vault_key } };
    let (escrow, _) = initialize_escrow(&ctx, 7, key(2), key(3), 1, "x".to_string(), 0).unwrap();
    let mut d = Context {
        program_id: program,
        accounts: Deposit { buyer, escrow_key, escrow, vault_key: escrow_key },
    };
    assert_eq!(solana_escrow_engine::deposit(&mut d, 7), Err(InstructionError::ConstraintSeeds));
    assert_eq!(d.accounts.escrow.state, EscrowState::Active);
    let mut wrong_id = Context {
        program_id: program,
        accounts: Deposit { buyer, escrow_key, escrow: d.accounts.escrow, vault_key },
    };
    assert_eq!(solana_escrow_engine::deposit(&mut wrong_id, 8), Err(InstructionError::ConstraintSeeds));
}
