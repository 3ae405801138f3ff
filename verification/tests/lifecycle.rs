use anchor_lang::prelude::Pubkey;
use solana_escrow_engine::address::Address;
use solana_escrow_engine::context::Context;
use solana_escrow_engine::errors::{EscrowError, InstructionError};
use solana_escrow_engine::instructions::close::CloseEscrow;
use solana_escrow_engine::instructions::deposit::Deposit;
use solana_escrow_engine::instructions::dispute::Dispute;
use solana_escrow_engine::instructions::initialize::InitializeEscrow;
use solana_escrow_engine::instructions::refund::Refund;
use solana_escrow_engine::instructions::release::Release;
use solana_escrow_engine::pda::{escrow_seeds, find_address, vault_seeds};
use solana_escrow_engine::state::{EscrowAccount, EscrowState};
use solana_escrow_engine::{close_escrow, deposit, dispute, initialize_escrow, refund, release};

const ESCROW_ID: u64 = 42;
const AMOUNT: u64 = 500_000_000;

fn key(n: u8) -> Address {
    Address::new_from_array([n; 32])
}

fn program() -> Address {
    key(200)
}

fn buyer() -> Address {
    key(1)
}

fn seller() -> Address {
    key(2)
}

fn arbiter() -> Address {
    key(3)
}

fn outsider() -> Address {
    key(4)
}

fn escrow_key() -> Address {
    find_address(&escrow_seeds(&buyer(), ESCROW_ID), &program()).unwrap().0
}

fn vault_key() -> Address {
    find_address(&vault_seeds(&buyer(), ESCROW_ID), &program()).unwrap().0
}

fn create() -> EscrowAccount {
    let ctx = Context {
        program_id: program(),
        accounts: InitializeEscrow { buyer: buyer(), escrow_key: escrow_key(), vault_key: vault_key() },
    };
    let (escrow, _) = initialize_escrow(
        &ctx,
        ESCROW_ID,
        seller(),
        arbiter(),
        AMOUNT,
        "Payment for logo design".to_string(),
        1_700_000_000,
    )
    .unwrap();
    escrow
}

fn funded() -> EscrowAccount {
    let mut ctx = Context {
        program_id: program(),
        accounts: Deposit { buyer: buyer(), escrow_key: escrow_key(), escrow: create(), vault_key: vault_key() },
    };
    assert_eq!(deposit(&mut ctx, ESCROW_ID), Ok(AMOUNT));
    ctx.accounts.escrow
}

fn disputed() -> EscrowAccount {
    let mut ctx = Context {
        program_id: program(),
        accounts: Dispute { caller: buyer(), escrow_key: escrow_key(), escrow: funded() },
    };
    dispute(&mut ctx, ESCROW_ID).unwrap();
    ctx.accounts.escrow
}

fn release_ctx(caller: Address, escrow: EscrowAccount) -> Context<Release> {
    Context {
        program_id: program(),
        accounts: Release {
            caller,
            escrow_key: escrow_key(),
            escrow,
            vault_key: vault_key(),
            vault_lamports: AMOUNT + 1_000_000,
            seller: seller(),
            seller_lamports: 10,
        },
    }
}

fn refund_ctx(caller: Address, escrow: EscrowAccount) -> Context<Refund> {
    Context {
        program_id: program(),
        accounts: Refund {
            caller,
            escrow_key: escrow_key(),
            escrow,
            vault_key: vault_key(),
            vault_lamports: AMOUNT + 1_000_000,
            buyer: buyer(),
            buyer_lamports: 7,
        },
    }
}

#[test]
fn initializes_an_escrow() {
    let ctx = Context {
        program_id: program(),
        accounts: InitializeEscrow { buyer: buyer(), escrow_key: escrow_key(), vault_key: vault_key() },
    };
    let (escrow, event) = initialize_escrow(
        &ctx,
        ESCROW_ID,
        seller(),
        arbiter(),
        AMOUNT,
        "Payment for logo design".to_string(),
        1_700_000_000,
    )
    .unwrap();
    assert_eq!(escrow.escrow_id, ESCROW_ID);
    assert_eq!(escrow.buyer, buyer());
    assert_eq!(escrow.seller, seller());
    assert_eq!(escrow.arbiter, arbiter());
    assert_eq!(escrow.amount, AMOUNT);
    assert_eq!(escrow.description, "Payment for logo design");
    assert_eq!(escrow.state, EscrowState::Active);
    assert_eq!(escrow.created_at, 1_700_000_000);
    let (_, escrow_bump) = Pubkey::find_program_address(
        &[b"escrow", &[1u8; 32], &ESCROW_ID.to_le_bytes()],
        &Pubkey::new_from_array([200u8; 32]),
    );
    let (_, vault_bump) = Pubkey::find_program_address(
        &[b"vault", &[1u8; 32], &ESCROW_ID.to_le_bytes()],
        &Pubkey::new_from_array([200u8; 32]),
    );
    assert_eq!(escrow.escrow_bump, escrow_bump);
    assert_eq!(escrow.vault_bump, vault_bump);
    assert_eq!(event.escrow_id, ESCROW_ID);
    assert_eq!(event.buyer, buyer());
    assert_eq!(event.seller, seller());
    assert_eq!(event.arbiter, arbiter());
    assert_eq!(event.amount, AMOUNT);
}

#[test]
fn deposits_into_the_vault() {
    let mut ctx = Context {
        program_id: program(),
        accounts: Deposit { buyer: buyer(), escrow_key: escrow_key(), escrow: create(), vault_key: vault_key() },
    };
    assert_eq!(deposit(&mut ctx, ESCROW_ID), Ok(AMOUNT));
    assert_eq!(ctx.accounts.escrow.state, EscrowState::Funded);
}

#[test]
fn rejects_dispute_from_an_outsider() {
    let mut ctx = Context {
        program_id: program(),
        accounts: Dispute { caller: outsider(), escrow_key: escrow_key(), escrow: funded() },
    };
    assert_eq!(dispute(&mut ctx, ESCROW_ID), Err(InstructionError::Escrow(EscrowError::Unauthorized)));
    assert_eq!(ctx.accounts.escrow.state, EscrowState::Funded);
}

#[test]
fn buyer_opens_a_dispute() {
    let mut ctx = Context {
        program_id: program(),
        accounts: Dispute { caller: buyer(), escrow_key: escrow_key(), escrow: funded() },
    };
    let event = dispute(&mut ctx, ESCROW_ID).unwrap();
    assert_eq!(ctx.accounts.escrow.state, EscrowState::Disputed);
    assert_eq!(event.escrow_id, ESCROW_ID);
    assert_eq!(event.disputed_by, buyer());
}

#[test]
fn seller_opens_a_dispute() {
    let mut ctx = Context {
        program_id: program(),
        accounts: Dispute { caller: seller(), escrow_key: escrow_key(), escrow: funded() },
    };
    assert!(dispute(&mut ctx, ESCROW_ID).is_ok());
    assert_eq!(ctx.accounts.escrow.state, EscrowState::Disputed);
}

#[test]
fn arbiter_releases_a_disputed_escrow() {
    let mut ctx = release_ctx(arbiter(), disputed());
    let event = release(&mut ctx, ESCROW_ID).unwrap();
    assert_eq!(ctx.accounts.escrow.state, EscrowState::Released);
    assert_eq!(ctx.accounts.seller_lamports, 10 + AMOUNT);
    assert_eq!(ctx.accounts.vault_lamports, 1_000_000);
    assert_eq!(event.escrow_id, ESCROW_ID);
    assert_eq!(event.seller, seller());
    assert_eq!(event.amount, AMOUNT);
    assert_eq!(event.released_by, arbiter());
}

#[test]
fn seller_refunds_the_buyer() {
    let mut ctx = refund_ctx(seller(), funded());
    let event = refund(&mut ctx, ESCROW_ID).unwrap();
    assert_eq!(ctx.accounts.escrow.state, EscrowState::Refunded);
    assert_eq!(ctx.accounts.buyer_lamports, 7 + AMOUNT);
    assert_eq!(ctx.accounts.vault_lamports, 1_000_000);
    assert_eq!(event.buyer, buyer());
    assert_eq!(event.amount, AMOUNT);
    assert_eq!(event.refunded_by, seller());
}

#[test]
fn rejects_double_deposit() {
    let mut ctx = Context {
        program_id: program(),
        accounts: Deposit { buyer: buyer(), escrow_key: escrow_key(), escrow: funded(), vault_key: vault_key() },
    };
    assert_eq!(deposit(&mut ctx, ESCROW_ID), Err(InstructionError::Escrow(EscrowError::InvalidState)));
    assert_eq!(ctx.accounts.escrow.state, EscrowState::Funded);
}

#[test]
fn buyer_releases_directly() {
    let mut ctx = release_ctx(buyer(), funded());
    let event = release(&mut ctx, ESCROW_ID).unwrap();
    assert_eq!(ctx.accounts.escrow.state, EscrowState::Released);
    assert_eq!(ctx.accounts.seller_lamports, 10 + AMOUNT);
    assert_eq!(event.released_by, buyer());
}

#[test]
fn arbiter_refunds_a_disputed_escrow() {
    let mut ctx = refund_ctx(arbiter(), disputed());
    assert!(refund(&mut ctx, ESCROW_ID).is_ok());
    assert_eq!(ctx.accounts.escrow.state, EscrowState::Refunded);
}

#[test]
fn only_the_arbiter_resolves_a_dispute() {
    let mut by_buyer = release_ctx(buyer(), disputed());
    assert_eq!(release(&mut by_buyer, ESCROW_ID), Err(InstructionError::Escrow(EscrowError::Unauthorized)));
    assert_eq!(by_buyer.accounts.escrow.state, EscrowState::Disputed);
    let mut by_seller = refund_ctx(seller(), disputed());
    assert_eq!(refund(&mut by_seller, ESCROW_ID), Err(InstructionError::Escrow(EscrowError::Unauthorized)));
    assert_eq!(by_seller.accounts.vault_lamports, AMOUNT + 1_000_000);
}

#[test]
fn seller_cannot_release_and_buyer_cannot_refund() {
    let mut r = release_ctx(seller(), funded());
    assert_eq!(release(&mut r, ESCROW_ID), Err(InstructionError::Escrow(EscrowError::Unauthorized)));
    let mut f = refund_ctx(buyer(), funded());
    assert_eq!(refund(&mut f, ESCROW_ID), Err(InstructionError::Escrow(EscrowError::Unauthorized)));
}

#[test]
fn settled_escrow_is_final() {
    let mut r = release_ctx(buyer(), funded());
    release(&mut r, ESCROW_ID).unwrap();
    let released = r.accounts.escrow;
    let mut again = refund_ctx(arbiter(), released);
    assert_eq!(refund(&mut again, ESCROW_ID), Err(InstructionError::Escrow(EscrowError::InvalidState)));
    let mut d = Context {
        program_id: program(),
        accounts: Dispute { caller: buyer(), escrow_key: escrow_key(), escrow: again.accounts.escrow },
    };
    assert_eq!(dispute(&mut d, ESCROW_ID), Err(InstructionError::Escrow(EscrowError::InvalidState)));
}

#[test]
fn release_checks_the_seller_account() {
    let mut ctx = release_ctx(buyer(), funded());
    ctx.accounts.seller = outsider();
    assert_eq!(release(&mut ctx, ESCROW_ID), Err(InstructionError::Escrow(EscrowError::InvalidSeller)));
    assert_eq!(ctx.accounts.vault_lamports, AMOUNT + 1_000_000);
}

#[test]
fn refund_checks_the_buyer_account() {
    let mut ctx = refund_ctx(seller(), funded());
    ctx.accounts.buyer = outsider();
    assert_eq!(refund(&mut ctx, ESCROW_ID), Err(InstructionError::Escrow(EscrowError::InvalidBuyer)));
}

#[test]
fn release_needs_the_amount_in_the_vault() {
    let mut ctx = release_ctx(buyer(), funded());
    ctx.accounts.vault_lamports = AMOUNT - 1;
    assert_eq!(release(&mut ctx, ESCROW_ID), Err(InstructionError::ArithmeticOverflow));
    assert_eq!(ctx.accounts.escrow.state, EscrowState::Funded);
    assert_eq!(ctx.accounts.vault_lamports, AMOUNT - 1);
}

#[test]
fn release_refuses_an_overflowing_seller_balance() {
    let mut ctx = release_ctx(buyer(), funded());
    ctx.accounts.seller_lamports = u64::MAX - 1;
    assert_eq!(release(&mut ctx, ESCROW_ID), Err(InstructionError::ArithmeticOverflow));
    assert_eq!(ctx.accounts.vault_lamports, AMOUNT + 1_000_000);
    assert_eq!(ctx.accounts.escrow.state, EscrowState::Funded);
}

#[test]
fn refund_refuses_an_overflowing_buyer_balance() {
    let mut ctx = refund_ctx(seller(), funded());
    ctx.accounts.buyer_lamports = u64::MAX;
    assert_eq!(refund(&mut ctx, ESCROW_ID), Err(InstructionError::ArithmeticOverflow));
}

#[test]
fn release_to_the_vault_itself_keeps_its_balance() {
    let ctx = Context {
        program_id: program(),
        accounts: InitializeEscrow { buyer: buyer(), escrow_key: escrow_key(), vault_key: vault_key() },
    };
    let (escrow, _) =
        initialize_escrow(&ctx, ESCROW_ID, vault_key(), arbiter(), AMOUNT, String::new(), 0).unwrap();
    let mut d = Context {
        program_id: program(),
        accounts: Deposit { buyer: buyer(), escrow_key: escrow_key(), escrow, vault_key: vault_key() },
    };
    deposit(&mut d, ESCROW_ID).unwrap();
    let mut r = Context {
        program_id: program(),
        accounts: Release {
            caller: buyer(),
            escrow_key: escrow_key(),
            escrow: d.accounts.escrow,
            vault_key: vault_key(),
            vault_lamports: AMOUNT + 5,
            seller: vault_key(),
            seller_lamports: AMOUNT + 5,
        },
    };
    release(&mut r, ESCROW_ID).unwrap();
    assert_eq!(r.accounts.vault_lamports, AMOUNT + 5);
    assert_eq!(r.accounts.seller_lamports, AMOUNT + 5);
    assert_eq!(r.accounts.escrow.state, EscrowState::Released);
}

fn close_ctx(caller: Address, escrow: EscrowAccount) -> Context<CloseEscrow> {
    Context {
        program_id: program(),
        accounts: CloseEscrow {
            buyer: caller,
            escrow_key: escrow_key(),
            escrow,
            escrow_lamports: 3_221_280,
            vault_key: vault_key(),
            vault_lamports: 946_560,
        },
    }
}

#[test]
fn closes_a_settled_escrow() {
    let mut r = release_ctx(buyer(), funded());
    release(&mut r, ESCROW_ID).unwrap();
    let event = close_escrow(&close_ctx(buyer(), r.accounts.escrow), ESCROW_ID).unwrap();
    assert_eq!(event.escrow_id, ESCROW_ID);
    assert_eq!(event.rent_reclaimed, 3_221_280 + 946_560);
    assert_eq!(event.closed_by, buyer());
}

#[test]
fn refuses_to_close_an_unsettled_escrow() {
    let mut escrow = funded();
    escrow.buyer = buyer();
    let ctx = close_ctx(buyer(), escrow);
    assert_eq!(close_escrow(&ctx, ESCROW_ID), Err(InstructionError::Escrow(EscrowError::EscrowNotSettled)));
}

#[test]
fn only_the_buyer_closes() {
    let mut r = refund_ctx(arbiter(), funded());
    refund(&mut r, ESCROW_ID).unwrap();
    let ctx = close_ctx(seller(), r.accounts.escrow);
    // The seller's key derives other addresses, so the account check fails first.
    assert_eq!(close_escrow(&ctx, ESCROW_ID), Err(InstructionError::ConstraintSeeds));
    let mut r2 = refund_ctx(arbiter(), funded());
    refund(&mut r2, ESCROW_ID).unwrap();
    let mut c = close_ctx(buyer(), r2.accounts.escrow);
    c.accounts.escrow.buyer = seller();
    assert_eq!(close_escrow(&c, ESCROW_ID), Err(InstructionError::Escrow(EscrowError::Unauthorized)));
}

#[test]
fn deposit_only_by_the_buyer() {
    let mut ctx = Context {
        program_id: program(),
        accounts: Deposit { buyer: buyer(), escrow_key: escrow_key(), escrow: create(), vault_key: vault_key() },
    };
    ctx.accounts.escrow.buyer = seller();
    assert_eq!(deposit(&mut ctx, ESCROW_ID), Err(InstructionError::Escrow(EscrowError::Unauthorized)));
    assert_eq!(ctx.accounts.escrow.state, EscrowState::Active);
}

#[test]
fn dispute_needs_a_funded_escrow() {
    let mut ctx = Context {
        program_id: program(),
        accounts: Dispute { caller: buyer(), escrow_key: escrow_key(), escrow: create() },
    };
    assert_eq!(dispute(&mut ctx, ESCROW_ID), Err(InstructionError::Escrow(EscrowError::InvalidState)));
    let mut twice = Context {
        program_id: program(),
        accounts: Dispute { caller: seller(), escrow_key: escrow_key(), escrow: disputed() },
    };
    assert_eq!(dispute(&mut twice, ESCROW_ID), Err(InstructionError::Escrow(EscrowError::InvalidState)));
}

#[test]
fn release_of_an_active_escrow_is_refused() {
    let mut ctx = release_ctx(buyer(), create());
    assert_eq!(release(&mut ctx, ESCROW_ID), Err(InstructionError::Escrow(EscrowError::InvalidState)));
}
