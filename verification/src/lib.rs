//! A trustless escrow engine. A buyer creates an escrow naming a seller, an
//! arbiter and an amount, then locks the amount in a vault that only this
//! program controls. The buyer (or the arbiter) releases the funds to the
//! seller; the seller (or the arbiter) refunds them to the buyer; the buyer
//! or the seller may open a dispute, which the arbiter alone resolves. Once
//! settled, the buyer closes the escrow and reclaims the rent of its
//! accounts.
//!
//! Each instruction is a verified function from the accounts it reads to
//! the accounts it writes and the event it emits, or to the error that
//! turns it down; nothing changes on an error.

pub mod address;
pub mod context;
pub mod errors;
pub mod events;
pub mod instructions;
pub mod laws;
pub mod laws_accounts;
pub mod pda;
pub mod state;

use vstd::prelude::*;

use crate::address::Address;
use crate::context::Context;
use crate::errors::InstructionError;
use crate::events::{EscrowClosed, EscrowCreated, EscrowDisputed, EscrowRefunded, EscrowReleased};
use crate::instructions::close::{close_error, close_instruction, CloseEscrow};
use crate::instructions::deposit::{deposit_instruction, Deposit};
use crate::instructions::dispute::{dispute_instruction, Dispute};
use crate::instructions::initialize::{initialize_instruction, InitializeEscrow};
use crate::instructions::refund::{refund_instruction, Refund};
use crate::instructions::release::{release_instruction, Release};
use crate::state::EscrowAccount;

verus! {

/// Creates a new escrow at time `now` (a Unix timestamp): checks where its
/// two accounts are to be created, validates the agreement, and gives the
/// new record with the event to emit.
pub fn initialize_escrow(
    ctx: &Context<InitializeEscrow>,
    escrow_id: u64,
    seller: Address,
    arbiter: Address,
    amount: u64,
    description: String,
    now: i64,
) -> (r: Result<(EscrowAccount, EscrowCreated), InstructionError>)
    ensures
        r == initialize_instruction(*ctx, escrow_id, seller, arbiter, amount, description, now),
{
    let bumps = ctx.accounts.validate(escrow_id, &ctx.program_id)?;
    match instructions::initialize::handler(
        &ctx.accounts,
        bumps,
        escrow_id,
        seller,
        arbiter,
        amount,
        description,
        now,
    ) {
        Ok(created) => Ok(created),
        Err(e) => Err(InstructionError::Escrow(e)),
    }
}

/// Funds an escrow; the result is the number of lamports that the buyer
/// must transfer to the vault in the same transaction.
pub fn deposit(ctx: &mut Context<Deposit>, escrow_id: u64) -> (r: Result<u64, InstructionError>)
    ensures
        match deposit_instruction(*old(ctx), escrow_id) {
            Ok((c, amount)) => r == Ok::<u64, InstructionError>(amount) && *final(ctx) == c,
            Err(e) => r == Err::<u64, InstructionError>(e) && *final(ctx) == *old(ctx),
        },
{
    ctx.accounts.validate(escrow_id, &ctx.program_id)?;
    match instructions::deposit::handler(&mut ctx.accounts, escrow_id) {
        Ok(amount) => Ok(amount),
        Err(e) => Err(InstructionError::Escrow(e)),
    }
}

/// Releases the funds to the seller.
pub fn release(ctx: &mut Context<Release>, escrow_id: u64) -> (r: Result<EscrowReleased, InstructionError>)
    ensures
        match release_instruction(*old(ctx), escrow_id) {
            Ok((c, event)) => r == Ok::<EscrowReleased, InstructionError>(event) && *final(ctx) == c,
            Err(e) => r == Err::<EscrowReleased, InstructionError>(e) && *final(ctx) == *old(ctx),
        },
{
    ctx.accounts.validate(escrow_id, &ctx.program_id)?;
    instructions::release::handler(&mut ctx.accounts, escrow_id)
}

/// Refunds the funds to the buyer.
pub fn refund(ctx: &mut Context<Refund>, escrow_id: u64) -> (r: Result<EscrowRefunded, InstructionError>)
    ensures
        match refund_instruction(*old(ctx), escrow_id) {
            Ok((c, event)) => r == Ok::<EscrowRefunded, InstructionError>(event) && *final(ctx) == c,
            Err(e) => r == Err::<EscrowRefunded, InstructionError>(e) && *final(ctx) == *old(ctx),
        },
{
    ctx.accounts.validate(escrow_id, &ctx.program_id)?;
    instructions::refund::handler(&mut ctx.accounts, escrow_id)
}

/// Opens a dispute.
pub fn dispute(ctx: &mut Context<Dispute>, escrow_id: u64) -> (r: Result<EscrowDisputed, InstructionError>)
    ensures
        match dispute_instruction(*old(ctx), escrow_id) {
            Ok((c, event)) => r == Ok::<EscrowDisputed, InstructionError>(event) && *final(ctx) == c,
            Err(e) => r == Err::<EscrowDisputed, InstructionError>(e) && *final(ctx) == *old(ctx),
        },
{
    ctx.accounts.validate(escrow_id, &ctx.program_id)?;
    match instructions::dispute::handler(&mut ctx.accounts, escrow_id) {
        Ok(event) => Ok(event),
        Err(e) => Err(InstructionError::Escrow(e)),
    }
}

/// Closes a settled escrow; its two accounts are then closed and their
/// lamports go to the buyer.
pub fn close_escrow(ctx: &Context<CloseEscrow>, escrow_id: u64) -> (r: Result<EscrowClosed, InstructionError>)
    requires
        close_error(ctx.accounts) is None ==> ctx.accounts.escrow_lamports + ctx.accounts.vault_lamports
            <= u64::MAX,
    ensures
        r == close_instruction(*ctx, escrow_id),
{
    ctx.accounts.validate(escrow_id, &ctx.program_id)?;
    match instructions::close::handler(&ctx.accounts, escrow_id) {
        Ok(event) => Ok(event),
        Err(e) => Err(InstructionError::Escrow(e)),
    }
}

} // verus!
