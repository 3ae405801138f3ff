//! Create a new escrow between a buyer, a seller and an arbiter.
use vstd::prelude::*;

use crate::address::Address;
use crate::context::Context;
use crate::errors::{EscrowError, InstructionError};
use crate::events::EscrowCreated;
use crate::pda::{check_new_address, escrow_seeds, escrow_seeds_of, new_address_check, vault_seeds, vault_seeds_of};
use crate::state::{utf8_len, EscrowAccount, EscrowState, MAX_DESCRIPTION};

verus! {

/// The accounts of a new escrow, as the instruction reads them.
pub struct InitializeEscrow {
    /// The buyer who creates the escrow and pays the rent of its accounts;
    /// signs the transaction.
    pub buyer: Address,
    /// Where the escrow record is to be created.
    pub escrow_key: Address,
    /// Where the vault is to be created.
    pub vault_key: Address,
}

/// The canonical bumps of the two new accounts.
#[derive(Clone, Copy, Debug, PartialEq, Eq, Structural)]
pub struct InitializeEscrowBumps {
    pub escrow: u8,
    pub vault: u8,
}

impl InitializeEscrow {
    /// The account constraints: the escrow, then the vault, must be created
    /// at the canonical address derived from the buyer and the id; their
    /// bumps are recorded.
    pub open spec fn accounts_outcome(&self, escrow_id: u64, program_id: Seq<u8>) -> Result<
        InitializeEscrowBumps,
        InstructionError,
    > {
        match new_address_check(self.escrow_key@, escrow_seeds_of(self.buyer@, escrow_id), program_id) {
            Err(e) => Err(e),
            Ok(escrow_bump) => match new_address_check(
                self.vault_key@,
                vault_seeds_of(self.buyer@, escrow_id),
                program_id,
            ) {
                Err(e) => Err(e),
                Ok(vault_bump) => Ok(InitializeEscrowBumps { escrow: escrow_bump, vault: vault_bump }),
            },
        }
    }

    /// Checks the account constraints and finds the bumps.
    pub fn validate(&self, escrow_id: u64, program_id: &Address) -> (r: Result<InitializeEscrowBumps, InstructionError>)
        ensures
            r == self.accounts_outcome(escrow_id, program_id@),
    {
        let escrow_bump = check_new_address(&self.escrow_key, &escrow_seeds(&self.buyer, escrow_id), program_id)?;
        let vault_bump = check_new_address(&self.vault_key, &vault_seeds(&self.buyer, escrow_id), program_id)?;
        Ok(InitializeEscrowBumps { escrow: escrow_bump, vault: vault_bump })
    }
}

/// What a new escrow is. The description must fit in its 200 bytes, the
/// amount must be positive, and buyer, seller and arbiter must be three
/// different accounts; the record then holds the agreement, is active, and
/// carries the creation time and the two bumps.
pub open spec fn initialize_outcome(
    ctx: InitializeEscrow,
    bumps: InitializeEscrowBumps,
    escrow_id: u64,
    seller: Address,
    arbiter: Address,
    amount: u64,
    description: String,
    now: i64,
) -> Result<(EscrowAccount, EscrowCreated), EscrowError> {
    if utf8_len(description@) > MAX_DESCRIPTION {
        Err(EscrowError::DescriptionTooLong)
    } else if amount == 0 {
        Err(EscrowError::InvalidAmount)
    } else if seller@ == ctx.buyer@ {
        Err(EscrowError::BuyerCannotBeSeller)
    } else if arbiter@ == ctx.buyer@ || arbiter@ == seller@ {
        Err(EscrowError::InvalidArbiter)
    } else {
        Ok((
            EscrowAccount {
                escrow_id: escrow_id,
                buyer: ctx.buyer,
                seller: seller,
                arbiter: arbiter,
                amount: amount,
                description: description,
                state: EscrowState::Active,
                created_at: now,
                escrow_bump: bumps.escrow,
                vault_bump: bumps.vault,
            },
            EscrowCreated {
                escrow_id: escrow_id,
                buyer: ctx.buyer,
                seller: seller,
                arbiter: arbiter,
                amount: amount,
            },
        ))
    }
}

/// The whole instruction that creates an escrow: the account constraints,
/// then the handler.
pub open spec fn initialize_instruction(
    ctx: Context<InitializeEscrow>,
    escrow_id: u64,
    seller: Address,
    arbiter: Address,
    amount: u64,
    description: String,
    now: i64,
) -> Result<(EscrowAccount, EscrowCreated), InstructionError> {
    match ctx.accounts.accounts_outcome(escrow_id, ctx.program_id@) {
        Err(e) => Err(e),
        Ok(bumps) => match initialize_outcome(
            ctx.accounts,
            bumps,
            escrow_id,
            seller,
            arbiter,
            amount,
            description,
            now,
        ) {
            Ok(created) => Ok(created),
            Err(e) => Err(InstructionError::Escrow(e)),
        },
    }
}

/// Validates the agreement and gives the record of the new escrow, created
/// at time `now` (a Unix timestamp), with the event to emit.
pub fn handler(
    ctx: &InitializeEscrow,
    bumps: InitializeEscrowBumps,
    escrow_id: u64,
    seller: Address,
    arbiter: Address,
    amount: u64,
    description: String,
    now: i64,
) -> (r: Result<(EscrowAccount, EscrowCreated), EscrowError>)
    ensures
        r == initialize_outcome(*ctx, bumps, escrow_id, seller, arbiter, amount, description, now),
{
    if description.as_str().len() > MAX_DESCRIPTION {
        return Err(EscrowError::DescriptionTooLong);
    }
    if amount == 0 {
        return Err(EscrowError::InvalidAmount);
    }
    if seller.same_as(&ctx.buyer) {
        return Err(EscrowError::BuyerCannotBeSeller);
    }
    if arbiter.same_as(&ctx.buyer) {
        return Err(EscrowError::InvalidArbiter);
    }
    if arbiter.same_as(&seller) {
        return Err(EscrowError::InvalidArbiter);
    }
    let escrow = EscrowAccount {
        escrow_id,
        buyer: ctx.buyer,
        seller,
        arbiter,
        amount,
        description,
        state: EscrowState::Active,
        created_at: now,
        escrow_bump: bumps.escrow,
        vault_bump: bumps.vault,
    };
    let event = EscrowCreated { escrow_id, buyer: ctx.buyer, seller, arbiter, amount };
    Ok((escrow, event))
}

} // verus!
