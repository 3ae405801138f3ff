//! Release the escrowed funds to the seller.
use vstd::prelude::*;

use crate::address::Address;
use crate::context::Context;
use crate::errors::{EscrowError, InstructionError};
use crate::events::EscrowReleased;
use crate::pda::{check_address, derived_address, escrow_seeds, escrow_seeds_of, vault_seeds, vault_seeds_of};
use crate::state::{holds_funds, EscrowAccount, EscrowState};

verus! {

/// The accounts of a release, as the instruction reads them.
pub struct Release {
    /// Who asks for the release; signs the transaction.
    pub caller: Address,
    /// Where the escrow record lives.
    pub escrow_key: Address,
    /// The escrow record.
    pub escrow: EscrowAccount,
    /// Where the vault lives.
    pub vault_key: Address,
    /// The vault's balance.
    pub vault_lamports: u64,
    /// The account that is to receive the funds.
    pub seller: Address,
    /// Its balance.
    pub seller_lamports: u64,
}

impl Release {
    /// The first account constraint that these accounts break, if any: the
    /// escrow and the vault must sit at the addresses derived from the
    /// buyer that the record names, the id and the stored bumps.
    pub open spec fn accounts_error(&self, escrow_id: u64, program_id: Seq<u8>) -> Option<InstructionError> {
        if derived_address(escrow_seeds_of(self.escrow.buyer@, escrow_id), self.escrow.escrow_bump, program_id)
            != Some(self.escrow_key@) {
            Some(InstructionError::ConstraintSeeds)
        } else if derived_address(vault_seeds_of(self.escrow.buyer@, escrow_id), self.escrow.vault_bump, program_id)
            != Some(self.vault_key@) {
            Some(InstructionError::ConstraintSeeds)
        } else {
            None
        }
    }

    /// Checks the account constraints, in the order in which they are
    /// declared.
    pub fn validate(&self, escrow_id: u64, program_id: &Address) -> (r: Result<(), InstructionError>)
        ensures
            match self.accounts_error(escrow_id, program_id@) {
                Some(e) => r == Err::<(), InstructionError>(e),
                None => r is Ok,
            },
    {
        check_address(&self.escrow_key, &escrow_seeds(&self.escrow.buyer, escrow_id), self.escrow.escrow_bump, program_id)?;
        check_address(&self.vault_key, &vault_seeds(&self.escrow.buyer, escrow_id), self.escrow.vault_bump, program_id)?;
        Ok(())
    }
}

/// Who may release the funds of this escrow: the buyer or the arbiter of a
/// funded escrow; the arbiter alone once a dispute is open.
pub open spec fn may_release(escrow: EscrowAccount, caller: Seq<u8>) -> bool {
    if escrow.state == EscrowState::Disputed {
        caller == escrow.arbiter@
    } else {
        caller == escrow.buyer@ || caller == escrow.arbiter@
    }
}

/// What a release does to its accounts. The escrow must hold funds, the
/// caller must be allowed to release them and the receiving account must be
/// the recorded seller. The amount then leaves the vault (which must hold
/// it) for the seller (whose balance must not overflow), and the escrow is
/// released. When the seller's account is the vault itself, the lamports
/// leave it and come back.
pub open spec fn release_outcome(ctx: Release, escrow_id: u64) -> Result<(Release, EscrowReleased), InstructionError> {
    let escrow = ctx.escrow;
    let event = EscrowReleased {
        escrow_id: escrow_id,
        seller: escrow.seller,
        amount: escrow.amount,
        released_by: ctx.caller,
    };
    if !holds_funds(escrow.state) {
        Err(InstructionError::Escrow(EscrowError::InvalidState))
    } else if !may_release(escrow, ctx.caller@) {
        Err(InstructionError::Escrow(EscrowError::Unauthorized))
    } else if ctx.seller@ != escrow.seller@ {
        Err(InstructionError::Escrow(EscrowError::InvalidSeller))
    } else if ctx.vault_lamports < escrow.amount {
        Err(InstructionError::ArithmeticOverflow)
    } else if ctx.seller@ == ctx.vault_key@ {
        Ok((
            Release {
                escrow: escrow.with_state(EscrowState::Released),
                seller_lamports: ctx.vault_lamports,
                ..ctx
            },
            event,
        ))
    } else if ctx.seller_lamports + escrow.amount > u64::MAX {
        Err(InstructionError::ArithmeticOverflow)
    } else {
        Ok((
            Release {
                escrow: escrow.with_state(EscrowState::Released),
                vault_lamports: (ctx.vault_lamports - escrow.amount) as u64,
                seller_lamports: (ctx.seller_lamports + escrow.amount) as u64,
                ..ctx
            },
            event,
        ))
    }
}

/// The whole release instruction: the account constraints, then the
/// handler.
pub open spec fn release_instruction(ctx: Context<Release>, escrow_id: u64) -> Result<
    (Context<Release>, EscrowReleased),
    InstructionError,
> {
    match ctx.accounts.accounts_error(escrow_id, ctx.program_id@) {
        Some(e) => Err(e),
        None => match release_outcome(ctx.accounts, escrow_id) {
            Ok((accounts, event)) => Ok((Context { accounts: accounts, ..ctx }, event)),
            Err(e) => Err(e),
        },
    }
}

/// Releases the funds to the seller and gives the event to emit. On an
/// error nothing changes.
pub fn handler(ctx: &mut Release, escrow_id: u64) -> (r: Result<EscrowReleased, InstructionError>)
    ensures
        match release_outcome(*old(ctx), escrow_id) {
            Ok((accounts, event)) => r == Ok::<EscrowReleased, InstructionError>(event)
                && *final(ctx) == accounts,
            Err(e) => r == Err::<EscrowReleased, InstructionError>(e) && *final(ctx) == *old(ctx),
        },
{
    let state = ctx.escrow.state;
    if !(state == EscrowState::Funded || state == EscrowState::Disputed) {
        return Err(InstructionError::Escrow(EscrowError::InvalidState));
    }
    let allowed = if state == EscrowState::Disputed {
        ctx.caller.same_as(&ctx.escrow.arbiter)
    } else {
        ctx.caller.same_as(&ctx.escrow.buyer) || ctx.caller.same_as(&ctx.escrow.arbiter)
    };
    if !allowed {
        return Err(InstructionError::Escrow(EscrowError::Unauthorized));
    }
    let amount = ctx.escrow.amount;
    if !ctx.seller.same_as(&ctx.escrow.seller) {
        return Err(InstructionError::Escrow(EscrowError::InvalidSeller));
    }
    let vault_after = match ctx.vault_lamports.checked_sub(amount) {
        Some(v) => v,
        None => return Err(InstructionError::ArithmeticOverflow),
    };
    if ctx.seller.same_as(&ctx.vault_key) {
        ctx.seller_lamports = ctx.vault_lamports;
    } else {
        let seller_after = match ctx.seller_lamports.checked_add(amount) {
            Some(v) => v,
            None => return Err(InstructionError::ArithmeticOverflow),
        };
        ctx.vault_lamports = vault_after;
        ctx.seller_lamports = seller_after;
    }
    ctx.escrow.state = EscrowState::Released;
    Ok(EscrowReleased { escrow_id, seller: ctx.escrow.seller, amount, released_by: ctx.caller })
}

} // verus!
