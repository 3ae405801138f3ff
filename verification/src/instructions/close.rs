//! Close a settled escrow and give its accounts' rent back to the buyer.
use vstd::prelude::*;

use crate::address::Address;
use crate::context::Context;
use crate::errors::{EscrowError, InstructionError};
use crate::events::EscrowClosed;
use crate::pda::{check_address, derived_address, escrow_seeds, escrow_seeds_of, vault_seeds, vault_seeds_of};
use crate::state::{is_settled, EscrowAccount, EscrowState};

verus! {

/// The accounts of a close, as the instruction reads them.
pub struct CloseEscrow {
    /// The buyer who created, and paid the rent of, the escrow; signs the
    /// transaction and receives the rent.
    pub buyer: Address,
    /// Where the escrow record lives.
    pub escrow_key: Address,
    /// The escrow record.
    pub escrow: EscrowAccount,
    /// The escrow account's balance.
    pub escrow_lamports: u64,
    /// Where the vault lives.
    pub vault_key: Address,
    /// The vault's balance.
    pub vault_lamports: u64,
}

impl CloseEscrow {
    /// The first account constraint that these accounts break, if any: the
    /// escrow must sit at its address derived from the signing buyer, the
    /// id and its stored bump; its record must name that buyer; the vault
    /// must sit at its derived address.
    pub open spec fn accounts_error(&self, escrow_id: u64, program_id: Seq<u8>) -> Option<InstructionError> {
        if derived_address(escrow_seeds_of(self.buyer@, escrow_id), self.escrow.escrow_bump, program_id)
            != Some(self.escrow_key@) {
            Some(InstructionError::ConstraintSeeds)
        } else if self.escrow.buyer@ != self.buyer@ {
            Some(InstructionError::Escrow(EscrowError::Unauthorized))
        } else if derived_address(vault_seeds_of(self.buyer@, escrow_id), self.escrow.vault_bump, program_id)
            != Some(self.vault_key@) {
            Some(InstructionError::ConstraintSeeds)
        } else {
            None
        }
    }

    /// Checks the account constraints, in the order in which they are
    /// declared.
    pub fn validate(&self, escrow_id: u64, program_id: &Address) -> (r: Result<(), InstructionError>)
        ensures
            match self.accounts_error(escrow_id, program_id@) {
                Some(e) => r == Err::<(), InstructionError>(e),
                None => r is Ok,
            },
    {
        check_address(&self.escrow_key, &escrow_seeds(&self.buyer, escrow_id), self.escrow.escrow_bump, program_id)?;
        if !self.escrow.buyer.same_as(&self.buyer) {
            return Err(InstructionError::Escrow(EscrowError::Unauthorized));
        }
        check_address(&self.vault_key, &vault_seeds(&self.buyer, escrow_id), self.escrow.vault_bump, program_id)?;
        Ok(())
    }
}

/// Why a close is refused, if it is: the escrow must be settled, and only
/// its buyer may close it.
pub open spec fn close_error(ctx: CloseEscrow) -> Option<EscrowError> {
    if !is_settled(ctx.escrow.state) {
        Some(EscrowError::EscrowNotSettled)
    } else if ctx.buyer@ != ctx.escrow.buyer@ {
        Some(EscrowError::Unauthorized)
    } else {
        None
    }
}

/// What a close reports: the rent reclaimed is every lamport that the
/// escrow account and the vault hold together.
pub open spec fn close_outcome(ctx: CloseEscrow, escrow_id: u64) -> Result<EscrowClosed, EscrowError> {
    match close_error(ctx) {
        Some(e) => Err(e),
        None => Ok(
            EscrowClosed {
                escrow_id: escrow_id,
                rent_reclaimed: (ctx.escrow_lamports + ctx.vault_lamports) as u64,
                closed_by: ctx.buyer,
            },
        ),
    }
}

/// The whole close instruction: the account constraints, then the
/// handler.
pub open spec fn close_instruction(ctx: Context<CloseEscrow>, escrow_id: u64) -> Result<
    EscrowClosed,
    InstructionError,
> {
    match ctx.accounts.accounts_error(escrow_id, ctx.program_id@) {
        Some(e) => Err(e),
        None => match close_outcome(ctx.accounts, escrow_id) {
            Ok(event) => Ok(event),
            Err(e) => Err(InstructionError::Escrow(e)),
        },
    }
}

/// Decides the close of a settled escrow and gives the event to emit; the
/// two accounts are then closed and their lamports go to the buyer. The two
/// balances together fit in a `u64`, as every supply of lamports does.
pub fn handler(ctx: &CloseEscrow, escrow_id: u64) -> (r: Result<EscrowClosed, EscrowError>)
    requires
        close_error(*ctx) is None ==> ctx.escrow_lamports + ctx.vault_lamports <= u64::MAX,
    ensures
        r == close_outcome(*ctx, escrow_id),
{
    let state = ctx.escrow.state;
    if !(state == EscrowState::Released || state == EscrowState::Refunded) {
        return Err(EscrowError::EscrowNotSettled);
    }
    if !ctx.buyer.same_as(&ctx.escrow.buyer) {
        return Err(EscrowError::Unauthorized);
    }
    let total_reclaimed = ctx.escrow_lamports + ctx.vault_lamports;
    Ok(EscrowClosed { escrow_id, rent_reclaimed: total_reclaimed, closed_by: ctx.buyer })
}

} // verus!
