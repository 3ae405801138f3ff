//! Refund the escrowed funds to the buyer.
use vstd::prelude::*;

use crate::address::Address;
use crate::context::Context;
use crate::errors::{EscrowError, InstructionError};
use crate::events::EscrowRefunded;
use crate::pda::{check_address, derived_address, escrow_seeds, escrow_seeds_of, vault_seeds, vault_seeds_of};
use crate::state::{holds_funds, EscrowAccount, EscrowState};

verus! {

/// The accounts of a refund, as the instruction reads them.
pub struct Refund {
    /// Who asks for the refund; signs the transaction.
    pub caller: Address,
    /// Where the escrow record lives.
    pub escrow_key: Address,
    /// The escrow record.
    pub escrow: EscrowAccount,
    /// Where the vault lives.
    pub vault_key: Address,
    /// The vault's balance.
    pub vault_lamports: u64,
    /// The account that is to receive the funds.
    pub buyer: Address,
    /// Its balance.
    pub buyer_lamports: u64,
}

impl Refund {
    /// The first account constraint that these accounts break, if any: the
    /// escrow and the vault must sit at the addresses derived from the
    /// buyer that the record names, the id and the stored bumps.
    pub open spec fn accounts_error(&self, escrow_id: u64, program_id: Seq<u8>) -> Option<InstructionError> {
        if derived_address(escrow_seeds_of(self.escrow.buyer@, escrow_id), self.escrow.escrow_bump, program_id)
            != Some(self.escrow_key@) {
            Some(InstructionError::ConstraintSeeds)
        } else if derived_address(vault_seeds_of(self.escrow.buyer@, escrow_id), self.escrow.vault_bump, program_id)
            != Some(self.vault_key@) {
            Some(InstructionError::ConstraintSeeds)
        } else {
            None
        }
    }

    /// Checks the account constraints, in the order in which they are
    /// declared.
    pub fn validate(&self, escrow_id: u64, program_id: &Address) -> (r: Result<(), InstructionError>)
        ensures
            match self.accounts_error(escrow_id, program_id@) {
                Some(e) => r == Err::<(), InstructionError>(e),
                None => r is Ok,
            },
    {
        check_address(&self.escrow_key, &escrow_seeds(&self.escrow.buyer, escrow_id), self.escrow.escrow_bump, program_id)?;
        check_address(&self.vault_key, &vault_seeds(&self.escrow.buyer, escrow_id), self.escrow.vault_bump, program_id)?;
        Ok(())
    }
}

/// Who may refund the funds of this escrow: the seller or the arbiter of a
/// funded escrow; the arbiter alone once a dispute is open.
pub open spec fn may_refund(escrow: EscrowAccount, caller: Seq<u8>) -> bool {
    if escrow.state == EscrowState::Disputed {
        caller == escrow.arbiter@
    } else {
        caller == escrow.seller@ || caller == escrow.arbiter@
    }
}

/// What a refund does to its accounts. The escrow must hold funds, the
/// caller must be allowed to refund them and the receiving account must be
/// the recorded buyer. The amount then leaves the vault (which must hold
/// it) for the buyer (whose balance must not overflow), and the escrow is
/// refunded. When the buyer's account is the vault itself, the lamports
/// leave it and come back.
pub open spec fn refund_outcome(ctx: Refund, escrow_id: u64) -> Result<(Refund, EscrowRefunded), InstructionError> {
    let escrow = ctx.escrow;
    let event = EscrowRefunded {
        escrow_id: escrow_id,
        buyer: escrow.buyer,
        amount: escrow.amount,
        refunded_by: ctx.caller,
    };
    if !holds_funds(escrow.state) {
        Err(InstructionError::Escrow(EscrowError::InvalidState))
    } else if !may_refund(escrow, ctx.caller@) {
        Err(InstructionError::Escrow(EscrowError::Unauthorized))
    } else if ctx.buyer@ != escrow.buyer@ {
        Err(InstructionError::Escrow(EscrowError::InvalidBuyer))
    } else if ctx.vault_lamports < escrow.amount {
        Err(InstructionError::ArithmeticOverflow)
    } else if ctx.buyer@ == ctx.vault_key@ {
        Ok((
            Refund {
                escrow: escrow.with_state(EscrowState::Refunded),
                buyer_lamports: ctx.vault_lamports,
                ..ctx
            },
            event,
        ))
    } else if ctx.buyer_lamports + escrow.amount > u64::MAX {
        Err(InstructionError::ArithmeticOverflow)
    } else {
        Ok((
            Refund {
                escrow: escrow.with_state(EscrowState::Refunded),
                vault_lamports: (ctx.vault_lamports - escrow.amount) as u64,
                buyer_lamports: (ctx.buyer_lamports + escrow.amount) as u64,
                ..ctx
            },
            event,
        ))
    }
}

/// The whole refund instruction: the account constraints, then the
/// handler.
pub open spec fn refund_instruction(ctx: Context<Refund>, escrow_id: u64) -> Result<
    (Context<Refund>, EscrowRefunded),
    InstructionError,
> {
    match ctx.accounts.accounts_error(escrow_id, ctx.program_id@) {
        Some(e) => Err(e),
        None => match refund_outcome(ctx.accounts, escrow_id) {
            Ok((accounts, event)) => Ok((Context { accounts: accounts, ..ctx }, event)),
            Err(e) => Err(e),
        },
    }
}

/// Refunds the funds to the buyer and gives the event to emit. On an
/// error nothing changes.
pub fn handler(ctx: &mut Refund, escrow_id: u64) -> (r: Result<EscrowRefunded, InstructionError>)
    ensures
        match refund_outcome(*old(ctx), escrow_id) {
            Ok((accounts, event)) => r == Ok::<EscrowRefunded, InstructionError>(event)
                && *final(ctx) == accounts,
            Err(e) => r == Err::<EscrowRefunded, InstructionError>(e) && *final(ctx) == *old(ctx),
        },
{
    let state = ctx.escrow.state;
    if !(state == EscrowState::Funded || state == EscrowState::Disputed) {
        return Err(InstructionError::Escrow(EscrowError::InvalidState));
    }
    let allowed = if state == EscrowState::Disputed {
        ctx.caller.same_as(&ctx.escrow.arbiter)
    } else {
        ctx.caller.same_as(&ctx.escrow.seller) || ctx.caller.same_as(&ctx.escrow.arbiter)
    };
    if !allowed {
        return Err(InstructionError::Escrow(EscrowError::Unauthorized));
    }
    let amount = ctx.escrow.amount;
    if !ctx.buyer.same_as(&ctx.escrow.buyer) {
        return Err(InstructionError::Escrow(EscrowError::InvalidBuyer));
    }
    let vault_after = match ctx.vault_lamports.checked_sub(amount) {
        Some(v) => v,
        None => return Err(InstructionError::ArithmeticOverflow),
    };
    if ctx.buyer.same_as(&ctx.vault_key) {
        ctx.buyer_lamports = ctx.vault_lamports;
    } else {
        let buyer_after = match ctx.buyer_lamports.checked_add(amount) {
            Some(v) => v,
            None => return Err(InstructionError::ArithmeticOverflow),
        };
        ctx.vault_lamports = vault_after;
        ctx.buyer_lamports = buyer_after;
    }
    ctx.escrow.state = EscrowState::Refunded;
    Ok(EscrowRefunded { escrow_id, buyer: ctx.escrow.buyer, amount, refunded_by: ctx.caller })
}

} // verus!
