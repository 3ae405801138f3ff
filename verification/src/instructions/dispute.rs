//! Open a dispute on a funded escrow; the arbiter then resolves it.
use vstd::prelude::*;

use crate::address::Address;
use crate::context::Context;
use crate::errors::{EscrowError, InstructionError};
use crate::events::EscrowDisputed;
use crate::pda::{check_address, derived_address, escrow_seeds, escrow_seeds_of};
use crate::state::{EscrowAccount, EscrowState};

verus! {

/// The accounts of a dispute, as the instruction reads them.
pub struct Dispute {
    /// Who opens the dispute; signs the transaction.
    pub caller: Address,
    /// Where the escrow record lives.
    pub escrow_key: Address,
    /// The escrow record.
    pub escrow: EscrowAccount,
}

impl Dispute {
    /// The account constraint that these accounts break, if any: the escrow
    /// must sit at the address derived from the buyer that its record
    /// names, the id and its stored bump.
    pub open spec fn accounts_error(&self, escrow_id: u64, program_id: Seq<u8>) -> Option<InstructionError> {
        if derived_address(escrow_seeds_of(self.escrow.buyer@, escrow_id), self.escrow.escrow_bump, program_id)
            != Some(self.escrow_key@) {
            Some(InstructionError::ConstraintSeeds)
        } else {
            None
        }
    }

    /// Checks the account constraint.
    pub fn validate(&self, escrow_id: u64, program_id: &Address) -> (r: Result<(), InstructionError>)
        ensures
            match self.accounts_error(escrow_id, program_id@) {
                Some(e) => r == Err::<(), InstructionError>(e),
                None => r is Ok,
            },
    {
        check_address(&self.escrow_key, &escrow_seeds(&self.escrow.buyer, escrow_id), self.escrow.escrow_bump, program_id)
    }
}

/// What a dispute does to its accounts: only a funded escrow can be
/// disputed, and only by its buyer or its seller; it becomes disputed and
/// its funds stay in the vault.
pub open spec fn dispute_outcome(ctx: Dispute, escrow_id: u64) -> Result<(Dispute, EscrowDisputed), EscrowError> {
    if ctx.escrow.state != EscrowState::Funded {
        Err(EscrowError::InvalidState)
    } else if !(ctx.caller@ == ctx.escrow.buyer@ || ctx.caller@ == ctx.escrow.seller@) {
        Err(EscrowError::Unauthorized)
    } else {
        Ok((
            Dispute { escrow: ctx.escrow.with_state(EscrowState::Disputed), ..ctx },
            EscrowDisputed { escrow_id: escrow_id, disputed_by: ctx.caller },
        ))
    }
}

/// The whole dispute instruction: the account constraint, then the
/// handler.
pub open spec fn dispute_instruction(ctx: Context<Dispute>, escrow_id: u64) -> Result<
    (Context<Dispute>, EscrowDisputed),
    InstructionError,
> {
    match ctx.accounts.accounts_error(escrow_id, ctx.program_id@) {
        Some(e) => Err(e),
        None => match dispute_outcome(ctx.accounts, escrow_id) {
            Ok((accounts, event)) => Ok((Context { accounts: accounts, ..ctx }, event)),
            Err(e) => Err(InstructionError::Escrow(e)),
        },
    }
}

/// Opens a dispute and gives the event to emit. On an error nothing
/// changes.
pub fn handler(ctx: &mut Dispute, escrow_id: u64) -> (r: Result<EscrowDisputed, EscrowError>)
    ensures
        match dispute_outcome(*old(ctx), escrow_id) {
            Ok((accounts, event)) => r == Ok::<EscrowDisputed, EscrowError>(event) && *final(ctx) == accounts,
            Err(e) => r == Err::<EscrowDisputed, EscrowError>(e) && *final(ctx) == *old(ctx),
        },
{
    if ctx.escrow.state != EscrowState::Funded {
        return Err(EscrowError::InvalidState);
    }
    let caller = ctx.caller;
    if !(caller.same_as(&ctx.escrow.buyer) || caller.same_as(&ctx.escrow.seller)) {
        return Err(EscrowError::Unauthorized);
    }
    ctx.escrow.state = EscrowState::Disputed;
    Ok(EscrowDisputed { escrow_id, disputed_by: caller })
}

} // verus!
