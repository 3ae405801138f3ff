//! Fund an escrow: the buyer moves the escrowed amount into the vault.
use vstd::prelude::*;

use crate::address::Address;
use crate::context::Context;
use crate::errors::{EscrowError, InstructionError};
use crate::pda::{check_address, derived_address, escrow_seeds, escrow_seeds_of, vault_seeds, vault_seeds_of};
use crate::state::{EscrowAccount, EscrowState};

verus! {

/// The accounts of a deposit, as the instruction reads them.
pub struct Deposit {
    /// The buyer who deposits; signs the transaction.
    pub buyer: Address,
    /// Where the escrow record lives.
    pub escrow_key: Address,
    /// The escrow record.
    pub escrow: EscrowAccount,
    /// Where the vault lives; it receives the lamports.
    pub vault_key: Address,
}

impl Deposit {
    /// The first account constraint that these accounts break, if any: the
    /// escrow must sit at its address derived from the signing buyer, the
    /// id and its stored bump; its record must name that buyer; the vault
    /// must sit at its derived address.
    pub open spec fn accounts_error(&self, escrow_id: u64, program_id: Seq<u8>) -> Option<InstructionError> {
        if derived_address(escrow_seeds_of(self.buyer@, escrow_id), self.escrow.escrow_bump, program_id)
            != Some(self.escrow_key@) {
            Some(InstructionError::ConstraintSeeds)
        } else if self.escrow.buyer@ != self.buyer@ {
            Some(InstructionError::Escrow(EscrowError::Unauthorized))
        } else if derived_address(vault_seeds_of(self.buyer@, escrow_id), self.escrow.vault_bump, program_id)
            != Some(self.vault_key@) {
            Some(InstructionError::ConstraintSeeds)
        } else {
            None
        }
    }

    /// Checks the account constraints, in the order in which they are
    /// declared.
    pub fn validate(&self, escrow_id: u64, program_id: &Address) -> (r: Result<(), InstructionError>)
        ensures
            match self.accounts_error(escrow_id, program_id@) {
                Some(e) => r == Err::<(), InstructionError>(e),
                None => r is Ok,
            },
    {
        check_address(&self.escrow_key, &escrow_seeds(&self.buyer, escrow_id), self.escrow.escrow_bump, program_id)?;
        if !self.escrow.buyer.same_as(&self.buyer) {
            return Err(InstructionError::Escrow(EscrowError::Unauthorized));
        }
        check_address(&self.vault_key, &vault_seeds(&self.buyer, escrow_id), self.escrow.vault_bump, program_id)?;
        Ok(())
    }
}

/// What a deposit does to its accounts: only an active escrow can be
/// funded, and only by its buyer; it becomes funded, and the buyer owes
/// the vault the escrowed amount, which is the second part of the result.
pub open spec fn deposit_outcome(ctx: Deposit) -> Result<(Deposit, u64), EscrowError> {
    if ctx.escrow.state != EscrowState::Active {
        Err(EscrowError::InvalidState)
    } else if ctx.buyer@ != ctx.escrow.buyer@ {
        Err(EscrowError::Unauthorized)
    } else {
        Ok((Deposit { escrow: ctx.escrow.with_state(EscrowState::Funded), ..ctx }, ctx.escrow.amount))
    }
}

/// The whole deposit instruction: the account constraints, then the
/// handler.
pub open spec fn deposit_instruction(ctx: Context<Deposit>, escrow_id: u64) -> Result<
    (Context<Deposit>, u64),
    InstructionError,
> {
    match ctx.accounts.accounts_error(escrow_id, ctx.program_id@) {
        Some(e) => Err(e),
        None => match deposit_outcome(ctx.accounts) {
            Ok((accounts, amount)) => Ok((Context { accounts: accounts, ..ctx }, amount)),
            Err(e) => Err(InstructionError::Escrow(e)),
        },
    }
}

/// Funds an escrow. Decides the deposit and moves the escrow to `Funded`;
/// the result is the number of lamports that the buyer must transfer to
/// the vault in the same transaction. On an error nothing changes.
pub fn handler(ctx: &mut Deposit, _escrow_id: u64) -> (r: Result<u64, EscrowError>)
    ensures
        match deposit_outcome(*old(ctx)) {
            Ok((accounts, amount)) => r == Ok::<u64, EscrowError>(amount) && *final(ctx) == accounts,
            Err(e) => r == Err::<u64, EscrowError>(e) && *final(ctx) == *old(ctx),
        },
{
    if ctx.escrow.state != EscrowState::Active {
        return Err(EscrowError::InvalidState);
    }
    if !ctx.buyer.same_as(&ctx.escrow.buyer) {
        return Err(EscrowError::Unauthorized);
    }
    let amount = ctx.escrow.amount;
    ctx.escrow.state = EscrowState::Funded;
    Ok(amount)
}

} // verus!
