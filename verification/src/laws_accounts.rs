//! Properties of the account checks, of the derivation of addresses and of
//! the error codes, stated over the derived addresses of the seeds.
use vstd::prelude::*;
use vstd::bytes::spec_u64_to_le_bytes;

use crate::context::Context;
use crate::errors::{error_code, error_message, error_name, EscrowError, InstructionError};
use crate::state::{EscrowAccount, VaultAccount, MAX_DESCRIPTION};
use crate::events::{EscrowClosed, EscrowDisputed, EscrowRefunded, EscrowReleased};
use crate::instructions::close::{close_instruction, close_outcome, CloseEscrow};
use crate::instructions::deposit::{deposit_instruction, deposit_outcome, Deposit};
use crate::instructions::dispute::{dispute_instruction, dispute_outcome, Dispute};
use crate::instructions::initialize::{InitializeEscrow, InitializeEscrowBumps};
use crate::instructions::refund::{refund_instruction, refund_outcome, Refund};
use crate::instructions::release::{release_instruction, release_outcome, Release};
use crate::pda::{
    canonical_address, derived_address, escrow_seeds_of, new_address_check, program_address,
    vault_seeds_of,
};

verus! {

/// Whether `key` is the address that `seeds` followed by the one-byte seed
/// `bump` derive for `program_id`.
pub open spec fn derives(seeds: Seq<Seq<u8>>, bump: u8, program_id: Seq<u8>, key: Seq<u8>) -> bool {
    program_address(seeds.push(seq![bump]), program_id) == Some(key)
}

/// The seeds of an escrow are the bytes of "escrow", the buyer's key and the
/// id in eight little-endian bytes; those of a vault start with "vault".
pub proof fn lemma_seed_layout(buyer: Seq<u8>, escrow_id: u64)
    ensures
        escrow_seeds_of(buyer, escrow_id) == seq![
            seq![101u8, 115u8, 99u8, 114u8, 111u8, 119u8],
            buyer,
            spec_u64_to_le_bytes(escrow_id),
        ],
        vault_seeds_of(buyer, escrow_id) == seq![
            seq![118u8, 97u8, 117u8, 108u8, 116u8],
            buyer,
            spec_u64_to_le_bytes(escrow_id),
        ],
{
    assert(escrow_seeds_of(buyer, escrow_id) =~= seq![
        seq![101u8, 115u8, 99u8, 114u8, 111u8, 119u8],
        buyer,
        spec_u64_to_le_bytes(escrow_id),
    ]);
    assert(vault_seeds_of(buyer, escrow_id) =~= seq![
        seq![118u8, 97u8, 117u8, 108u8, 116u8],
        buyer,
        spec_u64_to_le_bytes(escrow_id),
    ]);
}

/// The canonical address of a list of seeds is the one of the largest bump,
/// from 255 down to 1, that derives an address; there is none when no bump
/// does. An account to be created passes its check exactly when it sits at
/// the canonical address, and the check then gives the canonical bump.
pub proof fn lemma_canonical_address_answers(
    seeds: Seq<Seq<u8>>,
    program_id: Seq<u8>,
    key: Seq<u8>,
    bump: u8,
)
    ensures
        (1 <= bump && derives(seeds, bump, program_id, key) && forall|c: u8|
            bump < c ==> (#[trigger] program_address(seeds.push(seq![c]), program_id)) is None)
            ==> canonical_address(seeds, program_id) == Some((key, bump)),
        canonical_address(seeds, program_id) == Some((key, bump)) ==> 1 <= bump && derives(
            seeds,
            bump,
            program_id,
            key,
        ),
        (forall|c: u8| 1 <= c ==> (#[trigger] program_address(seeds.push(seq![c]), program_id)) is None)
            ==> canonical_address(seeds, program_id) is None,
        new_address_check(key, seeds, program_id) == Ok::<u8, InstructionError>(bump) <==> canonical_address(
            seeds,
            program_id,
        ) == Some((key, bump)),
        new_address_check(key, seeds, program_id) is Err ==> new_address_check(key, seeds, program_id)
            == Err::<u8, InstructionError>(InstructionError::ConstraintSeeds),
{
    if 1 <= bump && derives(seeds, bump, program_id, key) && forall|c: u8|
        bump < c ==> (#[trigger] program_address(seeds.push(seq![c]), program_id)) is None {
        assert forall|c: u8| bump < c implies (#[trigger] derived_address(seeds, c, program_id)) is None by {
            assert(program_address(seeds.push(seq![c]), program_id) is None);
        }
        assert(crate::pda::is_canonical_bump(seeds, program_id, bump));
        let b = choose|b: u8| crate::pda::is_canonical_bump(seeds, program_id, b);
        crate::pda::lemma_canonical_bump_unique(seeds, program_id, b, bump);
    }
    if canonical_address(seeds, program_id) is Some {
        let b = choose|b: u8| crate::pda::is_canonical_bump(seeds, program_id, b);
        assert(crate::pda::is_canonical_bump(seeds, program_id, b));
    }
    if forall|c: u8| 1 <= c ==> (#[trigger] program_address(seeds.push(seq![c]), program_id)) is None {
        assert forall|b: u8| !crate::pda::is_canonical_bump(seeds, program_id, b) by {
            if 1 <= b {
                assert(program_address(seeds.push(seq![b]), program_id) is None);
            }
        }
    }
}

/// The account checks of a deposit: the escrow must sit at the address
/// derived from the signing buyer, the id and its stored bump
/// (`ConstraintSeeds`); its record must name that buyer (`Unauthorized`);
/// the vault must sit at its own derived address (`ConstraintSeeds`). The
/// deposit then answers as its handler does.
pub proof fn lemma_deposit_accounts_answer(ctx: Context<Deposit>, escrow_id: u64)
    ensures
        ({
            let d = ctx.accounts;
            let pid = ctx.program_id@;
            let escrow_ok = derives(escrow_seeds_of(d.buyer@, escrow_id), d.escrow.escrow_bump, pid, d.escrow_key@);
            let vault_ok = derives(vault_seeds_of(d.buyer@, escrow_id), d.escrow.vault_bump, pid, d.vault_key@);
            &&& (!escrow_ok ==> deposit_instruction(ctx, escrow_id) matches Err(InstructionError::ConstraintSeeds))
            &&& (escrow_ok && d.escrow.buyer@ != d.buyer@ ==> deposit_instruction(ctx, escrow_id) matches Err(
                InstructionError::Escrow(EscrowError::Unauthorized),
            ))
            &&& (escrow_ok && d.escrow.buyer@ == d.buyer@ && !vault_ok ==> deposit_instruction(ctx, escrow_id) matches Err(
                InstructionError::ConstraintSeeds,
            ))
            &&& (escrow_ok && d.escrow.buyer@ == d.buyer@ && vault_ok ==> match deposit_outcome(d) {
                Ok((after, amount)) => deposit_instruction(ctx, escrow_id) == Ok::<
                    (Context<Deposit>, u64),
                    InstructionError,
                >((Context { program_id: ctx.program_id, accounts: after }, amount)),
                Err(e) => deposit_instruction(ctx, escrow_id) == Err::<(Context<Deposit>, u64), InstructionError>(
                    InstructionError::Escrow(e),
                ),
            })
        }),
{
}

/// The account checks of a release: the escrow and the vault must sit at
/// the addresses derived from the buyer that the record names, the id and
/// the stored bumps (`ConstraintSeeds`). The release then answers as its
/// handler does.
pub proof fn lemma_release_accounts_answer(ctx: Context<Release>, escrow_id: u64)
    ensures
        ({
            let a = ctx.accounts;
            let pid = ctx.program_id@;
            let escrow_ok = derives(escrow_seeds_of(a.escrow.buyer@, escrow_id), a.escrow.escrow_bump, pid, a.escrow_key@);
            let vault_ok = derives(vault_seeds_of(a.escrow.buyer@, escrow_id), a.escrow.vault_bump, pid, a.vault_key@);
            &&& (!(escrow_ok && vault_ok) ==> release_instruction(ctx, escrow_id) matches Err(
                InstructionError::ConstraintSeeds,
            ))
            &&& (escrow_ok && vault_ok ==> match release_outcome(a, escrow_id) {
                Ok((after, event)) => release_instruction(ctx, escrow_id) == Ok::<
                    (Context<Release>, EscrowReleased),
                    InstructionError,
                >((Context { program_id: ctx.program_id, accounts: after }, event)),
                Err(e) => release_instruction(ctx, escrow_id) == Err::<
                    (Context<Release>, EscrowReleased),
                    InstructionError,
                >(e),
            })
        }),
{
}

/// The account checks of a refund: the escrow and the vault must sit at the
/// addresses derived from the buyer that the record names, the id and the
/// stored bumps (`ConstraintSeeds`). The refund then answers as its handler
/// does.
pub proof fn lemma_refund_accounts_answer(ctx: Context<Refund>, escrow_id: u64)
    ensures
        ({
            let a = ctx.accounts;
            let pid = ctx.program_id@;
            let escrow_ok = derives(escrow_seeds_of(a.escrow.buyer@, escrow_id), a.escrow.escrow_bump, pid, a.escrow_key@);
            let vault_ok = derives(vault_seeds_of(a.escrow.buyer@, escrow_id), a.escrow.vault_bump, pid, a.vault_key@);
            &&& (!(escrow_ok && vault_ok) ==> refund_instruction(ctx, escrow_id) matches Err(
                InstructionError::ConstraintSeeds,
            ))
            &&& (escrow_ok && vault_ok ==> match refund_outcome(a, escrow_id) {
                Ok((after, event)) => refund_instruction(ctx, escrow_id) == Ok::<
                    (Context<Refund>, EscrowRefunded),
                    InstructionError,
                >((Context { program_id: ctx.program_id, accounts: after }, event)),
                Err(e) => refund_instruction(ctx, escrow_id) == Err::<
                    (Context<Refund>, EscrowRefunded),
                    InstructionError,
                >(e),
            })
        }),
{
}

/// The account check of a dispute: the escrow must sit at the address
/// derived from the buyer that its record names, the id and its stored
/// bump (`ConstraintSeeds`). The dispute then answers as its handler does.
pub proof fn lemma_dispute_accounts_answer(ctx: Context<Dispute>, escrow_id: u64)
    ensures
        ({
            let a = ctx.accounts;
            let escrow_ok = derives(
                escrow_seeds_of(a.escrow.buyer@, escrow_id),
                a.escrow.escrow_bump,
                ctx.program_id@,
                a.escrow_key@,
            );
            &&& (!escrow_ok ==> dispute_instruction(ctx, escrow_id) matches Err(InstructionError::ConstraintSeeds))
            &&& (escrow_ok ==> match dispute_outcome(a, escrow_id) {
                Ok((after, event)) => dispute_instruction(ctx, escrow_id) == Ok::<
                    (Context<Dispute>, EscrowDisputed),
                    InstructionError,
                >((Context { program_id: ctx.program_id, accounts: after }, event)),
                Err(e) => dispute_instruction(ctx, escrow_id) == Err::<
                    (Context<Dispute>, EscrowDisputed),
                    InstructionError,
                >(InstructionError::Escrow(e)),
            })
        }),
{
}

/// The account checks of a close: the escrow must sit at the address
/// derived from the signing buyer, the id and its stored bump
/// (`ConstraintSeeds`); its record must name that buyer (`Unauthorized`);
/// the vault must sit at its derived address (`ConstraintSeeds`). The close
/// then answers as its handler does.
pub proof fn lemma_close_accounts_answer(ctx: Context<CloseEscrow>, escrow_id: u64)
    ensures
        ({
            let c = ctx.accounts;
            let pid = ctx.program_id@;
            let escrow_ok = derives(escrow_seeds_of(c.buyer@, escrow_id), c.escrow.escrow_bump, pid, c.escrow_key@);
            let vault_ok = derives(vault_seeds_of(c.buyer@, escrow_id), c.escrow.vault_bump, pid, c.vault_key@);
            &&& (!escrow_ok ==> close_instruction(ctx, escrow_id) matches Err(InstructionError::ConstraintSeeds))
            &&& (escrow_ok && c.escrow.buyer@ != c.buyer@ ==> close_instruction(ctx, escrow_id) matches Err(
                InstructionError::Escrow(EscrowError::Unauthorized),
            ))
            &&& (escrow_ok && c.escrow.buyer@ == c.buyer@ && !vault_ok ==> close_instruction(ctx, escrow_id) matches Err(
                InstructionError::ConstraintSeeds,
            ))
            &&& (escrow_ok && c.escrow.buyer@ == c.buyer@ && vault_ok ==> match close_outcome(c, escrow_id) {
                Ok(event) => close_instruction(ctx, escrow_id) == Ok::<EscrowClosed, InstructionError>(event),
                Err(e) => close_instruction(ctx, escrow_id) == Err::<EscrowClosed, InstructionError>(
                    InstructionError::Escrow(e),
                ),
            })
        }),
{
}

/// The account checks of a new escrow: the escrow, then the vault, must be
/// created at the canonical address of its seeds from the signing buyer and
/// the id; the checks give the two canonical bumps, and fail with
/// `ConstraintSeeds` otherwise.
pub proof fn lemma_initialize_accounts_answer(
    ctx: InitializeEscrow,
    escrow_id: u64,
    program_id: Seq<u8>,
    bumps: InitializeEscrowBumps,
)
    ensures
        ctx.accounts_outcome(escrow_id, program_id) == Ok::<InitializeEscrowBumps, InstructionError>(bumps)
            <==> canonical_address(escrow_seeds_of(ctx.buyer@, escrow_id), program_id) == Some(
            (ctx.escrow_key@, bumps.escrow),
        ) && canonical_address(vault_seeds_of(ctx.buyer@, escrow_id), program_id) == Some(
            (ctx.vault_key@, bumps.vault),
        ),
        ctx.accounts_outcome(escrow_id, program_id) is Err ==> ctx.accounts_outcome(escrow_id, program_id)
            == Err::<InitializeEscrowBumps, InstructionError>(InstructionError::ConstraintSeeds),
{
}

/// Each error has the code of its place in the list, from 6000 on.
pub proof fn lemma_error_code_of_each_error()
    ensures
        error_code(EscrowError::DescriptionTooLong) == 6000,
        error_code(EscrowError::InvalidAmount) == 6001,
        error_code(EscrowError::BuyerCannotBeSeller) == 6002,
        error_code(EscrowError::InvalidArbiter) == 6003,
        error_code(EscrowError::Unauthorized) == 6004,
        error_code(EscrowError::InvalidState) == 6005,
        error_code(EscrowError::InvalidSeller) == 6006,
        error_code(EscrowError::InvalidBuyer) == 6007,
        error_code(EscrowError::EscrowNotSettled) == 6008,
{
}

/// Each error reaches the client under the name of its variant and with
/// its own message.
pub proof fn lemma_error_names_and_messages()
    ensures
        error_name(EscrowError::DescriptionTooLong) == "DescriptionTooLong"@,
        error_name(EscrowError::InvalidAmount) == "InvalidAmount"@,
        error_name(EscrowError::BuyerCannotBeSeller) == "BuyerCannotBeSeller"@,
        error_name(EscrowError::InvalidArbiter) == "InvalidArbiter"@,
        error_name(EscrowError::Unauthorized) == "Unauthorized"@,
        error_name(EscrowError::InvalidState) == "InvalidState"@,
        error_name(EscrowError::InvalidSeller) == "InvalidSeller"@,
        error_name(EscrowError::InvalidBuyer) == "InvalidBuyer"@,
        error_name(EscrowError::EscrowNotSettled) == "EscrowNotSettled"@,
        error_message(EscrowError::DescriptionTooLong) == "Description exceeds 200 character limit"@,
        error_message(EscrowError::InvalidAmount) == "Escrow amount must be greater than zero"@,
        error_message(EscrowError::BuyerCannotBeSeller) == "Buyer and seller must be different accounts"@,
        error_message(EscrowError::InvalidArbiter) == "Arbiter must be different from buyer and seller"@,
        error_message(EscrowError::Unauthorized) == "Caller is not authorized to perform this action"@,
        error_message(EscrowError::InvalidState) == "Escrow is not in the required state for this operation"@,
        error_message(EscrowError::InvalidSeller) == "Provided seller account does not match escrow record"@,
        error_message(EscrowError::InvalidBuyer) == "Provided buyer account does not match escrow record"@,
        error_message(EscrowError::EscrowNotSettled) == "Escrow must be in Released or Refunded state to close"@,
{
}

/// The limits of the accounts: a description of at most 200 bytes, an
/// escrow account of 335 bytes, a vault of 8.
pub proof fn lemma_account_limits()
    ensures
        MAX_DESCRIPTION == 200,
        EscrowAccount::SIZE == 335,
        VaultAccount::SIZE == 8,
{
}

} // verus!
