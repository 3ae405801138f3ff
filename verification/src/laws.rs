//! Properties of the escrow program as a whole, over the outcomes of its
//! instructions.
use vstd::prelude::*;
use vstd::bytes::{lemma_auto_spec_u64_to_from_le_bytes, spec_u64_from_le_bytes, spec_u64_to_le_bytes};

use crate::address::Address;
use crate::errors::{error_code, EscrowError, InstructionError, ERROR_CODE_OFFSET};
use crate::events::{EscrowClosed, EscrowCreated, EscrowDisputed, EscrowRefunded, EscrowReleased};
use crate::instructions::close::{close_outcome, CloseEscrow};
use crate::instructions::deposit::{deposit_outcome, Deposit};
use crate::instructions::dispute::{dispute_outcome, Dispute};
use crate::instructions::initialize::{initialize_outcome, InitializeEscrow, InitializeEscrowBumps};
use crate::instructions::refund::{refund_outcome, Refund};
use crate::instructions::release::{release_outcome, Release};
use crate::pda::{escrow_seeds_of, vault_seeds_of};
use crate::state::{holds_funds, is_settled, state_rank, utf8_len, EscrowAccount, EscrowState};

verus! {

/// The edges of the escrow's lifecycle.
pub open spec fn is_lifecycle_step(from: EscrowState, to: EscrowState) -> bool {
    ||| from == EscrowState::Active && to == EscrowState::Funded
    ||| from == EscrowState::Funded && to == EscrowState::Released
    ||| from == EscrowState::Funded && to == EscrowState::Refunded
    ||| from == EscrowState::Funded && to == EscrowState::Disputed
    ||| from == EscrowState::Disputed && to == EscrowState::Released
    ||| from == EscrowState::Disputed && to == EscrowState::Refunded
}

/// Every instruction that succeeds moves the escrow along an edge of its
/// lifecycle (active, funded, disputed, then released or refunded), so the
/// escrow only goes forward and reaches a settled state after at most three
/// state changes; a new escrow starts active.
pub proof fn lemma_instructions_follow_the_lifecycle(
    d: Deposit,
    rl: Release,
    rf: Refund,
    ds: Dispute,
    escrow_id: u64,
)
    ensures
        deposit_outcome(d) matches Ok((after, _)) ==> is_lifecycle_step(d.escrow.state, after.escrow.state)
            && state_rank(after.escrow.state) > state_rank(d.escrow.state),
        release_outcome(rl, escrow_id) matches Ok((after, _)) ==> is_lifecycle_step(
            rl.escrow.state,
            after.escrow.state,
        ) && state_rank(after.escrow.state) > state_rank(rl.escrow.state),
        refund_outcome(rf, escrow_id) matches Ok((after, _)) ==> is_lifecycle_step(
            rf.escrow.state,
            after.escrow.state,
        ) && state_rank(after.escrow.state) > state_rank(rf.escrow.state),
        dispute_outcome(ds, escrow_id) matches Ok((after, _)) ==> is_lifecycle_step(
            ds.escrow.state,
            after.escrow.state,
        ) && state_rank(after.escrow.state) > state_rank(ds.escrow.state),
        forall|s: EscrowState| state_rank(s) <= 3,
{
}

/// A new escrow is active, and a valid record: positive amount, a
/// description that fits, three distinct parties.
pub proof fn lemma_new_escrow_is_valid(
    ctx: InitializeEscrow,
    bumps: InitializeEscrowBumps,
    escrow_id: u64,
    seller: Address,
    arbiter: Address,
    amount: u64,
    description: String,
    now: i64,
)
    ensures
        initialize_outcome(ctx, bumps, escrow_id, seller, arbiter, amount, description, now) matches Ok(
            (escrow, _),
        ) ==> escrow.is_valid() && escrow.state == EscrowState::Active,
{
}

/// No instruction changes an escrow record but for its state, so every
/// record stays valid.
pub proof fn lemma_instructions_keep_the_record(
    d: Deposit,
    rl: Release,
    rf: Refund,
    ds: Dispute,
    escrow_id: u64,
)
    ensures
        deposit_outcome(d) matches Ok((after, _)) ==> after.escrow == d.escrow.with_state(
            after.escrow.state,
        ) && (d.escrow.is_valid() ==> after.escrow.is_valid()),
        release_outcome(rl, escrow_id) matches Ok((after, _)) ==> after.escrow == rl.escrow.with_state(
            after.escrow.state,
        ) && (rl.escrow.is_valid() ==> after.escrow.is_valid()),
        refund_outcome(rf, escrow_id) matches Ok((after, _)) ==> after.escrow == rf.escrow.with_state(
            after.escrow.state,
        ) && (rf.escrow.is_valid() ==> after.escrow.is_valid()),
        dispute_outcome(ds, escrow_id) matches Ok((after, _)) ==> after.escrow == ds.escrow.with_state(
            after.escrow.state,
        ) && (ds.escrow.is_valid() ==> after.escrow.is_valid()),
{
}

/// A settled escrow is final: deposit, release, refund and dispute are all
/// turned down with `InvalidState`.
pub proof fn lemma_settled_escrow_is_final(d: Deposit, rl: Release, rf: Refund, ds: Dispute, escrow_id: u64)
    requires
        is_settled(d.escrow.state),
        is_settled(rl.escrow.state),
        is_settled(rf.escrow.state),
        is_settled(ds.escrow.state),
    ensures
        deposit_outcome(d) == Err::<(Deposit, u64), EscrowError>(EscrowError::InvalidState),
        release_outcome(rl, escrow_id) matches Err(InstructionError::Escrow(EscrowError::InvalidState)),
        refund_outcome(rf, escrow_id) matches Err(InstructionError::Escrow(EscrowError::InvalidState)),
        dispute_outcome(ds, escrow_id) matches Err(EscrowError::InvalidState),
{
}

/// Every instruction that succeeds was asked by a party entitled to it:
/// the buyer deposits; the buyer or the arbiter releases; the seller or the
/// arbiter refunds; the arbiter alone releases or refunds a disputed
/// escrow; the buyer or the seller disputes; the buyer closes.
pub proof fn lemma_only_entitled_parties_act(
    d: Deposit,
    rl: Release,
    rf: Refund,
    ds: Dispute,
    c: CloseEscrow,
    escrow_id: u64,
)
    ensures
        deposit_outcome(d) is Ok ==> d.buyer@ == d.escrow.buyer@,
        release_outcome(rl, escrow_id) is Ok ==> (rl.caller@ == rl.escrow.buyer@ || rl.caller@
            == rl.escrow.arbiter@),
        release_outcome(rl, escrow_id) is Ok && rl.escrow.state == EscrowState::Disputed
            ==> rl.caller@ == rl.escrow.arbiter@,
        refund_outcome(rf, escrow_id) is Ok ==> (rf.caller@ == rf.escrow.seller@ || rf.caller@
            == rf.escrow.arbiter@),
        refund_outcome(rf, escrow_id) is Ok && rf.escrow.state == EscrowState::Disputed
            ==> rf.caller@ == rf.escrow.arbiter@,
        dispute_outcome(ds, escrow_id) is Ok ==> (ds.caller@ == ds.escrow.buyer@ || ds.caller@
            == ds.escrow.seller@),
        close_outcome(c, escrow_id) is Ok ==> c.buyer@ == c.escrow.buyer@ && is_settled(c.escrow.state),
{
}

/// Someone who is neither the buyer, the seller nor the arbiter of an
/// escrow can change nothing about it: every instruction that they sign is
/// turned down.
pub proof fn lemma_outsider_changes_nothing(
    d: Deposit,
    rl: Release,
    rf: Refund,
    ds: Dispute,
    c: CloseEscrow,
    escrow_id: u64,
)
    requires
        d.buyer@ != d.escrow.buyer@,
        rl.caller@ != rl.escrow.buyer@ && rl.caller@ != rl.escrow.seller@ && rl.caller@
            != rl.escrow.arbiter@,
        rf.caller@ != rf.escrow.buyer@ && rf.caller@ != rf.escrow.seller@ && rf.caller@
            != rf.escrow.arbiter@,
        ds.caller@ != ds.escrow.buyer@ && ds.caller@ != ds.escrow.seller@ && ds.caller@
            != ds.escrow.arbiter@,
        c.buyer@ != c.escrow.buyer@,
    ensures
        deposit_outcome(d) is Err,
        release_outcome(rl, escrow_id) is Err,
        refund_outcome(rf, escrow_id) is Err,
        dispute_outcome(ds, escrow_id) is Err,
        close_outcome(c, escrow_id) is Err,
{
}

/// A deposit asks the buyer for exactly the escrowed amount.
pub proof fn lemma_deposit_asks_for_the_amount(d: Deposit)
    ensures
        deposit_outcome(d) matches Ok((_, amount)) ==> amount == d.escrow.amount,
{
}

/// A release moves exactly the escrowed amount from the vault to the
/// seller and no lamport is created or lost; when the seller's account is
/// the vault itself, its balance is unchanged.
pub proof fn lemma_release_moves_the_amount(rl: Release, escrow_id: u64)
    ensures
        release_outcome(rl, escrow_id) matches Ok((after, event)) ==> {
            &&& event.amount == rl.escrow.amount
            &&& rl.seller@ != rl.vault_key@ ==> {
                &&& after.vault_lamports == rl.vault_lamports - rl.escrow.amount
                &&& after.seller_lamports == rl.seller_lamports + rl.escrow.amount
                &&& after.vault_lamports + after.seller_lamports == rl.vault_lamports + rl.seller_lamports
            }
            &&& rl.seller@ == rl.vault_key@ ==> after.vault_lamports == rl.vault_lamports
        },
{
}

/// A refund moves exactly the escrowed amount from the vault to the buyer
/// and no lamport is created or lost; when the buyer's account is the vault
/// itself, its balance is unchanged.
pub proof fn lemma_refund_moves_the_amount(rf: Refund, escrow_id: u64)
    ensures
        refund_outcome(rf, escrow_id) matches Ok((after, event)) ==> {
            &&& event.amount == rf.escrow.amount
            &&& rf.buyer@ != rf.vault_key@ ==> {
                &&& after.vault_lamports == rf.vault_lamports - rf.escrow.amount
                &&& after.buyer_lamports == rf.buyer_lamports + rf.escrow.amount
                &&& after.vault_lamports + after.buyer_lamports == rf.vault_lamports + rf.buyer_lamports
            }
            &&& rf.buyer@ == rf.vault_key@ ==> after.vault_lamports == rf.vault_lamports
        },
{
}

/// Funds leave the vault only from an escrow that holds them, and a
/// dispute leaves them in the vault.
pub proof fn lemma_funds_leave_only_a_funded_escrow(rl: Release, rf: Refund, ds: Dispute, escrow_id: u64)
    ensures
        release_outcome(rl, escrow_id) is Ok ==> holds_funds(rl.escrow.state),
        refund_outcome(rf, escrow_id) is Ok ==> holds_funds(rf.escrow.state),
        dispute_outcome(ds, escrow_id) matches Ok((after, _)) ==> holds_funds(after.escrow.state),
{
}

/// Each buyer and id derive their own escrow seeds and their own vault
/// seeds: two escrows with the same seeds have the same buyer and id.
pub proof fn lemma_seeds_identify_the_escrow(buyer1: Seq<u8>, id1: u64, buyer2: Seq<u8>, id2: u64)
    ensures
        escrow_seeds_of(buyer1, id1) == escrow_seeds_of(buyer2, id2) ==> buyer1 == buyer2 && id1 == id2,
        vault_seeds_of(buyer1, id1) == vault_seeds_of(buyer2, id2) ==> buyer1 == buyer2 && id1 == id2,
{
    lemma_auto_spec_u64_to_from_le_bytes();
    if escrow_seeds_of(buyer1, id1) == escrow_seeds_of(buyer2, id2) {
        assert(escrow_seeds_of(buyer1, id1)[1] == buyer1);
        assert(escrow_seeds_of(buyer1, id1)[2] == spec_u64_to_le_bytes(id1));
        assert(spec_u64_from_le_bytes(spec_u64_to_le_bytes(id1)) == id1);
        assert(spec_u64_from_le_bytes(spec_u64_to_le_bytes(id2)) == id2);
    }
    if vault_seeds_of(buyer1, id1) == vault_seeds_of(buyer2, id2) {
        assert(vault_seeds_of(buyer1, id1)[1] == buyer1);
        assert(vault_seeds_of(buyer1, id1)[2] == spec_u64_to_le_bytes(id1));
        assert(spec_u64_from_le_bytes(spec_u64_to_le_bytes(id1)) == id1);
        assert(spec_u64_from_le_bytes(spec_u64_to_le_bytes(id2)) == id2);
    }
}

/// The seeds of an escrow account never equal the seeds of a vault
/// account, whatever the buyers and ids.
pub proof fn lemma_escrow_and_vault_seeds_differ(buyer1: Seq<u8>, id1: u64, buyer2: Seq<u8>, id2: u64)
    ensures
        escrow_seeds_of(buyer1, id1) != vault_seeds_of(buyer2, id2),
{
    assert(escrow_seeds_of(buyer1, id1)[0].len() != vault_seeds_of(buyer2, id2)[0].len());
}

/// Every valid record fits in the space that an escrow account is
/// created with, and the space is 335 bytes.
pub proof fn lemma_valid_record_fits_its_account(escrow: EscrowAccount)
    requires
        escrow.is_valid(),
    ensures
        escrow.stored_size() <= EscrowAccount::SIZE,
        EscrowAccount::SIZE == 335,
{
}

/// Distinct errors reach the client under distinct codes, all from the
/// program's own offset on.
pub proof fn lemma_error_codes_are_distinct(e1: EscrowError, e2: EscrowError)
    ensures
        e1 != e2 ==> error_code(e1) != error_code(e2),
        ERROR_CODE_OFFSET <= error_code(e1) <= ERROR_CODE_OFFSET + 8,
{
}

/// Whether `caller` may release the funds of `escrow`: the buyer or the
/// arbiter of a funded escrow, the arbiter alone of a disputed one.
pub open spec fn release_allowed(escrow: EscrowAccount, caller: Seq<u8>) -> bool {
    ||| escrow.state == EscrowState::Funded && (caller == escrow.buyer@ || caller == escrow.arbiter@)
    ||| escrow.state == EscrowState::Disputed && caller == escrow.arbiter@
}

/// Whether `caller` may refund the funds of `escrow`: the seller or the
/// arbiter of a funded escrow, the arbiter alone of a disputed one.
pub open spec fn refund_allowed(escrow: EscrowAccount, caller: Seq<u8>) -> bool {
    ||| escrow.state == EscrowState::Funded && (caller == escrow.seller@ || caller == escrow.arbiter@)
    ||| escrow.state == EscrowState::Disputed && caller == escrow.arbiter@
}

/// What a release answers, for every set of accounts. An escrow that is
/// neither funded nor disputed is refused with `InvalidState`; a caller who
/// may not release with `Unauthorized`; a receiving account other than the
/// recorded seller with `InvalidSeller`; a vault short of the amount, or a
/// seller balance that would overflow, with `ArithmeticOverflow`. Otherwise
/// the release succeeds: the escrow becomes `Released` with its record
/// otherwise intact, exactly the amount goes from the vault to the seller
/// (whose account may be the vault itself), and the event names the id,
/// the seller, the amount and the caller.
pub proof fn lemma_release_answers(rl: Release, escrow_id: u64)
    ensures
        !(rl.escrow.state == EscrowState::Funded || rl.escrow.state == EscrowState::Disputed)
            ==> release_outcome(rl, escrow_id) matches Err(InstructionError::Escrow(EscrowError::InvalidState)),
        (rl.escrow.state == EscrowState::Funded || rl.escrow.state == EscrowState::Disputed) && !release_allowed(
            rl.escrow,
            rl.caller@,
        ) ==> release_outcome(rl, escrow_id) matches Err(InstructionError::Escrow(EscrowError::Unauthorized)),
        release_allowed(rl.escrow, rl.caller@) && rl.seller@ != rl.escrow.seller@
            ==> release_outcome(rl, escrow_id) matches Err(InstructionError::Escrow(EscrowError::InvalidSeller)),
        release_allowed(rl.escrow, rl.caller@) && rl.seller@ == rl.escrow.seller@ && rl.vault_lamports
            < rl.escrow.amount ==> release_outcome(rl, escrow_id) matches Err(InstructionError::ArithmeticOverflow),
        release_allowed(rl.escrow, rl.caller@) && rl.seller@ == rl.escrow.seller@ && rl.vault_lamports
            >= rl.escrow.amount && rl.seller@ != rl.vault_key@ && rl.seller_lamports + rl.escrow.amount
            > u64::MAX ==> release_outcome(rl, escrow_id) matches Err(InstructionError::ArithmeticOverflow),
        release_allowed(rl.escrow, rl.caller@) && rl.seller@ == rl.escrow.seller@ && rl.vault_lamports
            >= rl.escrow.amount && rl.seller@ != rl.vault_key@ && rl.seller_lamports + rl.escrow.amount
            <= u64::MAX ==> release_outcome(rl, escrow_id) == Ok::<(Release, EscrowReleased), InstructionError>(
            (
                Release {
                    escrow: EscrowAccount { state: EscrowState::Released, ..rl.escrow },
                    vault_lamports: (rl.vault_lamports - rl.escrow.amount) as u64,
                    seller_lamports: (rl.seller_lamports + rl.escrow.amount) as u64,
                    ..rl
                },
                EscrowReleased {
                    escrow_id: escrow_id,
                    seller: rl.escrow.seller,
                    amount: rl.escrow.amount,
                    released_by: rl.caller,
                },
            ),
        ),
        release_allowed(rl.escrow, rl.caller@) && rl.seller@ == rl.escrow.seller@ && rl.vault_lamports
            >= rl.escrow.amount && rl.seller@ == rl.vault_key@ ==> release_outcome(rl, escrow_id) == Ok::<
            (Release, EscrowReleased),
            InstructionError,
        >(
            (
                Release {
                    escrow: EscrowAccount { state: EscrowState::Released, ..rl.escrow },
                    seller_lamports: rl.vault_lamports,
                    ..rl
                },
                EscrowReleased {
                    escrow_id: escrow_id,
                    seller: rl.escrow.seller,
                    amount: rl.escrow.amount,
                    released_by: rl.caller,
                },
            ),
        ),
{
}

/// What a refund answers, for every set of accounts. An escrow that is
/// neither funded nor disputed is refused with `InvalidState`; a caller who
/// may not refund with `Unauthorized`; a receiving account other than the
/// recorded buyer with `InvalidBuyer`; a vault short of the amount, or a
/// buyer balance that would overflow, with `ArithmeticOverflow`. Otherwise
/// the refund succeeds: the escrow becomes `Refunded` with its record
/// otherwise intact, exactly the amount goes from the vault to the buyer
/// (whose account may be the vault itself), and the event names the id,
/// the buyer, the amount and the caller.
pub proof fn lemma_refund_answers(rf: Refund, escrow_id: u64)
    ensures
        !(rf.escrow.state == EscrowState::Funded || rf.escrow.state == EscrowState::Disputed)
            ==> refund_outcome(rf, escrow_id) matches Err(InstructionError::Escrow(EscrowError::InvalidState)),
        (rf.escrow.state == EscrowState::Funded || rf.escrow.state == EscrowState::Disputed) && !refund_allowed(
            rf.escrow,
            rf.caller@,
        ) ==> refund_outcome(rf, escrow_id) matches Err(InstructionError::Escrow(EscrowError::Unauthorized)),
        refund_allowed(rf.escrow, rf.caller@) && rf.buyer@ != rf.escrow.buyer@
            ==> refund_outcome(rf, escrow_id) matches Err(InstructionError::Escrow(EscrowError::InvalidBuyer)),
        refund_allowed(rf.escrow, rf.caller@) && rf.buyer@ == rf.escrow.buyer@ && rf.vault_lamports
            < rf.escrow.amount ==> refund_outcome(rf, escrow_id) matches Err(InstructionError::ArithmeticOverflow),
        refund_allowed(rf.escrow, rf.caller@) && rf.buyer@ == rf.escrow.buyer@ && rf.vault_lamports
            >= rf.escrow.amount && rf.buyer@ != rf.vault_key@ && rf.buyer_lamports + rf.escrow.amount
            > u64::MAX ==> refund_outcome(rf, escrow_id) matches Err(InstructionError::ArithmeticOverflow),
        refund_allowed(rf.escrow, rf.caller@) && rf.buyer@ == rf.escrow.buyer@ && rf.vault_lamports
            >= rf.escrow.amount && rf.buyer@ != rf.vault_key@ && rf.buyer_lamports + rf.escrow.amount
            <= u64::MAX ==> refund_outcome(rf, escrow_id) == Ok::<(Refund, EscrowRefunded), InstructionError>(
            (
                Refund {
                    escrow: EscrowAccount { state: EscrowState::Refunded, ..rf.escrow },
                    vault_lamports: (rf.vault_lamports - rf.escrow.amount) as u64,
                    buyer_lamports: (rf.buyer_lamports + rf.escrow.amount) as u64,
                    ..rf
                },
                EscrowRefunded {
                    escrow_id: escrow_id,
                    buyer: rf.escrow.buyer,
                    amount: rf.escrow.amount,
                    refunded_by: rf.caller,
                },
            ),
        ),
        refund_allowed(rf.escrow, rf.caller@) && rf.buyer@ == rf.escrow.buyer@ && rf.vault_lamports
            >= rf.escrow.amount && rf.buyer@ == rf.vault_key@ ==> refund_outcome(rf, escrow_id) == Ok::<
            (Refund, EscrowRefunded),
            InstructionError,
        >(
            (
                Refund {
                    escrow: EscrowAccount { state: EscrowState::Refunded, ..rf.escrow },
                    buyer_lamports: rf.vault_lamports,
                    ..rf
                },
                EscrowRefunded {
                    escrow_id: escrow_id,
                    buyer: rf.escrow.buyer,
                    amount: rf.escrow.amount,
                    refunded_by: rf.caller,
                },
            ),
        ),
{
}

/// What a dispute answers, for every set of accounts: an escrow that is not
/// funded is refused with `InvalidState`, a caller who is neither its buyer
/// nor its seller with `Unauthorized`; otherwise the escrow becomes
/// `Disputed` with its record otherwise intact, and the event names the id
/// and the caller.
pub proof fn lemma_dispute_answers(ds: Dispute, escrow_id: u64)
    ensures
        ds.escrow.state != EscrowState::Funded ==> dispute_outcome(ds, escrow_id) matches Err(
            EscrowError::InvalidState,
        ),
        ds.escrow.state == EscrowState::Funded && ds.caller@ != ds.escrow.buyer@ && ds.caller@
            != ds.escrow.seller@ ==> dispute_outcome(ds, escrow_id) matches Err(EscrowError::Unauthorized),
        ds.escrow.state == EscrowState::Funded && (ds.caller@ == ds.escrow.buyer@ || ds.caller@
            == ds.escrow.seller@) ==> dispute_outcome(ds, escrow_id) == Ok::<(Dispute, EscrowDisputed), EscrowError>(
            (
                Dispute { escrow: EscrowAccount { state: EscrowState::Disputed, ..ds.escrow }, ..ds },
                EscrowDisputed { escrow_id: escrow_id, disputed_by: ds.caller },
            ),
        ),
{
}

/// What a deposit answers, for every set of accounts: an escrow that is not
/// active is refused with `InvalidState`, a signer who is not its buyer with
/// `Unauthorized`; otherwise the escrow becomes `Funded` with its record
/// otherwise intact, and the buyer owes the vault exactly the amount.
pub proof fn lemma_deposit_answers(d: Deposit)
    ensures
        d.escrow.state != EscrowState::Active ==> deposit_outcome(d) matches Err(EscrowError::InvalidState),
        d.escrow.state == EscrowState::Active && d.buyer@ != d.escrow.buyer@ ==> deposit_outcome(d) matches Err(
            EscrowError::Unauthorized,
        ),
        d.escrow.state == EscrowState::Active && d.buyer@ == d.escrow.buyer@ ==> deposit_outcome(d) == Ok::<
            (Deposit, u64),
            EscrowError,
        >(
            (
                Deposit { escrow: EscrowAccount { state: EscrowState::Funded, ..d.escrow }, ..d },
                d.escrow.amount,
            ),
        ),
{
}

/// What a close answers, for every set of accounts: an escrow that is
/// neither released nor refunded is refused with `EscrowNotSettled`, a
/// signer who is not its buyer with `Unauthorized`; otherwise the close
/// succeeds, and the event names the id, the buyer, and as rent reclaimed
/// the lamports of the escrow account and the vault together.
pub proof fn lemma_close_answers(c: CloseEscrow, escrow_id: u64)
    ensures
        !(c.escrow.state == EscrowState::Released || c.escrow.state == EscrowState::Refunded)
            ==> close_outcome(c, escrow_id) matches Err(EscrowError::EscrowNotSettled),
        (c.escrow.state == EscrowState::Released || c.escrow.state == EscrowState::Refunded) && c.buyer@
            != c.escrow.buyer@ ==> close_outcome(c, escrow_id) matches Err(EscrowError::Unauthorized),
        (c.escrow.state == EscrowState::Released || c.escrow.state == EscrowState::Refunded) && c.buyer@
            == c.escrow.buyer@ && c.escrow_lamports + c.vault_lamports <= u64::MAX ==> close_outcome(c, escrow_id)
            == Ok::<EscrowClosed, EscrowError>(
            EscrowClosed {
                escrow_id: escrow_id,
                rent_reclaimed: (c.escrow_lamports + c.vault_lamports) as u64,
                closed_by: c.buyer,
            },
        ),
{
}

/// What the creation of an escrow answers, for every agreement: a
/// description longer than 200 bytes is refused with `DescriptionTooLong`,
/// a zero amount with `InvalidAmount`, a seller who is the buyer with
/// `BuyerCannotBeSeller`, an arbiter who is the buyer or the seller with
/// `InvalidArbiter`. Every other agreement, whatever its positive amount,
/// is accepted: the record holds exactly the inputs, is active, carries the
/// creation time and the bumps, and the event repeats the agreement.
pub proof fn lemma_initialize_answers(
    ctx: InitializeEscrow,
    bumps: InitializeEscrowBumps,
    escrow_id: u64,
    seller: Address,
    arbiter: Address,
    amount: u64,
    description: String,
    now: i64,
)
    ensures
        utf8_len(description@) > 200 ==> initialize_outcome(
            ctx,
            bumps,
            escrow_id,
            seller,
            arbiter,
            amount,
            description,
            now,
        ) matches Err(EscrowError::DescriptionTooLong),
        utf8_len(description@) <= 200 && amount == 0 ==> initialize_outcome(
            ctx,
            bumps,
            escrow_id,
            seller,
            arbiter,
            amount,
            description,
            now,
        ) matches Err(EscrowError::InvalidAmount),
        utf8_len(description@) <= 200 && amount > 0 && seller@ == ctx.buyer@ ==> initialize_outcome(
            ctx,
            bumps,
            escrow_id,
            seller,
            arbiter,
            amount,
            description,
            now,
        ) matches Err(EscrowError::BuyerCannotBeSeller),
        utf8_len(description@) <= 200 && amount > 0 && seller@ != ctx.buyer@ && (arbiter@ == ctx.buyer@
            || arbiter@ == seller@) ==> initialize_outcome(
            ctx,
            bumps,
            escrow_id,
            seller,
            arbiter,
            amount,
            description,
            now,
        ) matches Err(EscrowError::InvalidArbiter),
        utf8_len(description@) <= 200 && amount > 0 && seller@ != ctx.buyer@ && arbiter@ != ctx.buyer@
            && arbiter@ != seller@ ==> initialize_outcome(
            ctx,
            bumps,
            escrow_id,
            seller,
            arbiter,
            amount,
            description,
            now,
        ) == Ok::<(EscrowAccount, EscrowCreated), EscrowError>(
            (
                EscrowAccount {
                    escrow_id: escrow_id,
                    buyer: ctx.buyer,
                    seller: seller,
                    arbiter: arbiter,
                    amount: amount,
                    description: description,
                    state: EscrowState::Active,
                    created_at: now,
                    escrow_bump: bumps.escrow,
                    vault_bump: bumps.vault,
                },
                EscrowCreated {
                    escrow_id: escrow_id,
                    buyer: ctx.buyer,
                    seller: seller,
                    arbiter: arbiter,
                    amount: amount,
                },
            ),
        ),
{
}

} // verus!
