use vstd::prelude::*;
use vstd::utf8::encode_utf8;

use crate::address::Address;

verus! {

/// The longest description, in bytes, that an escrow may carry.
pub const MAX_DESCRIPTION: usize = 200;

/// The seed that starts the derivation of every escrow account: `"escrow"`.
pub open spec fn escrow_seed_bytes() -> Seq<u8> {
    seq![101u8, 115u8, 99u8, 114u8, 111u8, 119u8]
}

/// The seed that starts the derivation of every vault account: `"vault"`.
pub open spec fn vault_seed_bytes() -> Seq<u8> {
    seq![118u8, 97u8, 117u8, 108u8, 116u8]
}

/// The bytes of `"escrow"`.
pub fn escrow_seed() -> (r: Vec<u8>)
    ensures
        r@ == escrow_seed_bytes(),
{
    let r: Vec<u8> = vec![101u8, 115u8, 99u8, 114u8, 111u8, 119u8];
    assert(r@ =~= escrow_seed_bytes());
    r
}

/// The bytes of `"vault"`.
pub fn vault_seed() -> (r: Vec<u8>)
    ensures
        r@ == vault_seed_bytes(),
{
    let r: Vec<u8> = vec![118u8, 97u8, 117u8, 108u8, 116u8];
    assert(r@ =~= vault_seed_bytes());
    r
}

/// The length in bytes of a text once it is encoded in UTF-8.
pub open spec fn utf8_len(text: Seq<char>) -> usize {
    encode_utf8(text).len() as usize
}

/// Lifecycle states of an escrow, a finite state machine:
///
/// ```text
///   Active ──deposit──► Funded ──release──► Released
///                         │  ──refund───► Refunded
///                         └──dispute──► Disputed ──release/refund (arbiter)──►
/// ```
#[derive(Clone, Copy, Debug, PartialEq, Eq, Structural)]
pub enum EscrowState {
    /// Created but the buyer has not deposited yet.
    Active,
    /// The buyer deposited; funds are locked in the vault.
    Funded,
    /// Funds went to the seller.
    Released,
    /// Funds went back to the buyer.
    Refunded,
    /// A dispute is open; the arbiter must resolve it.
    Disputed,
}

/// How far along its lifecycle an escrow in this state is: every
/// successful instruction that changes the state raises it.
pub open spec fn state_rank(s: EscrowState) -> nat {
    match s {
        EscrowState::Active => 0,
        EscrowState::Funded => 1,
        EscrowState::Disputed => 2,
        EscrowState::Released => 3,
        EscrowState::Refunded => 3,
    }
}

/// Whether the escrow is settled: its funds have left the vault for good.
pub open spec fn is_settled(s: EscrowState) -> bool {
    s == EscrowState::Released || s == EscrowState::Refunded
}

/// Whether the funds of the escrow sit in its vault.
pub open spec fn holds_funds(s: EscrowState) -> bool {
    s == EscrowState::Funded || s == EscrowState::Disputed
}

/// The stored record of one escrow.
pub struct EscrowAccount {
    /// Identifier chosen by the buyer.
    pub escrow_id: u64,
    /// The party depositing funds.
    pub buyer: Address,
    /// The party paid on completion.
    pub seller: Address,
    /// The neutral third party who resolves disputes.
    pub arbiter: Address,
    /// Lamports held in escrow.
    pub amount: u64,
    /// Description of the agreement, at most [`MAX_DESCRIPTION`] bytes.
    pub description: String,
    /// Current lifecycle state.
    pub state: EscrowState,
    /// Unix timestamp of creation.
    pub created_at: i64,
    /// Bump of the escrow account's address.
    pub escrow_bump: u8,
    /// Bump of the vault account's address.
    pub vault_bump: u8,
}

impl EscrowAccount {
    /// Bytes the account occupies: an 8-byte type tag, the id (8), three
    /// keys (3 x 32), the amount (8), the description (4 + 200), the state
    /// (1), the timestamp (8) and the two bumps (2); 335 in all.
    pub const SIZE: usize = 8 + 8 + 32 + 32 + 32 + 8 + (4 + MAX_DESCRIPTION) + 1 + 8 + 2;

    /// What every escrow created by the program satisfies: a positive
    /// amount, a description that fits, and three distinct parties.
    pub open spec fn is_valid(&self) -> bool {
        &&& self.amount > 0
        &&& utf8_len(self.description@) <= MAX_DESCRIPTION
        &&& self.buyer@ != self.seller@
        &&& self.arbiter@ != self.buyer@
        &&& self.arbiter@ != self.seller@
    }

    /// The bytes the record takes once stored: the type tag, each field in
    /// turn, and the description as a 4-byte length and its UTF-8 bytes.
    pub open spec fn stored_size(&self) -> int {
        8 + 8 + 32 + 32 + 32 + 8 + (4 + utf8_len(self.description@)) + 1 + 8 + 1 + 1
    }

    /// The same record in another state.
    pub open spec fn with_state(self, state: EscrowState) -> EscrowAccount {
        EscrowAccount { state: state, ..self }
    }
}

/// The vault account: it holds no data, only the escrowed lamports.
pub struct VaultAccount {}

impl VaultAccount {
    /// Only the 8-byte type tag.
    pub const SIZE: usize = 8;
}

} // verus!
