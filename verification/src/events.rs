use vstd::prelude::*;

use crate::address::Address;

verus! {

/// Emitted when a new escrow is created.
#[derive(Clone, Copy, Debug, PartialEq, Eq)]
pub struct EscrowCreated {
    pub escrow_id: u64,
    pub buyer: Address,
    pub seller: Address,
    pub arbiter: Address,
    pub amount: u64,
}

/// Emitted when escrowed funds are released to the seller.
#[derive(Clone, Copy, Debug, PartialEq, Eq)]
pub struct EscrowReleased {
    pub escrow_id: u64,
    pub seller: Address,
    pub amount: u64,
    pub released_by: Address,
}

/// Emitted when escrowed funds are refunded to the buyer.
#[derive(Clone, Copy, Debug, PartialEq, Eq)]
pub struct EscrowRefunded {
    pub escrow_id: u64,
    pub buyer: Address,
    pub amount: u64,
    pub refunded_by: Address,
}

/// Emitted when a dispute is opened on a funded escrow.
#[derive(Clone, Copy, Debug, PartialEq, Eq)]
pub struct EscrowDisputed {
    pub escrow_id: u64,
    pub disputed_by: Address,
}

/// Emitted when the escrow's accounts are closed and their rent reclaimed.
#[derive(Clone, Copy, Debug, PartialEq, Eq)]
pub struct EscrowClosed {
    pub escrow_id: u64,
    pub rent_reclaimed: u64,
    pub closed_by: Address,
}

} // verus!
