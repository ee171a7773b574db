//! The events of the successful operations.

use crate::address::Address;
use vstd::prelude::*;

verus! {

/// Announces a new escrow and carries the fields of its record.
#[derive(Clone, Debug, PartialEq, Eq)]
pub struct RentalCreated {
    pub escrow: Address,
    pub renter: Address,
    pub operator: Address,
    pub robot_id: String,
    pub amount: u64,
    pub expires_at: i64,
}

/// Announces a completed rental; `amount` is what the operator was paid.
#[derive(Clone, Copy, Debug, PartialEq, Eq)]
pub struct RentalCompleted {
    pub escrow: Address,
    pub renter: Address,
    pub operator: Address,
    pub amount: u64,
}

/// Announces a cancelled rental; `refund_amount` is what the renter got back.
#[derive(Clone, Copy, Debug, PartialEq, Eq)]
pub struct RentalCancelled {
    pub escrow: Address,
    pub renter: Address,
    pub refund_amount: u64,
}

/// Announces an expired rental claimed by its operator; `amount` is what the
/// operator was paid.
#[derive(Clone, Copy, Debug, PartialEq, Eq)]
pub struct RentalExpired {
    pub escrow: Address,
    pub operator: Address,
    pub amount: u64,
}

/// Announces that a record and its custody account are gone.
#[derive(Clone, Copy, Debug, PartialEq, Eq)]
pub struct EscrowClosed {
    pub escrow: Address,
}

} // verus!
