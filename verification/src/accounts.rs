//! The accounts each operation is given, and the checks made on them
//! before the operation runs.

use crate::address::Address;
use crate::error::EscrowError;
use crate::state::EscrowAccount;
use vstd::prelude::*;

verus! {

/// The parties to a creation, and the custody address found for the deal
/// with the bump seed that gave it (see `find_escrow_address`).
#[derive(Clone, Copy, Debug, PartialEq, Eq)]
pub struct CreateRental {
    /// The caller, who deposits.
    pub renter: Address,
    pub operator: Address,
    /// The address at which the custody account is being allocated.
    pub escrow: Address,
    pub bump: u8,
}

/// The accounts of a completion.
///
/// Before the completion runs, the custody account is to be checked with
/// `EscrowAccount::is_genuine` and the accounts with `validate`.
#[derive(Clone, Debug, PartialEq, Eq)]
pub struct CompleteRental {
    /// The caller.
    pub renter: Address,
    /// The account that is to receive the funds.
    pub operator: Address,
    pub escrow: EscrowAccount,
    /// The account that is to receive the fee, where one is named.
    pub platform: Option<Address>,
}

/// The accounts of a cancellation.
///
/// Before the cancellation runs, the custody account is to be checked with
/// `EscrowAccount::is_genuine` and the accounts with `validate`.
#[derive(Clone, Debug, PartialEq, Eq)]
pub struct CancelRental {
    /// The caller.
    pub signer: Address,
    /// The account that is to receive the refund.
    pub renter: Address,
    pub escrow: EscrowAccount,
}

/// The accounts of an expiry claim.
///
/// Before the claim runs, the custody account is to be checked with
/// `EscrowAccount::is_genuine`.
#[derive(Clone, Debug, PartialEq, Eq)]
pub struct ClaimExpired {
    /// The caller, who is also paid.
    pub operator: Address,
    pub escrow: EscrowAccount,
}

/// The accounts of a closure.
///
/// Before the closure runs, the custody account is to be checked with
/// `EscrowAccount::is_genuine` and the accounts with `validate`.
#[derive(Clone, Debug, PartialEq, Eq)]
pub struct CloseEscrow {
    /// The caller, who also receives what is left in the custody account.
    pub renter: Address,
    pub escrow: EscrowAccount,
}

impl CompleteRental {
    /// The account that is to be paid is the record's operator.
    pub open spec fn pays_operator(&self) -> bool {
        self.escrow.data.operator@ == self.operator@
    }

    /// Checks, before a completion runs, that the account that is to be
    /// paid is the record's operator.
    pub fn validate(&self) -> (result: Result<(), EscrowError>)
        ensures
            result == if self.pays_operator() {
                Ok::<(), EscrowError>(())
            } else {
                Err(EscrowError::InvalidOperator)
            },
    {
        if self.escrow.data.operator == self.operator {
            Ok(())
        } else {
            Err(EscrowError::InvalidOperator)
        }
    }
}

impl CancelRental {
    /// The account that is to be refunded is the record's renter.
    pub open spec fn refunds_renter(&self) -> bool {
        self.escrow.data.renter@ == self.renter@
    }

    /// Checks, before a cancellation runs, that the account that is to be
    /// refunded is the record's renter.
    pub fn validate(&self) -> (result: Result<(), EscrowError>)
        ensures
            result == if self.refunds_renter() {
                Ok::<(), EscrowError>(())
            } else {
                Err(EscrowError::InvalidRenter)
            },
    {
        if self.escrow.data.renter == self.renter {
            Ok(())
        } else {
            Err(EscrowError::InvalidRenter)
        }
    }
}

impl CloseEscrow {
    /// The account that is to receive the reserve is the record's renter.
    pub open spec fn refunds_renter(&self) -> bool {
        self.escrow.data.renter@ == self.renter@
    }

    /// Checks, before a closure runs, that the account that is to receive
    /// the reserve is the record's renter.
    pub fn validate(&self) -> (result: Result<(), EscrowError>)
        ensures
            result == if self.refunds_renter() {
                Ok::<(), EscrowError>(())
            } else {
                Err(EscrowError::InvalidRenter)
            },
    {
        if self.escrow.data.renter == self.renter {
            Ok(())
        } else {
            Err(EscrowError::InvalidRenter)
        }
    }
}

} // verus!
