//! The reasons for which an operation is refused.

use vstd::prelude::*;

verus! {

/// Why an operation was refused. A refused operation changes nothing.
#[derive(Clone, Copy, Debug, PartialEq, Eq, Structural)]
pub enum EscrowError {
    /// The amount to deposit is zero.
    InvalidAmount,
    /// The duration is zero hours, or the expiry does not fit a timestamp.
    InvalidDuration,
    /// The robot id is empty or longer than 32 bytes.
    InvalidRobotId,
    /// The record is not at the lifecycle position the operation needs.
    InvalidStatus,
    /// The caller is not a party entitled to the operation.
    Unauthorized,
    /// The account offered as operator is not the record's operator.
    InvalidOperator,
    /// The account offered as renter is not the record's renter.
    InvalidRenter,
    /// The rental window has not elapsed.
    NotExpired,
}

impl EscrowError {
    /// The text shown for each error.
    pub open spec fn spec_message(self) -> Seq<char> {
        match self {
            EscrowError::InvalidAmount => "Invalid amount"@,
            EscrowError::InvalidDuration => "Invalid rental duration"@,
            EscrowError::InvalidRobotId => "Invalid robot ID"@,
            EscrowError::InvalidStatus => "Invalid escrow status for this operation"@,
            EscrowError::Unauthorized => "Unauthorized"@,
            EscrowError::InvalidOperator => "Invalid operator"@,
            EscrowError::InvalidRenter => "Invalid renter"@,
            EscrowError::NotExpired => "Escrow has not expired yet"@,
        }
    }

    pub fn message(&self) -> (text: &'static str)
        ensures
            text@ == self.spec_message(),
    {
        match self {
            EscrowError::InvalidAmount => "Invalid amount",
            EscrowError::InvalidDuration => "Invalid rental duration",
            EscrowError::InvalidRobotId => "Invalid robot ID",
            EscrowError::InvalidStatus => "Invalid escrow status for this operation",
            EscrowError::Unauthorized => "Unauthorized",
            EscrowError::InvalidOperator => "Invalid operator",
            EscrowError::InvalidRenter => "Invalid renter",
            EscrowError::NotExpired => "Escrow has not expired yet",
        }
    }
}

} // verus!
