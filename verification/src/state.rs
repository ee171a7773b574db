//! The escrow record, its lifecycle and the custody account that holds it.

use crate::address::Address;
use vstd::prelude::*;
use vstd::utf8::encode_utf8;

verus! {

/// Lifecycle position of an escrow record.
///
/// A record starts `Active` and moves at most once, to one of the three
/// terminal positions.
#[derive(Clone, Copy, Debug, PartialEq, Eq, Structural)]
pub enum EscrowStatus {
    Active,
    Completed,
    Cancelled,
    Expired,
}

impl EscrowStatus {
    /// Whether the status is one of the three final dispositions.
    pub open spec fn terminal(self) -> bool {
        self != EscrowStatus::Active
    }

    pub fn is_terminal(&self) -> (b: bool)
        ensures
            b == self.terminal(),
    {
        match self {
            EscrowStatus::Active => false,
            EscrowStatus::Completed => true,
            EscrowStatus::Cancelled => true,
            EscrowStatus::Expired => true,
        }
    }
}

/// Seconds in one hour of rental.
pub const SECONDS_PER_HOUR: u64 = 3600;

/// Largest number of bytes a robot id may have: the ledger's limit on one
/// derivation seed.
pub const MAX_ROBOT_ID_LEN: usize = 32;

/// The persisted state of one rental deal.
#[derive(Clone, Debug, PartialEq, Eq)]
pub struct Escrow {
    /// The depositing party.
    pub renter: Address,
    /// The party that provides the service.
    pub operator: Address,
    /// The rented resource; part of the key the custody address derives from.
    pub robot_id: String,
    /// The value deposited at creation.
    pub amount: u64,
    /// Seconds since the epoch at creation.
    pub created_at: i64,
    /// Seconds since the epoch after which the operator may claim.
    pub expires_at: i64,
    pub status: EscrowStatus,
    /// The bump seed with which the custody address re-derives.
    pub bump: u8,
}

impl Escrow {
    /// Bytes reserved for one persisted record: an 8-byte tag, the two
    /// parties, the length-prefixed robot id at its longest, the amount, the
    /// two timestamps, the status, the bump seed, and a 32-byte margin.
    pub const SPACE: usize = 8 + 32 + 32 + 4 + 32 + 8 + 8 + 8 + 1 + 1 + 32;

    /// The robot id as the bytes of its UTF-8 encoding.
    pub open spec fn robot_id_bytes(&self) -> Seq<u8> {
        encode_utf8(self.robot_id@)
    }

    /// What creation establishes and no transition disturbs: a positive
    /// amount, a robot id of 1 to 32 bytes, and an expiry a positive whole
    /// number of hours after creation.
    pub open spec fn wf(&self) -> bool {
        &&& self.amount > 0
        &&& 1 <= self.robot_id_bytes().len() <= MAX_ROBOT_ID_LEN
        &&& self.created_at < self.expires_at
        &&& (self.expires_at - self.created_at) % (SECONDS_PER_HOUR as int) == 0
    }

    /// The same record at another lifecycle position.
    pub open spec fn with_status(self, status: EscrowStatus) -> Escrow {
        Escrow { status, ..self }
    }
}

/// A custody account as the ledger presents it: its address, its balance
/// and the record it stores.
#[derive(Clone, Debug, PartialEq, Eq)]
pub struct EscrowAccount {
    pub key: Address,
    /// The whole balance of the account, reserve included.
    pub lamports: u64,
    pub data: Escrow,
}

/// The part of a custody balance that may be paid out: what exceeds the
/// reserve, and nothing where the balance is below it.
pub open spec fn held_balance(lamports: u64, reserve: u64) -> nat {
    if lamports >= reserve {
        (lamports - reserve) as nat
    } else {
        0
    }
}

impl EscrowAccount {
    /// The payable part of the balance under the given reserve.
    pub open spec fn held(&self, reserve: u64) -> nat {
        held_balance(self.lamports, reserve)
    }

    /// The account after its whole held balance has left it and its record
    /// has moved to `status`.
    pub open spec fn settled(self, reserve: u64, status: EscrowStatus) -> EscrowAccount {
        EscrowAccount {
            key: self.key,
            lamports: (self.lamports - self.held(reserve)) as u64,
            data: self.data.with_status(status),
        }
    }

    /// Computes the payable part of the balance.
    pub fn available(&self, reserve: u64) -> (held: u64)
        ensures
            held == self.held(reserve),
            held <= self.lamports,
    {
        if self.lamports >= reserve {
            self.lamports - reserve
        } else {
            0
        }
    }
}

} // verus!
