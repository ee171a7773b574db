//! A custodial escrow for time-bounded rentals between a renter and an
//! operator.
//!
//! The renter deposits into a custody account whose address derives from
//! the two parties and the id of the rented robot. One of three transitions
//! settles the deal: the renter completes it, either party cancels it, or
//! the operator claims it once it has expired. A settled deal can be
//! closed. Every function here decides and computes on plain values; the
//! caller reads the ledger, moves the funds and emits the events.

pub mod accounts;
pub mod address;
pub mod cancel;
pub mod claim;
pub mod close;
pub mod complete;
pub mod create;
pub mod custody;
pub mod error;
pub mod events;
pub mod laws;
pub mod pda;
pub mod state;

pub use crate::accounts::{CancelRental, ClaimExpired, CloseEscrow, CompleteRental, CreateRental};
pub use crate::address::Address;
pub use crate::cancel::cancel_rental;
pub use crate::claim::claim_expired;
pub use crate::close::close_escrow;
pub use crate::complete::complete_rental;
pub use crate::create::create_rental;
pub use crate::custody::{derive_escrow_address, find_escrow_address};
pub use crate::error::EscrowError;
pub use crate::events::{
    EscrowClosed, RentalCancelled, RentalCompleted, RentalCreated, RentalExpired,
};
pub use crate::state::{Escrow, EscrowAccount, EscrowStatus};
