//! Cancellation of a rental and the refund to the renter.

use crate::accounts::CancelRental;
use crate::error::EscrowError;
use crate::events::RentalCancelled;
use crate::state::EscrowStatus;
use vstd::prelude::*;

verus! {

/// The first reason, if any, for which a cancellation is refused: the
/// record must be active, and the caller its renter or its operator.
pub open spec fn cancel_rejection(ctx: CancelRental) -> Option<EscrowError> {
    if ctx.escrow.data.status != EscrowStatus::Active {
        Some(EscrowError::InvalidStatus)
    } else if ctx.signer@ != ctx.escrow.data.renter@ && ctx.signer@ != ctx.escrow.data.operator@ {
        Some(EscrowError::Unauthorized)
    } else {
        None
    }
}

/// The event of an accepted cancellation: the whole held balance goes back
/// to the renter.
pub open spec fn cancellation_event(ctx: CancelRental, reserve: u64) -> RentalCancelled {
    RentalCancelled {
        escrow: ctx.escrow.key,
        renter: ctx.escrow.data.renter,
        refund_amount: ctx.escrow.held(reserve) as u64,
    }
}

/// What a cancellation returns: the refusal, or the event.
pub open spec fn cancel_result(ctx: CancelRental, reserve: u64) -> Result<
    RentalCancelled,
    EscrowError,
> {
    match cancel_rejection(ctx) {
        Some(e) => Err(e),
        None => Ok(cancellation_event(ctx, reserve)),
    }
}

/// The accounts after a cancellation: unchanged where it is refused;
/// otherwise the custody account keeps its reserve and its record is
/// `Cancelled`.
pub open spec fn after_cancel(ctx: CancelRental, reserve: u64) -> CancelRental {
    if cancel_rejection(ctx) is Some {
        ctx
    } else {
        CancelRental { escrow: ctx.escrow.settled(reserve, EscrowStatus::Cancelled), ..ctx }
    }
}

/// Cancels a rental and refunds the renter.
///
/// `reserve` is the balance the ledger requires the custody account to
/// keep. On success the result is the event to emit; its refund amount is
/// to be credited to the renter, and the custody account has been debited
/// by it. A refused cancellation changes nothing.
pub fn cancel_rental(ctx: &mut CancelRental, reserve: u64) -> (result: Result<
    RentalCancelled,
    EscrowError,
>)
    ensures
        result == cancel_result(*old(ctx), reserve),
        *final(ctx) == after_cancel(*old(ctx), reserve),
{
    if ctx.escrow.data.status != EscrowStatus::Active {
        return Err(EscrowError::InvalidStatus);
    }
    if ctx.signer != ctx.escrow.data.renter && ctx.signer != ctx.escrow.data.operator {
        return Err(EscrowError::Unauthorized);
    }
    let refund_amount = ctx.escrow.available(reserve);
    ctx.escrow.lamports = ctx.escrow.lamports - refund_amount;
    ctx.escrow.data.status = EscrowStatus::Cancelled;
    Ok(RentalCancelled { escrow: ctx.escrow.key, renter: ctx.escrow.data.renter, refund_amount })
}

} // verus!
