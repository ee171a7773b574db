//! The operator's claim on a rental that has expired.

use crate::accounts::ClaimExpired;
use crate::error::EscrowError;
use crate::events::RentalExpired;
use crate::state::EscrowStatus;
use vstd::prelude::*;

verus! {

/// The first reason, if any, for which an expiry claim is refused. The
/// record must be active; then the time must be strictly past the expiry;
/// then the caller must be the record's operator.
pub open spec fn claim_rejection(ctx: ClaimExpired, now: i64) -> Option<EscrowError> {
    if ctx.escrow.data.status != EscrowStatus::Active {
        Some(EscrowError::InvalidStatus)
    } else if now <= ctx.escrow.data.expires_at {
        Some(EscrowError::NotExpired)
    } else if ctx.escrow.data.operator@ != ctx.operator@ {
        Some(EscrowError::Unauthorized)
    } else {
        None
    }
}

/// The event of an accepted claim: the whole held balance goes to the
/// operator.
pub open spec fn claim_event(ctx: ClaimExpired, reserve: u64) -> RentalExpired {
    RentalExpired {
        escrow: ctx.escrow.key,
        operator: ctx.escrow.data.operator,
        amount: ctx.escrow.held(reserve) as u64,
    }
}

/// What a claim returns: the refusal, or the event.
pub open spec fn claim_result(ctx: ClaimExpired, now: i64, reserve: u64) -> Result<
    RentalExpired,
    EscrowError,
> {
    match claim_rejection(ctx, now) {
        Some(e) => Err(e),
        None => Ok(claim_event(ctx, reserve)),
    }
}

/// The accounts after a claim: unchanged where it is refused; otherwise
/// the custody account keeps its reserve and its record is `Expired`.
pub open spec fn after_claim(ctx: ClaimExpired, now: i64, reserve: u64) -> ClaimExpired {
    if claim_rejection(ctx, now) is Some {
        ctx
    } else {
        ClaimExpired { escrow: ctx.escrow.settled(reserve, EscrowStatus::Expired), ..ctx }
    }
}

/// Claims an expired rental for its operator.
///
/// `now` is the ledger's current time and `reserve` the balance the ledger
/// requires the custody account to keep. On success the result is the
/// event to emit; its amount is to be credited to the operator, and the
/// custody account has been debited by it. A refused claim changes nothing.
pub fn claim_expired(ctx: &mut ClaimExpired, now: i64, reserve: u64) -> (result: Result<
    RentalExpired,
    EscrowError,
>)
    ensures
        result == claim_result(*old(ctx), now, reserve),
        *final(ctx) == after_claim(*old(ctx), now, reserve),
{
    if ctx.escrow.data.status != EscrowStatus::Active {
        return Err(EscrowError::InvalidStatus);
    }
    if now <= ctx.escrow.data.expires_at {
        return Err(EscrowError::NotExpired);
    }
    if ctx.escrow.data.operator != ctx.operator {
        return Err(EscrowError::Unauthorized);
    }
    let amount = ctx.escrow.available(reserve);
    ctx.escrow.lamports = ctx.escrow.lamports - amount;
    ctx.escrow.data.status = EscrowStatus::Expired;
    Ok(RentalExpired { escrow: ctx.escrow.key, operator: ctx.escrow.data.operator, amount })
}

} // verus!
