//! Completion of a rental: the fee split and the release to the operator.

use crate::accounts::CompleteRental;
use crate::error::EscrowError;
use crate::events::RentalCompleted;
use crate::state::EscrowStatus;
use vstd::prelude::*;

verus! {

/// The platform's share is one part in this many of the deposit: 2%.
pub const FEE_DIVISOR: u64 = 50;

/// The platform's nominal fee on a deposit, rounded down.
pub open spec fn platform_fee(amount: u64) -> nat {
    (amount / FEE_DIVISOR) as nat
}

/// The fee actually paid out of a held balance: the nominal fee capped by
/// what is held, and nothing where no platform account is named.
pub open spec fn fee_paid(amount: u64, held: nat, platform_named: bool) -> nat {
    if !platform_named {
        0
    } else if platform_fee(amount) <= held {
        platform_fee(amount)
    } else {
        held
    }
}

/// What the operator is paid out of a held balance: all that the fee leaves.
pub open spec fn operator_paid(amount: u64, held: nat, platform_named: bool) -> nat {
    (held - fee_paid(amount, held, platform_named)) as nat
}

/// The first reason, if any, for which a completion is refused: the record
/// must be active, and the caller its renter.
pub open spec fn complete_rejection(ctx: CompleteRental) -> Option<EscrowError> {
    if ctx.escrow.data.status != EscrowStatus::Active {
        Some(EscrowError::InvalidStatus)
    } else if ctx.escrow.data.renter@ != ctx.renter@ {
        Some(EscrowError::Unauthorized)
    } else {
        None
    }
}

/// The fee that a completion on these accounts pays to the platform.
pub open spec fn completion_fee(ctx: CompleteRental, reserve: u64) -> nat {
    fee_paid(ctx.escrow.data.amount, ctx.escrow.held(reserve), ctx.platform is Some)
}

/// The event of an accepted completion; its amount is the operator's part.
pub open spec fn completion_event(ctx: CompleteRental, reserve: u64) -> RentalCompleted {
    RentalCompleted {
        escrow: ctx.escrow.key,
        renter: ctx.escrow.data.renter,
        operator: ctx.escrow.data.operator,
        amount: operator_paid(
            ctx.escrow.data.amount,
            ctx.escrow.held(reserve),
            ctx.platform is Some,
        ) as u64,
    }
}

/// What a completion returns: the refusal, or the event with the fee paid.
pub open spec fn complete_result(ctx: CompleteRental, reserve: u64) -> Result<
    (RentalCompleted, u64),
    EscrowError,
> {
    match complete_rejection(ctx) {
        Some(e) => Err(e),
        None => Ok((completion_event(ctx, reserve), completion_fee(ctx, reserve) as u64)),
    }
}

/// The accounts after a completion: unchanged where it is refused;
/// otherwise the custody account keeps its reserve and its record is
/// `Completed`.
pub open spec fn after_complete(ctx: CompleteRental, reserve: u64) -> CompleteRental {
    if complete_rejection(ctx) is Some {
        ctx
    } else {
        CompleteRental { escrow: ctx.escrow.settled(reserve, EscrowStatus::Completed), ..ctx }
    }
}

/// Completes a rental: releases the held balance, the platform's fee first
/// and the rest to the operator.
///
/// `reserve` is the balance the ledger requires the custody account to
/// keep. On success the result is the event to emit and the fee to credit
/// to the platform account; the event's amount is to be credited to the
/// operator; the custody account has been debited by both. A refused
/// completion changes nothing.
pub fn complete_rental(ctx: &mut CompleteRental, reserve: u64) -> (result: Result<
    (RentalCompleted, u64),
    EscrowError,
>)
    ensures
        result == complete_result(*old(ctx), reserve),
        *final(ctx) == after_complete(*old(ctx), reserve),
        result matches Ok((event, fee)) ==> fee + event.amount == old(ctx).escrow.held(reserve),
{
    if ctx.escrow.data.status != EscrowStatus::Active {
        return Err(EscrowError::InvalidStatus);
    }
    if ctx.escrow.data.renter != ctx.renter {
        return Err(EscrowError::Unauthorized);
    }
    let held = ctx.escrow.available(reserve);
    let nominal_fee = ctx.escrow.data.amount / FEE_DIVISOR;
    let fee: u64 = if ctx.platform.is_none() {
        0
    } else if nominal_fee <= held {
        nominal_fee
    } else {
        held
    };
    let remaining = held - fee;
    ctx.escrow.lamports = ctx.escrow.lamports - held;
    ctx.escrow.data.status = EscrowStatus::Completed;
    let event = RentalCompleted {
        escrow: ctx.escrow.key,
        renter: ctx.escrow.data.renter,
        operator: ctx.escrow.data.operator,
        amount: remaining,
    };
    Ok((event, fee))
}

} // verus!
