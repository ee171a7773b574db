//! Creation of a rental escrow.

use crate::accounts::CreateRental;
use crate::error::EscrowError;
use crate::events::RentalCreated;
use crate::state::{Escrow, EscrowStatus, MAX_ROBOT_ID_LEN, SECONDS_PER_HOUR};
use vstd::prelude::*;
use vstd::utf8::encode_utf8;

verus! {

/// The moment a rental of `hours` hours that starts at `now` expires, as a
/// mathematical integer.
pub open spec fn expiry(now: i64, hours: u64) -> int {
    now + hours * SECONDS_PER_HOUR
}

/// Whether the expiry fits a timestamp: neither the duration in seconds
/// nor its sum with the start exceeds the signed 64-bit range.
pub open spec fn expiry_fits(now: i64, hours: u64) -> bool {
    hours * SECONDS_PER_HOUR <= i64::MAX && expiry(now, hours) <= i64::MAX
}

/// The first reason, if any, for which a creation is refused. The amount is
/// judged first, then the duration, then the robot id, then the expiry.
pub open spec fn create_rejection(robot_id: Seq<char>, amount: u64, hours: u64, now: i64) -> Option<
    EscrowError,
> {
    if amount == 0 {
        Some(EscrowError::InvalidAmount)
    } else if hours == 0 {
        Some(EscrowError::InvalidDuration)
    } else if !(1 <= encode_utf8(robot_id).len() <= MAX_ROBOT_ID_LEN) {
        Some(EscrowError::InvalidRobotId)
    } else if !expiry_fits(now, hours) {
        Some(EscrowError::InvalidDuration)
    } else {
        None
    }
}

/// The record that an accepted creation allocates.
pub open spec fn created_record(
    ctx: CreateRental,
    robot_id: String,
    amount: u64,
    hours: u64,
    now: i64,
) -> Escrow {
    Escrow {
        renter: ctx.renter,
        operator: ctx.operator,
        robot_id,
        amount,
        created_at: now,
        expires_at: expiry(now, hours) as i64,
        status: EscrowStatus::Active,
        bump: ctx.bump,
    }
}

/// The event that an accepted creation emits: the custody address and the
/// fields of the new record.
pub open spec fn created_event(ctx: CreateRental, record: Escrow) -> RentalCreated {
    RentalCreated {
        escrow: ctx.escrow,
        renter: record.renter,
        operator: record.operator,
        robot_id: record.robot_id,
        amount: record.amount,
        expires_at: record.expires_at,
    }
}

/// What a creation returns: the refusal, or the new record with its event.
pub open spec fn create_result(
    ctx: CreateRental,
    robot_id: String,
    amount: u64,
    hours: u64,
    now: i64,
) -> Result<(Escrow, RentalCreated), EscrowError> {
    match create_rejection(robot_id@, amount, hours, now) {
        Some(e) => Err(e),
        None => {
            let record = created_record(ctx, robot_id, amount, hours, now);
            Ok((record, created_event(ctx, record)))
        },
    }
}

/// Opens a rental: validates the deal's parameters and, where they pass,
/// gives the record to store at the custody address and the event to emit.
/// The caller then moves `amount` from the renter into the custody account.
///
/// `now` is the ledger's current time. The new record is active and expires
/// exactly `rental_duration_hours` hours after `now`. Nothing is allocated
/// for a refused creation.
pub fn create_rental(
    ctx: &CreateRental,
    robot_id: String,
    amount: u64,
    rental_duration_hours: u64,
    now: i64,
) -> (result: Result<(Escrow, RentalCreated), EscrowError>)
    ensures
        result == create_result(*ctx, robot_id, amount, rental_duration_hours, now),
        result matches Ok((record, _)) ==> record.wf() && record.expires_at == expiry(
            now,
            rental_duration_hours,
        ),
{
    if amount == 0 {
        return Err(EscrowError::InvalidAmount);
    }
    if rental_duration_hours == 0 {
        return Err(EscrowError::InvalidDuration);
    }
    let id_len = robot_id.as_str().as_bytes().len();
    if id_len == 0 || id_len > MAX_ROBOT_ID_LEN {
        return Err(EscrowError::InvalidRobotId);
    }
    let duration_seconds = match rental_duration_hours.checked_mul(SECONDS_PER_HOUR) {
        Some(seconds) => seconds,
        None => {
            return Err(EscrowError::InvalidDuration);
        },
    };
    if duration_seconds > i64::MAX as u64 {
        return Err(EscrowError::InvalidDuration);
    }
    let expires_at = match now.checked_add(duration_seconds as i64) {
        Some(at) => at,
        None => {
            return Err(EscrowError::InvalidDuration);
        },
    };
    let event_robot_id = robot_id.clone();
    let record = Escrow {
        renter: ctx.renter,
        operator: ctx.operator,
        robot_id,
        amount,
        created_at: now,
        expires_at,
        status: EscrowStatus::Active,
        bump: ctx.bump,
    };
    let event = RentalCreated {
        escrow: ctx.escrow,
        renter: record.renter,
        operator: record.operator,
        robot_id: event_robot_id,
        amount: record.amount,
        expires_at: record.expires_at,
    };
    assert((expires_at - now) % (SECONDS_PER_HOUR as int) == 0) by {
        assert(expires_at - now == rental_duration_hours * 3600);
    }
    Ok((record, event))
}

} // verus!
