//! Closure of a settled escrow.

use crate::accounts::CloseEscrow;
use crate::error::EscrowError;
use crate::events::EscrowClosed;
use vstd::prelude::*;

verus! {

/// The reason, if any, for which a closure is refused: the record has not
/// reached a terminal status.
pub open spec fn close_rejection(ctx: CloseEscrow) -> Option<EscrowError> {
    if !ctx.escrow.data.status.terminal() {
        Some(EscrowError::InvalidStatus)
    } else {
        None
    }
}

/// What a closure returns: the refusal, or the event with the whole
/// remaining balance of the custody account.
pub open spec fn close_result(ctx: CloseEscrow) -> Result<(EscrowClosed, u64), EscrowError> {
    match close_rejection(ctx) {
        Some(e) => Err(e),
        None => Ok((EscrowClosed { escrow: ctx.escrow.key }, ctx.escrow.lamports)),
    }
}

/// Closes a settled escrow.
///
/// The accounts are given up to the call: after an accepted closure the
/// record and its custody account are to be destroyed. The result is then
/// the event to emit and the whole remaining balance of the custody
/// account, which is to be credited to the renter.
pub fn close_escrow(ctx: CloseEscrow) -> (result: Result<(EscrowClosed, u64), EscrowError>)
    ensures
        result == close_result(ctx),
{
    if !ctx.escrow.data.status.is_terminal() {
        return Err(EscrowError::InvalidStatus);
    }
    Ok((EscrowClosed { escrow: ctx.escrow.key }, ctx.escrow.lamports))
}

} // verus!
