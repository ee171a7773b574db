//! What holds of the escrow's operations taken together, proved from the
//! functions that state what each operation returns and leaves behind.

use crate::accounts::{CancelRental, ClaimExpired, CloseEscrow, CompleteRental, CreateRental};
use crate::address::Address;
use crate::cancel::{after_cancel, cancel_result};
use crate::claim::{after_claim, claim_result};
use crate::close::close_result;
use crate::complete::{
    after_complete, complete_rejection, complete_result, completion_event, completion_fee,
    platform_fee,
};
use crate::create::{create_rejection, create_result, created_record, expiry_fits};
use crate::custody::escrow_address;
use crate::error::EscrowError;
use crate::events::EscrowClosed;
use crate::state::{EscrowAccount, EscrowStatus, MAX_ROBOT_ID_LEN, SECONDS_PER_HOUR};
use vstd::prelude::*;
use vstd::utf8::encode_utf8;

verus! {

/// A creation whose amount, duration and robot id are valid is accepted
/// exactly when the expiry fits a timestamp. The record then expires
/// exactly `hours * 3600` seconds after its creation, with nothing lost to
/// rounding or wrapping. Where the duration in seconds or its sum with the
/// start leaves the signed 64-bit range, the creation is refused with
/// `InvalidDuration`.
pub proof fn law_expiry_is_exact(
    ctx: CreateRental,
    robot_id: String,
    amount: u64,
    hours: u64,
    now: i64,
)
    requires
        amount > 0,
        hours > 0,
        1 <= encode_utf8(robot_id@).len() <= MAX_ROBOT_ID_LEN,
    ensures
        expiry_fits(now, hours) ==> {
            let record = created_record(ctx, robot_id, amount, hours, now);
            &&& create_result(ctx, robot_id, amount, hours, now) is Ok
            &&& create_result(ctx, robot_id, amount, hours, now)->Ok_0.0 == record
            &&& record.created_at == now
            &&& record.expires_at == record.created_at + hours * SECONDS_PER_HOUR
            &&& record.status == EscrowStatus::Active
            &&& record.wf()
        },
        !expiry_fits(now, hours) ==> create_result(ctx, robot_id, amount, hours, now) == Err::<
            (crate::state::Escrow, crate::events::RentalCreated),
            EscrowError,
        >(EscrowError::InvalidDuration),
        (hours * SECONDS_PER_HOUR > i64::MAX || now + hours * SECONDS_PER_HOUR > i64::MAX)
            <==> !expiry_fits(now, hours),
{
    if expiry_fits(now, hours) {
        let record = created_record(ctx, robot_id, amount, hours, now);
        assert(record.expires_at - record.created_at == hours * 3600);
    }
}

/// A creation is refused for its amount exactly when the amount is zero,
/// and for its robot id exactly when amount and duration are positive and
/// the id is empty or longer than 32 bytes.
pub proof fn law_creation_refusals(robot_id: Seq<char>, amount: u64, hours: u64, now: i64)
    ensures
        create_rejection(robot_id, amount, hours, now) == Some(EscrowError::InvalidAmount) <==> amount
            == 0,
        create_rejection(robot_id, amount, hours, now) == Some(EscrowError::InvalidRobotId) <==> (
        amount > 0 && hours > 0 && !(1 <= encode_utf8(robot_id).len() <= MAX_ROBOT_ID_LEN)),
        create_rejection(robot_id, amount, hours, now) == Some(EscrowError::InvalidDuration) <==> (
        amount > 0 && (hours == 0 || (1 <= encode_utf8(robot_id).len() <= MAX_ROBOT_ID_LEN
            && !expiry_fits(now, hours)))),
        create_rejection(robot_id, amount, hours, now) is None <==> (amount > 0 && hours > 0 && 1
            <= encode_utf8(robot_id).len() <= MAX_ROBOT_ID_LEN && expiry_fits(now, hours)),
{
}

/// Once a record has left `Active`, a completion is refused with
/// `InvalidStatus`, whoever calls, and changes nothing.
pub proof fn law_terminal_refuses_completion(ctx: CompleteRental, reserve: u64)
    requires
        ctx.escrow.data.status.terminal(),
    ensures
        complete_result(ctx, reserve) == Err::<(crate::events::RentalCompleted, u64), EscrowError>(
            EscrowError::InvalidStatus,
        ),
        after_complete(ctx, reserve) == ctx,
{
}

/// Once a record has left `Active`, a cancellation is refused with
/// `InvalidStatus`, whoever calls, and changes nothing.
pub proof fn law_terminal_refuses_cancellation(ctx: CancelRental, reserve: u64)
    requires
        ctx.escrow.data.status.terminal(),
    ensures
        cancel_result(ctx, reserve) == Err::<crate::events::RentalCancelled, EscrowError>(
            EscrowError::InvalidStatus,
        ),
        after_cancel(ctx, reserve) == ctx,
{
}

/// Once a record has left `Active`, an expiry claim is refused with
/// `InvalidStatus`, whoever calls and whenever, and changes nothing.
pub proof fn law_terminal_refuses_claim(ctx: ClaimExpired, now: i64, reserve: u64)
    requires
        ctx.escrow.data.status.terminal(),
    ensures
        claim_result(ctx, now, reserve) == Err::<crate::events::RentalExpired, EscrowError>(
            EscrowError::InvalidStatus,
        ),
        after_claim(ctx, now, reserve) == ctx,
{
}

/// One attempt to move a record: who calls, which accounts are offered,
/// at what time and under what reserve.
pub enum Attempt {
    Complete { renter: Address, operator: Address, platform: Option<Address>, reserve: u64 },
    Cancel { signer: Address, renter: Address, reserve: u64 },
    Claim { operator: Address, now: i64, reserve: u64 },
}

impl Attempt {
    /// The custody account after the attempt was made on it.
    pub open spec fn apply(self, escrow: EscrowAccount) -> EscrowAccount {
        match self {
            Attempt::Complete { renter, operator, platform, reserve } => after_complete(
                CompleteRental { renter, operator, escrow, platform },
                reserve,
            ).escrow,
            Attempt::Cancel { signer, renter, reserve } => after_cancel(
                CancelRental { signer, renter, escrow },
                reserve,
            ).escrow,
            Attempt::Claim { operator, now, reserve } => after_claim(
                ClaimExpired { operator, escrow },
                now,
                reserve,
            ).escrow,
        }
    }

    /// The error, if any, with which the attempt on the account is refused.
    pub open spec fn refusal(self, escrow: EscrowAccount) -> Option<EscrowError> {
        match self {
            Attempt::Complete { renter, operator, platform, reserve } => match complete_result(
                CompleteRental { renter, operator, escrow, platform },
                reserve,
            ) {
                Ok(_) => None,
                Err(e) => Some(e),
            },
            Attempt::Cancel { signer, renter, reserve } => match cancel_result(
                CancelRental { signer, renter, escrow },
                reserve,
            ) {
                Ok(_) => None,
                Err(e) => Some(e),
            },
            Attempt::Claim { operator, now, reserve } => match claim_result(
                ClaimExpired { operator, escrow },
                now,
                reserve,
            ) {
                Ok(_) => None,
                Err(e) => Some(e),
            },
        }
    }
}

/// The custody account after a run of attempts, made one after the other.
pub open spec fn after_all(escrow: EscrowAccount, attempts: Seq<Attempt>) -> EscrowAccount
    decreases attempts.len(),
{
    if attempts.len() == 0 {
        escrow
    } else {
        after_all(attempts.first().apply(escrow), attempts.drop_first())
    }
}

/// The custody account as the `n`-th attempt of a run finds it.
pub open spec fn before_attempt(escrow: EscrowAccount, attempts: Seq<Attempt>, n: int) -> EscrowAccount
    recommends
        0 <= n <= attempts.len(),
{
    after_all(escrow, attempts.take(n))
}

/// The status of a record changes at most once, and only away from
/// `Active`: an attempt leaves the status as it was or moves an active
/// record to a terminal status. It never touches the parties, the robot
/// id, the amount, the timestamps, the bump seed or the address.
pub proof fn law_status_moves_once(escrow: EscrowAccount, attempt: Attempt)
    ensures
        attempt.apply(escrow).data == escrow.data.with_status(attempt.apply(escrow).data.status),
        attempt.apply(escrow).key == escrow.key,
        attempt.apply(escrow).data.status != escrow.data.status ==> escrow.data.status
            == EscrowStatus::Active && attempt.apply(escrow).data.status.terminal(),
        attempt.apply(escrow).data.wf() == escrow.data.wf(),
        attempt.refusal(escrow) is Some ==> attempt.apply(escrow) == escrow,
        attempt.refusal(escrow) is None ==> attempt.apply(escrow).data.status.terminal(),
{
}

/// After the first terminal transition every further attempt, in any
/// number and any order, is refused with `InvalidStatus`, and the account
/// stays exactly as that transition left it.
pub proof fn law_terminal_is_final(escrow: EscrowAccount, attempts: Seq<Attempt>)
    requires
        escrow.data.status.terminal(),
    ensures
        after_all(escrow, attempts) == escrow,
        forall|n: int|
            0 <= n < attempts.len() ==> {
                &&& before_attempt(escrow, attempts, n) == escrow
                &&& (#[trigger] attempts[n]).refusal(escrow) == Some(EscrowError::InvalidStatus)
            },
    decreases attempts.len(),
{
    if attempts.len() > 0 {
        law_status_moves_once(escrow, attempts.first());
        law_terminal_is_final(escrow, attempts.drop_first());
    }
    assert forall|n: int| 0 <= n < attempts.len() implies {
        &&& before_attempt(escrow, attempts, n) == escrow
        &&& (#[trigger] attempts[n]).refusal(escrow) == Some(EscrowError::InvalidStatus)
    } by {
        law_terminal_is_final(escrow, attempts.take(n));
    }
}

/// What a completion takes out of the custody account is what it pays:
/// the held balance equals the fee paid plus the operator's part, whether
/// or not a platform account is named and whatever is held. The fee never
/// exceeds the nominal 2% nor the held balance; without a platform account
/// it is zero and the operator receives all that is held; where less is
/// held than the nominal fee, the fee is all that is held and the operator
/// receives nothing.
pub proof fn law_completion_conserves_funds(ctx: CompleteRental, reserve: u64)
    requires
        complete_rejection(ctx) is None,
    ensures
        complete_result(ctx, reserve) is Ok,
        ({
            let fee = complete_result(ctx, reserve)->Ok_0.1;
            let paid = complete_result(ctx, reserve)->Ok_0.0.amount;
            let held = ctx.escrow.held(reserve);
            &&& fee + paid == held
            &&& ctx.escrow.lamports - after_complete(ctx, reserve).escrow.lamports == held
            &&& fee <= platform_fee(ctx.escrow.data.amount)
            &&& fee <= held
            &&& ctx.platform is None ==> fee == 0 && paid == held
            &&& ctx.platform is Some && held >= platform_fee(ctx.escrow.data.amount) ==> fee
                == platform_fee(ctx.escrow.data.amount)
            &&& ctx.platform is Some && held < platform_fee(ctx.escrow.data.amount) ==> fee
                == held && paid == 0
            &&& fee == completion_fee(ctx, reserve)
            &&& paid == completion_event(ctx, reserve).amount
        }),
{
}

/// An accepted completion, cancellation or claim leaves in the custody
/// account exactly the reserve, where the account held at least that;
/// what leaves is the whole held balance.
pub proof fn law_settlement_leaves_reserve(escrow: EscrowAccount, attempt: Attempt)
    requires
        attempt.refusal(escrow) is None,
    ensures
        ({
            let reserve = match attempt {
                Attempt::Complete { reserve, .. } => reserve,
                Attempt::Cancel { reserve, .. } => reserve,
                Attempt::Claim { reserve, .. } => reserve,
            };
            &&& escrow.lamports >= reserve ==> attempt.apply(escrow).lamports == reserve
            &&& escrow.lamports < reserve ==> attempt.apply(escrow).lamports == escrow.lamports
            &&& escrow.lamports - attempt.apply(escrow).lamports == escrow.held(reserve)
            &&& attempt.apply(escrow).held(reserve) == 0
        }),
{
}

/// A completion called by anyone but the record's renter fails, whatever
/// the state of the record, and changes nothing. On an active record the
/// error is `Unauthorized`; on a record that has left `Active` it is
/// `InvalidStatus`, which is judged first.
pub proof fn law_only_renter_completes(ctx: CompleteRental, reserve: u64)
    requires
        ctx.renter@ != ctx.escrow.data.renter@,
    ensures
        complete_result(ctx, reserve) is Err,
        after_complete(ctx, reserve) == ctx,
        ctx.escrow.data.status == EscrowStatus::Active ==> complete_result(ctx, reserve) == Err::<
            (crate::events::RentalCompleted, u64),
            EscrowError,
        >(EscrowError::Unauthorized),
        ctx.escrow.data.status != EscrowStatus::Active ==> complete_result(ctx, reserve) == Err::<
            (crate::events::RentalCompleted, u64),
            EscrowError,
        >(EscrowError::InvalidStatus),
{
}

/// A claim on an active record at or before its expiry, even at the very
/// second of expiry, fails with `NotExpired`, whoever calls, and changes
/// nothing.
pub proof fn law_no_claim_before_expiry(ctx: ClaimExpired, now: i64, reserve: u64)
    requires
        ctx.escrow.data.status == EscrowStatus::Active,
        now <= ctx.escrow.data.expires_at,
    ensures
        claim_result(ctx, now, reserve) == Err::<crate::events::RentalExpired, EscrowError>(
            EscrowError::NotExpired,
        ),
        after_claim(ctx, now, reserve) == ctx,
{
}

/// A cancellation by anyone but the record's renter or operator fails and
/// changes nothing; on an active record the error is `Unauthorized`.
pub proof fn law_only_parties_cancel(ctx: CancelRental, reserve: u64)
    requires
        ctx.signer@ != ctx.escrow.data.renter@,
        ctx.signer@ != ctx.escrow.data.operator@,
    ensures
        cancel_result(ctx, reserve) is Err,
        after_cancel(ctx, reserve) == ctx,
        ctx.escrow.data.status == EscrowStatus::Active ==> cancel_result(ctx, reserve) == Err::<
            crate::events::RentalCancelled,
            EscrowError,
        >(EscrowError::Unauthorized),
{
}

/// A closure of an active record always fails with `InvalidStatus`; a
/// closure of a record at any terminal status succeeds and hands the whole
/// remaining balance of the custody account over.
pub proof fn law_close_needs_terminal(ctx: CloseEscrow)
    ensures
        ctx.escrow.data.status == EscrowStatus::Active ==> close_result(ctx) == Err::<
            (EscrowClosed, u64),
            EscrowError,
        >(EscrowError::InvalidStatus),
        ctx.escrow.data.status.terminal() ==> close_result(ctx) == Ok::<
            (EscrowClosed, u64),
            EscrowError,
        >((EscrowClosed { escrow: ctx.escrow.key }, ctx.escrow.lamports)),
{
}

/// A record created at a custody address re-derives to that address,
/// provided the address was derived from the same parties and robot id
/// under the bump seed the record stores.
pub proof fn law_created_record_rederives(
    program_id: Seq<u8>,
    ctx: CreateRental,
    robot_id: String,
    amount: u64,
    hours: u64,
    now: i64,
)
    ensures
        create_result(ctx, robot_id, amount, hours, now) matches Ok((record, _)) ==> (
        escrow_address(program_id, ctx.renter@, ctx.operator@, encode_utf8(robot_id@), ctx.bump)
            == Some(ctx.escrow@) ==> record.derived_address(program_id) == Some(ctx.escrow@)),
{
}

/// No attempt changes what a record re-derives to: a custody account that
/// sits at its derived address still does after any attempt.
pub proof fn law_genuine_stays_genuine(program_id: Seq<u8>, escrow: EscrowAccount, attempt: Attempt)
    ensures
        attempt.apply(escrow).data.derived_address(program_id) == escrow.data.derived_address(
            program_id,
        ),
        attempt.apply(escrow).sits_at(attempt.apply(escrow).data.derived_address(program_id))
            == escrow.sits_at(escrow.data.derived_address(program_id)),
{
}

} // verus!
