use roborio_escrow::{
    cancel_rental, claim_expired, close_escrow, complete_rental, create_rental,
    find_escrow_address, Address, CancelRental, ClaimExpired, CloseEscrow, CompleteRental,
    CreateRental, Escrow, EscrowAccount, EscrowClosed, EscrowError, EscrowStatus,
    RentalCancelled, RentalCompleted, RentalCreated, RentalExpired,
};

const RESERVE: u64 = 2_039_280;
const NOW: i64 = 1_700_000_000;

fn program() -> Address {
    Address::new_from_array([7u8; 32])
}

fn renter() -> Address {
    Address::new_from_array([1u8; 32])
}

fn operator() -> Address {
    Address::new_from_array([2u8; 32])
}

fn platform() -> Address {
    Address::new_from_array([3u8; 32])
}

/// Creates the deal of the scenarios and funds its custody account.
fn open(amount: u64, hours: u64) -> (EscrowAccount, RentalCreated) {
    let (escrow, bump) =
        find_escrow_address(&program(), &renter(), &operator(), "bot-1").expect("an address");
    let ctx = CreateRental { renter: renter(), operator: operator(), escrow, bump };
    let (record, event) =
        create_rental(&ctx, String::from("bot-1"), amount, hours, NOW).expect("a record");
    (EscrowAccount { key: escrow, lamports: RESERVE + amount, data: record }, event)
}

#[test]
fn scenario_create_gives_an_active_record_and_its_event() {
    let (account, event) = open(1000, 1);
    assert_eq!(
        account.data,
        Escrow {
            renter: renter(),
            operator: operator(),
            robot_id: String::from("bot-1"),
            amount: 1000,
            created_at: NOW,
            expires_at: NOW + 3600,
            status: EscrowStatus::Active,
            bump: account.data.bump,
        }
    );
    assert_eq!(
        event,
        RentalCreated {
            escrow: account.key,
            renter: renter(),
            operator: operator(),
            robot_id: String::from("bot-1"),
            amount: 1000,
            expires_at: NOW + 3600,
        }
    );
    assert!(account.is_genuine(&program()));
}

#[test]
fn scenario_complete_without_platform_pays_the_operator_all_that_is_held() {
    let (escrow, _) = open(1000, 1);
    let key = escrow.key;
    let mut ctx =
        CompleteRental { renter: renter(), operator: operator(), escrow, platform: None };
    assert_eq!(ctx.validate(), Ok(()));
    let (event, fee) = complete_rental(&mut ctx, RESERVE).expect("completed");
    assert_eq!(fee, 0);
    assert_eq!(
        event,
        RentalCompleted { escrow: key, renter: renter(), operator: operator(), amount: 1000 }
    );
    assert_eq!(ctx.escrow.data.status, EscrowStatus::Completed);
    assert_eq!(ctx.escrow.lamports, RESERVE);
}

#[test]
fn scenario_complete_with_platform_splits_twenty_and_nine_hundred_eighty() {
    let (escrow, _) = open(1000, 1);
    let key = escrow.key;
    let mut ctx = CompleteRental {
        renter: renter(),
        operator: operator(),
        escrow,
        platform: Some(platform()),
    };
    assert_eq!(ctx.validate(), Ok(()));
    let (event, fee) = complete_rental(&mut ctx, RESERVE).expect("completed");
    assert_eq!(fee, 20);
    assert_eq!(
        event,
        RentalCompleted { escrow: key, renter: renter(), operator: operator(), amount: 980 }
    );
    assert_eq!(fee + event.amount, 1000);
    assert_eq!(ctx.escrow.data.status, EscrowStatus::Completed);
    assert_eq!(ctx.escrow.lamports, RESERVE);
}

#[test]
fn scenario_claim_fails_at_expiry_and_succeeds_one_second_later() {
    let (escrow, _) = open(1000, 1);
    let key = escrow.key;
    let expires_at = escrow.data.expires_at;
    assert_eq!(expires_at, NOW + 3600);
    let mut ctx = ClaimExpired { operator: operator(), escrow };
    let before = ctx.clone();

    assert_eq!(claim_expired(&mut ctx, expires_at, RESERVE), Err(EscrowError::NotExpired));
    assert_eq!(ctx, before);
    assert_eq!(claim_expired(&mut ctx, expires_at - 1, RESERVE), Err(EscrowError::NotExpired));
    assert_eq!(ctx, before);

    let event = claim_expired(&mut ctx, expires_at + 1, RESERVE).expect("claimed");
    assert_eq!(event, RentalExpired { escrow: key, operator: operator(), amount: 1000 });
    assert_eq!(ctx.escrow.data.status, EscrowStatus::Expired);
    assert_eq!(ctx.escrow.lamports, RESERVE);
}

#[test]
fn scenario_cancel_by_operator_refunds_the_renter_and_blocks_completion() {
    let (escrow, _) = open(1000, 1);
    let key = escrow.key;
    let mut ctx = CancelRental { signer: operator(), renter: renter(), escrow };
    assert_eq!(ctx.validate(), Ok(()));
    let event = cancel_rental(&mut ctx, RESERVE).expect("cancelled");
    assert_eq!(event, RentalCancelled { escrow: key, renter: renter(), refund_amount: 1000 });
    assert_eq!(ctx.escrow.data.status, EscrowStatus::Cancelled);
    assert_eq!(ctx.escrow.lamports, RESERVE);

    let mut again = CompleteRental {
        renter: renter(),
        operator: operator(),
        escrow: ctx.escrow.clone(),
        platform: Some(platform()),
    };
    let before = again.clone();
    assert_eq!(complete_rental(&mut again, RESERVE), Err(EscrowError::InvalidStatus));
    assert_eq!(again, before);
}

#[test]
fn scenario_settled_escrow_refuses_every_further_transition() {
    let (escrow, _) = open(1000, 1);
    let mut done =
        CompleteRental { renter: renter(), operator: operator(), escrow, platform: None };
    complete_rental(&mut done, RESERVE).expect("completed");
    let settled = done.escrow.clone();

    let mut complete = CompleteRental {
        renter: renter(),
        operator: operator(),
        escrow: settled.clone(),
        platform: Some(platform()),
    };
    assert_eq!(complete_rental(&mut complete, RESERVE), Err(EscrowError::InvalidStatus));
    let mut cancel = CancelRental { signer: renter(), renter: renter(), escrow: settled.clone() };
    assert_eq!(cancel_rental(&mut cancel, RESERVE), Err(EscrowError::InvalidStatus));
    let mut claim = ClaimExpired { operator: operator(), escrow: settled.clone() };
    assert_eq!(claim_expired(&mut claim, i64::MAX, RESERVE), Err(EscrowError::InvalidStatus));
    // A stranger gets the same answer: the status is judged first.
    let mut stranger = CancelRental { signer: platform(), renter: renter(), escrow: settled.clone() };
    assert_eq!(cancel_rental(&mut stranger, RESERVE), Err(EscrowError::InvalidStatus));

    assert_eq!(complete.escrow, settled);
    assert_eq!(cancel.escrow, settled);
    assert_eq!(claim.escrow, settled);
    assert_eq!(settled.data.status, EscrowStatus::Completed);
}

#[test]
fn scenario_close_after_settlement_returns_the_reserve() {
    let (escrow, _) = open(1000, 1);
    let key = escrow.key;

    let active = CloseEscrow { renter: renter(), escrow: escrow.clone() };
    assert_eq!(active.validate(), Ok(()));
    assert_eq!(close_escrow(active), Err(EscrowError::InvalidStatus));

    let mut cancel = CancelRental { signer: renter(), renter: renter(), escrow };
    cancel_rental(&mut cancel, RESERVE).expect("cancelled");
    let settled = CloseEscrow { renter: renter(), escrow: cancel.escrow };
    assert_eq!(settled.validate(), Ok(()));
    assert_eq!(close_escrow(settled), Ok((EscrowClosed { escrow: key }, RESERVE)));
}
