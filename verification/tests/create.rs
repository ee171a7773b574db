use roborio_escrow::{create_rental, Address, CreateRental, EscrowError, EscrowStatus};

fn ctx() -> CreateRental {
    CreateRental {
        renter: Address::new_from_array([11u8; 32]),
        operator: Address::new_from_array([12u8; 32]),
        escrow: Address::new_from_array([13u8; 32]),
        bump: 254,
    }
}

fn id(text: &str) -> String {
    String::from(text)
}

#[test]
fn create_copies_the_parties_the_bump_and_the_parameters() {
    let (record, event) = create_rental(&ctx(), id("arm-7"), 5_000, 24, 1_000).unwrap();
    assert_eq!(record.renter, ctx().renter);
    assert_eq!(record.operator, ctx().operator);
    assert_eq!(record.robot_id, "arm-7");
    assert_eq!(record.amount, 5_000);
    assert_eq!(record.created_at, 1_000);
    assert_eq!(record.expires_at, 1_000 + 24 * 3600);
    assert_eq!(record.status, EscrowStatus::Active);
    assert_eq!(record.bump, 254);
    assert_eq!(event.escrow, ctx().escrow);
    assert_eq!(event.renter, ctx().renter);
    assert_eq!(event.operator, ctx().operator);
    assert_eq!(event.robot_id, "arm-7");
    assert_eq!(event.amount, 5_000);
    assert_eq!(event.expires_at, 87_400);
}

#[test]
fn create_expires_exactly_hours_times_3600_after_now() {
    for (now, hours, expected) in [
        (0i64, 1u64, 3_600i64),
        (1_700_000_000, 72, 1_700_259_200),
        (-7_200, 2, 0),
        (-1_000_000, 1, -996_400),
        (5, 2_562_047_788_015_215, 9_223_372_036_854_774_005),
    ] {
        let (record, _) = create_rental(&ctx(), id("r"), 1, hours, now).unwrap();
        assert_eq!(record.expires_at, expected);
        assert_eq!(record.created_at, now);
    }
}

#[test]
fn create_rejects_a_zero_amount() {
    assert_eq!(create_rental(&ctx(), id("bot"), 0, 1, 0), Err(EscrowError::InvalidAmount));
    assert!(create_rental(&ctx(), id("bot"), 1, 1, 0).is_ok());
    assert!(create_rental(&ctx(), id("bot"), u64::MAX, 1, 0).is_ok());
}

#[test]
fn create_rejects_a_zero_duration() {
    assert_eq!(create_rental(&ctx(), id("bot"), 10, 0, 0), Err(EscrowError::InvalidDuration));
}

#[test]
fn create_rejects_an_empty_robot_id() {
    assert_eq!(create_rental(&ctx(), id(""), 10, 1, 0), Err(EscrowError::InvalidRobotId));
}

#[test]
fn create_accepts_32_bytes_and_rejects_33() {
    let longest = "a".repeat(32);
    let too_long = "a".repeat(33);
    assert!(create_rental(&ctx(), id("a"), 10, 1, 0).is_ok());
    assert!(create_rental(&ctx(), longest, 10, 1, 0).is_ok());
    assert_eq!(create_rental(&ctx(), too_long, 10, 1, 0), Err(EscrowError::InvalidRobotId));
}

#[test]
fn create_measures_the_robot_id_in_bytes_not_characters() {
    // Sixteen two-byte characters are 32 bytes; eleven three-byte ones are 33.
    let sixteen = "\u{e9}".repeat(16);
    let eleven = "\u{20ac}".repeat(11);
    assert_eq!(sixteen.len(), 32);
    assert_eq!(eleven.len(), 33);
    assert!(create_rental(&ctx(), sixteen, 10, 1, 0).is_ok());
    assert_eq!(create_rental(&ctx(), eleven, 10, 1, 0), Err(EscrowError::InvalidRobotId));
}

#[test]
fn create_rejects_a_duration_whose_seconds_overflow() {
    // The product leaves the unsigned range.
    assert_eq!(
        create_rental(&ctx(), id("bot"), 10, u64::MAX, 0),
        Err(EscrowError::InvalidDuration)
    );
    assert_eq!(
        create_rental(&ctx(), id("bot"), 10, u64::MAX / 3600 + 1, 0),
        Err(EscrowError::InvalidDuration)
    );
    // The product fits the unsigned range but not the signed one.
    assert_eq!(
        create_rental(&ctx(), id("bot"), 10, 2_562_047_788_015_216, 0),
        Err(EscrowError::InvalidDuration)
    );
    assert_eq!(
        create_rental(&ctx(), id("bot"), 10, u64::MAX / 3600, i64::MIN),
        Err(EscrowError::InvalidDuration)
    );
    // The largest duration that fits, from time zero.
    let (record, _) = create_rental(&ctx(), id("bot"), 10, 2_562_047_788_015_215, 0).unwrap();
    assert_eq!(record.expires_at, 9_223_372_036_854_774_000);
}

#[test]
fn create_rejects_an_expiry_past_the_last_timestamp() {
    assert_eq!(
        create_rental(&ctx(), id("bot"), 10, 1, i64::MAX),
        Err(EscrowError::InvalidDuration)
    );
    assert_eq!(
        create_rental(&ctx(), id("bot"), 10, 1, i64::MAX - 3_599),
        Err(EscrowError::InvalidDuration)
    );
    let (record, _) = create_rental(&ctx(), id("bot"), 10, 1, i64::MAX - 3_600).unwrap();
    assert_eq!(record.expires_at, i64::MAX);
    let (early, _) = create_rental(&ctx(), id("bot"), 10, 1, i64::MIN).unwrap();
    assert_eq!(early.expires_at, i64::MIN + 3_600);
}

#[test]
fn create_judges_amount_then_duration_then_robot_id_then_expiry() {
    assert_eq!(create_rental(&ctx(), id(""), 0, 0, i64::MAX), Err(EscrowError::InvalidAmount));
    assert_eq!(create_rental(&ctx(), id(""), 1, 0, i64::MAX), Err(EscrowError::InvalidDuration));
    assert_eq!(
        create_rental(&ctx(), id(""), 1, u64::MAX, i64::MAX),
        Err(EscrowError::InvalidRobotId)
    );
    assert_eq!(
        create_rental(&ctx(), id("x"), 1, u64::MAX, i64::MAX),
        Err(EscrowError::InvalidDuration)
    );
}
