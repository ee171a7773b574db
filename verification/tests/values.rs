use roborio_escrow::{Address, Escrow, EscrowAccount, EscrowError, EscrowStatus};

#[test]
fn record_space_is_the_sum_of_its_parts() {
    assert_eq!(Escrow::SPACE, 166);
}

#[test]
fn only_active_is_not_terminal() {
    assert!(!EscrowStatus::Active.is_terminal());
    assert!(EscrowStatus::Completed.is_terminal());
    assert!(EscrowStatus::Cancelled.is_terminal());
    assert!(EscrowStatus::Expired.is_terminal());
}

#[test]
fn addresses_are_equal_exactly_when_their_bytes_are() {
    let a = Address::new_from_array([5u8; 32]);
    assert_eq!(a, Address::new_from_array([5u8; 32]));
    for i in 0..32 {
        let mut bytes = [5u8; 32];
        bytes[i] = 6;
        assert_ne!(a, Address::new_from_array(bytes));
    }
}

#[test]
fn address_gives_its_bytes_back_in_order() {
    let mut bytes = [0u8; 32];
    for (i, b) in bytes.iter_mut().enumerate() {
        *b = i as u8;
    }
    let a = Address::new_from_array(bytes);
    assert_eq!(a.to_bytes(), bytes);
    assert_eq!(a.to_vec(), bytes.to_vec());
}

#[test]
fn available_is_what_exceeds_the_reserve() {
    let data = Escrow {
        renter: Address::new_from_array([1u8; 32]),
        operator: Address::new_from_array([2u8; 32]),
        robot_id: String::from("bot"),
        amount: 10,
        created_at: 0,
        expires_at: 3_600,
        status: EscrowStatus::Active,
        bump: 0,
    };
    let key = Address::new_from_array([3u8; 32]);
    for (lamports, reserve, held) in [
        (0u64, 0u64, 0u64),
        (10, 0, 10),
        (10, 10, 0),
        (10, 11, 0),
        (11, 10, 1),
        (u64::MAX, 1, u64::MAX - 1),
        (0, u64::MAX, 0),
    ] {
        let account = EscrowAccount { key, lamports, data: data.clone() };
        assert_eq!(account.available(reserve), held);
    }
}

#[test]
fn each_error_has_its_message() {
    assert_eq!(EscrowError::InvalidAmount.message(), "Invalid amount");
    assert_eq!(EscrowError::InvalidDuration.message(), "Invalid rental duration");
    assert_eq!(EscrowError::InvalidRobotId.message(), "Invalid robot ID");
    assert_eq!(
        EscrowError::InvalidStatus.message(),
        "Invalid escrow status for this operation"
    );
    assert_eq!(EscrowError::Unauthorized.message(), "Unauthorized");
    assert_eq!(EscrowError::InvalidOperator.message(), "Invalid operator");
    assert_eq!(EscrowError::InvalidRenter.message(), "Invalid renter");
    assert_eq!(EscrowError::NotExpired.message(), "Escrow has not expired yet");
}
