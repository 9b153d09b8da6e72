use stellar_htlc::{
    HTLCError, SwapStatus, MAX_TIMELOCK_DURATION, MIN_RESOLVER_COLLATERAL, MIN_TIMELOCK_DURATION,
};

#[test]
fn test_test_error_codes() {
    assert_eq!(HTLCError::InvalidAmount.code(), 1000);
    assert_eq!(HTLCError::SwapNotFound.code(), 2000);
    assert_eq!(HTLCError::Unauthorized.code(), 4000);
}

#[test]
fn test_swap_status_values() {
    assert_eq!(SwapStatus::Pending as u32, 0);
    assert_eq!(SwapStatus::Active as u32, 1);
    assert_eq!(SwapStatus::Claimed as u32, 2);
    assert_eq!(SwapStatus::Refunded as u32, 3);
}

#[test]
fn test_constants() {
    assert_eq!(MIN_TIMELOCK_DURATION, 3600);
    assert_eq!(MAX_TIMELOCK_DURATION, 604800);
    assert_eq!(MIN_RESOLVER_COLLATERAL, 1000000);
}

#[test]
fn every_error_has_its_own_code() {
    let all = [
        (HTLCError::InvalidAmount, 1000u32),
        (HTLCError::InvalidTimelock, 1001),
        (HTLCError::InvalidFee, 1002),
        (HTLCError::InvalidPreimage, 1003),
        (HTLCError::InvalidRecipient, 1004),
        (HTLCError::SwapNotFound, 2000),
        (HTLCError::SwapAlreadyExists, 2001),
        (HTLCError::AlreadyClaimed, 2002),
        (HTLCError::AlreadyRefunded, 2003),
        (HTLCError::TimelockExpired, 3000),
        (HTLCError::TimelockNotExpired, 3001),
        (HTLCError::Unauthorized, 4000),
        (HTLCError::NotInitiated, 4001),
        (HTLCError::TokenTransferFailed, 5000),
        (HTLCError::InsufficientBalance, 5001),
        (HTLCError::InsufficientCollateral, 5002),
        (HTLCError::ResolverNotFound, 6000),
        (HTLCError::ResolverNotActive, 6001),
        (HTLCError::AlreadyInitialized, 7000),
        (HTLCError::NotInitialized, 7001),
    ];
    for (error, code) in all {
        assert_eq!(error.code(), code);
        assert_eq!(HTLCError::from_code(code), Some(error));
    }
    for (i, (a, _)) in all.iter().enumerate() {
        for (j, (b, _)) in all.iter().enumerate() {
            assert_eq!(a.code() == b.code(), i == j);
        }
    }
    assert_eq!(HTLCError::from_code(0), None);
    assert_eq!(HTLCError::from_code(1005), None);
    assert_eq!(HTLCError::from_code(7002), None);
}

#[test]
fn failed_is_the_fifth_status() {
    assert_eq!(SwapStatus::Failed as u32, 4);
    assert!(SwapStatus::Pending.is_live());
    assert!(SwapStatus::Active.is_live());
    assert!(SwapStatus::Claimed.is_terminal());
    assert!(SwapStatus::Refunded.is_terminal());
    assert!(SwapStatus::Failed.is_terminal());
    assert!(!SwapStatus::Failed.is_live());
}
