use staking::error::StakingError;

#[test]
fn the_stake_limit_error_has_its_message() {
    assert_eq!(
        StakingError::MaxStakeLimitReached.message(),
        "Max stake limit reached"
    );
}

#[test]
fn the_stake_limit_error_is_the_only_kind() {
    let err = StakingError::MaxStakeLimitReached;
    match err {
        StakingError::MaxStakeLimitReached => {}
    }
    let copy = err;
    assert_eq!(copy, err);
    assert_eq!(format!("{:?}", err), "MaxStakeLimitReached");
}
