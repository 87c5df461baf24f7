use nexus_staking::decimal::Decimal;
use nexus_staking::staking::math::decimal_division;

#[test]
fn test_decimal_division() {
    let a = 100u128;
    let b = Decimal::from_ratio(10, 50);
    let res = decimal_division(a, b);
    assert_eq!(res, 500u128);
}

#[test]
fn from_ratio_rounds_down_to_eighteen_digits() {
    assert_eq!(Decimal::from_ratio(1, 3).atomics, 333_333_333_333_333_333u128);
    assert_eq!(Decimal::from_ratio(10, 50).atomics, 200_000_000_000_000_000u128);
}

#[test]
fn from_ratio_agrees_with_the_host_decimal() {
    let host = cosmwasm_std::Decimal::from_ratio(7u128, 9u128);
    assert_eq!(Decimal::from_ratio(7, 9).atomics, host.atomics().u128());
}

#[test]
fn division_by_a_rate_of_one_keeps_the_amount() {
    assert_eq!(decimal_division(12_345, Decimal::one()), 12_345);
}

#[test]
fn division_by_half_doubles() {
    assert_eq!(decimal_division(21, Decimal::from_ratio(1, 2)), 42);
}
