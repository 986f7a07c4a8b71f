use pumpfun::utils::calculate_with_slippage_buy;
use pumpfun::utils::calculate_with_slippage_sell;
use pumpfun::utils::calculate_with_slippage_sell_checked;

#[test]
fn buy_one_percent_on_one_unit() {
    assert_eq!(calculate_with_slippage_buy(1_000_000_000, 100), 1_010_000_000);
}

#[test]
fn sell_one_percent_on_one_unit() {
    assert_eq!(calculate_with_slippage_sell(1_000_000_000, 100), 990_000_000);
}

#[test]
fn buy_zero_amount() {
    assert_eq!(calculate_with_slippage_buy(0, 500), 0);
}

#[test]
fn sell_full_tolerance_keeps_nothing() {
    assert_eq!(calculate_with_slippage_sell(1_000, 10_000), 0);
}

#[test]
fn sell_checked_agrees_on_valid_input() {
    assert_eq!(
        calculate_with_slippage_sell_checked(1_000_000_000, 100),
        Some(990_000_000)
    );
}

#[test]
fn sell_checked_rejects_underflow() {
    // The deduction (200) exceeds the amount (100): invalid input,
    // not wrapped arithmetic.
    assert_eq!(calculate_with_slippage_sell_checked(100, 20_000), None);
}

#[test]
fn sell_checked_rejects_product_overflow() {
    assert_eq!(calculate_with_slippage_sell_checked(u64::MAX, u64::MAX), None);
}
