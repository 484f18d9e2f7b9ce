use txhookmagick::fee::{split, FeeSplit};

fn expect(amount: u64, fee: u64, burn: u64, swap: u64, deposit: u64) {
    assert_eq!(
        split(amount),
        FeeSplit { fee, burn_amount: burn, swap_amount: swap, deposit_amount: deposit }
    );
}

#[test]
fn split_of_zero_is_all_zero() {
    expect(0, 0, 0, 0, 0);
}

#[test]
fn split_of_one_hundred() {
    expect(100, 1, 0, 0, 1);
}

#[test]
fn split_of_one_thousand() {
    expect(1000, 10, 5, 2, 3);
}

#[test]
fn split_of_two_hundred_fifty() {
    expect(250, 2, 1, 0, 1);
}

#[test]
fn split_of_five_hundred() {
    expect(500, 5, 2, 1, 2);
}

#[test]
fn split_below_one_percent_unit_is_zero() {
    expect(99, 0, 0, 0, 0);
}

#[test]
fn split_of_largest_amount() {
    let s = split(u64::MAX);
    assert_eq!(s.fee, u64::MAX / 100);
    assert_eq!(s.burn_amount, s.fee / 2);
    assert_eq!(s.swap_amount, s.fee / 4);
    assert_eq!(s.burn_amount + s.swap_amount + s.deposit_amount, s.fee);
}

#[test]
fn split_parts_add_up_to_fee() {
    for amount in [1u64, 7, 399, 400, 401, 12345, 987654321, u64::MAX - 1] {
        let s = split(amount);
        assert_eq!(s.fee, amount / 100);
        assert_eq!(s.burn_amount + s.swap_amount + s.deposit_amount, s.fee);
        assert!(s.fee <= amount);
    }
}
