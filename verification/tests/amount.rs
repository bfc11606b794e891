use stream_pay_core::{SpendAmount, SpendAndFee};

#[test]
fn new_takes_an_exact_amount() {
    assert_eq!(SpendAmount::new(Some(42), false), SpendAmount::Exact(42));
    assert_eq!(SpendAmount::new(Some(42), true), SpendAmount::Exact(42));
    assert_eq!(SpendAmount::new(Some(0), true), SpendAmount::Exact(0));
}

#[test]
fn new_without_an_amount_means_everything() {
    assert_eq!(SpendAmount::new(None, false), SpendAmount::All);
}

#[test]
fn default_is_nothing() {
    assert_eq!(SpendAmount::default(), SpendAmount::Exact(0));
}

#[test]
fn an_exact_amount_resolves_to_itself() {
    assert_eq!(SpendAmount::Exact(4_999).resolve(4_999, 5_000, true), 4_999);
    assert_eq!(SpendAmount::Exact(7).resolve(0, 0, false), 7);
    assert_eq!(SpendAmount::Exact(u64::MAX).resolve(1, u64::MAX, true), u64::MAX);
}

#[test]
fn everything_leaves_room_for_the_fee() {
    assert_eq!(SpendAmount::All.resolve(1_000_000_000, 5_000, true), 999_995_000);
    assert_eq!(SpendAmount::All.resolve(5_000, 5_000, true), 0);
    assert_eq!(SpendAmount::All.resolve(u64::MAX, 0, true), u64::MAX);
}

#[test]
fn everything_stops_at_zero() {
    assert_eq!(SpendAmount::All.resolve(4_999, 5_000, true), 0);
    assert_eq!(SpendAmount::All.resolve(0, u64::MAX, true), 0);
}

#[test]
fn everything_is_the_balance_where_another_pays_the_fee() {
    assert_eq!(SpendAmount::All.resolve(1_000_000_000, 5_000, false), 1_000_000_000);
    assert_eq!(SpendAmount::All.resolve(4_999, 5_000, false), 4_999);
}

#[test]
fn everything_is_within_the_balance() {
    for balance in [0u64, 1, 4_999, 5_000, 5_001, 1_000_000_000, u64::MAX] {
        for fee in [0u64, 1, 5_000, u64::MAX] {
            for own_fee in [true, false] {
                assert!(SpendAmount::All.resolve(balance, fee, own_fee) <= balance);
            }
        }
    }
}

#[test]
fn spend_and_fee_holds_both() {
    let cost = SpendAndFee { spend: 999_995_000, fee: 5_000 };
    assert_eq!(cost.spend + cost.fee, 1_000_000_000);
}
