use stream_pay_core::{SolAmount, LAMPORTS_PER_SOL};

#[test]
fn one_sol_is_a_billion_lamports() {
    assert_eq!(LAMPORTS_PER_SOL, 1_000_000_000);
    assert_eq!(SolAmount::from_lamports(1_000_000_000), SolAmount { sol: 1, nanos: 0 });
}

#[test]
fn half_a_sol_round_trips() {
    let half = SolAmount::new(0, 500_000_000).unwrap();
    assert_eq!(half.to_lamports(), Some(500_000_000));
    assert_eq!(SolAmount::from_lamports(500_000_000), half);
}

#[test]
fn lamports_round_trip_at_the_edges() {
    for lamports in [0u64, 1, 4_999, 999_999_999, 1_000_000_000, 1_000_000_001, u64::MAX] {
        assert_eq!(SolAmount::from_lamports(lamports).to_lamports(), Some(lamports));
    }
}

#[test]
fn from_lamports_splits_whole_and_fraction() {
    assert_eq!(SolAmount::from_lamports(0), SolAmount { sol: 0, nanos: 0 });
    assert_eq!(SolAmount::from_lamports(5_000), SolAmount { sol: 0, nanos: 5_000 });
    assert_eq!(
        SolAmount::from_lamports(12_345_678_901),
        SolAmount { sol: 12, nanos: 345_678_901 }
    );
    assert_eq!(
        SolAmount::from_lamports(u64::MAX),
        SolAmount { sol: 18_446_744_073, nanos: 709_551_615 }
    );
}

#[test]
fn sol_amounts_round_trip() {
    for (sol, nanos) in [(0u64, 0u32), (0, 1), (3, 999_999_999), (18_446_744_073, 709_551_615)] {
        let amount = SolAmount::new(sol, nanos).unwrap();
        let lamports = amount.to_lamports().unwrap();
        assert_eq!(SolAmount::from_lamports(lamports), amount);
    }
}

#[test]
fn to_lamports_refuses_what_does_not_fit() {
    assert_eq!(SolAmount { sol: 18_446_744_073, nanos: 709_551_616 }.to_lamports(), None);
    assert_eq!(SolAmount { sol: 18_446_744_074, nanos: 0 }.to_lamports(), None);
    assert_eq!(SolAmount { sol: u64::MAX, nanos: 0 }.to_lamports(), None);
}

#[test]
fn to_lamports_counts_an_overlong_fraction() {
    assert_eq!(SolAmount { sol: 1, nanos: 1_500_000_000 }.to_lamports(), Some(2_500_000_000));
}

#[test]
fn new_refuses_a_fraction_of_a_whole_sol() {
    assert_eq!(SolAmount::new(1, 999_999_999), Some(SolAmount { sol: 1, nanos: 999_999_999 }));
    assert_eq!(SolAmount::new(1, 1_000_000_000), None);
    assert_eq!(SolAmount::new(0, u32::MAX), None);
}

#[test]
fn sol_amounts_agree_with_the_ledger_on_exact_values() {
    for lamports in [0u64, 5_000, 500_000_000, 999_995_000, 20_000_000, 2_000_000_000] {
        let amount = SolAmount::from_lamports(lamports);
        let shown = amount.sol as f64 + amount.nanos as f64 / 1e9;
        assert_eq!(shown, solana_sdk::native_token::lamports_to_sol(lamports));
        assert_eq!(solana_sdk::native_token::sol_to_lamports(shown), lamports);
    }
}

#[test]
fn text_shows_whole_sol_without_a_point() {
    assert_eq!(SolAmount { sol: 0, nanos: 0 }.to_text(), "0");
    assert_eq!(SolAmount { sol: 1, nanos: 0 }.to_text(), "1");
    assert_eq!(SolAmount { sol: 10, nanos: 0 }.to_text(), "10");
    assert_eq!(SolAmount { sol: 18_446_744_073, nanos: 0 }.to_text(), "18446744073");
    assert_eq!(SolAmount { sol: u64::MAX, nanos: 0 }.to_text(), "18446744073709551615");
}

#[test]
fn text_shows_the_fraction_without_zeros_at_its_end() {
    assert_eq!(SolAmount { sol: 0, nanos: 500_000_000 }.to_text(), "0.5");
    assert_eq!(SolAmount { sol: 0, nanos: 5_000 }.to_text(), "0.000005");
    assert_eq!(SolAmount { sol: 0, nanos: 4_999 }.to_text(), "0.000004999");
    assert_eq!(SolAmount { sol: 0, nanos: 1 }.to_text(), "0.000000001");
    assert_eq!(SolAmount { sol: 0, nanos: 999_999_999 }.to_text(), "0.999999999");
    assert_eq!(SolAmount { sol: 12, nanos: 345_678_900 }.to_text(), "12.3456789");
    assert_eq!(SolAmount { sol: 7, nanos: 100_000_000 }.to_text(), "7.1");
    assert_eq!(SolAmount { sol: 7, nanos: 10 }.to_text(), "7.00000001");
}

#[test]
fn text_is_what_the_ledger_shows() {
    let mut lamports: u64 = 1;
    for _ in 0..2_000 {
        lamports = lamports.wrapping_mul(6_364_136_223_846_793_005).wrapping_add(1_442_695_040_888_963_407);
        let shown = lamports % 1_000_000_000_000_000;
        assert_eq!(
            SolAmount::from_lamports(shown).to_text(),
            format!("{}", solana_sdk::native_token::lamports_to_sol(shown))
        );
    }
    for shown in [0u64, 1, 4_999, 5_000, 500_000_000, 999_995_000, 1_000_000_000, 2_000_000_000] {
        assert_eq!(
            SolAmount::from_lamports(shown).to_text(),
            format!("{}", solana_sdk::native_token::lamports_to_sol(shown))
        );
    }
}
