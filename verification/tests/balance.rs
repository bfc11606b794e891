use stream_pay_core::{
    check, Address, InsufficiencyReason, Refusal, SolAmount, SpendAmount, Unsupported,
};

fn payer() -> Address {
    Address { bytes: [9u8; 32] }
}

fn short(spend: u64, fee: u64) -> Result<(), Refusal> {
    Err(Refusal::Insufficient(InsufficiencyReason::SpendAndFee {
        spend: SolAmount::from_lamports(spend),
        fee: SolAmount::from_lamports(fee),
        account: payer(),
    }))
}

#[test]
fn everything_of_one_sol_passes() {
    let spend = SpendAmount::All.resolve(1_000_000_000, 5_000, true);
    assert_eq!(spend, 999_995_000);
    assert_eq!(check(1_000_000_000, spend, 5_000, &payer(), true), Ok(()));
}

#[test]
fn a_balance_below_the_fee_is_refused() {
    assert_eq!(check(4_999, 4_999, 5_000, &payer(), true), short(4_999, 5_000));
    assert_eq!(
        check(4_999, 4_999, 5_000, &payer(), true),
        Err(Refusal::Insufficient(InsufficiencyReason::SpendAndFee {
            spend: SolAmount { sol: 0, nanos: 4_999 },
            fee: SolAmount { sol: 0, nanos: 5_000 },
            account: payer(),
        }))
    );
}

#[test]
fn a_balance_below_spend_and_fee_is_refused() {
    assert_eq!(check(10_000, 6_000, 5_000, &payer(), true), short(6_000, 5_000));
    assert_eq!(check(10_999, 6_000, 5_000, &payer(), true), short(6_000, 5_000));
    assert_eq!(check(5_000, 1, 5_000, &payer(), true), short(1, 5_000));
    assert_eq!(check(4_999, 0, 5_000, &payer(), true), short(0, 5_000));
}

#[test]
fn a_balance_of_spend_and_fee_passes() {
    assert_eq!(check(11_000, 6_000, 5_000, &payer(), true), Ok(()));
    assert_eq!(check(11_001, 6_000, 5_000, &payer(), true), Ok(()));
    assert_eq!(check(u64::MAX, u64::MAX - 5_000, 5_000, &payer(), true), Ok(()));
    assert_eq!(check(1, 0, 0, &payer(), true), Ok(()));
}

#[test]
fn an_empty_account_is_refused() {
    assert_eq!(check(0, 0, 0, &payer(), true), short(0, 0));
    assert_eq!(check(0, 1, 0, &payer(), true), short(1, 0));
}

#[test]
fn a_cost_beyond_all_lamports_is_refused() {
    assert_eq!(check(u64::MAX, u64::MAX, 1, &payer(), true), short(u64::MAX, 1));
    assert_eq!(check(u64::MAX, u64::MAX, u64::MAX, &payer(), true), short(u64::MAX, u64::MAX));
}

#[test]
fn another_fee_payer_is_not_offered() {
    assert_eq!(
        check(1_000_000_000, 1, 5_000, &payer(), false),
        Err(Refusal::NotSupported(Unsupported::SeparateFeePayer))
    );
    assert_eq!(
        check(0, 1, 5_000, &payer(), false),
        Err(Refusal::NotSupported(Unsupported::SeparateFeePayer))
    );
}

#[test]
fn a_reason_is_worded_with_account_and_amounts() {
    let key = solana_program::pubkey::Pubkey::new_from_array(payer().bytes);
    let both = InsufficiencyReason::SpendAndFee {
        spend: SolAmount::from_lamports(4_999),
        fee: SolAmount::from_lamports(5_000),
        account: payer(),
    };
    assert_eq!(
        both.message(),
        format!(
            "Account {} has insufficient funds for spend ({} SOL) + fee ({} SOL)",
            key,
            solana_sdk::native_token::lamports_to_sol(4_999),
            solana_sdk::native_token::lamports_to_sol(5_000)
        )
    );
    assert_eq!(
        both.message(),
        "Account cGfHiC6Kgg3FpFZvgwGcswsCRtp4aBP2fzuXRQPizuN has insufficient funds for spend \
         (0.000004999 SOL) + fee (0.000005 SOL)"
    );
    let spend = InsufficiencyReason::Spend {
        spend: SolAmount::from_lamports(1_500_000_000),
        account: payer(),
    };
    assert_eq!(
        spend.message(),
        format!("Account {} has insufficient funds for spend (1.5 SOL)", key)
    );
    let fee = InsufficiencyReason::Fee { fee: SolAmount::from_lamports(5_000), account: payer() };
    assert_eq!(
        fee.message(),
        format!("Account {} has insufficient funds for fee (0.000005 SOL)", key)
    );
}
