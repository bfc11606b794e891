use stream_pay_core::{
    estimate, total_fee, Address, Blockhash, FeeEstimate, ParameterError, Refusal,
    TransferDraft, Unsupported,
};

fn draft(memo: Option<String>) -> TransferDraft {
    TransferDraft {
        sender: Address { bytes: [1u8; 32] },
        recipient: Address { bytes: [2u8; 32] },
        fee_payer: Address { bytes: [1u8; 32] },
        memo,
        nonce_account: None,
    }
}

#[test]
fn without_a_blockhash_the_fee_is_put_at_zero() {
    assert_eq!(estimate(&draft(None), None), Ok(FeeEstimate::Known(0)));
    let long = "m".repeat(70_000);
    assert_eq!(estimate(&draft(Some(long)), None), Ok(FeeEstimate::Known(0)));
}

#[test]
fn the_fee_is_asked_for_the_transfer_of_nothing() {
    let blockhash = Blockhash { bytes: [3u8; 32] };
    let asked = estimate(&draft(None), Some(&blockhash)).unwrap();
    let nothing = draft(None).build(0, &blockhash).unwrap();
    assert_eq!(asked, FeeEstimate::Ask(nothing));
    let something = draft(None).build(1, &blockhash).unwrap();
    assert_ne!(asked, FeeEstimate::Ask(something));
}

#[test]
fn the_fee_of_an_overlong_memo_is_not_asked_for() {
    let blockhash = Blockhash { bytes: [3u8; 32] };
    let long = "m".repeat(65_536);
    assert_eq!(
        estimate(&draft(Some(long)), Some(&blockhash)),
        Err(Refusal::BadParameter(ParameterError::MemoTooLong))
    );
}

#[test]
fn the_fee_of_a_nonce_transfer_is_not_asked_for() {
    let blockhash = Blockhash { bytes: [3u8; 32] };
    let mut with_nonce = draft(None);
    with_nonce.nonce_account = Some(Address { bytes: [4u8; 32] });
    assert_eq!(
        estimate(&with_nonce, Some(&blockhash)),
        Err(Refusal::NotSupported(Unsupported::NonceAccount))
    );
    assert_eq!(estimate(&with_nonce, None), Ok(FeeEstimate::Known(0)));
}

#[test]
fn total_fee_adds_up() {
    assert_eq!(total_fee(&vec![]), Some(0));
    assert_eq!(total_fee(&vec![5_000]), Some(5_000));
    assert_eq!(total_fee(&vec![5_000, 10_000, 1]), Some(15_001));
    assert_eq!(total_fee(&vec![u64::MAX - 1, 1]), Some(u64::MAX));
    assert_eq!(total_fee(&vec![0, u64::MAX, 0]), Some(u64::MAX));
}

#[test]
fn total_fee_refuses_what_does_not_fit() {
    assert_eq!(total_fee(&vec![u64::MAX, 1]), None);
    assert_eq!(total_fee(&vec![1, u64::MAX, 5]), None);
    assert_eq!(total_fee(&vec![u64::MAX, u64::MAX]), None);
}
