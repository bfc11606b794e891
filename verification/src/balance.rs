//! Whether a payer can afford a transfer.

use crate::address::Address;
use crate::amount::SpendAmount;
use crate::error::{InsufficiencyReason, Refusal, Unsupported};
use crate::units::SolAmount;
use vstd::prelude::*;

verus! {

/// A payer who also pays the fee falls short where the account is empty or
/// holds less than what is sent and the fee together.
pub open spec fn falls_short(balance: u64, spend: u64, fee: u64) -> bool {
    balance == 0 || balance < spend + fee
}

/// What `check` answers.
///
/// Where the payer pays the fee there is one test, of the balance against
/// what is sent and the fee together, and one kind of failure, whichever of
/// the two the balance cannot cover. A fee payer of its own is not offered.
pub open spec fn checked(
    balance: u64,
    spend: u64,
    fee: u64,
    payer: Address,
    payer_is_fee_payer: bool,
) -> Result<(), Refusal> {
    if !payer_is_fee_payer {
        Err(Refusal::NotSupported(Unsupported::SeparateFeePayer))
    } else if falls_short(balance, spend, fee) {
        Err(
            Refusal::Insufficient(
                InsufficiencyReason::SpendAndFee {
                    spend: SolAmount::of(spend),
                    fee: SolAmount::of(fee),
                    account: payer,
                },
            ),
        )
    } else {
        Ok(())
    }
}

/// Decides whether `payer`, holding `balance` lamports, can send `spend`
/// lamports at a fee of `fee` lamports.
pub fn check(balance: u64, spend: u64, fee: u64, payer: &Address, payer_is_fee_payer: bool) -> (r:
    Result<(), Refusal>)
    ensures
        r == checked(balance, spend, fee, *payer, payer_is_fee_payer),
{
    if !payer_is_fee_payer {
        return Err(Refusal::NotSupported(Unsupported::SeparateFeePayer));
    }
    let covered: bool = match spend.checked_add(fee) {
        Some(cost) => balance != 0 && balance >= cost,
        None => false,
    };
    if covered {
        Ok(())
    } else {
        Err(
            Refusal::Insufficient(
                InsufficiencyReason::SpendAndFee {
                    spend: SolAmount::from_lamports(spend),
                    fee: SolAmount::from_lamports(fee),
                    account: *payer,
                },
            ),
        )
    }
}

/// A payer who pays the fee and holds less than the fee, or less than what
/// is sent and the fee together, is turned down for want of both, never let
/// through.
pub proof fn lemma_short_balance_is_refused(balance: u64, spend: u64, fee: u64, payer: Address)
    requires
        balance < fee || balance < spend + fee,
    ensures
        checked(balance, spend, fee, payer, true) == Err::<(), Refusal>(
            Refusal::Insufficient(
                InsufficiencyReason::SpendAndFee {
                    spend: SolAmount::of(spend),
                    fee: SolAmount::of(fee),
                    account: payer,
                },
            ),
        ),
{
}

/// A payer who pays the fee and holds at least what is sent and the fee
/// together is let through, unless the account is empty.
pub proof fn lemma_sufficient_balance_passes(balance: u64, spend: u64, fee: u64, payer: Address)
    requires
        balance >= spend + fee,
        balance != 0,
    ensures
        checked(balance, spend, fee, payer, true) == Ok::<(), Refusal>(()),
{
}

/// Whoever is let through pays the fee, holds something, and holds no less
/// than what is sent and the fee together.
pub proof fn lemma_passing_means_covered(
    balance: u64,
    spend: u64,
    fee: u64,
    payer: Address,
    payer_is_fee_payer: bool,
)
    requires
        checked(balance, spend, fee, payer, payer_is_fee_payer) is Ok,
    ensures
        payer_is_fee_payer,
        balance != 0,
        spend + fee <= balance,
{
}

/// An empty account is turned down even where nothing is sent and the fee is
/// nothing.
pub proof fn lemma_empty_account_is_refused(spend: u64, fee: u64, payer: Address)
    ensures
        checked(0, spend, fee, payer, true) is Err,
{
}

/// A payer who pays the fee and asks to send everything is let through
/// exactly where the account is not empty and covers the fee; what is sent
/// and the fee then come to the whole balance.
pub proof fn lemma_everything_is_affordable(balance: u64, fee: u64, payer: Address)
    ensures
        checked(balance, SpendAmount::All.resolved(balance, fee, true), fee, payer, true) is Ok
            <==> balance != 0 && fee <= balance,
        fee <= balance ==> SpendAmount::All.resolved(balance, fee, true) + fee == balance,
{
}

} // verus!
