//! What the network charges for a message.
//!
//! Only the ledger node can say what including a message costs. The library
//! decides what to ask: the fee of the transfer's message built for zero
//! lamports, so that the fee never depends on the amount.

use crate::address::Blockhash;
use crate::draft::TransferDraft;
use crate::error::Refusal;
use crate::message::Message;
use vstd::prelude::*;

verus! {

/// How the fee of a transfer is to be had.
#[derive(Clone, Debug, PartialEq, Eq)]
pub enum FeeEstimate {
    /// Without a blockhash there is no node to ask: the fee is taken to be
    /// this many lamports. Zero here means that the fee is not known, not
    /// that the transfer is free.
    Known(u64),
    /// The fee is what the node charges for this message.
    Ask(Message),
}

/// Says how to learn the fee of the transfer that `draft` describes.
///
/// With a blockhash the answer is the message to price: the transfer of zero
/// lamports under that blockhash. Without one the fee is put at zero.
pub fn estimate(draft: &TransferDraft, blockhash: Option<&Blockhash>) -> (r: Result<
    FeeEstimate,
    Refusal,
>)
    ensures
        match blockhash {
            None => r == Ok::<FeeEstimate, Refusal>(FeeEstimate::Known(0)),
            Some(hash) => match r {
                Ok(FeeEstimate::Ask(message)) => draft.refusal() is None && message@
                    == draft.message(0, hash@),
                Ok(FeeEstimate::Known(_)) => false,
                Err(e) => draft.refusal() == Some(e),
            },
        },
{
    match blockhash {
        None => Ok(FeeEstimate::Known(0)),
        Some(hash) => match draft.build(0, hash) {
            Ok(message) => Ok(FeeEstimate::Ask(message)),
            Err(e) => Err(e),
        },
    }
}

/// The sum of some fees, as a mathematical integer.
pub open spec fn fee_sum(fees: Seq<u64>) -> int
    decreases fees.len(),
{
    if fees.len() == 0 {
        0
    } else {
        fee_sum(fees.drop_last()) + fees.last()
    }
}

/// The sum of the first fees is no more than the sum of all.
proof fn lemma_fee_sum_grows(fees: Seq<u64>, n: int)
    requires
        0 <= n <= fees.len(),
    ensures
        0 <= fee_sum(fees.take(n)) <= fee_sum(fees),
    decreases fees.len(),
{
    if n == fees.len() {
        assert(fees.take(n) =~= fees);
        if fees.len() > 0 {
            lemma_fee_sum_grows(fees.drop_last(), n - 1);
        }
    } else {
        lemma_fee_sum_grows(fees.drop_last(), n);
        assert(fees.drop_last().take(n) =~= fees.take(n));
    }
}

/// Adds up the fees that the node charges for several messages; `None`
/// where the sum is more than a `u64` holds.
pub fn total_fee(fees: &Vec<u64>) -> (total: Option<u64>)
    ensures
        total == (if fee_sum(fees@) <= u64::MAX {
            Some(fee_sum(fees@) as u64)
        } else {
            None
        }),
{
    let mut total: u64 = 0;
    let mut i: usize = 0;
    while i < fees.len()
        invariant
            i <= fees.len(),
            total == fee_sum(fees@.take(i as int)),
        decreases fees.len() - i,
    {
        proof {
            assert(fees@.take(i + 1).drop_last() =~= fees@.take(i as int));
            lemma_fee_sum_grows(fees@, i + 1);
        }
        match total.checked_add(fees[i]) {
            Some(sum) => {
                total = sum;
            },
            None => {
                return None;
            },
        }
        i += 1;
    }
    proof {
        assert(fees@.take(i as int) =~= fees@);
    }
    Some(total)
}

} // verus!
