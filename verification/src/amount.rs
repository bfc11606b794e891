//! What a caller asks to send, and what that comes to once the balance and
//! the fee are known.

use vstd::prelude::*;

verus! {

/// How much of the sender's balance a transfer should move.
#[derive(Clone, Copy, Debug, PartialEq, Eq, Structural)]
pub enum SpendAmount {
    /// Everything the sender has, less the fee where the sender pays it.
    All,
    /// An exact number of lamports.
    Exact(u64),
}

/// What a transfer moves and what the network charges for it, in lamports.
#[derive(Clone, Copy, Debug, PartialEq, Eq, Structural)]
pub struct SpendAndFee {
    pub spend: u64,
    pub fee: u64,
}

impl SpendAmount {
    /// The amount that a request for `amount` lamports, or for everything
    /// where it is `None`, stands for.
    pub open spec fn of(amount: Option<u64>) -> SpendAmount {
        match amount {
            Some(lamports) => SpendAmount::Exact(lamports),
            None => SpendAmount::All,
        }
    }

    /// The lamports that this amount comes to for a payer holding `balance`
    /// when the transfer costs `fee`.
    ///
    /// An exact amount stands as it is. `All` is the balance; where the payer
    /// also pays the fee, the fee is taken off first, down to zero and no
    /// further.
    pub open spec fn resolved(self, balance: u64, fee: u64, payer_is_fee_payer: bool) -> u64 {
        match self {
            SpendAmount::Exact(lamports) => lamports,
            SpendAmount::All => if payer_is_fee_payer {
                if balance >= fee {
                    (balance - fee) as u64
                } else {
                    0
                }
            } else {
                balance
            },
        }
    }

    /// Makes an amount from an optional number of lamports.
    ///
    /// When signing without a connection to the ledger no balance is known,
    /// so "everything" means nothing there: callers must not ask for it.
    pub fn new(amount: Option<u64>, sign_only: bool) -> (r: SpendAmount)
        requires
            amount is Some || !sign_only,
        ensures
            r == Self::of(amount),
    {
        match amount {
            Some(lamports) => SpendAmount::Exact(lamports),
            None => SpendAmount::All,
        }
    }

    /// Resolves this amount against a balance and a fee.
    pub fn resolve(self, balance: u64, fee: u64, payer_is_fee_payer: bool) -> (spend: u64)
        ensures
            spend == self.resolved(balance, fee, payer_is_fee_payer),
    {
        match self {
            SpendAmount::Exact(lamports) => lamports,
            SpendAmount::All => if payer_is_fee_payer {
                balance.saturating_sub(fee)
            } else {
                balance
            },
        }
    }
}

impl Default for SpendAmount {
    /// An exact amount of zero lamports.
    fn default() -> (r: SpendAmount)
        ensures
            r == SpendAmount::Exact(0),
    {
        SpendAmount::Exact(0)
    }
}

/// "Everything" never comes to more than the balance, whoever pays the fee.
pub proof fn lemma_all_within_balance(balance: u64, fee: u64, payer_is_fee_payer: bool)
    ensures
        0 <= SpendAmount::All.resolved(balance, fee, payer_is_fee_payer) <= balance,
{
}

} // verus!
