//! Reading the balance of an account.

use crate::address::Address;
use crate::error::{ParameterError, ParseError, TransferError};
use crate::ledger::parsed_address;
use crate::units::SolAmount;
use vstd::prelude::*;

verus! {

/// The question of an account's balance, to be put to the ledger node.
#[derive(Clone, Copy, Debug, PartialEq, Eq)]
pub struct BalanceQuery {
    pub account: Address,
}

/// Says which account's balance to read for an address given in base58, or
/// why the text is no address.
pub fn get_balance(base58_pubkey: &str) -> (r: Result<BalanceQuery, ParameterError>)
    ensures
        match r {
            Ok(query) => parsed_address(base58_pubkey@) == Ok::<Seq<u8>, ParseError>(
                query.account@,
            ),
            Err(ParameterError::Address(why)) => parsed_address(base58_pubkey@) == Err::<
                Seq<u8>,
                ParseError,
            >(why),
            Err(_) => false,
        },
{
    match Address::from_base58(base58_pubkey) {
        Ok(account) => Ok(BalanceQuery { account }),
        Err(e) => Err(ParameterError::Address(e)),
    }
}

impl BalanceQuery {
    /// Turns the node's reply, a number of lamports, into the balance in
    /// SOL; a failure of the node is handed on as it came.
    pub fn answer<E>(self, reply: Result<u64, E>) -> (r: Result<SolAmount, TransferError<E>>)
        ensures
            r == (match reply {
                Ok(lamports) => Ok(SolAmount::of(lamports)),
                Err(e) => Err(TransferError::Transport(e)),
            }),
    {
        match reply {
            Ok(lamports) => Ok(SolAmount::from_lamports(lamports)),
            Err(e) => Err(TransferError::Transport(e)),
        }
    }
}

} // verus!
