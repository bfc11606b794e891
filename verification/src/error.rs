//! Why a transfer is not prepared or not finished.

use crate::address::Address;
use crate::ledger::address_text;
use crate::units::SolAmount;
use vstd::prelude::*;
use vstd::string::StringExecFns;

verus! {

/// Which funds an account lacks. The amounts are in SOL, as they are shown
/// to the person who asked; the account is the one that falls short.
#[derive(Clone, Copy, Debug, PartialEq, Eq)]
pub enum InsufficiencyReason {
    /// The fee payer cannot pay the fee.
    Fee { fee: SolAmount, account: Address },
    /// The payer cannot pay what is to be sent.
    Spend { spend: SolAmount, account: Address },
    /// The payer, who also pays the fee, cannot pay both.
    SpendAndFee { spend: SolAmount, fee: SolAmount, account: Address },
}

impl InsufficiencyReason {
    /// The reason in words: the account in base58, what it cannot pay, and
    /// the amounts in SOL.
    pub open spec fn text(self) -> Seq<char> {
        match self {
            InsufficiencyReason::Fee { fee, account } => "Account "@ + address_text(account@)
                + " has insufficient funds for fee ("@ + fee.text() + " SOL)"@,
            InsufficiencyReason::Spend { spend, account } => "Account "@ + address_text(account@)
                + " has insufficient funds for spend ("@ + spend.text() + " SOL)"@,
            InsufficiencyReason::SpendAndFee { spend, fee, account } => "Account "@
                + address_text(account@) + " has insufficient funds for spend ("@ + spend.text()
                + " SOL) + fee ("@ + fee.text() + " SOL)"@,
        }
    }

    /// Writes the reason in words.
    pub fn message(&self) -> (text: String)
        ensures
            text@ == self.text(),
    {
        let mut text = String::from_str("Account ");
        match self {
            InsufficiencyReason::Fee { fee, account } => {
                text.append(account.to_base58().as_str());
                text.append(" has insufficient funds for fee (");
                text.append(fee.to_text().as_str());
            },
            InsufficiencyReason::Spend { spend, account } => {
                text.append(account.to_base58().as_str());
                text.append(" has insufficient funds for spend (");
                text.append(spend.to_text().as_str());
            },
            InsufficiencyReason::SpendAndFee { spend, fee, account } => {
                text.append(account.to_base58().as_str());
                text.append(" has insufficient funds for spend (");
                text.append(spend.to_text().as_str());
                text.append(" SOL) + fee (");
                text.append(fee.to_text().as_str());
            },
        }
        text.append(" SOL)");
        text
    }
}

/// A way of working that the ledger knows and this library does not offer.
#[derive(Clone, Copy, Debug, PartialEq, Eq, Structural)]
pub enum Unsupported {
    /// Signing without a connection to the ledger.
    SignOnly,
    /// A message whose lifetime is bound to a nonce account, not a blockhash.
    NonceAccount,
    /// A fee payer other than the sender.
    SeparateFeePayer,
}

/// Why a piece of text is not the base58 form of an address or a signature.
#[derive(Clone, Copy, Debug, PartialEq, Eq, Structural)]
pub enum ParseError {
    /// The text is too long, or stands for the wrong number of bytes.
    WrongSize,
    /// The text is not base58.
    Invalid,
}

/// What is wrong with something the caller handed in.
#[derive(Clone, Copy, Debug, PartialEq, Eq, Structural)]
pub enum ParameterError {
    /// The memo is longer than one field of a message can hold.
    MemoTooLong,
    /// The amount in SOL is more lamports than a `u64` holds.
    AmountTooLarge,
    /// The text is not an address.
    Address(ParseError),
}

/// A transfer that the library itself turned down, before anything was
/// signed or sent.
#[derive(Clone, Copy, Debug, PartialEq, Eq)]
pub enum Refusal {
    BadParameter(ParameterError),
    Insufficient(InsufficiencyReason),
    NotSupported(Unsupported),
}

/// Why preparing or finishing a transfer failed. `E` is the error of the
/// caller's connection to the ledger node, and of its signer; the library
/// hands such an error on as it came.
#[derive(Clone, Debug, PartialEq, Eq)]
pub enum TransferError<E> {
    /// The ledger node, or the way to it, failed.
    Transport(E),
    /// The signer did not sign.
    Signing(E),
    /// What was signed is not the message that was to be signed.
    MessageChanged,
    /// The library turned the transfer down.
    Refused(Refusal),
    /// The reply does not answer the request that was pending.
    UnexpectedReply,
}

} // verus!
