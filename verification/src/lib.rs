//! Preparation, costing and balance validation of lamport transfers on an
//! account-based ledger, with the finishing of a prepared transfer and the
//! reading of balances and histories beside it.
//!
//! The library decides; it performs no I/O and holds no key. A caller
//! fetches what the ledger node knows (a recent blockhash, the fee of a
//! message, a balance), has its signer sign, and hands each reply to the
//! library, which answers with the next request or with the result.
//!
//! - [`amount`] resolves what is to be sent, [`fee`] says what to price,
//!   [`balance`] decides whether the sender can afford it.
//! - [`draft`] builds the messages, through the ledger's own code, which
//!   [`ledger`] wraps; [`message`], [`address`] and [`units`] hold the plain
//!   values.
//! - [`prepare`], [`finish`], [`account`] and [`history`] lay out the order
//!   of requests and replies.

pub mod account;
pub mod address;
pub mod amount;
pub mod balance;
pub mod draft;
pub mod error;
pub mod fee;
pub mod finish;
pub mod history;
pub mod keys;
pub mod ledger;
pub mod message;
pub mod prepare;
pub mod units;

pub use account::{get_balance, BalanceQuery};
pub use address::{Address, Blockhash, Signature};
pub use amount::{SpendAmount, SpendAndFee};
pub use balance::check;
pub use draft::{with_memo, TransferDraft};
pub use error::{
    InsufficiencyReason, ParameterError, ParseError, Refusal, TransferError, Unsupported,
};
pub use fee::{estimate, total_fee, FeeEstimate};
pub use finish::{
    finish_transaction, sign_and_process_transaction, FinishAction, FinishReply, FinishStage,
    Finishing,
};
pub use history::{
    process_transaction_history, Encoding, History, HistoryAction, HistoryError, HistoryReply,
    HistoryStage,
};
pub use keys::{private_key_to_pubkey, try_private_key_to_pubkey};
pub use message::{AccountMeta, Instruction, Message};
pub use prepare::{
    create_transaction, prepare_transfer, resolve_spend_message,
    resolve_spend_tx_and_check_account_balances, Commitment, NodeReply, PrepareAction,
    PreparedTransaction, Preparation, Stage,
};
pub use units::{SolAmount, LAMPORTS_PER_SOL};
