//! Reading the history of an account: its transactions, latest first.
//!
//! The ledger node lists the signatures of the transactions that touched an
//! account, and hands out one transaction for one signature. The library
//! says which to ask for, in the order of the list, and collects what comes
//! back; the first thing that goes wrong ends the reading. `T` is whatever
//! the caller's connection gives for a transaction.

use crate::address::{Address, Signature};
use crate::error::ParseError;
use crate::ledger::parsed_signature;
use crate::prepare::Commitment;
use vstd::prelude::*;

verus! {

/// How a transaction is to be encoded by the node.
#[derive(Clone, Copy, Debug, PartialEq, Eq, Structural)]
pub enum Encoding {
    Base64,
}

/// Why the history could not be read.
#[derive(Clone, Debug, PartialEq, Eq)]
pub enum HistoryError<E> {
    /// The node did not list the signatures.
    Listing(E),
    /// A signature in the node's list is not a signature.
    BadSignature(ParseError),
    /// The node did not hand out a transaction.
    Fetching(E),
    /// The reply does not answer the request that was pending.
    UnexpectedReply,
}

/// How far the reading has come.
#[derive(Clone, Copy, Debug, PartialEq, Eq, Structural)]
pub enum HistoryStage {
    /// The signatures have been asked for.
    NeedSignatures,
    /// The transaction of the first signature not yet read has been asked
    /// for.
    NeedTransaction,
    /// The reading has ended.
    Done,
}

/// A history that is being read.
#[derive(Debug, PartialEq, Eq)]
pub struct History<T> {
    /// The signatures that the node listed, latest first.
    pub signatures: Vec<String>,
    /// The transactions read so far: those of the first signatures.
    pub records: Vec<T>,
    pub stage: HistoryStage,
}

/// What the ledger node answered.
#[derive(Debug, PartialEq, Eq)]
pub enum HistoryReply<T, E> {
    Signatures(Vec<String>),
    Transaction(T),
    /// The request failed.
    Failed(E),
}

/// What the caller is to do next.
#[derive(Debug, PartialEq, Eq)]
pub enum HistoryAction<T, E> {
    /// Ask the node for the signatures of the transactions of `address`,
    /// latest first, at most `limit` of them, after `before` and down to
    /// `until` where these are given.
    ListSignatures {
        address: Address,
        before: Option<Signature>,
        until: Option<Signature>,
        limit: usize,
        commitment: Commitment,
    },
    /// Ask the node for the transaction with this signature.
    FetchTransaction { signature: Signature, encoding: Encoding, commitment: Commitment },
    /// Nothing: the reading has ended, with the transactions in the order of
    /// the node's list, or with what went wrong.
    Finish(Result<Vec<T>, HistoryError<E>>),
}

/// What is due once the transactions of the first `records` signatures are
/// in: the end, where that is all of them; the end, where the next signature
/// is not one; else the question for the next.
pub open spec fn due<T, E>(
    signatures: Seq<String>,
    records: Seq<T>,
    next: History<T>,
    action: HistoryAction<T, E>,
) -> bool {
    &&& next.signatures@ == signatures
    &&& if records.len() >= signatures.len() {
        &&& next.stage == HistoryStage::Done
        &&& next.records@.len() == 0
        &&& action matches HistoryAction::Finish(Ok(all))
        &&& all@ == records
    } else {
        match parsed_signature(signatures[records.len() as int]@) {
            Ok(bytes) => {
                &&& next.stage == HistoryStage::NeedTransaction
                &&& next.records@ == records
                &&& action matches HistoryAction::FetchTransaction {
                    signature,
                    encoding,
                    commitment,
                }
                &&& signature@ == bytes
                &&& encoding == Encoding::Base64
                &&& commitment == Commitment::Confirmed
            },
            Err(e) => {
                &&& next.stage == HistoryStage::Done
                &&& next.records@ == records
                &&& action == HistoryAction::<T, E>::Finish(Err(HistoryError::BadSignature(e)))
            },
        }
    }
}

/// The reading ends where it is, with `error`.
pub open spec fn ended<T, E>(
    history: History<T>,
    next: History<T>,
    action: HistoryAction<T, E>,
    error: HistoryError<E>,
) -> bool {
    &&& next.signatures@ == history.signatures@
    &&& next.records@ == history.records@
    &&& next.stage == HistoryStage::Done
    &&& action == HistoryAction::<T, E>::Finish(Err(error))
}

impl<T> History<T> {
    /// Whether `reply` takes this reading to `next`, with `action` for the
    /// caller.
    pub open spec fn steps_to<E>(
        self,
        reply: HistoryReply<T, E>,
        next: History<T>,
        action: HistoryAction<T, E>,
    ) -> bool {
        match (self.stage, reply) {
            (HistoryStage::NeedSignatures, HistoryReply::Signatures(listed)) => due(
                listed@,
                self.records@,
                next,
                action,
            ),
            (HistoryStage::NeedSignatures, HistoryReply::Failed(e)) => ended(
                self,
                next,
                action,
                HistoryError::Listing(e),
            ),
            (HistoryStage::NeedTransaction, HistoryReply::Transaction(record)) => due(
                self.signatures@,
                self.records@.push(record),
                next,
                action,
            ),
            (HistoryStage::NeedTransaction, HistoryReply::Failed(e)) => ended(
                self,
                next,
                action,
                HistoryError::Fetching(e),
            ),
            _ => ended(self, next, action, HistoryError::UnexpectedReply),
        }
    }

    /// Says what is due now that `records` are in.
    fn proceed<E>(signatures: Vec<String>, records: Vec<T>) -> (r: (
        History<T>,
        HistoryAction<T, E>,
    ))
        ensures
            due(signatures@, records@, r.0, r.1),
    {
        if records.len() >= signatures.len() {
            (
                History { signatures, records: Vec::new(), stage: HistoryStage::Done },
                HistoryAction::Finish(Ok(records)),
            )
        } else {
            match Signature::from_base58(signatures[records.len()].as_str()) {
                Ok(signature) => (
                    History { signatures, records, stage: HistoryStage::NeedTransaction },
                    HistoryAction::FetchTransaction {
                        signature,
                        encoding: Encoding::Base64,
                        commitment: Commitment::Confirmed,
                    },
                ),
                Err(e) => (
                    History { signatures, records, stage: HistoryStage::Done },
                    HistoryAction::Finish(Err(HistoryError::BadSignature(e))),
                ),
            }
        }
    }

    /// Takes the node's reply to the last action and says what to do next.
    pub fn step<E>(self, reply: HistoryReply<T, E>) -> (r: (History<T>, HistoryAction<T, E>))
        ensures
            self.steps_to(reply, r.0, r.1),
    {
        let History { signatures, records, stage } = self;
        match (stage, reply) {
            (HistoryStage::NeedSignatures, HistoryReply::Signatures(listed)) => Self::proceed(
                listed,
                records,
            ),
            (HistoryStage::NeedSignatures, HistoryReply::Failed(e)) => (
                History { signatures, records, stage: HistoryStage::Done },
                HistoryAction::Finish(Err(HistoryError::Listing(e))),
            ),
            (HistoryStage::NeedTransaction, HistoryReply::Transaction(record)) => {
                let mut records = records;
                records.push(record);
                Self::proceed(signatures, records)
            },
            (HistoryStage::NeedTransaction, HistoryReply::Failed(e)) => (
                History { signatures, records, stage: HistoryStage::Done },
                HistoryAction::Finish(Err(HistoryError::Fetching(e))),
            ),
            _ => (
                History { signatures, records, stage: HistoryStage::Done },
                HistoryAction::Finish(Err(HistoryError::UnexpectedReply)),
            ),
        }
    }
}

/// Starts reading the history of `address`: at most `limit` transactions,
/// latest first, after `before` and down to `until` where these are given.
pub fn process_transaction_history<T, E>(
    address: &Address,
    before: Option<Signature>,
    until: Option<Signature>,
    limit: usize,
) -> (r: (History<T>, HistoryAction<T, E>))
    ensures
        r.0.signatures@.len() == 0,
        r.0.records@.len() == 0,
        r.0.stage == HistoryStage::NeedSignatures,
        r.1 == (HistoryAction::<T, E>::ListSignatures {
            address: *address,
            before,
            until,
            limit,
            commitment: Commitment::Confirmed,
        }),
{
    (
        History { signatures: Vec::new(), records: Vec::new(), stage: HistoryStage::NeedSignatures },
        HistoryAction::ListSignatures {
            address: *address,
            before,
            until,
            limit,
            commitment: Commitment::Confirmed,
        },
    )
}

/// A reading ends well only when a transaction has been read for every
/// signature that the node listed, and what it hands out are the
/// transactions read so far, in the order in which they came, with the one
/// that came last at the end.
pub proof fn lemma_history_is_complete<T, E>(
    history: History<T>,
    reply: HistoryReply<T, E>,
    next: History<T>,
    all: Vec<T>,
)
    requires
        history.steps_to(reply, next, HistoryAction::<T, E>::Finish(Ok(all))),
    ensures
        match reply {
            HistoryReply::Signatures(listed) => {
                &&& history.stage == HistoryStage::NeedSignatures
                &&& all@ == history.records@
                &&& all@.len() >= listed@.len()
            },
            HistoryReply::Transaction(record) => {
                &&& history.stage == HistoryStage::NeedTransaction
                &&& all@ == history.records@.push(record)
                &&& all@.len() >= history.signatures@.len()
            },
            HistoryReply::Failed(_) => false,
        },
{
}

} // verus!
