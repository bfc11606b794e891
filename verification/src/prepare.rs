//! Preparing a transfer: from what the caller wants to an unsigned message
//! and its fee.
//!
//! Three things are read from the ledger node, in this order: a recent
//! blockhash, the fee of the transfer's message, and the sender's balance.
//! The library does not read them. It says what to read next, takes the
//! reply, and in the end hands out the message, or the reason why there is
//! none. [`prepare_transfer`] starts a [`Preparation`]; [`Preparation::step`]
//! takes each reply.

use crate::address::{Address, Blockhash};
use crate::amount::{SpendAmount, SpendAndFee};
use crate::balance::{check, checked};
use crate::draft::TransferDraft;
use crate::error::{ParameterError, Refusal, TransferError, Unsupported};
use crate::fee::{estimate, FeeEstimate};
use crate::message::Message;
use crate::units::SolAmount;
use vstd::prelude::*;

verus! {

/// How settled a state of the ledger must be before it is read.
#[derive(Clone, Copy, Debug, PartialEq, Eq, Structural)]
pub enum Commitment {
    /// Voted on by most of the network.
    Confirmed,
    /// Final: no later state can undo it.
    Finalized,
}

/// An unsigned message, ready to be signed and sent, and the fee that the
/// network will charge for it, in SOL.
#[derive(Clone, Debug, PartialEq, Eq)]
pub struct PreparedTransaction {
    pub message: Message,
    pub fee: SolAmount,
}

/// What the amount and the fee come to for a sender holding `from_balance`,
/// or why the transfer is turned down.
///
/// Signing without a connection is not offered. A draft that builds no
/// message is the next thing to stop a transfer, then a fee payer other than
/// the sender, then a balance that falls short.
pub open spec fn settled(
    sign_only: bool,
    amount: SpendAmount,
    fee: u64,
    from_balance: u64,
    draft: TransferDraft,
) -> Result<SpendAndFee, Refusal> {
    let own_fee = draft.sender == draft.fee_payer;
    let spend = amount.resolved(from_balance, fee, own_fee);
    if sign_only {
        Err(Refusal::NotSupported(Unsupported::SignOnly))
    } else if draft.refusal() is Some {
        Err(draft.refusal().unwrap())
    } else {
        match checked(from_balance, spend, fee, draft.sender, own_fee) {
            Ok(_) => Ok(SpendAndFee { spend, fee }),
            Err(refusal) => Err(refusal),
        }
    }
}

/// Resolves the amount against the sender's balance and the fee, and builds
/// the message for what it comes to.
pub fn resolve_spend_message(
    amount: SpendAmount,
    fee: u64,
    from_balance: u64,
    draft: &TransferDraft,
    blockhash: &Blockhash,
) -> (r: Result<(Message, SpendAndFee), Refusal>)
    ensures
        match r {
            Ok((message, cost)) => {
                &&& draft.refusal() is None
                &&& cost.spend == amount.resolved(
                    from_balance,
                    fee,
                    draft.sender == draft.fee_payer,
                )
                &&& cost.fee == fee
                &&& message@ == draft.message(cost.spend, blockhash@)
            },
            Err(e) => draft.refusal() == Some(e),
        },
{
    let own_fee: bool = draft.sender == draft.fee_payer;
    let spend: u64 = amount.resolve(from_balance, fee, own_fee);
    match draft.build(spend, blockhash) {
        Ok(message) => Ok((message, SpendAndFee { spend, fee })),
        Err(e) => Err(e),
    }
}

/// Resolves the amount, builds the message, and checks that the sender can
/// afford it.
pub fn resolve_spend_tx_and_check_account_balances(
    sign_only: bool,
    amount: SpendAmount,
    fee: u64,
    from_balance: u64,
    draft: &TransferDraft,
    blockhash: &Blockhash,
) -> (r: Result<(Message, SpendAndFee), Refusal>)
    ensures
        match r {
            Ok((message, cost)) => {
                &&& settled(sign_only, amount, fee, from_balance, *draft) == Ok::<
                    SpendAndFee,
                    Refusal,
                >(cost)
                &&& message@ == draft.message(cost.spend, blockhash@)
            },
            Err(refusal) => settled(sign_only, amount, fee, from_balance, *draft) == Err::<
                SpendAndFee,
                Refusal,
            >(refusal),
        },
{
    if sign_only {
        return Err(Refusal::NotSupported(Unsupported::SignOnly));
    }
    match resolve_spend_message(amount, fee, from_balance, draft, blockhash) {
        Err(refusal) => Err(refusal),
        Ok((message, cost)) => {
            let own_fee: bool = draft.sender == draft.fee_payer;
            match check(from_balance, cost.spend, cost.fee, &draft.sender, own_fee) {
                Ok(_) => Ok((message, cost)),
                Err(refusal) => Err(refusal),
            }
        },
    }
}

/// How far a preparation has come.
#[derive(Clone, Copy, Debug, PartialEq, Eq)]
pub enum Stage {
    /// A recent blockhash has been asked for.
    NeedBlockhash,
    /// The fee of the message for zero lamports has been asked for.
    NeedFee { blockhash: Blockhash },
    /// The sender's balance has been asked for.
    NeedBalance { blockhash: Blockhash, fee: u64 },
    /// The preparation has ended.
    Done,
}

/// A transfer that is being prepared.
#[derive(Clone, Debug, PartialEq, Eq)]
pub struct Preparation {
    pub draft: TransferDraft,
    pub amount: SpendAmount,
    pub stage: Stage,
}

/// What the ledger node answered.
#[derive(Clone, Debug, PartialEq, Eq)]
pub enum NodeReply<E> {
    Blockhash(Blockhash),
    Fee(u64),
    Balance(u64),
    /// The request failed.
    Failed(E),
}

/// What the caller is to do next.
#[derive(Debug, PartialEq, Eq)]
pub enum PrepareAction<E> {
    /// Ask the node for a recent blockhash.
    FetchBlockhash,
    /// Ask the node what it charges for this message.
    EstimateFee { message: Message },
    /// Ask the node for the balance of this account.
    FetchBalance { account: Address, commitment: Commitment },
    /// Nothing: the preparation has ended, with this result.
    Finish(Result<PreparedTransaction, TransferError<E>>),
}

/// The end of a preparation that the library turned down.
pub open spec fn refused<E>(refusal: Refusal) -> PrepareAction<E> {
    PrepareAction::Finish(Err(TransferError::Refused(refusal)))
}

/// The end of a preparation that was handed a reply it had not asked for.
pub open spec fn unexpected<E>() -> PrepareAction<E> {
    PrepareAction::Finish(Err(TransferError::UnexpectedReply))
}

impl Preparation {
    /// Whether `reply` takes this preparation to `next`, with `action` for
    /// the caller.
    ///
    /// A failed request ends the preparation with the failure as it came.
    /// The blockhash leads to the question of the fee, asked of the message
    /// for zero lamports, or to the end where the draft builds no message; the fee to the question of the balance, read where
    /// it is final; the balance to the end: the message for what the amount
    /// comes to, and the fee, or the reason why the sender cannot afford
    /// them. A reply that answers no pending question ends the preparation.
    pub open spec fn steps_to<E>(
        self,
        reply: NodeReply<E>,
        next: Preparation,
        action: PrepareAction<E>,
    ) -> bool {
        &&& next.draft == self.draft
        &&& next.amount == self.amount
        &&& match (self.stage, reply) {
            (Stage::Done, _) => next.stage == Stage::Done && action == unexpected::<E>(),
            (_, NodeReply::Failed(e)) => {
                &&& next.stage == Stage::Done
                &&& action == PrepareAction::Finish(Err(TransferError::Transport(e)))
            },
            (Stage::NeedBlockhash, NodeReply::Blockhash(blockhash)) => {
                match self.draft.refusal() {
                    None => {
                        &&& next.stage == Stage::NeedFee { blockhash }
                        &&& action matches PrepareAction::EstimateFee { message }
                        &&& message@ == self.draft.message(0, blockhash@)
                    },
                    Some(refusal) => {
                        &&& next.stage == Stage::Done
                        &&& action == refused::<E>(refusal)
                    },
                }
            },
            (Stage::NeedFee { blockhash }, NodeReply::Fee(fee)) => {
                &&& next.stage == Stage::NeedBalance { blockhash, fee }
                &&& action == PrepareAction::<E>::FetchBalance {
                    account: self.draft.sender,
                    commitment: Commitment::Finalized,
                }
            },
            (Stage::NeedBalance { blockhash, fee }, NodeReply::Balance(balance)) => {
                &&& next.stage == Stage::Done
                &&& match settled(false, self.amount, fee, balance, self.draft) {
                    Ok(cost) => {
                        &&& action matches PrepareAction::Finish(Ok(prepared))
                        &&& prepared.message@ == self.draft.message(cost.spend, blockhash@)
                        &&& prepared.fee == SolAmount::of(fee)
                    },
                    Err(refusal) => action == refused::<E>(refusal),
                }
            },
            _ => next.stage == Stage::Done && action == unexpected::<E>(),
        }
    }

    /// Takes the node's reply to the last action and says what to do next.
    pub fn step<E>(self, reply: NodeReply<E>) -> (r: (Preparation, PrepareAction<E>))
        ensures
            self.steps_to(reply, r.0, r.1),
    {
        let Preparation { draft, amount, stage } = self;
        let mut next: Stage = Stage::Done;
        let action: PrepareAction<E> = match (stage, reply) {
            (Stage::Done, _) => PrepareAction::Finish(Err(TransferError::UnexpectedReply)),
            (_, NodeReply::Failed(e)) => PrepareAction::Finish(Err(TransferError::Transport(e))),
            (Stage::NeedBlockhash, NodeReply::Blockhash(blockhash)) => {
                match estimate(&draft, Some(&blockhash)) {
                    Ok(FeeEstimate::Ask(message)) => {
                        next = Stage::NeedFee { blockhash };
                        PrepareAction::EstimateFee { message }
                    },
                    Ok(FeeEstimate::Known(fee)) => {
                        next = Stage::NeedBalance { blockhash, fee };
                        PrepareAction::FetchBalance {
                            account: draft.sender,
                            commitment: Commitment::Finalized,
                        }
                    },
                    Err(refusal) => PrepareAction::Finish(Err(TransferError::Refused(refusal))),
                }
            },
            (Stage::NeedFee { blockhash }, NodeReply::Fee(fee)) => {
                next = Stage::NeedBalance { blockhash, fee };
                PrepareAction::FetchBalance {
                    account: draft.sender,
                    commitment: Commitment::Finalized,
                }
            },
            (Stage::NeedBalance { blockhash, fee }, NodeReply::Balance(balance)) => {
                match resolve_spend_tx_and_check_account_balances(
                    false,
                    amount,
                    fee,
                    balance,
                    &draft,
                    &blockhash,
                ) {
                    Ok((message, cost)) => PrepareAction::Finish(
                        Ok(PreparedTransaction { message, fee: SolAmount::from_lamports(cost.fee) }),
                    ),
                    Err(refusal) => PrepareAction::Finish(Err(TransferError::Refused(refusal))),
                }
            },
            _ => PrepareAction::Finish(Err(TransferError::UnexpectedReply)),
        };
        (Preparation { draft, amount, stage: next }, action)
    }
}

/// Starts preparing the transfer of `amount` from `sender` to `to`, with
/// `memo` attached where there is one. The sender pays the fee.
pub fn prepare_transfer<E>(
    sender: &Address,
    amount: SpendAmount,
    to: &Address,
    memo: Option<String>,
) -> (r: (Preparation, PrepareAction<E>))
    ensures
        r.0.draft.sender == *sender,
        r.0.draft.recipient == *to,
        r.0.draft.fee_payer == *sender,
        r.0.draft.memo == memo,
        r.0.draft.nonce_account is None,
        r.0.amount == amount,
        r.0.stage == Stage::NeedBlockhash,
        r.1 == PrepareAction::<E>::FetchBlockhash,
{
    let draft = TransferDraft {
        sender: *sender,
        recipient: *to,
        fee_payer: *sender,
        memo,
        nonce_account: None,
    };
    (Preparation { draft, amount, stage: Stage::NeedBlockhash }, PrepareAction::FetchBlockhash)
}

/// Starts preparing the transfer of an exact `amount`, given in SOL, from
/// `sender` to `recipient`, with no memo. Fails where the amount is more
/// lamports than a `u64` holds.
pub fn create_transaction<E>(sender: &Address, amount: SolAmount, recipient: &Address) -> (r:
    Result<(Preparation, PrepareAction<E>), ParameterError>)
    ensures
        match r {
            Ok((preparation, action)) => {
                &&& amount.lamports() <= u64::MAX
                &&& preparation.draft.sender == *sender
                &&& preparation.draft.recipient == *recipient
                &&& preparation.draft.fee_payer == *sender
                &&& preparation.draft.memo is None
                &&& preparation.draft.nonce_account is None
                &&& preparation.amount == SpendAmount::Exact(amount.lamports() as u64)
                &&& preparation.stage == Stage::NeedBlockhash
                &&& action == PrepareAction::<E>::FetchBlockhash
            },
            Err(e) => amount.lamports() > u64::MAX && e == ParameterError::AmountTooLarge,
        },
{
    match amount.to_lamports() {
        Some(lamports) => Ok(prepare_transfer(sender, SpendAmount::Exact(lamports), recipient, None)),
        None => Err(ParameterError::AmountTooLarge),
    }
}

/// The fee is asked for the same message whatever amount is to be sent: two
/// preparations of one draft that are handed the same blockhash ask the same
/// question, or both end.
pub proof fn lemma_fee_question_ignores_amount<E>(
    a: Preparation,
    b: Preparation,
    blockhash: Blockhash,
    next_a: Preparation,
    action_a: PrepareAction<E>,
    next_b: Preparation,
    action_b: PrepareAction<E>,
)
    requires
        a.draft == b.draft,
        a.stage == Stage::NeedBlockhash,
        b.stage == Stage::NeedBlockhash,
        a.steps_to(NodeReply::<E>::Blockhash(blockhash), next_a, action_a),
        b.steps_to(NodeReply::<E>::Blockhash(blockhash), next_b, action_b),
    ensures
        next_a.stage == next_b.stage,
        action_a matches PrepareAction::EstimateFee { message: asked_a } ==> {
            &&& action_b matches PrepareAction::EstimateFee { message: asked_b }
            &&& asked_a@ == asked_b@
            &&& asked_a@ == a.draft.message(0, blockhash@)
        },
        action_a is Finish ==> action_b == action_a,
{
}

/// The fee that a prepared transfer reports is the fee that the node
/// quoted, whatever amount was asked for and whatever the balance.
pub proof fn lemma_fee_is_the_quoted_fee<E>(
    preparation: Preparation,
    reply: NodeReply<E>,
    next: Preparation,
    prepared: PreparedTransaction,
)
    requires
        preparation.steps_to(reply, next, PrepareAction::<E>::Finish(Ok(prepared))),
    ensures
        preparation.stage matches Stage::NeedBalance { blockhash, fee } && prepared.fee
            == SolAmount::of(fee),
{
}

/// No message is handed out for signing unless the sender can afford it: a
/// preparation ends with a message only on the reply that tells the balance,
/// only where the balance is not zero and covers what is sent and the fee,
/// and the message is the one for what is sent.
pub proof fn lemma_prepared_is_affordable<E>(
    preparation: Preparation,
    reply: NodeReply<E>,
    next: Preparation,
    prepared: PreparedTransaction,
)
    requires
        preparation.steps_to(reply, next, PrepareAction::<E>::Finish(Ok(prepared))),
    ensures
        preparation.draft.sender == preparation.draft.fee_payer,
        preparation.stage matches Stage::NeedBalance { blockhash, fee } && reply matches
        NodeReply::Balance(balance) && {
            let spend = preparation.amount.resolved(balance, fee, true);
            &&& balance != 0
            &&& spend + fee <= balance
            &&& prepared.message@ == preparation.draft.message(spend, blockhash@)
        },
{
}

/// A whole preparation, where the node answers every question and the draft
/// builds its message: the fee is asked for the message for zero lamports, the balance is
/// read where it is final, and the end is the message for what the amount
/// comes to, with the fee that the node quoted, or the reason why the
/// transfer is turned down.
pub proof fn lemma_whole_preparation<E>(
    start: Preparation,
    blockhash: Blockhash,
    fee: u64,
    balance: u64,
    second: Preparation,
    ask_fee: PrepareAction<E>,
    third: Preparation,
    ask_balance: PrepareAction<E>,
    last: Preparation,
    end: PrepareAction<E>,
)
    requires
        start.stage == Stage::NeedBlockhash,
        start.draft.refusal() is None,
        start.steps_to(NodeReply::<E>::Blockhash(blockhash), second, ask_fee),
        second.steps_to(NodeReply::<E>::Fee(fee), third, ask_balance),
        third.steps_to(NodeReply::<E>::Balance(balance), last, end),
    ensures
        ask_fee matches PrepareAction::EstimateFee { message } && message@
            == start.draft.message(0, blockhash@),
        ask_balance == (PrepareAction::<E>::FetchBalance {
            account: start.draft.sender,
            commitment: Commitment::Finalized,
        }),
        last.stage == Stage::Done,
        match settled(false, start.amount, fee, balance, start.draft) {
            Ok(cost) => {
                &&& end matches PrepareAction::Finish(Ok(prepared))
                &&& prepared.message@ == start.draft.message(cost.spend, blockhash@)
                &&& prepared.fee == SolAmount::of(fee)
            },
            Err(refusal) => end == refused::<E>(refusal),
        },
{
}

} // verus!
