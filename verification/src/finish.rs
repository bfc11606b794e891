//! Finishing a transfer: an unsigned message is signed and sent.
//!
//! The signer and the ledger node are the caller's. The library says what is
//! due: first the one signature, then the submission, in the way that was
//! asked for; in the end it hands out the transaction's signature as text.
//! Signing must leave the message as it was: the library compares, and lets
//! nothing else be sent.

use crate::address::Signature;
use crate::error::TransferError;
use crate::ledger::signature_text;
use crate::message::Message;
use vstd::prelude::*;

verus! {

/// How far the finishing of a transfer has come.
#[derive(Clone, Copy, Debug, PartialEq, Eq, Structural)]
pub enum FinishStage {
    /// The signer has been asked to sign.
    NeedSignature,
    /// The node has been handed the signed transaction.
    NeedAcceptance,
    /// The finishing has ended.
    Done,
}

/// A transfer that is being finished.
#[derive(Clone, Debug, PartialEq, Eq)]
pub struct Finishing {
    /// The message that is to be signed and sent.
    pub message: Message,
    /// Whether to return as soon as the node has taken the transaction,
    /// without waiting for it to be confirmed.
    pub no_wait: bool,
    pub stage: FinishStage,
}

/// What the signer or the ledger node answered.
#[derive(Clone, Debug, PartialEq, Eq)]
pub enum FinishReply<E> {
    /// The signer has signed; `message` is the message as it stands in the
    /// signed transaction.
    Signed { message: Message },
    /// The signer did not sign.
    SigningFailed(E),
    /// The node has taken the transaction; this is its signature.
    Submitted(Signature),
    /// The node did not take the transaction, or did not confirm it.
    SubmitFailed(E),
}

/// What the caller is to do next.
#[derive(Debug, PartialEq, Eq)]
pub enum FinishAction<E> {
    /// Put the message in a transaction and have the one signer sign it,
    /// over the blockhash that the message carries.
    Sign { message: Message },
    /// Hand the signed transaction to the node; where `wait` is set, come
    /// back only when the node has confirmed it or has given up.
    Submit { wait: bool },
    /// Nothing: the finishing has ended, with the transaction's signature
    /// in base58 or with the reason why there is none.
    Finish(Result<String, TransferError<E>>),
}

impl Finishing {
    /// Whether `reply` takes this finishing to `next`, with `action` for the
    /// caller.
    ///
    /// A signature over the message as it was leads to the submission,
    /// waiting or not as was asked; a signature over anything else ends the
    /// finishing, and so does a refusal to sign. What the node says of the
    /// submission ends it too: with the signature as text, or with the
    /// node's failure as it came. A reply that answers nothing pending ends
    /// the finishing.
    pub open spec fn steps_to<E>(
        self,
        reply: FinishReply<E>,
        next: Finishing,
        action: FinishAction<E>,
    ) -> bool {
        &&& next.message@ == self.message@
        &&& next.no_wait == self.no_wait
        &&& match (self.stage, reply) {
            (FinishStage::NeedSignature, FinishReply::Signed { message }) => {
                if message@ == self.message@ {
                    &&& next.stage == FinishStage::NeedAcceptance
                    &&& action == FinishAction::<E>::Submit { wait: !self.no_wait }
                } else {
                    &&& next.stage == FinishStage::Done
                    &&& action == FinishAction::<E>::Finish(Err(TransferError::MessageChanged))
                }
            },
            (FinishStage::NeedSignature, FinishReply::SigningFailed(e)) => {
                &&& next.stage == FinishStage::Done
                &&& action == FinishAction::Finish(Err(TransferError::Signing(e)))
            },
            (FinishStage::NeedAcceptance, FinishReply::Submitted(signature)) => {
                &&& next.stage == FinishStage::Done
                &&& action matches FinishAction::Finish(Ok(text))
                &&& text@ == signature_text(signature@)
            },
            (FinishStage::NeedAcceptance, FinishReply::SubmitFailed(e)) => {
                &&& next.stage == FinishStage::Done
                &&& action == FinishAction::Finish(Err(TransferError::Transport(e)))
            },
            _ => {
                &&& next.stage == FinishStage::Done
                &&& action == FinishAction::<E>::Finish(Err(TransferError::UnexpectedReply))
            },
        }
    }

    /// Takes the reply to the last action and says what to do next.
    pub fn step<E>(self, reply: FinishReply<E>) -> (r: (Finishing, FinishAction<E>))
        ensures
            self.steps_to(reply, r.0, r.1),
    {
        let Finishing { message, no_wait, stage } = self;
        let mut next: FinishStage = FinishStage::Done;
        let action: FinishAction<E> = match (stage, reply) {
            (FinishStage::NeedSignature, FinishReply::Signed { message: signed }) => {
                if signed == message {
                    next = FinishStage::NeedAcceptance;
                    FinishAction::Submit { wait: !no_wait }
                } else {
                    FinishAction::Finish(Err(TransferError::MessageChanged))
                }
            },
            (FinishStage::NeedSignature, FinishReply::SigningFailed(e)) => FinishAction::Finish(
                Err(TransferError::Signing(e)),
            ),
            (FinishStage::NeedAcceptance, FinishReply::Submitted(signature)) => {
                FinishAction::Finish(Ok(signature.to_base58()))
            },
            (FinishStage::NeedAcceptance, FinishReply::SubmitFailed(e)) => FinishAction::Finish(
                Err(TransferError::Transport(e)),
            ),
            _ => FinishAction::Finish(Err(TransferError::UnexpectedReply)),
        };
        (Finishing { message, no_wait, stage: next }, action)
    }
}

/// Starts finishing a transfer: `message` is to be signed, then sent.
pub fn sign_and_process_transaction<E>(no_wait: bool, message: Message) -> (r: (
    Finishing,
    FinishAction<E>,
))
    ensures
        r.0.message@ == message@,
        r.0.no_wait == no_wait,
        r.0.stage == FinishStage::NeedSignature,
        r.1 matches FinishAction::Sign { message: to_sign } && to_sign@ == message@,
{
    let to_sign = message.duplicate();
    (
        Finishing { message, no_wait, stage: FinishStage::NeedSignature },
        FinishAction::Sign { message: to_sign },
    )
}

/// Starts finishing a transfer that was prepared before: `message` is to be
/// signed, then sent without waiting for the node to confirm it.
pub fn finish_transaction<E>(message: Message) -> (r: (Finishing, FinishAction<E>))
    ensures
        r.0.message@ == message@,
        r.0.no_wait,
        r.0.stage == FinishStage::NeedSignature,
        r.1 matches FinishAction::Sign { message: to_sign } && to_sign@ == message@,
{
    sign_and_process_transaction(true, message)
}

/// Nothing is sent that was not signed, and nothing but the message as it
/// was: the submission is asked for only in answer to a signature over that
/// message.
pub proof fn lemma_submits_signed_only<E>(
    finishing: Finishing,
    reply: FinishReply<E>,
    next: Finishing,
    wait: bool,
)
    requires
        finishing.steps_to(reply, next, FinishAction::<E>::Submit { wait }),
    ensures
        finishing.stage == FinishStage::NeedSignature,
        reply matches FinishReply::Signed { message } && message@ == finishing.message@,
        wait == !finishing.no_wait,
{
}

/// A whole finishing, where the signer signs the message as it is and the
/// node takes the transaction: the submission waits or not as was asked, and
/// the end is the signature that the node reported, in base58.
pub proof fn lemma_whole_finishing<E>(
    start: Finishing,
    signed: Message,
    signature: Signature,
    second: Finishing,
    submit: FinishAction<E>,
    last: Finishing,
    end: FinishAction<E>,
)
    requires
        start.stage == FinishStage::NeedSignature,
        signed@ == start.message@,
        start.steps_to(FinishReply::<E>::Signed { message: signed }, second, submit),
        second.steps_to(FinishReply::<E>::Submitted(signature), last, end),
    ensures
        submit == (FinishAction::<E>::Submit { wait: !start.no_wait }),
        last.stage == FinishStage::Done,
        last.message@ == start.message@,
        end matches FinishAction::Finish(Ok(text)) && text@ == signature_text(signature@),
{
}

} // verus!
