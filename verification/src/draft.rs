//! The draft of a transfer: everything about it but the amount.
//!
//! A draft builds the message for any number of lamports. The fee of a
//! transfer is asked for a message built for zero lamports, and the message
//! that is sent is built for the amount that was resolved; the two differ in
//! the lamports and in nothing else.

use crate::address::{Address, Blockhash};
use crate::error::{ParameterError, Refusal, Unsupported};
use crate::ledger::{
    compile, memo_program, memo_program_id, mentions, message_wire, transfer,
    transfer_instruction, MAX_FIELD_LEN,
};
use crate::message::{instruction_views, Instruction, InstructionView, Message};
use vstd::bytes::lemma_auto_spec_u64_to_from_le_bytes;
use vstd::prelude::*;
use vstd::string::StrSliceExecFns;
use vstd::utf8::encode_utf8;

verus! {

/// The instruction that attaches a memo to a message: it goes to the memo
/// program, touches no account and carries the text as UTF-8.
pub open spec fn memo_instruction(memo: Seq<char>) -> InstructionView {
    InstructionView { program_id: memo_program_id(), accounts: seq![], data: encode_utf8(memo) }
}

/// The instructions with the memo's instruction after them, where there is
/// a memo.
pub open spec fn with_memo_added(
    instructions: Seq<InstructionView>,
    memo: Option<Seq<char>>,
) -> Seq<InstructionView> {
    match memo {
        Some(text) => instructions.push(memo_instruction(text)),
        None => instructions,
    }
}

/// The text of an optional memo.
pub open spec fn memo_text(memo: Option<&str>) -> Option<Seq<char>> {
    match memo {
        Some(text) => Some(text@),
        None => None,
    }
}

/// Puts the instruction for `memo` after `instructions`, where there is a
/// memo.
pub fn with_memo(instructions: Vec<Instruction>, memo: Option<&str>) -> (r: Vec<Instruction>)
    ensures
        instruction_views(r@) == with_memo_added(instruction_views(instructions@), memo_text(memo)),
{
    let mut instructions = instructions;
    let ghost before = instructions@;
    match memo {
        Some(text) => {
            let ix = Instruction {
                program_id: memo_program(),
                accounts: Vec::new(),
                data: text.as_bytes_vec(),
            };
            assert(ix@.accounts =~= seq![]);
            instructions.push(ix);
            assert(instruction_views(instructions@) =~= instruction_views(before).push(
                memo_instruction(text@),
            ));
        },
        None => {},
    }
    instructions
}

/// A transfer without its amount.
#[derive(Clone, Debug, PartialEq, Eq)]
pub struct TransferDraft {
    /// The account that the lamports leave.
    pub sender: Address,
    /// The account that the lamports go to.
    pub recipient: Address,
    /// The account that is charged the fee.
    pub fee_payer: Address,
    /// Text to attach, of no value to the ledger.
    pub memo: Option<String>,
    /// The nonce account that is to keep the message valid in place of a
    /// recent blockhash. Such messages are not offered: a draft that names
    /// one builds nothing.
    pub nonce_account: Option<Address>,
}

impl TransferDraft {
    /// The memo's text, where there is a memo.
    pub open spec fn memo_text(&self) -> Option<Seq<char>> {
        match self.memo {
            Some(text) => Some(text@),
            None => None,
        }
    }

    /// The memo, as UTF-8, is no longer than one field of a message may be.
    pub open spec fn memo_fits(&self) -> bool {
        match self.memo {
            Some(text) => encode_utf8(text@).len() <= MAX_FIELD_LEN,
            None => true,
        }
    }

    /// Why the draft builds no message, where it builds none: it names a
    /// nonce account, or its memo does not fit.
    pub open spec fn refusal(&self) -> Option<Refusal> {
        if self.nonce_account is Some {
            Some(Refusal::NotSupported(Unsupported::NonceAccount))
        } else if !self.memo_fits() {
            Some(Refusal::BadParameter(ParameterError::MemoTooLong))
        } else {
            None
        }
    }

    /// The instructions of the transfer of `lamports`: the transfer itself,
    /// then the memo where there is one.
    pub open spec fn instructions(&self, lamports: u64) -> Seq<InstructionView> {
        with_memo_added(
            seq![transfer_instruction(self.sender@, self.recipient@, lamports)],
            self.memo_text(),
        )
    }

    /// The message for `lamports` under `blockhash`, in its wire form.
    pub open spec fn message(&self, lamports: u64, blockhash: Seq<u8>) -> Seq<u8> {
        message_wire(self.instructions(lamports), self.fee_payer@, blockhash)
    }

    /// Builds the message that moves `lamports` and is valid as long as
    /// `blockhash` is recent.
    ///
    /// Fails, whatever the amount, where the draft names a nonce account or
    /// the memo is too long for a message.
    pub fn build(&self, lamports: u64, blockhash: &Blockhash) -> (r: Result<Message, Refusal>)
        ensures
            match r {
                Ok(m) => self.refusal() is None && m@ == self.message(lamports, blockhash@),
                Err(e) => self.refusal() == Some(e),
            },
    {
        if self.nonce_account.is_some() {
            return Err(Refusal::NotSupported(Unsupported::NonceAccount));
        }
        let memo: Option<&str> = match &self.memo {
            Some(text) => Some(text.as_str()),
            None => None,
        };
        let fits: bool = match memo {
            Some(text) => text.as_bytes().len() <= MAX_FIELD_LEN,
            None => true,
        };
        if !fits {
            return Err(Refusal::BadParameter(ParameterError::MemoTooLong));
        }
        let mut instructions: Vec<Instruction> = Vec::new();
        instructions.push(transfer(&self.sender, &self.recipient, lamports));
        assert(instruction_views(instructions@) =~= seq![
            transfer_instruction(self.sender@, self.recipient@, lamports),
        ]);
        let instructions = with_memo(instructions, memo);
        proof {
            let views = instruction_views(instructions@);
            lemma_instructions_fit(*self, lamports);
            assert forall|i: int| 0 <= i < instructions@.len() implies instructions@[i].data@.len()
                <= MAX_FIELD_LEN by {
                assert(instructions@[i]@ == views[i]);
            }
        }
        Ok(compile(&instructions, &self.fee_payer, blockhash))
    }
}

/// The instructions of a draft whose memo fits mention four addresses at
/// most, and none carries more data than a field of a message holds.
proof fn lemma_instructions_fit(draft: TransferDraft, lamports: u64)
    requires
        draft.memo_fits(),
    ensures
        mentions(draft.instructions(lamports)) <= 4,
        forall|i: int|
            #![trigger draft.instructions(lamports)[i]]
            0 <= i < draft.instructions(lamports).len() ==> draft.instructions(
                lamports,
            )[i].data.len() <= MAX_FIELD_LEN,
{
    lemma_auto_spec_u64_to_from_le_bytes();
    let all = draft.instructions(lamports);
    let first = seq![transfer_instruction(draft.sender@, draft.recipient@, lamports)];
    reveal_with_fuel(mentions, 3);
    if draft.memo is Some {
        assert(all.drop_last() =~= first);
    }
}

/// The messages that one draft builds for two amounts are made of the same
/// instructions, to the same programs and on the same accounts, and carry
/// the same data but for the lamports in the first.
pub proof fn lemma_amount_changes_lamports_only(draft: TransferDraft, a: u64, b: u64)
    ensures
        draft.instructions(a).len() == draft.instructions(b).len(),
        forall|i: int|
            0 <= i < draft.instructions(a).len() ==> {
                &&& (#[trigger] draft.instructions(a)[i]).program_id == draft.instructions(
                    b,
                )[i].program_id
                &&& draft.instructions(a)[i].accounts == draft.instructions(b)[i].accounts
                &&& i != 0 ==> draft.instructions(a)[i].data == draft.instructions(b)[i].data
            },
        draft.instructions(a)[0] == transfer_instruction(draft.sender@, draft.recipient@, a),
        draft.instructions(b)[0] == transfer_instruction(draft.sender@, draft.recipient@, b),
{
}

} // verus!
