//! The calls into the ledger's own crates.
//!
//! Each function here makes one call and converts its arguments and result
//! between the library's plain values and the ledger's types. What is said of
//! a result is taken on trust from the ledger's source, not proved.

use crate::address::{Address, Blockhash, Signature};
use crate::error::ParseError;
use crate::message::{
    instruction_views, writable, AccountMeta, Instruction, InstructionView, Message,
};
use solana_program::hash;
use solana_program::instruction::AccountMeta as LedgerAccountMeta;
use solana_program::instruction::Instruction as LedgerInstruction;
use solana_program::message::Message as LedgerMessage;
use solana_program::pubkey::{ParsePubkeyError, Pubkey};
use solana_program::system_instruction;
use solana_sdk::signature::{Keypair, ParseSignatureError, Signature as LedgerSignature};
use solana_sdk::signer::Signer;
use std::str::FromStr;
use vstd::bytes::spec_u64_to_le_bytes;
use vstd::prelude::*;

verus! {

/// The most bytes that one length-prefixed field of a message can hold.
pub const MAX_FIELD_LEN: usize = 65535;

/// The address of the system program, which moves lamports: 32 zero bytes.
pub open spec fn system_program_id() -> Seq<u8> {
    Seq::new(32, |i: int| 0u8)
}

/// The data of the system program's transfer instruction: the number of the
/// instruction, 2, in four bytes, then the lamports in eight, low byte first.
pub open spec fn transfer_data(lamports: u64) -> Seq<u8> {
    seq![2u8, 0u8, 0u8, 0u8] + spec_u64_to_le_bytes(lamports)
}

/// The address of the memo program.
pub open spec fn memo_program_id() -> Seq<u8> {
    seq![
        5u8, 74u8, 83u8, 90u8, 153u8, 41u8, 33u8, 6u8, 77u8, 36u8, 232u8, 113u8, 96u8, 218u8,
        56u8, 124u8, 124u8, 53u8, 181u8, 221u8, 188u8, 146u8, 187u8, 129u8, 228u8, 31u8, 168u8,
        64u8, 65u8, 5u8, 68u8, 141u8,
    ]
}

/// The number of addresses that a list of instructions mentions, counting
/// each mention: an upper bound on the distinct ones.
pub open spec fn mentions(instructions: Seq<InstructionView>) -> nat
    decreases instructions.len(),
{
    if instructions.len() == 0 {
        0
    } else {
        mentions(instructions.drop_last()) + 1 + instructions.last().accounts.len()
    }
}

/// The wire form of the message that the ledger's compiler makes of
/// instructions, the account that pays the fee, and a blockhash.
pub uninterp spec fn message_wire(
    instructions: Seq<InstructionView>,
    payer: Seq<u8>,
    blockhash: Seq<u8>,
) -> Seq<u8>;

/// The instruction that moves `lamports` from one account to another.
pub open spec fn transfer_instruction(from: Seq<u8>, to: Seq<u8>, lamports: u64) -> InstructionView {
    InstructionView {
        program_id: system_program_id(),
        accounts: seq![writable(from, true), writable(to, false)],
        data: transfer_data(lamports),
    }
}

/// The instruction that moves `lamports` from one account to another:
/// `system_instruction::transfer` of solana-program.
///
/// Trusted: the instruction goes to the system program, names the sender as
/// a writable signer and the recipient as writable, and carries the
/// transfer's number and the lamports as `transfer_data` lays them out.
#[verifier::external_body]
pub(crate) fn transfer(from: &Address, to: &Address, lamports: u64) -> (ix: Instruction)
    ensures
        ix@ == transfer_instruction(from@, to@, lamports),
{
    let from = Pubkey::new_from_array(from.bytes);
    let to = Pubkey::new_from_array(to.bytes);
    let ix = system_instruction::transfer(&from, &to, lamports);
    let accounts = ix.accounts.iter().map(|a| AccountMeta {
        address: Address { bytes: a.pubkey.to_bytes() },
        is_signer: a.is_signer,
        is_writable: a.is_writable,
    });
    Instruction {
        program_id: Address { bytes: ix.program_id.to_bytes() },
        accounts: accounts.collect(),
        data: ix.data,
    }
}

/// The address of the memo program: `spl_memo::id`.
///
/// Trusted: it is the constant that `memo_program_id` spells out.
#[verifier::external_body]
pub(crate) fn memo_program() -> (id: Address)
    ensures
        id@ == memo_program_id(),
{
    Address { bytes: spl_memo::id().to_bytes() }
}

/// Compiles instructions into a message with `Message::new_with_blockhash`
/// of solana-program, `payer` paying the fee, and takes its wire form.
///
/// Trusted: the result is a function of the arguments alone. The compiler
/// fails only where a count of addresses does not fit in a byte, and the
/// encoder only where a field is longer than `MAX_FIELD_LEN`; the
/// precondition excludes both.
#[verifier::external_body]
pub(crate) fn compile(
    instructions: &Vec<Instruction>,
    payer: &Address,
    blockhash: &Blockhash,
) -> (m: Message)
    requires
        mentions(instruction_views(instructions@)) < 255,
        forall|i: int|
            0 <= i < instructions@.len() ==> instructions@[i].data@.len() <= MAX_FIELD_LEN,
    ensures
        m@ == message_wire(instruction_views(instructions@), payer@, blockhash@),
{
    let ixs: Vec<LedgerInstruction> = instructions.iter().map(|i| LedgerInstruction {
        program_id: Pubkey::new_from_array(i.program_id.bytes),
        accounts: i.accounts.iter().map(|a| LedgerAccountMeta {
            pubkey: Pubkey::new_from_array(a.address.bytes),
            is_signer: a.is_signer,
            is_writable: a.is_writable,
        }).collect(),
        data: i.data.clone(),
    }).collect();
    let payer = Pubkey::new_from_array(payer.bytes);
    let blockhash = hash::Hash::new_from_array(blockhash.bytes);
    let message = LedgerMessage::new_with_blockhash(&ixs, Some(&payer), &blockhash);
    Message { wire: message.serialize() }
}

/// What a text is as an address: the bytes that it stands for in base58,
/// or why it is not one.
pub uninterp spec fn parsed_address(text: Seq<char>) -> Result<Seq<u8>, ParseError>;

/// The base58 text of an address.
pub uninterp spec fn address_text(bytes: Seq<u8>) -> Seq<char>;

/// What a text is as a signature: the bytes that it stands for in base58,
/// or why it is not one.
pub uninterp spec fn parsed_signature(text: Seq<char>) -> Result<Seq<u8>, ParseError>;

/// The base58 text of a signature.
pub uninterp spec fn signature_text(bytes: Seq<u8>) -> Seq<char>;

/// The address of the key pair that a text holds in base58, where it holds
/// one.
pub uninterp spec fn keypair_address(private_key: Seq<char>) -> Option<Seq<u8>>;

/// Reads an address from its base58 text: `Pubkey::from_str` of
/// solana-program.
///
/// Trusted: the result is a function of the text alone.
#[verifier::external_body]
pub(crate) fn pubkey_from_str(text: &str) -> (r: Result<Address, ParseError>)
    ensures
        match r {
            Ok(address) => parsed_address(text@) == Ok::<Seq<u8>, ParseError>(address@),
            Err(e) => parsed_address(text@) == Err::<Seq<u8>, ParseError>(e),
        },
{
    match Pubkey::from_str(text) {
        Ok(key) => Ok(Address { bytes: key.to_bytes() }),
        Err(ParsePubkeyError::WrongSize) => Err(ParseError::WrongSize),
        Err(ParsePubkeyError::Invalid) => Err(ParseError::Invalid),
    }
}

/// Writes an address in base58: `to_string` of solana-program's `Pubkey`.
///
/// Trusted: the result is a function of the bytes alone.
#[verifier::external_body]
pub(crate) fn pubkey_to_string(address: &Address) -> (text: String)
    ensures
        text@ == address_text(address@),
{
    Pubkey::new_from_array(address.bytes).to_string()
}

/// Reads a signature from its base58 text: `Signature::from_str` of
/// solana-sdk.
///
/// Trusted: the result is a function of the text alone.
#[verifier::external_body]
pub(crate) fn signature_from_str(text: &str) -> (r: Result<Signature, ParseError>)
    ensures
        match r {
            Ok(signature) => parsed_signature(text@) == Ok::<Seq<u8>, ParseError>(signature@),
            Err(e) => parsed_signature(text@) == Err::<Seq<u8>, ParseError>(e),
        },
{
    match LedgerSignature::from_str(text) {
        Ok(signature) => Ok(Signature { bytes: signature.into() }),
        Err(ParseSignatureError::WrongSize) => Err(ParseError::WrongSize),
        Err(ParseSignatureError::Invalid) => Err(ParseError::Invalid),
    }
}

/// Writes a signature in base58: `to_string` of solana-sdk's `Signature`.
///
/// Trusted: the result is a function of the bytes alone.
#[verifier::external_body]
pub(crate) fn signature_to_string(signature: &Signature) -> (text: String)
    ensures
        text@ == signature_text(signature@),
{
    LedgerSignature::new(&signature.bytes).to_string()
}

/// Reads a key pair from its base58 text and gives its address: what
/// `Keypair::from_base58_string` of solana-sdk does, by the same steps, and
/// then `pubkey`; `None` where the text is not base58 or the bytes are not a
/// key pair, which is where `from_base58_string` does not return.
///
/// Trusted: the result is a function of the text alone.
#[verifier::external_body]
pub(crate) fn keypair_pubkey(private_key: &str) -> (r: Option<Address>)
    ensures
        match r {
            Some(address) => keypair_address(private_key@) == Some(address@),
            None => keypair_address(private_key@) is None,
        },
{
    let bytes = solana_sdk::bs58::decode(private_key).into_vec().ok()?;
    let keypair = Keypair::from_bytes(&bytes).ok()?;
    Some(Address { bytes: keypair.pubkey().to_bytes() })
}

} // verus!
