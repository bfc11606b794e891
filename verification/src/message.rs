//! Instructions and messages, held as plain values.
//!
//! An [`Instruction`] names a program, the accounts it touches and the bytes
//! it is given. A [`Message`] is a list of instructions compiled by the
//! ledger's own code and held in the form in which it goes over the wire.

use crate::address::Address;
use vstd::prelude::*;
use vstd::std_specs::cmp::PartialEqSpecImpl;

verus! {

/// An account that an instruction touches, and how.
#[derive(Clone, Copy, Debug, PartialEq, Eq)]
pub struct AccountMeta {
    pub address: Address,
    pub is_signer: bool,
    pub is_writable: bool,
}

/// A call of a program on the ledger.
#[derive(Clone, Debug, PartialEq, Eq)]
pub struct Instruction {
    pub program_id: Address,
    pub accounts: Vec<AccountMeta>,
    pub data: Vec<u8>,
}

/// An unsigned message in its wire form.
#[derive(Clone, Debug, Eq)]
pub struct Message {
    pub wire: Vec<u8>,
}

impl PartialEq for Message {
    fn eq(&self, other: &Self) -> (r: bool) {
        if self.wire.len() != other.wire.len() {
            return false;
        }
        let mut i: usize = 0;
        while i < self.wire.len()
            invariant
                i <= self.wire.len(),
                self.wire.len() == other.wire.len(),
                forall|j: int| 0 <= j < i ==> self.wire[j] == other.wire[j],
            decreases self.wire.len() - i,
        {
            if self.wire[i] != other.wire[i] {
                return false;
            }
            i += 1;
        }
        assert(self.wire@ =~= other.wire@);
        true
    }
}

impl PartialEqSpecImpl for Message {
    open spec fn obeys_eq_spec() -> bool {
        true
    }

    open spec fn eq_spec(&self, other: &Self) -> bool {
        self.wire@ == other.wire@
    }
}

impl Message {
    /// A message with the same bytes.
    pub fn duplicate(&self) -> (copy: Message)
        ensures
            copy@ == self@,
    {
        Message { wire: self.wire.clone() }
    }
}

/// What an [`AccountMeta`] holds.
pub struct AccountMetaView {
    pub address: Seq<u8>,
    pub is_signer: bool,
    pub is_writable: bool,
}

/// What an [`Instruction`] holds.
pub struct InstructionView {
    pub program_id: Seq<u8>,
    pub accounts: Seq<AccountMetaView>,
    pub data: Seq<u8>,
}

impl View for AccountMeta {
    type V = AccountMetaView;

    open spec fn view(&self) -> AccountMetaView {
        AccountMetaView {
            address: self.address@,
            is_signer: self.is_signer,
            is_writable: self.is_writable,
        }
    }
}

impl View for Instruction {
    type V = InstructionView;

    open spec fn view(&self) -> InstructionView {
        InstructionView {
            program_id: self.program_id@,
            accounts: self.accounts@.map_values(|a: AccountMeta| a@),
            data: self.data@,
        }
    }
}

impl View for Message {
    type V = Seq<u8>;

    open spec fn view(&self) -> Seq<u8> {
        self.wire@
    }
}

/// The views of a list of instructions, in order.
pub open spec fn instruction_views(instructions: Seq<Instruction>) -> Seq<InstructionView> {
    instructions.map_values(|ix: Instruction| ix@)
}

/// An account that an instruction may write to.
pub open spec fn writable(address: Seq<u8>, is_signer: bool) -> AccountMetaView {
    AccountMetaView { address, is_signer, is_writable: true }
}

} // verus!
