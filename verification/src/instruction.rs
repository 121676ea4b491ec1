//! Accounts and instructions as a transaction carries them.
use vstd::prelude::*;
use crate::address::Address;

verus! {

/// One account that an instruction reads or writes.
#[derive(Clone, Copy, Debug, PartialEq, Eq)]
pub struct AccountMeta {
    pub pubkey: Address,
    pub is_signer: bool,
    pub is_writable: bool,
}

pub open spec fn writable_meta(pubkey: Address, is_signer: bool) -> AccountMeta {
    AccountMeta { pubkey, is_signer, is_writable: true }
}

pub open spec fn readonly_meta(pubkey: Address, is_signer: bool) -> AccountMeta {
    AccountMeta { pubkey, is_signer, is_writable: false }
}

impl AccountMeta {
    /// A writable account.
    pub fn new(pubkey: Address, is_signer: bool) -> (m: AccountMeta)
        ensures
            m == writable_meta(pubkey, is_signer),
    {
        AccountMeta { pubkey, is_signer, is_writable: true }
    }

    /// A read-only account.
    pub fn new_readonly(pubkey: Address, is_signer: bool) -> (m: AccountMeta)
        ensures
            m == readonly_meta(pubkey, is_signer),
    {
        AccountMeta { pubkey, is_signer, is_writable: false }
    }
}

/// A call of a program: its id, the accounts it touches, and its data.
#[derive(Debug, PartialEq, Eq)]
pub struct Instruction {
    pub program_id: Address,
    pub accounts: Vec<AccountMeta>,
    pub data: Vec<u8>,
}

/// What an instruction holds, as values.
pub struct InstructionView {
    pub program_id: Address,
    pub accounts: Seq<AccountMeta>,
    pub data: Seq<u8>,
}

impl View for Instruction {
    type V = InstructionView;

    open spec fn view(&self) -> InstructionView {
        InstructionView { program_id: self.program_id, accounts: self.accounts@, data: self.data@ }
    }
}

/// The views of a sequence of instructions.
pub open spec fn instruction_views(s: Seq<Instruction>) -> Seq<InstructionView> {
    s.map_values(|ix: Instruction| ix@)
}

impl Instruction {
    /// An instruction for `program_id` with a copy of `data` and the given accounts.
    pub fn new_with_bytes(program_id: Address, data: &[u8], accounts: Vec<AccountMeta>) -> (ix:
        Instruction)
        ensures
            ix@ == (InstructionView { program_id, accounts: accounts@, data: data@ }),
    {
        let mut bytes: Vec<u8> = Vec::new();
        let mut i: usize = 0;
        while i < data.len()
            invariant
                0 <= i <= data@.len(),
                bytes@ == data@.subrange(0, i as int),
            decreases data@.len() - i,
        {
            bytes.push(data[i]);
            i = i + 1;
            assert(bytes@ =~= data@.subrange(0, i as int));
        }
        assert(bytes@ =~= data@);
        Instruction { program_id, accounts, data: bytes }
    }
}

} // verus!
