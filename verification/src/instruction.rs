//! Instructions: the one that asks this program for a transfer, and the one by
//! which this program asks the system ledger.

use crate::address::{id, program_id_bytes, system_program_bytes, system_program_id, Address};
use crate::endian::le_bytes;
use crate::payload::{lemma_parse_of_wire, Operation, Payload};
use solana_program::pubkey::Pubkey;
use vstd::prelude::*;

verus! {

/// How an instruction refers to one account.
#[derive(Clone, Copy, Debug, PartialEq, Eq)]
pub struct AccountMeta {
    pub pubkey: Address,
    pub is_signer: bool,
    pub is_writable: bool,
}

impl AccountMeta {
    /// A reference to an account that the instruction may change.
    pub fn new(pubkey: Address, is_signer: bool) -> (meta: AccountMeta)
        ensures
            meta == (AccountMeta { pubkey, is_signer, is_writable: true }),
    {
        AccountMeta { pubkey, is_signer, is_writable: true }
    }

    /// A reference to an account that the instruction only reads.
    pub fn new_readonly(pubkey: Address, is_signer: bool) -> (meta: AccountMeta)
        ensures
            meta == (AccountMeta { pubkey, is_signer, is_writable: false }),
    {
        AccountMeta { pubkey, is_signer, is_writable: false }
    }
}

/// A request to a program: which program, which accounts in which order, and
/// the bytes it is to interpret.
#[derive(Clone, Debug, PartialEq, Eq)]
pub struct Instruction {
    pub program_id: Address,
    pub accounts: Vec<AccountMeta>,
    pub data: Vec<u8>,
}

/// An instruction as a mathematical value.
pub struct InstructionView {
    pub program_id: Address,
    pub accounts: Seq<AccountMeta>,
    pub data: Seq<u8>,
}

impl View for Instruction {
    type V = InstructionView;

    open spec fn view(&self) -> InstructionView {
        InstructionView {
            program_id: self.program_id,
            accounts: self.accounts@,
            data: self.data@,
        }
    }
}

impl Instruction {
    /// An instruction for `program_id` that carries a copy of `data`.
    pub fn new_with_bytes(program_id: Address, data: &[u8], accounts: Vec<AccountMeta>) -> (made:
        Instruction)
        ensures
            made@ == (InstructionView { program_id, accounts: accounts@, data: data@ }),
    {
        Instruction { program_id, accounts, data: vstd::slice::slice_to_vec(data) }
    }
}

/// The bytes by which the system ledger is asked to move `lamports`: its
/// operation number 2 in four little-endian bytes, then the amount in eight.
pub open spec fn system_transfer_data(lamports: u64) -> Seq<u8> {
    seq![2u8, 0u8, 0u8, 0u8] + le_bytes(lamports)
}

/// Whether `made` asks the system ledger to move `lamports` from `from` to
/// `to`, with `from` as the one signer and both accounts writable.
pub open spec fn is_system_transfer(
    made: InstructionView,
    from: Address,
    to: Address,
    lamports: u64,
) -> bool {
    &&& made.program_id@ == system_program_bytes()
    &&& made.accounts == seq![
        AccountMeta { pubkey: from, is_signer: true, is_writable: true },
        AccountMeta { pubkey: to, is_signer: false, is_writable: true },
    ]
    &&& made.data == system_transfer_data(lamports)
}

/// Calls `solana_program::system_instruction::transfer` and copies the
/// instruction it builds field by field. The contract states the whole result:
/// the system program as the callee, the source as writable signer, the
/// destination as writable, and as data the ledger's operation number 2 and the
/// amount, both in fixed-width little-endian form.
#[verifier::external_body]
pub(crate) fn system_transfer(from: &Address, to: &Address, lamports: u64) -> (made: Instruction)
    ensures
        is_system_transfer(made@, *from, *to, lamports),
{
    let made = solana_program::system_instruction::transfer(
        &Pubkey::new_from_array(from.bytes),
        &Pubkey::new_from_array(to.bytes),
        lamports,
    );
    Instruction {
        program_id: Address { bytes: made.program_id.to_bytes() },
        accounts: made.accounts.iter().map(|meta| AccountMeta {
            pubkey: Address { bytes: meta.pubkey.to_bytes() },
            is_signer: meta.is_signer,
            is_writable: meta.is_writable,
        }).collect(),
        data: made.data,
    }
}

/// Whether `made` asks this program to move `amount` from `from` to `to` by
/// `operation`: both accounts writable in that order, then the system program
/// read-only, and nobody signing.
pub open spec fn is_transfer_request(
    made: InstructionView,
    from: Address,
    to: Address,
    operation: Operation,
    amount: u64,
) -> bool {
    &&& made.program_id@ == program_id_bytes()
    &&& made.accounts.len() == 3
    &&& made.accounts[0] == (AccountMeta { pubkey: from, is_signer: false, is_writable: true })
    &&& made.accounts[1] == (AccountMeta { pubkey: to, is_signer: false, is_writable: true })
    &&& made.accounts[2].pubkey@ == system_program_bytes()
    &&& !made.accounts[2].is_signer
    &&& !made.accounts[2].is_writable
    &&& made.data == (Payload { operation, amount }).wire()
}

/// Builds the instruction that asks this program to move `amount` from
/// `from_address` to `to_address`. The discriminator selects the way: 0 for the
/// delegated transfer, 1 for the direct one.
pub fn instruction(
    from_address: &Address,
    to_address: &Address,
    discriminator: u8,
    amount: u64,
) -> (made: Instruction)
    requires
        discriminator == 0 || discriminator == 1,
    ensures
        is_transfer_request(
            made@,
            *from_address,
            *to_address,
            Operation::spec_from_tag(discriminator).unwrap(),
            amount,
        ),
        Payload::parse(made@.data) == Some(
            Payload { operation: Operation::spec_from_tag(discriminator).unwrap(), amount },
        ),
{
    let operation = if discriminator == 0 {
        Operation::DelegatedTransfer
    } else {
        Operation::DirectTransfer
    };
    let payload = Payload { operation, amount };
    let mut accounts: Vec<AccountMeta> = Vec::new();
    accounts.push(AccountMeta::new(*from_address, false));
    accounts.push(AccountMeta::new(*to_address, false));
    accounts.push(AccountMeta::new_readonly(system_program_id(), false));
    let data = payload.encode();
    proof {
        lemma_parse_of_wire(payload);
    }
    Instruction::new_with_bytes(id(), data.as_slice(), accounts)
}

} // verus!
