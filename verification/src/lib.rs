//! A value-transfer handler for a program that controls one derived address.
//!
//! The handler debits only the account that sits at the address derived from
//! the program's own identity, and moves value either by asking the system
//! ledger to do it or by rewriting both balances itself.

pub mod address;
pub mod endian;
pub mod payload;
pub mod error;
pub mod account;
pub mod instruction;
pub mod processor;
pub mod laws;

pub use crate::account::Account;
pub use crate::address::{id, program_derived_address, Address};
pub use crate::error::TransferError;
pub use crate::instruction::{instruction, AccountMeta, Instruction};
pub use crate::payload::{Operation, Payload};
pub use crate::processor::{
    delegated_transfer, direct_transfer, process_instruction, process_with_derivation,
    settle_delegated, Dispatch, LedgerCall,
};
