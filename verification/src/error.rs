//! The ways in which a transfer can fail, and the status word that reports
//! each of them to the runtime.

use vstd::prelude::*;

verus! {

/// The status word of a call that succeeded.
pub const SUCCESS: u64 = 0;

/// The status word with which the system ledger reports that the source holds
/// less than the amount.
pub const LEDGER_UNDERFUNDED: u64 = 1;

/// The status word for a ledger failure whose own code is zero.
pub const CUSTOM_ZERO: u64 = 0x1_0000_0000;

/// The status word for an argument that the callee refuses. The system ledger
/// reports a source that carries data with it.
pub const INVALID_ARGUMENT: u64 = 0x2_0000_0000;

/// The status word for instruction data that cannot be read.
pub const INVALID_INSTRUCTION_DATA: u64 = 0x3_0000_0000;

/// The status word for a balance that is too small.
pub const INSUFFICIENT_FUNDS: u64 = 0x6_0000_0000;

/// The status word for an account list that is too short.
pub const NOT_ENOUGH_ACCOUNT_KEYS: u64 = 0xb_0000_0000;

/// The status word for arithmetic that left its range.
pub const ARITHMETIC_OVERFLOW: u64 = 0x18_0000_0000;

/// Why a transfer was refused.
#[derive(Clone, Copy, Debug, PartialEq, Eq)]
pub enum TransferError {
    /// The payload is not nine bytes long, or its tag is unknown.
    MalformedPayload,
    /// Fewer than two accounts were supplied.
    NotEnoughAccounts,
    /// The source is not the address derived from the program's identity.
    UnauthorizedSource,
    /// Direct path: the amount exceeds the source's balance.
    InsufficientFunds,
    /// Direct path: the destination's balance would leave the range of `u64`.
    BalanceOverflow,
    /// Delegated path: the ledger found the source's balance too small.
    UnderfundedSource,
    /// Delegated path: the ledger refused a source that carries data.
    ForeignOwnedSource,
    /// Delegated path: the ledger failed with another status word.
    Ledger(u64),
}

impl TransferError {
    /// The status word that reports this failure. It is never `SUCCESS`.
    pub open spec fn spec_status(self) -> u64 {
        match self {
            TransferError::MalformedPayload => INVALID_INSTRUCTION_DATA,
            TransferError::NotEnoughAccounts => NOT_ENOUGH_ACCOUNT_KEYS,
            TransferError::UnauthorizedSource => INVALID_ARGUMENT,
            TransferError::InsufficientFunds => INSUFFICIENT_FUNDS,
            TransferError::BalanceOverflow => ARITHMETIC_OVERFLOW,
            TransferError::UnderfundedSource => LEDGER_UNDERFUNDED,
            TransferError::ForeignOwnedSource => INVALID_ARGUMENT,
            TransferError::Ledger(status) => if status == SUCCESS {
                CUSTOM_ZERO
            } else {
                status
            },
        }
    }

    /// The failure that a ledger's status word stands for; `None` for `SUCCESS`.
    pub open spec fn spec_from_ledger(status: u64) -> Option<TransferError> {
        if status == SUCCESS {
            None
        } else if status == LEDGER_UNDERFUNDED {
            Some(TransferError::UnderfundedSource)
        } else if status == INVALID_ARGUMENT {
            Some(TransferError::ForeignOwnedSource)
        } else {
            Some(TransferError::Ledger(status))
        }
    }

    /// The status word that reports this failure to the runtime.
    pub fn status(&self) -> (status: u64)
        ensures
            status == self.spec_status(),
            status != SUCCESS,
    {
        match self {
            TransferError::MalformedPayload => INVALID_INSTRUCTION_DATA,
            TransferError::NotEnoughAccounts => NOT_ENOUGH_ACCOUNT_KEYS,
            TransferError::UnauthorizedSource => INVALID_ARGUMENT,
            TransferError::InsufficientFunds => INSUFFICIENT_FUNDS,
            TransferError::BalanceOverflow => ARITHMETIC_OVERFLOW,
            TransferError::UnderfundedSource => LEDGER_UNDERFUNDED,
            TransferError::ForeignOwnedSource => INVALID_ARGUMENT,
            TransferError::Ledger(status) => if *status == SUCCESS {
                CUSTOM_ZERO
            } else {
                *status
            },
        }
    }

    /// Reads the status word with which the system ledger answered.
    pub fn from_ledger(status: u64) -> (failure: Option<TransferError>)
        ensures
            failure == TransferError::spec_from_ledger(status),
    {
        if status == SUCCESS {
            None
        } else if status == LEDGER_UNDERFUNDED {
            Some(TransferError::UnderfundedSource)
        } else if status == INVALID_ARGUMENT {
            Some(TransferError::ForeignOwnedSource)
        } else {
            Some(TransferError::Ledger(status))
        }
    }
}

/// A failure that the ledger reports leaves the handler under the status word
/// with which it came.
pub proof fn lemma_ledger_status_kept(status: u64)
    requires
        status != SUCCESS,
    ensures
        TransferError::spec_from_ledger(status) is Some,
        TransferError::spec_from_ledger(status).unwrap().spec_status() == status,
{
}

} // verus!
