//! The instruction handler and its two transfer strategies.

use crate::account::{ledger, Account, AccountView};
use crate::address::{
    derivation_view, derived_address, program_derived_address, program_id_bytes, seed, seed_bytes,
    Address,
};
use crate::error::{TransferError, SUCCESS};
use crate::instruction::{is_system_transfer, system_transfer, Instruction};
use crate::payload::{Operation, Payload};
use vstd::prelude::*;

verus! {

/// What the system ledger is to be asked: move `lamports` from `from` to `to`,
/// with the program signing for `from` by its seed and `bump`.
#[derive(Clone, Copy, Debug, PartialEq, Eq)]
pub struct LedgerCall {
    pub from: Address,
    pub to: Address,
    pub lamports: u64,
    pub bump: u8,
}

/// How an accepted instruction ends.
#[derive(Clone, Copy, Debug, PartialEq, Eq)]
pub enum Dispatch {
    /// The direct transfer is done: both balances are rewritten.
    Settled,
    /// The delegated transfer is to be made: the caller hands the call to the
    /// system ledger and the ledger's answer to `settle_delegated`.
    Delegated(LedgerCall),
}

/// Whether `source` sits at the derived address. Only such a source may be
/// debited; where nothing was derived, no source qualifies.
pub open spec fn authorized(derived: Option<(Seq<u8>, u8)>, source: AccountView) -> bool {
    derived matches Some((address, _)) && source.key@ == address
}

/// How the direct transfer of `amount` ends on two records.
pub open spec fn direct_outcome(source: AccountView, destination: AccountView, amount: u64) -> Result<
    (),
    TransferError,
> {
    if amount > source.lamports {
        Err(TransferError::InsufficientFunds)
    } else if destination.lamports + amount > u64::MAX {
        Err(TransferError::BalanceOverflow)
    } else {
        Ok(())
    }
}

/// The handler's verdict on an instruction: decode the payload, check the list
/// and the source's address, then choose by the operation.
pub open spec fn decide(
    derived: Option<(Seq<u8>, u8)>,
    accounts: Seq<AccountView>,
    input: Seq<u8>,
) -> Result<Dispatch, TransferError> {
    match Payload::parse(input) {
        None => Err(TransferError::MalformedPayload),
        Some(payload) => if accounts.len() < 2 {
            Err(TransferError::NotEnoughAccounts)
        } else if !authorized(derived, accounts[0]) {
            Err(TransferError::UnauthorizedSource)
        } else {
            match payload.operation {
                Operation::DelegatedTransfer => Ok(
                    Dispatch::Delegated(
                        LedgerCall {
                            from: accounts[0].key,
                            to: accounts[1].key,
                            lamports: payload.amount,
                            bump: derived.unwrap().1,
                        },
                    ),
                ),
                Operation::DirectTransfer => match direct_outcome(
                    accounts[0],
                    accounts[1],
                    payload.amount,
                ) {
                    Ok(()) => Ok(Dispatch::Settled),
                    Err(failure) => Err(failure),
                },
            }
        },
    }
}

/// The account list after the handler has run: rewritten in its first two
/// places where the verdict is `Settled`, and as it was in every other case.
pub open spec fn settle(
    derived: Option<(Seq<u8>, u8)>,
    accounts: Seq<AccountView>,
    input: Seq<u8>,
) -> Seq<AccountView> {
    if decide(derived, accounts, input) == Ok::<Dispatch, TransferError>(Dispatch::Settled) {
        let amount = Payload::parse(input).unwrap().amount as nat;
        accounts.update(0, accounts[0].debited(amount)).update(1, accounts[1].credited(amount))
    } else {
        accounts
    }
}

impl LedgerCall {
    /// The instruction that carries this call to the system ledger.
    pub fn instruction(&self) -> (made: Instruction)
        ensures
            is_system_transfer(made@, self.from, self.to, self.lamports),
    {
        system_transfer(&self.from, &self.to, self.lamports)
    }

    /// The seeds by which the program signs for the source: the fixed seed,
    /// then the bump byte.
    pub fn signer_seeds(&self) -> (seeds: Vec<Vec<u8>>)
        ensures
            seeds@.len() == 2,
            seeds@[0]@ == seed_bytes(),
            seeds@[1]@ == seq![self.bump],
    {
        let mut bump: Vec<u8> = Vec::new();
        bump.push(self.bump);
        let mut seeds: Vec<Vec<u8>> = Vec::new();
        seeds.push(seed());
        seeds.push(bump);
        seeds
    }
}

/// The direct strategy: takes `amount` from the source and adds it to the
/// destination, or fails and touches neither.
pub fn direct_transfer(source: &mut Account, destination: &mut Account, amount: u64) -> (result:
    Result<(), TransferError>)
    ensures
        result == direct_outcome(old(source)@, old(destination)@, amount),
        result is Ok ==> final(source)@ == old(source)@.debited(amount as nat),
        result is Ok ==> final(destination)@ == old(destination)@.credited(amount as nat),
        result is Err ==> *final(source) == *old(source),
        result is Err ==> *final(destination) == *old(destination),
{
    if amount > source.lamports {
        return Err(TransferError::InsufficientFunds);
    }
    if amount > u64::MAX - destination.lamports {
        return Err(TransferError::BalanceOverflow);
    }
    source.lamports = source.lamports - amount;
    destination.lamports = destination.lamports + amount;
    Ok(())
}

/// The delegated strategy: states what the system ledger is to be asked. It
/// changes no balance; that is the ledger's work.
pub fn delegated_transfer(source: &Account, destination: &Account, amount: u64, bump: u8) -> (call:
    LedgerCall)
    ensures
        call == (LedgerCall { from: source.key, to: destination.key, lamports: amount, bump }),
{
    LedgerCall { from: source.key, to: destination.key, lamports: amount, bump }
}

/// Ends a delegated transfer with the status word that the system ledger
/// answered: success stays success, and a failure is passed on as it came.
pub fn settle_delegated(status: u64) -> (result: Result<(), TransferError>)
    ensures
        result is Ok <==> status == SUCCESS,
        result is Err ==> TransferError::spec_from_ledger(status) == Some(result->Err_0),
        result is Err ==> (result->Err_0).spec_status() == status,
{
    match TransferError::from_ledger(status) {
        None => Ok(()),
        Some(failure) => Err(failure),
    }
}

/// The handler, for a derivation that is already at hand.
pub fn process_with_derivation(
    derived: Option<(Address, u8)>,
    accounts: &mut [Account],
    input: &[u8],
) -> (result: Result<Dispatch, TransferError>)
    ensures
        result == decide(derivation_view(derived), ledger(old(accounts)@), input@),
        ledger(final(accounts)@) == settle(
            derivation_view(derived),
            ledger(old(accounts)@),
            input@,
        ),
        final(accounts)@.len() == old(accounts)@.len(),
        result != Ok::<Dispatch, TransferError>(Dispatch::Settled) ==> final(accounts)@ == old(accounts)@,
{
    let payload = match Payload::decode(input) {
        Some(payload) => payload,
        None => {
            return Err(TransferError::MalformedPayload);
        },
    };
    if accounts.len() < 2 {
        return Err(TransferError::NotEnoughAccounts);
    }
    let bump = match derived {
        Some((address, bump)) => {
            if !accounts[0].key.same_as(&address) {
                return Err(TransferError::UnauthorizedSource);
            }
            bump
        },
        None => {
            return Err(TransferError::UnauthorizedSource);
        },
    };
    match payload.operation {
        Operation::DelegatedTransfer => Ok(
            Dispatch::Delegated(
                delegated_transfer(&accounts[0], &accounts[1], payload.amount, bump),
            ),
        ),
        Operation::DirectTransfer => {
            let (head, tail) = accounts.split_at_mut(1);
            match direct_transfer(&mut head[0], &mut tail[0], payload.amount) {
                Ok(()) => Ok(Dispatch::Settled),
                Err(failure) => Err(failure),
            }
        },
    }
}

/// Handles one instruction: `accounts[0]` is the source, `accounts[1]` the
/// destination, and `input` the payload.
pub fn process_instruction(_program_id: &Address, accounts: &mut [Account], input: &[u8]) -> (result:
    Result<Dispatch, TransferError>)
    ensures
        result == decide(
            derived_address(seed_bytes(), program_id_bytes()),
            ledger(old(accounts)@),
            input@,
        ),
        ledger(final(accounts)@) == settle(
            derived_address(seed_bytes(), program_id_bytes()),
            ledger(old(accounts)@),
            input@,
        ),
        final(accounts)@.len() == old(accounts)@.len(),
        result != Ok::<Dispatch, TransferError>(Dispatch::Settled) ==> final(accounts)@ == old(accounts)@,
{
    let derived = program_derived_address();
    process_with_derivation(derived, accounts, input)
}

} // verus!
