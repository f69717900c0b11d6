//! What holds of the handler on every input.

use crate::account::AccountView;
use crate::error::TransferError;
use crate::payload::Payload;
use crate::processor::{authorized, decide, settle, Dispatch, LedgerCall};
use vstd::prelude::*;

verus! {

/// A payload of the wrong length or with a tag other than 0 and 1 is refused
/// as malformed, whatever the accounts are, and no balance changes.
pub proof fn lemma_malformed_refused(
    derived: Option<(Seq<u8>, u8)>,
    accounts: Seq<AccountView>,
    input: Seq<u8>,
)
    requires
        input.len() != 9 || (input[0] != 0 && input[0] != 1),
    ensures
        decide(derived, accounts, input) == Err::<Dispatch, TransferError>(
            TransferError::MalformedPayload,
        ),
        settle(derived, accounts, input) == accounts,
{
}

/// A readable payload whose source does not sit at the derived address is
/// refused as unauthorized, whichever operation and amount it names, and no
/// balance changes.
pub proof fn lemma_unauthorized_refused(
    derived: Option<(Seq<u8>, u8)>,
    accounts: Seq<AccountView>,
    input: Seq<u8>,
)
    requires
        Payload::parse(input) is Some,
        accounts.len() >= 2,
        !authorized(derived, accounts[0]),
    ensures
        decide(derived, accounts, input) == Err::<Dispatch, TransferError>(
            TransferError::UnauthorizedSource,
        ),
        settle(derived, accounts, input) == accounts,
{
}

/// Only a settled direct transfer changes the account list: after a failure,
/// and after a delegated transfer was handed out, it is as it was.
pub proof fn lemma_only_settled_changes(
    derived: Option<(Seq<u8>, u8)>,
    accounts: Seq<AccountView>,
    input: Seq<u8>,
)
    ensures
        decide(derived, accounts, input) != Ok::<Dispatch, TransferError>(Dispatch::Settled)
            ==> settle(derived, accounts, input) == accounts,
{
}

/// An instruction that failed fails in the same way when it is handled again
/// on the accounts that the first attempt left.
pub proof fn lemma_failure_replays(
    derived: Option<(Seq<u8>, u8)>,
    accounts: Seq<AccountView>,
    input: Seq<u8>,
)
    requires
        decide(derived, accounts, input) is Err,
    ensures
        decide(derived, settle(derived, accounts, input), input) == decide(
            derived,
            accounts,
            input,
        ),
        settle(derived, settle(derived, accounts, input), input) == accounts,
{
}

/// Whatever is accepted debits the account at the derived address and no
/// other: the source of a settled transfer sits there, and so does the source
/// that a delegated call names. The call asks for the amount that the payload
/// carries, in favour of the second account, under the derivation's bump byte.
pub proof fn lemma_only_derived_address_debited(
    derived: Option<(Seq<u8>, u8)>,
    accounts: Seq<AccountView>,
    input: Seq<u8>,
)
    requires
        decide(derived, accounts, input) is Ok,
    ensures
        derived is Some,
        accounts.len() >= 2,
        accounts[0].key@ == derived.unwrap().0,
        Payload::parse(input) is Some,
        decide(derived, accounts, input) matches Ok(Dispatch::Delegated(call)) ==> call == (
            LedgerCall {
                from: accounts[0].key,
                to: accounts[1].key,
                lamports: Payload::parse(input).unwrap().amount,
                bump: derived.unwrap().1,
            }),
{
}

/// A settled transfer debits a source that sits at the derived address and
/// holds at least the amount, moves exactly the amount, and creates or
/// destroys nothing.
pub proof fn lemma_settled_moves_amount(
    derived: Option<(Seq<u8>, u8)>,
    accounts: Seq<AccountView>,
    input: Seq<u8>,
)
    requires
        decide(derived, accounts, input) == Ok::<Dispatch, TransferError>(Dispatch::Settled),
    ensures
        authorized(derived, accounts[0]),
        Payload::parse(input) is Some,
        ({
            let amount = Payload::parse(input).unwrap().amount;
            let after = settle(derived, accounts, input);
            &&& amount <= accounts[0].lamports
            &&& after.len() == accounts.len()
            &&& after[0].lamports == accounts[0].lamports - amount
            &&& after[1].lamports == accounts[1].lamports + amount
            &&& after[1].lamports <= u64::MAX
            &&& after[0].lamports + after[1].lamports == accounts[0].lamports
                + accounts[1].lamports
        }),
{
}

/// The handler writes balances and nothing else: keys, data and owners stay,
/// and so does every account after the first two.
pub proof fn lemma_only_balances_change(
    derived: Option<(Seq<u8>, u8)>,
    accounts: Seq<AccountView>,
    input: Seq<u8>,
)
    ensures
        settle(derived, accounts, input).len() == accounts.len(),
        forall|i: int|
            0 <= i < accounts.len() ==> {
                let after = #[trigger] settle(derived, accounts, input)[i];
                &&& after.key == accounts[i].key
                &&& after.data == accounts[i].data
                &&& after.owner == accounts[i].owner
                &&& i >= 2 ==> after.lamports == accounts[i].lamports
            },
{
}

/// The verdict looks at the source's address and at the two balances only:
/// account lists that agree in these get the same verdict, whatever data the
/// accounts carry and whoever owns them.
pub proof fn lemma_verdict_ignores_data_and_owner(
    derived: Option<(Seq<u8>, u8)>,
    accounts: Seq<AccountView>,
    others: Seq<AccountView>,
    input: Seq<u8>,
)
    requires
        accounts.len() == others.len(),
        forall|i: int|
            0 <= i < accounts.len() ==> (#[trigger] accounts[i]).key == others[i].key
                && accounts[i].lamports == others[i].lamports,
    ensures
        decide(derived, accounts, input) == decide(derived, others, input),
{
}

} // verus!
