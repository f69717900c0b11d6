//! The handler's verdicts, one rule at a time.

use sandbox_program::error::{
    ARITHMETIC_OVERFLOW, CUSTOM_ZERO, INSUFFICIENT_FUNDS, INVALID_ARGUMENT,
    INVALID_INSTRUCTION_DATA, LEDGER_UNDERFUNDED, NOT_ENOUGH_ACCOUNT_KEYS, SUCCESS,
};
use sandbox_program::{
    delegated_transfer, direct_transfer, id, instruction, process_instruction,
    process_with_derivation, program_derived_address, settle_delegated, Account, Address, Dispatch,
    LedgerCall, TransferError,
};
use solana_program::program_error::ProgramError;
use solana_program::system_instruction::SystemError;

fn source() -> Address {
    Address::new([1; 32])
}

fn recipient() -> Address {
    Address::new([2; 32])
}

fn stranger() -> Address {
    Address::new([3; 32])
}

fn pair(from: Address, lamports: u64, to_lamports: u64) -> Vec<Account> {
    vec![
        Account::new(from, lamports, Vec::new(), id()),
        Account::new(recipient(), to_lamports, vec![1, 2, 3], stranger()),
    ]
}

fn payload(discriminator: u8, amount: u64) -> Vec<u8> {
    instruction(&source(), &recipient(), discriminator, amount).data
}

#[test]
fn unknown_tag_is_malformed_and_changes_nothing() {
    for tag in [2u8, 3, 127, 255] {
        let mut records = pair(source(), 100_000_000, 0);
        let before = records.clone();
        let input = [tag, 0x80, 0xf0, 0xfa, 0x02, 0, 0, 0, 0];
        let verdict = process_with_derivation(Some((source(), 255)), &mut records, &input);
        assert_eq!(verdict, Err(TransferError::MalformedPayload));
        assert_eq!(records, before);
    }
}

#[test]
fn wrong_length_is_malformed_and_changes_nothing() {
    for input in [&[][..], &[1][..], &[1, 0, 0, 0, 0, 0, 0, 0][..], &[0; 10][..]] {
        let mut records = pair(source(), 100_000_000, 0);
        let before = records.clone();
        let verdict = process_with_derivation(Some((source(), 255)), &mut records, input);
        assert_eq!(verdict, Err(TransferError::MalformedPayload));
        assert_eq!(records, before);
    }
}

#[test]
fn payload_is_read_before_the_accounts_are_looked_at() {
    let mut records = pair(stranger(), 100_000_000, 0);
    let verdict = process_with_derivation(Some((source(), 255)), &mut records, &[9; 9]);
    assert_eq!(verdict, Err(TransferError::MalformedPayload));

    let mut none: Vec<Account> = Vec::new();
    let verdict = process_with_derivation(Some((source(), 255)), &mut none, &[9; 9]);
    assert_eq!(verdict, Err(TransferError::MalformedPayload));
}

#[test]
fn short_account_list_is_refused() {
    for discriminator in [0, 1] {
        let mut none: Vec<Account> = Vec::new();
        let verdict =
            process_with_derivation(Some((source(), 255)), &mut none, &payload(discriminator, 1));
        assert_eq!(verdict, Err(TransferError::NotEnoughAccounts));

        let mut one = vec![Account::new(source(), 5, Vec::new(), id())];
        let verdict =
            process_with_derivation(Some((source(), 255)), &mut one, &payload(discriminator, 1));
        assert_eq!(verdict, Err(TransferError::NotEnoughAccounts));
        assert_eq!(one[0].lamports, 5);
    }
}

#[test]
fn source_off_the_derived_address_is_unauthorized() {
    for discriminator in [0, 1] {
        for amount in [0, 1, 50_000_000, 150_000_000, u64::MAX] {
            let mut records = pair(stranger(), 100_000_000, 0);
            let before = records.clone();
            let verdict = process_with_derivation(
                Some((source(), 255)),
                &mut records,
                &payload(discriminator, amount),
            );
            assert_eq!(verdict, Err(TransferError::UnauthorizedSource));
            assert_eq!(records, before);
        }
    }
}

#[test]
fn source_is_matched_against_the_programs_own_derivation() {
    let (derived, _) = program_derived_address().unwrap();
    let mut records = pair(source(), 100_000_000, 0);
    let before = records.clone();
    assert_ne!(derived, source());
    let verdict = process_instruction(&id(), &mut records, &payload(1, 50_000_000));
    assert_eq!(verdict, Err(TransferError::UnauthorizedSource));
    assert_eq!(records, before);

    // The destination sitting at the derived address does not help.
    let mut records =
        vec![Account::new(source(), 9, Vec::new(), id()), Account::new(derived, 9, Vec::new(), id())];
    let verdict = process_instruction(&id(), &mut records, &payload(0, 1));
    assert_eq!(verdict, Err(TransferError::UnauthorizedSource));
}

#[test]
fn without_a_derived_address_nobody_is_authorized() {
    for discriminator in [0, 1] {
        let mut records = pair(source(), 100_000_000, 0);
        let before = records.clone();
        let verdict = process_with_derivation(None, &mut records, &payload(discriminator, 1));
        assert_eq!(verdict, Err(TransferError::UnauthorizedSource));
        assert_eq!(records, before);
    }
}

#[test]
fn delegated_path_hands_out_the_call_and_leaves_the_balances() {
    let mut records = pair(source(), 100_000_000, 7);
    let before = records.clone();
    let verdict =
        process_with_derivation(Some((source(), 253)), &mut records, &payload(0, 50_000_000));
    let call = LedgerCall { from: source(), to: recipient(), lamports: 50_000_000, bump: 253 };
    assert_eq!(verdict, Ok(Dispatch::Delegated(call)));
    assert_eq!(records, before);
    assert_eq!(settle_delegated(SUCCESS), Ok(()));
}

#[test]
fn delegated_path_does_not_judge_the_amount() {
    let mut records = pair(source(), 100_000_000, 0);
    let verdict =
        process_with_derivation(Some((source(), 253)), &mut records, &payload(0, 150_000_000));
    let call = LedgerCall { from: source(), to: recipient(), lamports: 150_000_000, bump: 253 };
    assert_eq!(verdict, Ok(Dispatch::Delegated(call)));
    assert_eq!(records[0].lamports, 100_000_000);

    let underfunded = u64::from(ProgramError::Custom(SystemError::ResultWithNegativeLamports as u32));
    assert_eq!(underfunded, LEDGER_UNDERFUNDED);
    assert_eq!(settle_delegated(underfunded), Err(TransferError::UnderfundedSource));
}

#[test]
fn delegated_strategy_states_the_call() {
    let records = pair(source(), 10, 20);
    let call = delegated_transfer(&records[0], &records[1], 5, 200);
    assert_eq!(call, LedgerCall { from: source(), to: recipient(), lamports: 5, bump: 200 });
}

#[test]
fn ledger_failures_are_passed_on_under_their_own_word() {
    assert_eq!(settle_delegated(0), Ok(()));
    assert_eq!(settle_delegated(1), Err(TransferError::UnderfundedSource));
    assert_eq!(settle_delegated(INVALID_ARGUMENT), Err(TransferError::ForeignOwnedSource));
    assert_eq!(settle_delegated(2), Err(TransferError::Ledger(2)));
    assert_eq!(
        settle_delegated(INVALID_INSTRUCTION_DATA),
        Err(TransferError::Ledger(INVALID_INSTRUCTION_DATA))
    );
    for status in [1, 2, 77, INVALID_ARGUMENT, CUSTOM_ZERO, INSUFFICIENT_FUNDS, u64::MAX] {
        assert_eq!(settle_delegated(status).unwrap_err().status(), status);
    }
}

#[test]
fn every_failure_has_the_runtimes_status_word() {
    let words = [
        (TransferError::MalformedPayload, ProgramError::InvalidInstructionData),
        (TransferError::NotEnoughAccounts, ProgramError::NotEnoughAccountKeys),
        (TransferError::UnauthorizedSource, ProgramError::InvalidArgument),
        (TransferError::InsufficientFunds, ProgramError::InsufficientFunds),
        (TransferError::BalanceOverflow, ProgramError::ArithmeticOverflow),
        (TransferError::UnderfundedSource, ProgramError::Custom(1)),
        (TransferError::ForeignOwnedSource, ProgramError::InvalidArgument),
        (TransferError::Ledger(77), ProgramError::Custom(77)),
        (TransferError::Ledger(0), ProgramError::Custom(0)),
    ];
    for (failure, expected) in words {
        assert_ne!(failure.status(), SUCCESS);
        assert_eq!(failure.status(), u64::from(expected.clone()));
        assert_eq!(ProgramError::from(failure.status()), expected);
    }
    assert_eq!(TransferError::MalformedPayload.status(), INVALID_INSTRUCTION_DATA);
    assert_eq!(TransferError::NotEnoughAccounts.status(), NOT_ENOUGH_ACCOUNT_KEYS);
    assert_eq!(TransferError::InsufficientFunds.status(), INSUFFICIENT_FUNDS);
    assert_eq!(TransferError::BalanceOverflow.status(), ARITHMETIC_OVERFLOW);
    assert_eq!(INVALID_ARGUMENT, 2 << 32);
    assert_eq!(SUCCESS, solana_program::entrypoint::SUCCESS);
}

#[test]
fn ledger_words_are_read_as_the_failures_they_name() {
    assert_eq!(TransferError::from_ledger(0), None);
    assert_eq!(TransferError::from_ledger(1), Some(TransferError::UnderfundedSource));
    assert_eq!(
        TransferError::from_ledger(u64::from(ProgramError::InvalidArgument)),
        Some(TransferError::ForeignOwnedSource)
    );
    assert_eq!(TransferError::from_ledger(5), Some(TransferError::Ledger(5)));
}

#[test]
fn direct_path_moves_the_amount() {
    let mut records = pair(source(), 100_000_000, 7);
    let verdict =
        process_with_derivation(Some((source(), 255)), &mut records, &payload(1, 50_000_000));
    assert_eq!(verdict, Ok(Dispatch::Settled));
    assert_eq!(records[0].lamports, 50_000_000);
    assert_eq!(records[1].lamports, 50_000_007);
    assert_eq!(records[0].key, source());
    assert_eq!(records[0].owner, id());
    assert_eq!(records[1].key, recipient());
    assert_eq!(records[1].data, vec![1, 2, 3]);
    assert_eq!(records[1].owner, stranger());
}

#[test]
fn direct_path_may_empty_the_source() {
    let mut records = pair(source(), 100_000_000, 0);
    let verdict =
        process_with_derivation(Some((source(), 255)), &mut records, &payload(1, 100_000_000));
    assert_eq!(verdict, Ok(Dispatch::Settled));
    assert_eq!(records[0].lamports, 0);
    assert_eq!(records[1].lamports, 100_000_000);

    let mut records = pair(source(), 100_000_000, 0);
    let verdict = process_with_derivation(Some((source(), 255)), &mut records, &payload(1, 0));
    assert_eq!(verdict, Ok(Dispatch::Settled));
    assert_eq!(records[0].lamports, 100_000_000);
    assert_eq!(records[1].lamports, 0);
}

#[test]
fn direct_path_refuses_more_than_the_source_holds() {
    let mut records = pair(source(), 100_000_000, 0);
    let before = records.clone();
    let verdict =
        process_with_derivation(Some((source(), 255)), &mut records, &payload(1, 150_000_000));
    assert_eq!(verdict, Err(TransferError::InsufficientFunds));
    assert_eq!(records, before);

    let verdict =
        process_with_derivation(Some((source(), 255)), &mut records, &payload(1, 100_000_001));
    assert_eq!(verdict, Err(TransferError::InsufficientFunds));
    assert_eq!(records, before);
}

#[test]
fn direct_path_refuses_to_overflow_the_destination() {
    let mut records = pair(source(), 100, u64::MAX - 1);
    let before = records.clone();
    let verdict = process_with_derivation(Some((source(), 255)), &mut records, &payload(1, 2));
    assert_eq!(verdict, Err(TransferError::BalanceOverflow));
    assert_eq!(records, before);

    let verdict = process_with_derivation(Some((source(), 255)), &mut records, &payload(1, 1));
    assert_eq!(verdict, Ok(Dispatch::Settled));
    assert_eq!(records[0].lamports, 99);
    assert_eq!(records[1].lamports, u64::MAX);
}

#[test]
fn direct_path_looks_at_neither_data_nor_owner() {
    let plain = pair(source(), 100_000_000, 0);
    let laden = vec![
        Account::new(source(), 100_000_000, vec![0; 500], stranger()),
        Account::new(recipient(), 0, vec![9; 40], id()),
    ];
    for amount in [0, 50_000_000, 100_000_000, 150_000_000] {
        let mut one = plain.clone();
        let mut other = laden.clone();
        let input = payload(1, amount);
        let first = process_with_derivation(Some((source(), 255)), &mut one, &input);
        let second = process_with_derivation(Some((source(), 255)), &mut other, &input);
        assert_eq!(first, second);
        assert_eq!(one[0].lamports, other[0].lamports);
        assert_eq!(one[1].lamports, other[1].lamports);
        assert_eq!(other[0].data, vec![0; 500]);
        assert_eq!(other[0].owner, stranger());
    }
}

#[test]
fn accounts_after_the_second_are_left_alone() {
    let mut records = pair(source(), 100_000_000, 0);
    records.push(Account::new(stranger(), 11, vec![4], stranger()));
    let verdict =
        process_with_derivation(Some((source(), 255)), &mut records, &payload(1, 50_000_000));
    assert_eq!(verdict, Ok(Dispatch::Settled));
    assert_eq!(records.len(), 3);
    assert_eq!(records[2], Account::new(stranger(), 11, vec![4], stranger()));
}

#[test]
fn failed_instruction_fails_again_in_the_same_way() {
    let cases = [
        (pair(source(), 100_000_000, 0), vec![7u8; 9]),
        (pair(source(), 100_000_000, 0), vec![1u8; 3]),
        (pair(stranger(), 100_000_000, 0), payload(0, 50_000_000)),
        (pair(stranger(), 100_000_000, 0), payload(1, 50_000_000)),
        (pair(source(), 100_000_000, 0), payload(1, 150_000_000)),
        (pair(source(), 100, u64::MAX), payload(1, 1)),
        (vec![Account::new(source(), 1, Vec::new(), id())], payload(1, 1)),
    ];
    for (accounts, input) in cases {
        let mut records = accounts.clone();
        let first = process_with_derivation(Some((source(), 255)), &mut records, &input);
        assert!(first.is_err());
        assert_eq!(records, accounts);
        let second = process_with_derivation(Some((source(), 255)), &mut records, &input);
        assert_eq!(first, second);
        assert_eq!(records, accounts);
    }
}

#[test]
fn direct_strategy_is_all_or_nothing() {
    let mut from = Account::new(source(), 100_000_000, Vec::new(), id());
    let mut to = Account::new(recipient(), 1, Vec::new(), stranger());
    assert_eq!(direct_transfer(&mut from, &mut to, 50_000_000), Ok(()));
    assert_eq!((from.lamports, to.lamports), (50_000_000, 50_000_001));

    assert_eq!(
        direct_transfer(&mut from, &mut to, 50_000_001),
        Err(TransferError::InsufficientFunds)
    );
    assert_eq!((from.lamports, to.lamports), (50_000_000, 50_000_001));

    to.lamports = u64::MAX;
    assert_eq!(direct_transfer(&mut from, &mut to, 1), Err(TransferError::BalanceOverflow));
    assert_eq!((from.lamports, to.lamports), (50_000_000, u64::MAX));

    // Too much for the source and for the destination: the source is judged first.
    assert_eq!(
        direct_transfer(&mut from, &mut to, 50_000_001),
        Err(TransferError::InsufficientFunds)
    );
}
