use toy_transaction::{
    Amount, Rejection, TransactionInput, TransactionProcessor,
    TransactionRunningState, TransactionType,
};

fn units(ten_thousandths: i64) -> Amount {
    Amount::from_ten_thousandths(ten_thousandths)
}

fn record(kind: TransactionType, tx: u32, amount: Option<i64>) -> TransactionInput {
    TransactionInput { transaction_type: kind, client: 7, tx, amount: amount.map(units) }
}

fn deposit(tx: u32, amount: i64) -> TransactionInput {
    record(TransactionType::Deposit, tx, Some(amount))
}

fn withdrawal(tx: u32, amount: i64) -> TransactionInput {
    record(TransactionType::Withdrawal, tx, Some(amount))
}

fn dispute(tx: u32) -> TransactionInput {
    record(TransactionType::Dispute, tx, None)
}

fn resolve(tx: u32) -> TransactionInput {
    record(TransactionType::Resolve, tx, None)
}

fn chargeback(tx: u32) -> TransactionInput {
    record(TransactionType::Chargeback, tx, None)
}

fn account(available: i64, held: i64, total: i64, locked: bool) -> TransactionRunningState {
    TransactionRunningState {
        client: 7,
        available: units(available),
        held: units(held),
        total: units(total),
        locked,
    }
}

fn ledger_of(records: &[TransactionInput]) -> TransactionProcessor {
    let mut ledger = TransactionProcessor::new(7);
    for record in records {
        let _ = ledger.add_transaction(*record);
    }
    ledger
}

#[test]
fn amount_is_counted_in_ten_thousandths() {
    assert_eq!(Amount::from_ten_thousandths(11111).ten_thousandths, 11111);
    assert_eq!(Amount::from_ten_thousandths(-3), Amount { ten_thousandths: -3 });
}

#[test]
fn new_account_is_empty_and_unlocked() {
    assert_eq!(TransactionRunningState::new(7), account(0, 0, 0, false));
    assert_eq!(TransactionRunningState::new(9).client, 9);
}

#[test]
fn new_ledger_reports_an_empty_account() {
    let ledger = TransactionProcessor::new(7);
    assert_eq!(ledger.client(), 7);
    assert_eq!(ledger.process_transactions(), account(0, 0, 0, false));
}

#[test]
fn chargeback_of_disputed_deposit_scenario() {
    let ledger = ledger_of(&[
        deposit(1, 1_000_000),
        deposit(2, 500_000),
        dispute(2),
        chargeback(2),
    ]);
    assert_eq!(ledger.process_transactions(), account(1_000_000, 0, 1_000_000, true));
}

#[test]
fn withdrawal_beyond_available_scenario() {
    let mut ledger = TransactionProcessor::new(7);
    assert_eq!(ledger.add_transaction(deposit(1, 1_000_000)), Ok(()));
    assert_eq!(
        ledger.add_transaction(withdrawal(2, 2_000_000)),
        Err(Rejection::InsufficientFunds)
    );
    assert_eq!(ledger.process_transactions(), account(1_000_000, 0, 1_000_000, false));
}

#[test]
fn deposits_and_withdrawals_hold_nothing_at_any_step() {
    let records = [
        deposit(1, 25_000),
        withdrawal(2, 5_000),
        withdrawal(3, 90_000),
        deposit(4, 0),
        deposit(5, 1),
        withdrawal(6, 20_001),
    ];
    let totals = [25_000, 20_000, 20_000, 20_000, 20_001, 0];
    let mut ledger = TransactionProcessor::new(7);
    for (record, total) in records.iter().zip(totals.iter()) {
        let _ = ledger.add_transaction(*record);
        let state = ledger.process_transactions();
        assert_eq!(state.held, units(0));
        assert_eq!(state.total, units(*total));
        assert_eq!(
            state.total.ten_thousandths,
            state.available.ten_thousandths + state.held.ten_thousandths
        );
    }
}

#[test]
fn deposit_adds_to_total_and_available() {
    let mut state = account(10, 5, 15, false);
    assert_eq!(state.deposit(units(7)), Ok(()));
    assert_eq!(state, account(17, 5, 22, false));
}

#[test]
fn deposit_of_zero_or_less_is_rejected() {
    let mut state = account(10, 5, 15, false);
    assert_eq!(state.deposit(units(0)), Err(Rejection::DepositNotIncreasing));
    assert_eq!(state.deposit(units(-4)), Err(Rejection::DepositNotIncreasing));
    assert_eq!(state, account(10, 5, 15, false));
}

#[test]
fn deposit_beyond_the_largest_amount_is_rejected() {
    let mut state = account(i64::MAX - 1, 0, i64::MAX - 1, false);
    assert_eq!(state.deposit(units(2)), Err(Rejection::DepositNotIncreasing));
    assert_eq!(state, account(i64::MAX - 1, 0, i64::MAX - 1, false));
    assert_eq!(state.deposit(units(1)), Ok(()));
    assert_eq!(state, account(i64::MAX, 0, i64::MAX, false));
}

#[test]
fn deposit_that_overflows_available_is_out_of_range() {
    let mut state = account(i64::MAX, -10, i64::MAX - 10, false);
    assert_eq!(state.deposit(units(5)), Err(Rejection::OutOfRange));
    assert_eq!(state, account(i64::MAX, -10, i64::MAX - 10, false));
}

#[test]
fn withdraw_takes_from_total_and_available() {
    let mut state = account(10, 5, 15, false);
    assert_eq!(state.withdraw(units(10)), Ok(()));
    assert_eq!(state, account(0, 5, 5, false));
}

#[test]
fn withdraw_of_more_than_available_is_rejected() {
    let mut state = account(10, 5, 15, false);
    assert_eq!(state.withdraw(units(11)), Err(Rejection::InsufficientFunds));
    assert_eq!(state, account(10, 5, 15, false));
}

#[test]
fn withdraw_of_a_negative_amount_raises_the_total() {
    let mut state = account(10, 0, 10, false);
    assert_eq!(state.withdraw(units(-4)), Ok(()));
    assert_eq!(state, account(14, 0, 14, false));
}

#[test]
fn withdraw_below_the_smallest_total_is_out_of_range() {
    let mut state = account(i64::MIN + 2, 0, i64::MIN + 2, false);
    assert_eq!(state.withdraw(units(i64::MIN)), Ok(()));
    let mut state = account(i64::MAX, 0, i64::MAX, false);
    assert_eq!(state.withdraw(units(-1)), Err(Rejection::OutOfRange));
    assert_eq!(state, account(i64::MAX, 0, i64::MAX, false));
}

#[test]
fn hold_moves_amount_from_available_to_held() {
    let mut state = account(10, 5, 15, false);
    assert_eq!(state.hold(units(4)), Ok(()));
    assert_eq!(state, account(6, 9, 15, false));
}

#[test]
fn hold_beyond_the_largest_amount_is_out_of_range() {
    let mut state = account(0, i64::MAX, i64::MAX, false);
    assert_eq!(state.hold(units(1)), Err(Rejection::OutOfRange));
    assert_eq!(state, account(0, i64::MAX, i64::MAX, false));
}

#[test]
fn release_moves_amount_from_held_to_available() {
    let mut state = account(6, 9, 15, false);
    assert_eq!(state.release(units(4)), Ok(()));
    assert_eq!(state, account(10, 5, 15, false));
}

#[test]
fn release_recomputes_available_from_total_and_held() {
    let mut state = account(100, 9, 15, false);
    assert_eq!(state.release(units(4)), Ok(()));
    assert_eq!(state, account(10, 5, 15, false));
}

#[test]
fn chargeback_deposit_takes_amount_from_total_and_held_and_locks() {
    let mut state = account(6, 9, 15, false);
    assert_eq!(state.chargeback_deposit(units(4)), Ok(()));
    assert_eq!(state, account(6, 5, 11, true));
}

#[test]
fn chargeback_withdrawal_adds_amount_to_total_and_locks() {
    let mut state = account(6, 9, 15, false);
    assert_eq!(state.chargeback_withdrawal(units(4)), Ok(()));
    assert_eq!(state, account(14, 5, 19, true));
}

#[test]
fn chargeback_out_of_range_leaves_the_account_unlocked() {
    let mut state = account(i64::MIN, 0, i64::MIN, false);
    assert_eq!(state.chargeback_deposit(units(1)), Err(Rejection::OutOfRange));
    assert_eq!(state, account(i64::MIN, 0, i64::MIN, false));
    let mut state = account(i64::MAX, 0, i64::MAX, false);
    assert_eq!(state.chargeback_withdrawal(units(1)), Err(Rejection::OutOfRange));
    assert_eq!(state, account(i64::MAX, 0, i64::MAX, false));
}

#[test]
fn dispute_of_a_deposit_moves_its_amount_to_held() {
    let mut ledger = ledger_of(&[deposit(1, 300), deposit(2, 120)]);
    let before = ledger.process_transactions();
    assert_eq!(ledger.add_transaction(dispute(2)), Ok(()));
    let after = ledger.process_transactions();
    assert_eq!(after.available, units(before.available.ten_thousandths - 120));
    assert_eq!(after.held, units(before.held.ten_thousandths + 120));
    assert_eq!(after.total, before.total);
    assert_eq!(after, account(300, 120, 420, false));
}

#[test]
fn resolve_after_dispute_restores_the_account() {
    let mut ledger = ledger_of(&[deposit(1, 300), withdrawal(2, 120)]);
    let before = ledger.process_transactions();
    assert_eq!(ledger.add_transaction(dispute(2)), Ok(()));
    assert_eq!(ledger.process_transactions(), account(60, 120, 180, false));
    assert_eq!(ledger.add_transaction(resolve(2)), Ok(()));
    assert_eq!(ledger.process_transactions(), before);
}

#[test]
fn resolve_without_dispute_drives_held_negative() {
    let mut ledger = ledger_of(&[deposit(1, 300)]);
    assert_eq!(ledger.add_transaction(resolve(1)), Ok(()));
    assert_eq!(ledger.process_transactions(), account(600, -300, 300, false));
}

#[test]
fn chargeback_of_disputed_deposit_lowers_total() {
    let mut ledger = ledger_of(&[deposit(1, 300), deposit(2, 120), dispute(2)]);
    let before = ledger.process_transactions();
    assert_eq!(ledger.add_transaction(chargeback(2)), Ok(()));
    let after = ledger.process_transactions();
    assert_eq!(after.total, units(before.total.ten_thousandths - 120));
    assert_eq!(after.held, units(before.held.ten_thousandths - 120));
    assert!(after.locked);
    assert_eq!(after, account(300, 0, 300, true));
}

#[test]
fn chargeback_of_disputed_withdrawal_raises_total() {
    let mut ledger = ledger_of(&[deposit(1, 300), withdrawal(2, 120), dispute(2)]);
    let before = ledger.process_transactions();
    assert_eq!(before, account(60, 120, 180, false));
    assert_eq!(ledger.add_transaction(chargeback(2)), Ok(()));
    let after = ledger.process_transactions();
    assert_eq!(after.total, units(before.total.ten_thousandths + 120));
    assert_eq!(after.held, units(before.held.ten_thousandths - 120));
    assert_eq!(after, account(300, 0, 300, true));
}

#[test]
fn unknown_reference_changes_nothing() {
    for reference in [dispute(99), resolve(99), chargeback(99)] {
        let mut ledger = ledger_of(&[deposit(1, 300), deposit(2, 120), dispute(2)]);
        let before = ledger.process_transactions();
        assert_eq!(ledger.add_transaction(reference), Err(Rejection::UnknownTransaction));
        assert_eq!(ledger.process_transactions(), before);
    }
}

#[test]
fn reference_to_a_later_record_is_unknown() {
    let mut ledger = TransactionProcessor::new(7);
    assert_eq!(ledger.add_transaction(dispute(1)), Err(Rejection::UnknownTransaction));
    assert_eq!(ledger.add_transaction(deposit(1, 300)), Ok(()));
    assert_eq!(ledger.process_transactions(), account(300, 0, 300, false));
}

#[test]
fn reference_names_only_deposits_and_withdrawals() {
    let mut ledger = ledger_of(&[deposit(1, 300), dispute(1)]);
    assert_eq!(ledger.add_transaction(dispute(5)), Err(Rejection::UnknownTransaction));
    let mut ledger = ledger_of(&[record(TransactionType::Dispute, 5, Some(40)), deposit(5, 300)]);
    assert_eq!(ledger.add_transaction(dispute(5)), Ok(()));
    assert_eq!(ledger.process_transactions(), account(0, 300, 300, false));
}

#[test]
fn reference_finds_the_earliest_record_of_a_repeated_tx() {
    let mut ledger = ledger_of(&[deposit(1, 300), withdrawal(1, 100), deposit(1, 50)]);
    assert_eq!(ledger.add_transaction(dispute(1)), Ok(()));
    assert_eq!(ledger.process_transactions(), account(-50, 300, 250, false));
    assert_eq!(ledger.add_transaction(chargeback(1)), Ok(()));
    assert_eq!(ledger.process_transactions(), account(-50, 0, -50, true));
}

#[test]
fn transfer_without_amount_is_rejected_and_kept() {
    let mut ledger = TransactionProcessor::new(7);
    assert_eq!(
        ledger.add_transaction(record(TransactionType::Deposit, 1, None)),
        Err(Rejection::MissingAmount)
    );
    assert_eq!(
        ledger.add_transaction(record(TransactionType::Withdrawal, 2, None)),
        Err(Rejection::MissingAmount)
    );
    for reference in [dispute(1), resolve(2), chargeback(1), chargeback(2)] {
        assert_eq!(ledger.add_transaction(reference), Err(Rejection::MissingAmount));
    }
    assert_eq!(ledger.process_transactions(), account(0, 0, 0, false));
}

#[test]
fn locked_account_still_takes_records() {
    let mut ledger = ledger_of(&[deposit(1, 300), dispute(1), chargeback(1)]);
    assert_eq!(ledger.process_transactions(), account(0, 0, 0, true));
    assert_eq!(ledger.add_transaction(deposit(2, 80)), Ok(()));
    assert_eq!(ledger.add_transaction(withdrawal(3, 30)), Ok(()));
    assert_eq!(ledger.add_transaction(dispute(2)), Ok(()));
    assert_eq!(ledger.add_transaction(resolve(2)), Ok(()));
    assert_eq!(ledger.process_transactions(), account(50, 0, 50, true));
}

#[test]
fn rejected_record_can_still_be_named() {
    let mut ledger = ledger_of(&[deposit(1, 100), withdrawal(2, 500)]);
    assert_eq!(ledger.add_transaction(dispute(2)), Ok(()));
    assert_eq!(ledger.process_transactions(), account(-400, 500, 100, false));
}

#[test]
fn process_transaction_applies_deposit_and_withdrawal_without_target() {
    let mut state = account(10, 0, 10, false);
    assert_eq!(TransactionProcessor::process_transaction(&deposit(1, 5), None, &mut state), Ok(()));
    assert_eq!(state, account(15, 0, 15, false));
    assert_eq!(TransactionProcessor::process_transaction(&withdrawal(2, 6), Some(deposit(1, 5)), &mut state), Ok(()));
    assert_eq!(state, account(9, 0, 9, false));
}

#[test]
fn process_transaction_uses_the_amount_of_the_target() {
    let mut state = account(10, 0, 10, false);
    assert_eq!(TransactionProcessor::process_transaction(&dispute(1), Some(deposit(1, 4)), &mut state), Ok(()));
    assert_eq!(state, account(6, 4, 10, false));
    assert_eq!(TransactionProcessor::process_transaction(&resolve(1), Some(deposit(1, 4)), &mut state), Ok(()));
    assert_eq!(state, account(10, 0, 10, false));
    assert_eq!(TransactionProcessor::process_transaction(&chargeback(1), Some(withdrawal(1, 4)), &mut state), Ok(()));
    assert_eq!(state, account(18, -4, 14, true));
    assert_eq!(TransactionProcessor::process_transaction(&chargeback(1), Some(deposit(1, 4)), &mut state), Ok(()));
    assert_eq!(state, account(18, -8, 10, true));
}

#[test]
fn chargeback_of_a_record_that_is_no_transfer_is_rejected() {
    for target in [dispute(1), resolve(1), chargeback(1)] {
        let mut state = account(10, 4, 14, false);
        assert_eq!(
            TransactionProcessor::process_transaction(&chargeback(1), Some(target), &mut state),
            Err(Rejection::InvalidChargebackTarget)
        );
        assert_eq!(state, account(10, 4, 14, false));
    }
}

#[test]
fn process_transaction_without_target_is_unknown() {
    for reference in [dispute(1), resolve(1), chargeback(1)] {
        let mut state = account(10, 4, 14, false);
        assert_eq!(
            TransactionProcessor::process_transaction(&reference, None, &mut state),
            Err(Rejection::UnknownTransaction)
        );
        assert_eq!(state, account(10, 4, 14, false));
    }
}
