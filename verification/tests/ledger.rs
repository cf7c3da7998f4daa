use fixed_fee_notes::ledger::{
    Fortitude, Ledger, LedgerError, Precision, Preservation, WithdrawConsequence,
};

#[test]
fn deposits_accumulate_and_absent_accounts_read_zero() {
    let mut ledger = Ledger::new(10);
    assert_eq!(ledger.free_balance(1), 0);
    assert_eq!(ledger.deposit(1, 70, Precision::Exact), Ok(70));
    assert_eq!(ledger.deposit(1, 30, Precision::Exact), Ok(30));
    assert_eq!(ledger.free_balance(1), 100);
    assert_eq!(ledger.minimum_balance(), 10);
}

#[test]
fn exact_deposit_overflow_is_refused_best_effort_saturates() {
    let mut ledger = Ledger::new(0);
    assert_eq!(ledger.deposit(1, u128::MAX - 5, Precision::Exact), Ok(u128::MAX - 5));
    assert_eq!(ledger.deposit(1, 6, Precision::Exact), Err(LedgerError::Overflow));
    assert_eq!(ledger.free_balance(1), u128::MAX - 5);
    // best effort credits what still fits
    assert_eq!(ledger.deposit(1, 6, Precision::BestEffort), Ok(5));
    assert_eq!(ledger.free_balance(1), u128::MAX);
}

#[test]
fn can_withdraw_tells_why_not() {
    let mut ledger = Ledger::new(10);
    assert_eq!(ledger.deposit(1, 100, Precision::Exact), Ok(100));
    assert_eq!(ledger.can_withdraw(1, 0), WithdrawConsequence::Success);
    assert_eq!(ledger.can_withdraw(1, 90), WithdrawConsequence::Success);
    assert_eq!(ledger.can_withdraw(1, 91), WithdrawConsequence::WouldDie);
    assert_eq!(ledger.can_withdraw(1, 101), WithdrawConsequence::BalanceLow);
}

#[test]
fn preserving_withdrawal_keeps_the_minimum_balance() {
    let mut ledger = Ledger::new(10);
    assert_eq!(ledger.deposit(1, 100, Precision::Exact), Ok(100));
    let taken = ledger
        .withdraw(1, 91, Precision::Exact, Preservation::Preserve, Fortitude::Polite)
        .err();
    assert_eq!(taken, Some(LedgerError::FundsUnavailable));
    assert_eq!(ledger.free_balance(1), 100);

    let receipt = ledger
        .withdraw(1, 90, Precision::Exact, Preservation::Preserve, Fortitude::Polite)
        .expect("spendable balance covers the amount");
    assert_eq!(receipt.peek(), 90);
    assert_eq!(ledger.free_balance(1), 10);
}

#[test]
fn expendable_withdrawal_may_drain_the_account() {
    let mut ledger = Ledger::new(10);
    assert_eq!(ledger.deposit(1, 100, Precision::Exact), Ok(100));
    let receipt = ledger
        .withdraw(1, 100, Precision::Exact, Preservation::Expendable, Fortitude::Polite)
        .expect("an expendable withdrawal may take everything");
    assert_eq!(receipt.peek(), 100);
    assert_eq!(ledger.free_balance(1), 0);
}

#[test]
fn best_effort_withdrawal_takes_what_is_spendable() {
    let mut ledger = Ledger::new(10);
    assert_eq!(ledger.deposit(1, 100, Precision::Exact), Ok(100));
    let receipt = ledger
        .withdraw(1, 500, Precision::BestEffort, Preservation::Preserve, Fortitude::Polite)
        .expect("best effort never fails");
    assert_eq!(receipt.peek(), 90);
    assert_eq!(ledger.free_balance(1), 10);
}

#[test]
fn transfer_moves_value_or_nothing() {
    let mut ledger = Ledger::new(10);
    assert_eq!(ledger.deposit(1, 100, Precision::Exact), Ok(100));
    assert_eq!(ledger.transfer(1, 2, 40), Ok(()));
    assert_eq!(ledger.free_balance(1), 60);
    assert_eq!(ledger.free_balance(2), 40);

    // a short sender is refused and nothing moves
    assert_eq!(ledger.transfer(1, 2, 61), Err(LedgerError::FundsUnavailable));
    assert_eq!(ledger.free_balance(1), 60);
    assert_eq!(ledger.free_balance(2), 40);
}

#[test]
fn transfer_refuses_to_overflow_the_recipient() {
    let mut ledger = Ledger::new(0);
    assert_eq!(ledger.deposit(1, 100, Precision::Exact), Ok(100));
    assert_eq!(ledger.deposit(2, u128::MAX - 10, Precision::Exact), Ok(u128::MAX - 10));
    assert_eq!(ledger.transfer(1, 2, 11), Err(LedgerError::Overflow));
    assert_eq!(ledger.free_balance(1), 100);
    assert_eq!(ledger.free_balance(2), u128::MAX - 10);
}

#[test]
fn transfer_to_oneself_changes_nothing() {
    let mut ledger = Ledger::new(0);
    assert_eq!(ledger.deposit(1, 100, Precision::Exact), Ok(100));
    assert_eq!(ledger.transfer(1, 1, 100), Ok(()));
    assert_eq!(ledger.free_balance(1), 100);
    assert_eq!(ledger.transfer(1, 1, 101), Err(LedgerError::FundsUnavailable));
}
