use std::cell::RefCell;

use proptest::strategy::{BoxedStrategy, Just, Strategy, Union};
use proptest::test_runner::TestRunner;
use rand::{thread_rng, Rng};
use toy_atm::accounting::atm::IgnoredTransactionReason::{
    DuplicateTransactionIDInsertion, InsufficientAvailableFunds,
    InvalidTransactionStateTransition, LockedAccount, MissingTransactionID, NegativeAmount,
    NoTransactionStateChange, ZeroAmount,
};
use toy_atm::accounting::atm::{ClientBalance, HandledTransactionError, IgnoredTransactionReason};
use toy_atm::accounting::common::{Amount, TransactionID, UNITS_PER_WHOLE};
use toy_atm::accounting::transaction::TransactionType::{
    Chargeback, Deposit, Dispute, Resolve, Withdrawal,
};
use toy_atm::accounting::transaction::{Transaction, TransactionType};

/// The amount nearest to `value`, at four decimal digits.
fn amount(value: f64) -> Amount {
    Amount::new((value * UNITS_PER_WHOLE as f64).round() as i64)
}

/// The amount as a float.
fn to_f64(amount: Amount) -> f64 {
    amount.units() as f64 / UNITS_PER_WHOLE as f64
}

#[derive(Debug, PartialEq)]
struct ClientBalanceSnapshot(Amount, Amount, Amount, bool);

/// [ClientBalanceTestWrapper] is a wrapper for testing [ClientBalance]
/// transaction handling.
struct ClientBalanceTestWrapper {
    cb: ClientBalance,
    last_saved_client_balance_snapshot: ClientBalanceSnapshot,
}

impl ClientBalanceTestWrapper {
    fn new() -> Self {
        let cb = ClientBalance::default();
        let shown = cb.client_balance_snapshot();
        let last_saved_client_balance_snapshot =
            ClientBalanceSnapshot(shown.available, shown.held, shown.total, shown.locked);
        Self {
            cb,
            last_saved_client_balance_snapshot,
        }
    }

    fn current_client_balance_snapshot(&self) -> ClientBalanceSnapshot {
        let shown = self.cb.client_balance_snapshot();
        ClientBalanceSnapshot(shown.available, shown.held, shown.total, shown.locked)
    }

    fn available(&self) -> Amount {
        self.cb.client_balance_snapshot().available
    }

    fn held(&self) -> Amount {
        self.cb.client_balance_snapshot().held
    }

    fn total(&self) -> Amount {
        self.cb.client_balance_snapshot().total
    }

    fn assert_frozen_account(&self) {
        assert_eq!(
            self.cb.client_balance_snapshot().locked,
            true,
            "assert_frozen_account expecting locked to be true"
        );
    }

    fn assert_unlocked_account(&self) {
        assert_eq!(
            self.cb.client_balance_snapshot().locked,
            false,
            "assert_unlocked_account expecting locked to be false"
        );
    }

    fn assert_ok_transaction(
        &mut self,
        transaction_id: TransactionID,
        transaction_type: TransactionType,
    ) {
        let tx = Transaction {
            client_id: self.cb.client_balance_snapshot().client_id,
            transaction_id,
            transaction_type,
        };
        let res = self.cb.handle_transaction(tx);
        assert_eq!(res, Ok(()), "assert_ok_transaction expecting ok");
        let mut new = self.current_client_balance_snapshot();
        assert_ne!(
            new, self.last_saved_client_balance_snapshot,
            "assert_ok_transaction client balance snapshots expected to differ (for non zero amounts)"
        );
        std::mem::swap(&mut new, &mut self.last_saved_client_balance_snapshot);
    }

    fn assert_ok_transaction_and_assert_frozen_account(
        &mut self,
        transaction_id: TransactionID,
        transaction_type: TransactionType,
    ) {
        self.assert_ok_transaction(transaction_id, transaction_type);
        self.assert_frozen_account()
    }

    fn assert_ok_transaction_and_assert_unlocked_account(
        &mut self,
        transaction_id: TransactionID,
        transaction_type: TransactionType,
    ) {
        self.assert_ok_transaction(transaction_id, transaction_type);
        self.assert_unlocked_account()
    }

    fn assert_err_transaction_ignored(
        &mut self,
        transaction_id: TransactionID,
        transaction_type: TransactionType,
    ) -> IgnoredTransactionReason {
        let tx = Transaction {
            client_id: self.cb.client_balance_snapshot().client_id,
            transaction_id,
            transaction_type,
        };
        let res = self.cb.handle_transaction(tx);
        let new = self.current_client_balance_snapshot();
        assert_eq!(
            new, self.last_saved_client_balance_snapshot,
            "assert_err_transaction_ignored client balance snapshots expected be equal for ignored transactions"
        );
        match res {
            Ok(_) => {
                panic!("assert_err_transaction_ignored expecting error but the result returned OK")
            }
            Err(err) => match err {
                HandledTransactionError::IgnoredTransactionReason(transaction_id2, ignore_err) => {
                    assert_eq!(
                        transaction_id, transaction_id2,
                        "assert_err_transaction_ignored tx id missmatch"
                    );
                    ignore_err
                }
                HandledTransactionError::InvalidClientBalance(_, _) => {
                    // if we get this then the whole thing is basically not working
                    panic!("assert_err_transaction_ignored got invalid client balance!!!")
                }
            },
        }
    }
}

/// The next transaction ID of the sequence, which moves on by one.
fn next_id(global_tx_id_seq: &RefCell<TransactionID>) -> TransactionID {
    let mut tx_id_seq = global_tx_id_seq.borrow_mut();
    tx_id_seq.increase_by_one();
    *tx_id_seq
}

/// The current transaction ID of the sequence, which then moves on by one.
fn take_id(global_tx_id_seq: &RefCell<TransactionID>) -> TransactionID {
    let mut tx_id_seq = global_tx_id_seq.borrow_mut();
    let transaction_id = *tx_id_seq;
    tx_id_seq.increase_by_one();
    transaction_id
}

#[test]
fn test_zero_client_balance() {
    let cb = ClientBalance::default();
    let res = cb.is_valid();
    assert!(res.is_ok(), "default client balance should return ok")
}

#[test]
fn test_zero_amount_deposit_withdrawal() {
    let mut cb_test_w = ClientBalanceTestWrapper::new();
    let mut transaction_id = TransactionID::default();
    let amount = amount(0.0);
    let transactions = vec![Deposit(amount), Withdrawal(amount)];

    for tx_type in transactions {
        transaction_id.increase_by_one();
        let ignored = cb_test_w.assert_err_transaction_ignored(transaction_id, tx_type);
        assert_eq!(ignored, ZeroAmount, "expecting error for zero amount");
    }
}

#[test]
fn test_negative_amount_deposit_withdrawal() {
    let mut cb_test_w = ClientBalanceTestWrapper::new();
    let mut transaction_id = TransactionID::default();
    let amount = amount(-1.0);
    let transactions = vec![Deposit(amount), Withdrawal(amount)];

    for tx_type in transactions {
        transaction_id.increase_by_one();
        let ignored = cb_test_w.assert_err_transaction_ignored(transaction_id, tx_type);
        assert_eq!(
            ignored, NegativeAmount,
            "expecting error for negative amount"
        );
    }
}

#[test]
fn test_positive_amount_deposit() {
    let mut cb_test_w = ClientBalanceTestWrapper::new();
    let transaction_id = TransactionID::default();
    let deposit = Deposit(amount(1.0));
    cb_test_w.assert_ok_transaction_and_assert_unlocked_account(transaction_id, deposit);
}

#[test]
fn test_duplicate_transaction_id_deposit() {
    let mut cb_test_w = ClientBalanceTestWrapper::new();
    let transaction_id = TransactionID::default();
    let deposit_amout = amount(100.0);

    cb_test_w
        .assert_ok_transaction_and_assert_unlocked_account(transaction_id, Deposit(deposit_amout));

    let res = cb_test_w.assert_err_transaction_ignored(transaction_id, Deposit(deposit_amout));
    assert_eq!(
        res, DuplicateTransactionIDInsertion,
        "expecting error for duplicated transaction_id"
    );
}

#[test]
fn test_duplicate_transaction_id_withdrawal() {
    let mut cb_test_w = ClientBalanceTestWrapper::new();
    let transaction_id = TransactionID::default();
    let deposit_amout = amount(100.0);

    cb_test_w
        .assert_ok_transaction_and_assert_unlocked_account(transaction_id, Deposit(deposit_amout));

    let transaction_id = transaction_id.next();
    cb_test_w.assert_ok_transaction_and_assert_unlocked_account(
        transaction_id,
        Withdrawal(deposit_amout),
    );
    let res = cb_test_w.assert_err_transaction_ignored(transaction_id, Withdrawal(deposit_amout));
    assert_eq!(
        res, DuplicateTransactionIDInsertion,
        "expecting error for duplicated transaction_id"
    );
}

#[test]
fn test_insufficient_amount_withdrawal() {
    let mut cb_test_w = ClientBalanceTestWrapper::new();
    let mut transaction_id = TransactionID::default();
    let amount_100 = amount(100.0);

    // withdrawal when empty
    let res = cb_test_w.assert_err_transaction_ignored(transaction_id, Withdrawal(amount_100));
    assert_eq!(
        res, InsufficientAvailableFunds,
        "expecting error for insufficient funds"
    );

    // deposit
    transaction_id.increase_by_one();
    cb_test_w.assert_ok_transaction_and_assert_unlocked_account(transaction_id, Deposit(amount_100));

    // withdrawal over
    let amount_110 = amount_100 + amount(10.0);
    transaction_id.increase_by_one();
    let res = cb_test_w.assert_err_transaction_ignored(transaction_id, Withdrawal(amount_110));
    assert_eq!(
        res, InsufficientAvailableFunds,
        "expecting error for insufficient"
    );
}

#[test]
fn test_empty_dispute_resolve_chargeback() {
    let mut cb_test_w = ClientBalanceTestWrapper::new();
    let transaction_id = TransactionID::default();
    let transactions = vec![Dispute, Resolve, Chargeback];

    for tx_type in transactions {
        let ignored = cb_test_w.assert_err_transaction_ignored(transaction_id, tx_type);
        assert_eq!(
            ignored, MissingTransactionID,
            "expecting error for insufficient"
        );
    }
}

#[test]
fn test_no_transaction_change_dispute_resolve_chargeback() {
    let mut cb_test_w = ClientBalanceTestWrapper::new();
    let transaction_id = TransactionID::default();
    let transactions = vec![Dispute, Resolve];
    cb_test_w
        .assert_ok_transaction_and_assert_unlocked_account(transaction_id, Deposit(amount(100.0)));
    for tx_type in transactions {
        cb_test_w.assert_ok_transaction_and_assert_unlocked_account(transaction_id, tx_type);

        let ignored = cb_test_w.assert_err_transaction_ignored(transaction_id, tx_type);
        assert_eq!(ignored, NoTransactionStateChange);
    }
}

#[test]
fn test_invalid_resolve_chargeback_transitions() {
    let mut cb_test_w = ClientBalanceTestWrapper::new();
    let mut transaction_id = TransactionID::default();
    let amount = amount(100.0);

    let insert_transcations = vec![Deposit(amount), Withdrawal(amount)];
    let transition_transactions = vec![Resolve, Chargeback];
    let transition_ignore_results =
        vec![NoTransactionStateChange, InvalidTransactionStateTransition];
    for insert in insert_transcations {
        transaction_id.increase_by_one();
        let transaction_id = transaction_id;
        cb_test_w.assert_ok_transaction_and_assert_unlocked_account(transaction_id, insert);
        for transition in transition_transactions
            .iter()
            .zip(&transition_ignore_results)
        {
            let (transition, ignore_err) = transition;
            let ignored = cb_test_w.assert_err_transaction_ignored(transaction_id, *transition);
            assert_eq!(ignored, *ignore_err);
        }
    }
}

#[test]
fn test_dispute_deposit() {
    let mut cb_test_w = ClientBalanceTestWrapper::new();
    let transaction_id = TransactionID::default();
    let deposit_amout = amount(100.0);

    cb_test_w
        .assert_ok_transaction_and_assert_unlocked_account(transaction_id, Deposit(deposit_amout));
    cb_test_w.assert_ok_transaction_and_assert_unlocked_account(transaction_id, Dispute);
}

#[test]
fn test_dispute_resolve_deposit() {
    let mut cb_test_w = ClientBalanceTestWrapper::new();
    let transaction_id = TransactionID::default();
    let deposit_amout = amount(100.0);

    cb_test_w
        .assert_ok_transaction_and_assert_unlocked_account(transaction_id, Deposit(deposit_amout));
    cb_test_w.assert_ok_transaction_and_assert_unlocked_account(transaction_id, Dispute);
    cb_test_w.assert_ok_transaction_and_assert_unlocked_account(transaction_id, Resolve);
}

#[test]
fn test_dispute_resolve_deposit_with_withdrawal() {
    let mut cb_test_w = ClientBalanceTestWrapper::new();
    let transaction_id = TransactionID::default();
    let deposit_amout = amount(100.0);

    cb_test_w
        .assert_ok_transaction_and_assert_unlocked_account(transaction_id, Deposit(deposit_amout));
    cb_test_w.assert_ok_transaction_and_assert_unlocked_account(transaction_id, Dispute);
    let ignored = cb_test_w
        .assert_err_transaction_ignored(transaction_id.next(), Withdrawal(deposit_amout));
    assert_eq!(ignored, InsufficientAvailableFunds);
    cb_test_w.assert_ok_transaction_and_assert_unlocked_account(transaction_id, Resolve);
    cb_test_w.assert_ok_transaction_and_assert_unlocked_account(
        transaction_id.next(),
        Withdrawal(deposit_amout),
    );
}

#[test]
fn test_dispute_chargeback_deposit() {
    let mut cb_test_w = ClientBalanceTestWrapper::new();
    let transaction_id = TransactionID::default();
    let amount = amount(100.0);

    cb_test_w.assert_ok_transaction_and_assert_unlocked_account(transaction_id, Deposit(amount));
    cb_test_w.assert_ok_transaction_and_assert_unlocked_account(transaction_id, Dispute);
    cb_test_w.assert_ok_transaction_and_assert_frozen_account(transaction_id, Chargeback);

    let transactions = vec![
        Withdrawal(amount),
        Deposit(amount),
        Dispute,
        Resolve,
        Chargeback,
    ];
    for transaction_type in transactions {
        let ignored =
            cb_test_w.assert_err_transaction_ignored(transaction_id.next(), transaction_type);
        assert_eq!(ignored, LockedAccount, "expecting error locked account");
    }
}

#[test]
fn test_deposit_withdrawal_dispute() {
    let mut cb_test_w = ClientBalanceTestWrapper::new();
    let transaction_id = TransactionID::default();
    let deposit_amout = amount(100.0);

    cb_test_w
        .assert_ok_transaction_and_assert_unlocked_account(transaction_id, Deposit(deposit_amout));

    let transaction_id = transaction_id.next();
    let withdrawal_amout = amount(100.0);
    cb_test_w.assert_ok_transaction_and_assert_unlocked_account(
        transaction_id,
        Withdrawal(withdrawal_amout),
    );
    cb_test_w.assert_ok_transaction_and_assert_unlocked_account(transaction_id, Dispute);
}

#[test]
fn test_deposit_withdrawal_dispute_resolve() {
    let mut cb_test_w = ClientBalanceTestWrapper::new();
    let transaction_id = TransactionID::default();
    let deposit_amout = amount(100.0);

    cb_test_w
        .assert_ok_transaction_and_assert_unlocked_account(transaction_id, Deposit(deposit_amout));

    let transaction_id = transaction_id.next();
    let withdrawal_amout = amount(100.0);
    cb_test_w.assert_ok_transaction_and_assert_unlocked_account(
        transaction_id,
        Withdrawal(withdrawal_amout),
    );
    cb_test_w.assert_ok_transaction_and_assert_unlocked_account(transaction_id, Dispute);
    cb_test_w.assert_ok_transaction_and_assert_unlocked_account(transaction_id, Resolve);
}

#[test]
fn test_deposit_withdrawal_dispute_chargeback() {
    let mut cb_test_w = ClientBalanceTestWrapper::new();
    let transaction_id = TransactionID::default();
    let deposit_amout = amount(100.0);

    cb_test_w
        .assert_ok_transaction_and_assert_unlocked_account(transaction_id, Deposit(deposit_amout));

    let transaction_id = transaction_id.next();
    let withdrawal_amout = amount(100.0);
    cb_test_w.assert_ok_transaction_and_assert_unlocked_account(
        transaction_id,
        Withdrawal(withdrawal_amout),
    );
    cb_test_w.assert_ok_transaction_and_assert_unlocked_account(transaction_id, Dispute);
    cb_test_w.assert_ok_transaction_and_assert_frozen_account(transaction_id, Chargeback);

    let transactions = vec![
        Withdrawal(amount(10.0)),
        Deposit(amount(10.0)),
        Dispute,
        Resolve,
        Chargeback,
    ];
    for transaction_type in transactions {
        let ignored =
            cb_test_w.assert_err_transaction_ignored(transaction_id.next(), transaction_type);
        assert_eq!(ignored, LockedAccount, "expecting error locked account");
    }
}

// more tests with random inputs

#[test]
fn test_deposits_only() {
    let cb_test_w = RefCell::new(ClientBalanceTestWrapper::new());
    let global_tx_id_seq = RefCell::new(TransactionID::default());
    let mut runner = TestRunner::default();
    runner
        .run(&(1f64..1000.0), |value| {
            let transaction_id = next_id(&global_tx_id_seq);
            let deposit = TransactionType::Deposit(amount(value));

            let mut cb_test_w = cb_test_w.borrow_mut();
            cb_test_w.assert_ok_transaction_and_assert_unlocked_account(transaction_id, deposit);
            Ok(())
        })
        .unwrap();
}

#[test]
fn test_deposits_and_withdrawals_equal_amounts_only() {
    let cb_test_w = RefCell::new(ClientBalanceTestWrapper::new());
    let global_tx_id_seq = RefCell::new(TransactionID::default());

    let mut runner = TestRunner::default();
    runner
        .run(&(1f64..1000.0), |value| {
            let deposit_transaction_id = next_id(&global_tx_id_seq);
            let amount = amount(value);
            let deposit_amout = Deposit(amount);

            let withdrawal_transaction_id = next_id(&global_tx_id_seq);
            let withdrawal_amout = Withdrawal(amount);

            let mut cb = cb_test_w.borrow_mut();
            cb.assert_ok_transaction_and_assert_unlocked_account(
                deposit_transaction_id,
                deposit_amout,
            );
            cb.assert_ok_transaction_and_assert_unlocked_account(
                withdrawal_transaction_id,
                withdrawal_amout,
            );
            Ok(())
        })
        .unwrap();
}

#[test]
fn test_deposits_and_withdrawals_lower_amounts_only() {
    let cb_test_w = RefCell::new(ClientBalanceTestWrapper::new());
    let global_tx_id_seq = RefCell::new(TransactionID::default());
    let amount_count = RefCell::new(0);

    let mut runner = TestRunner::default();
    runner
        .run(&(1f64..1000.0), |value| {
            let mut amount_count = amount_count.borrow_mut();
            *amount_count += 1u64;
            let deposit_transaction_id = next_id(&global_tx_id_seq);
            let deposit_amout = Deposit(amount(value + 1.0));

            let withdrawal_transaction_id = next_id(&global_tx_id_seq);
            let withdrawal_amout = Withdrawal(amount(value));

            let mut cb = cb_test_w.borrow_mut();
            cb.assert_ok_transaction_and_assert_unlocked_account(
                deposit_transaction_id,
                deposit_amout,
            );
            cb.assert_ok_transaction_and_assert_unlocked_account(
                withdrawal_transaction_id,
                withdrawal_amout,
            );
            Ok(())
        })
        .unwrap();
    let available = cb_test_w.borrow().available();
    let available: f64 = to_f64(available);
    let available2: u64 = available as u64;
    assert_eq!(
        available2,
        *amount_count.borrow(),
        "available {}",
        available
    );
}

#[test]
fn test_deposits_and_withdrawals_higher_amounts_only() {
    let cb_test_w = RefCell::new(ClientBalanceTestWrapper::new());
    let global_tx_id_seq = RefCell::new(TransactionID::default());
    let amount_count = RefCell::new(1);

    let mut runner = TestRunner::default();
    runner
        .run(&(1f64..1000.0), |value| {
            let mut amount_count = amount_count.borrow_mut();
            *amount_count += 1u64;
            let amount = amount(value);
            let deposit_transaction_id = next_id(&global_tx_id_seq);
            let deposit_amout = Deposit(amount);

            let withdrawal_transaction_id = next_id(&global_tx_id_seq);
            let withdrawal_amout = Withdrawal(amount);

            let mut cb = cb_test_w.borrow_mut();
            cb.assert_ok_transaction_and_assert_unlocked_account(
                deposit_transaction_id,
                deposit_amout,
            );
            cb.assert_ok_transaction_and_assert_unlocked_account(
                withdrawal_transaction_id,
                withdrawal_amout,
            );

            let withdrawal_transaction_id = next_id(&global_tx_id_seq);
            let withdrawal_amout = TransactionType::Withdrawal(amount);
            let ignored =
                cb.assert_err_transaction_ignored(withdrawal_transaction_id, withdrawal_amout);
            assert_eq!(ignored, InsufficientAvailableFunds);
            Ok(())
        })
        .unwrap();
}

fn deposit_or_withdraw() -> BoxedStrategy<TransactionType> {
    (1f64..10000f64, 0..1)
        .prop_map(|(value, withdrawal)| {
            if withdrawal == 1 {
                TransactionType::Withdrawal(amount(value))
            } else {
                TransactionType::Deposit(amount(value))
            }
        })
        .boxed()
}

fn no_chargebacks_strategy() -> BoxedStrategy<TransactionType> {
    Union::new(vec![
        Just(TransactionType::Dispute).boxed(),
        Just(TransactionType::Resolve).boxed(),
        deposit_or_withdraw(),
    ])
    .boxed()
}

#[test]
fn test_deposits_and_withdrawals_disputes_and_resolves() {
    let cb_test_w = RefCell::new(ClientBalanceTestWrapper::new());
    let global_tx_id_seq = RefCell::new(TransactionID(1));
    let rng = RefCell::new(thread_rng());

    let mut runner = TestRunner::default();
    runner
        .run(&no_chargebacks_strategy(), |transaction_type| {
            let mut rng = rng.borrow_mut();
            let transaction_id = match transaction_type {
                Deposit(_) => take_id(&global_tx_id_seq),
                Withdrawal(_) => take_id(&global_tx_id_seq),
                Dispute => {
                    let tx_id_seq = global_tx_id_seq.borrow();
                    let transaction_id = *tx_id_seq;
                    let r = rng.gen_range(0..transaction_id.0);
                    TransactionID(r)
                }
                Resolve => {
                    let tx_id_seq = global_tx_id_seq.borrow();
                    let transaction_id = *tx_id_seq;
                    let r = rng.gen_range(0..transaction_id.0);
                    TransactionID(r)
                }
                Chargeback => panic!("INVALID STRATEGY"),
            };

            let mut cb = cb_test_w.borrow_mut();
            let tx = Transaction {
                client_id: Default::default(),
                transaction_id,
                transaction_type,
            };
            let res = cb.cb.handle_transaction(tx);
            if let Err(HandledTransactionError::InvalidClientBalance(_, _)) = res {
                panic!("Got invalid client balance");
            }
            cb.assert_unlocked_account();
            Ok(())
        })
        .unwrap();
}

fn dispute_transactions_strategy() -> BoxedStrategy<TransactionType> {
    Union::new(vec![
        deposit_or_withdraw(),
        Just(TransactionType::Dispute).boxed(),
    ])
    .boxed()
}

#[test]
fn test_deposits_and_withdrawals_disputes() {
    let cb_test_w = RefCell::new(ClientBalanceTestWrapper::new());
    let global_tx_id_seq = RefCell::new(TransactionID(1));
    let rng = RefCell::new(thread_rng());

    let mut runner = TestRunner::default();
    runner
        .run(&dispute_transactions_strategy(), |transaction_type| {
            let mut rng = rng.borrow_mut();
            let transaction_id = match transaction_type {
                Deposit(_) => take_id(&global_tx_id_seq),
                Withdrawal(_) => take_id(&global_tx_id_seq),
                Dispute => {
                    let tx_id_seq = global_tx_id_seq.borrow();
                    let transaction_id = *tx_id_seq;
                    let r = rng.gen_range(0..transaction_id.0);
                    TransactionID(r)
                }
                Resolve => panic!("INVALID STRATEGY"),
                Chargeback => panic!("INVALID STRATEGY"),
            };

            let mut cb = cb_test_w.borrow_mut();
            let tx = Transaction {
                client_id: Default::default(),
                transaction_id,
                transaction_type,
            };
            let res = cb.cb.handle_transaction(tx);
            if let Err(HandledTransactionError::InvalidClientBalance(_, _)) = res {
                panic!("Got invalid client balance");
            }
            cb.assert_unlocked_account();
            Ok(())
        })
        .unwrap();
}

#[test]
fn test_deposits_disputes() {
    let cb_test_w = RefCell::new(ClientBalanceTestWrapper::new());
    let global_tx_id_seq = RefCell::new(TransactionID(1));
    let amount_sum = RefCell::new(amount(0.0));

    let mut runner = TestRunner::default();
    runner
        .run(&(1f64..1000.0), |value| {
            let amount = amount(value);
            let mut amount_sum = amount_sum.borrow_mut();
            *amount_sum += amount;
            let transaction_id = take_id(&global_tx_id_seq);
            let mut cb = cb_test_w.borrow_mut();
            cb.assert_ok_transaction_and_assert_unlocked_account(transaction_id, Deposit(amount));
            cb.assert_ok_transaction_and_assert_unlocked_account(transaction_id, Dispute);
            Ok(())
        })
        .unwrap();
    let cb = cb_test_w.borrow();
    let amount_sum = amount_sum.borrow();
    assert_eq!(cb.held(), *amount_sum);
    assert!(cb.available().is_zero());
    assert_eq!(cb.total(), *amount_sum);
}

#[test]
fn test_deposits_disputes_resolves() {
    let cb_test_w = RefCell::new(ClientBalanceTestWrapper::new());
    let global_tx_id_seq = RefCell::new(TransactionID(1));
    let amount_sum = RefCell::new(amount(0.0));

    let mut runner = TestRunner::default();
    runner
        .run(&(1f64..1000.0), |value| {
            let amount = amount(value);
            let mut amount_sum = amount_sum.borrow_mut();
            *amount_sum += amount;
            let transaction_id = take_id(&global_tx_id_seq);
            let mut cb = cb_test_w.borrow_mut();
            cb.assert_ok_transaction_and_assert_unlocked_account(transaction_id, Deposit(amount));
            cb.assert_ok_transaction_and_assert_unlocked_account(transaction_id, Dispute);
            cb.assert_ok_transaction_and_assert_unlocked_account(transaction_id, Resolve);
            Ok(())
        })
        .unwrap();
    let cb = cb_test_w.borrow();
    let amount_sum = amount_sum.borrow();
    assert_eq!(cb.available(), *amount_sum);
    assert!(cb.held().is_zero());
    assert_eq!(cb.total(), *amount_sum);
}

#[test]
fn test_deposits_withdrawal_disputes_chargeback_deposit() {
    let cb_test_w = RefCell::new(ClientBalanceTestWrapper::new());
    let global_tx_id_seq = RefCell::new(TransactionID(1));
    let amount_sum = RefCell::new(amount(0.0));

    let mut runner = TestRunner::default();
    runner
        .run(&(1f64..1000.0), |value| {
            let amount = amount(value);
            let mut amount_sum = amount_sum.borrow_mut();
            *amount_sum += amount;
            let deposit_transaction_id = take_id(&global_tx_id_seq);
            let withdrawal_transaction_id = take_id(&global_tx_id_seq);
            let mut cb = cb_test_w.borrow_mut();
            cb.assert_ok_transaction_and_assert_unlocked_account(
                deposit_transaction_id,
                Deposit(amount),
            );
            cb.assert_ok_transaction_and_assert_unlocked_account(
                withdrawal_transaction_id,
                Withdrawal(amount),
            );
            cb.assert_ok_transaction_and_assert_unlocked_account(
                withdrawal_transaction_id,
                Dispute,
            );
            cb.assert_ok_transaction_and_assert_unlocked_account(deposit_transaction_id, Dispute);
            Ok(())
        })
        .unwrap();
    let mut cb = cb_test_w.borrow_mut();
    assert!(cb.available().is_zero());
    assert!(cb.held().is_zero());
    assert!(cb.total().is_zero());
    let tx_id_seq = global_tx_id_seq.borrow();
    let transaction_id = *tx_id_seq;
    let transaction_id = TransactionID(transaction_id.0 - 1u32);
    cb.assert_ok_transaction_and_assert_frozen_account(transaction_id, Chargeback);
    assert!(cb.available().is_zero());
    assert!(!cb.held().is_negative());
    assert!(!cb.total().is_negative());
}

#[test]
fn test_deposits_withdrawal_disputes_chargeback_withdrawal() {
    let cb_test_w = RefCell::new(ClientBalanceTestWrapper::new());
    let global_tx_id_seq = RefCell::new(TransactionID(1));
    let amount_sum = RefCell::new(amount(0.0));

    let mut runner = TestRunner::default();
    runner
        .run(&(1f64..1000.0), |value| {
            let amount = amount(value);
            let mut amount_sum = amount_sum.borrow_mut();
            *amount_sum += amount;
            let deposit_transaction_id = take_id(&global_tx_id_seq);
            let withdrawal_transaction_id = take_id(&global_tx_id_seq);
            let mut cb = cb_test_w.borrow_mut();
            cb.assert_ok_transaction_and_assert_unlocked_account(
                deposit_transaction_id,
                Deposit(amount),
            );
            cb.assert_ok_transaction_and_assert_unlocked_account(
                withdrawal_transaction_id,
                Withdrawal(amount),
            );
            cb.assert_ok_transaction_and_assert_unlocked_account(
                withdrawal_transaction_id,
                Dispute,
            );
            cb.assert_ok_transaction_and_assert_unlocked_account(deposit_transaction_id, Dispute);
            Ok(())
        })
        .unwrap();
    let mut cb = cb_test_w.borrow_mut();
    assert!(cb.available().is_zero());
    assert!(cb.held().is_zero());
    assert!(cb.total().is_zero());
    let tx_id_seq = global_tx_id_seq.borrow();
    let transaction_id = *tx_id_seq;
    let transaction_id = TransactionID(transaction_id.0 - 2u32);
    cb.assert_ok_transaction_and_assert_frozen_account(transaction_id, Chargeback);
    assert!(cb.available().is_zero());
    assert!(cb.held().is_negative());
    assert!(cb.total().is_negative());
}
