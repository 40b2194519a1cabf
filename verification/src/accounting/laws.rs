//! What holds of the balance state machine whatever the transactions are.

use vstd::prelude::*;
use super::atm::{Atm, BalanceModel, HandledTransactionError, IgnoredTransactionReason};
use super::common::{Amount, ClientID, TransactionID};
use super::transaction::{Transaction, TransactionType};

verus! {

/// Every transaction of the sequence is well formed.
pub open spec fn all_wf(txs: Seq<Transaction>) -> bool {
    forall|i: int| 0 <= i < txs.len() ==> (#[trigger] txs[i]).wf()
}

impl BalanceModel {
    /// The balance after the transactions of `txs` were handled one after the
    /// other, whatever each of them returned.
    pub open spec fn run(self, txs: Seq<Transaction>) -> BalanceModel
        decreases txs.len(),
    {
        if txs.len() == 0 {
            self
        } else {
            self.run(txs.drop_last()).step(txs.last()).0
        }
    }
}

/// Handling a well-formed transaction keeps the invariant of the balance: in
/// particular the total stays the sum of the available and the held funds.
pub proof fn lemma_step_keeps_invariant(balance: BalanceModel, tx: Transaction)
    requires
        balance.inv(),
        tx.wf(),
    ensures
        balance.step(tx).0.inv(),
        balance.step(tx).0.total == balance.step(tx).0.available + balance.step(tx).0.held,
{
    if balance.refusal(tx) is None {
        match tx.transaction_type {
            TransactionType::Deposit(amount) => {
                balance.lemma_insertion_inv(tx.transaction_id, amount, false);
            },
            TransactionType::Withdrawal(amount) => {
                balance.lemma_insertion_inv(tx.transaction_id, amount, true);
            },
            TransactionType::Dispute => {
                balance.lemma_transition_inv(
                    tx.transaction_id,
                    super::ledger::TransactionState::Disputed,
                );
            },
            TransactionType::Resolve => {
                balance.lemma_transition_inv(
                    tx.transaction_id,
                    super::ledger::TransactionState::Resolved,
                );
            },
            TransactionType::Chargeback => {
                balance.lemma_transition_inv(
                    tx.transaction_id,
                    super::ledger::TransactionState::Chargeback,
                );
            },
        }
    }
}

/// At every point of every run of well-formed transactions on a new account,
/// the total is the sum of the available and the held funds.
pub proof fn lemma_total_is_available_plus_held(client_id: ClientID, txs: Seq<Transaction>)
    requires
        all_wf(txs),
    ensures
        BalanceModel::fresh(client_id).run(txs).inv(),
        BalanceModel::fresh(client_id).run(txs).total == BalanceModel::fresh(client_id).run(
            txs,
        ).available + BalanceModel::fresh(client_id).run(txs).held,
    decreases txs.len(),
{
    if txs.len() == 0 {
        BalanceModel::lemma_fresh_inv(client_id);
    } else {
        lemma_total_is_available_plus_held(client_id, txs.drop_last());
        lemma_step_keeps_invariant(BalanceModel::fresh(client_id).run(txs.drop_last()), txs.last());
    }
}

/// A deposit or a withdrawal of a positive amount under a transaction ID that
/// the ledger of an unlocked account holds already is ignored as a duplicate,
/// and changes nothing.
pub proof fn lemma_duplicate_id_is_ignored(balance: BalanceModel, tx: Transaction)
    requires
        !balance.locked,
        balance.entries.contains_key(tx.transaction_id.0),
        tx.transaction_type.amount() matches Some(amount) && amount@ > 0,
    ensures
        balance.step(tx) == (
            balance,
            Err::<(), _>(
                HandledTransactionError::IgnoredTransactionReason(
                    tx.transaction_id,
                    IgnoredTransactionReason::DuplicateTransactionIDInsertion,
                ),
            ),
        ),
{
}

/// Once a deposit or a withdrawal was accepted, a second deposit or
/// withdrawal of a positive amount under its transaction ID is ignored as a
/// duplicate, and changes nothing.
pub proof fn lemma_reused_id_is_ignored(balance: BalanceModel, first: Transaction, second: Transaction)
    requires
        first.transaction_type.amount() is Some,
        balance.step(first).1 is Ok,
        second.transaction_id == first.transaction_id,
        second.transaction_type.amount() matches Some(amount) && amount@ > 0,
    ensures
        balance.step(first).0.step(second) == (
            balance.step(first).0,
            Err::<(), _>(
                HandledTransactionError::IgnoredTransactionReason(
                    second.transaction_id,
                    IgnoredTransactionReason::DuplicateTransactionIDInsertion,
                ),
            ),
        ),
{
}

/// A locked account ignores every transaction, of whatever type, and stays
/// as it is: locked, with the same funds and the same ledger.
pub proof fn lemma_locked_account_ignores(balance: BalanceModel, tx: Transaction)
    requires
        balance.locked,
    ensures
        balance.step(tx) == (
            balance,
            Err::<(), _>(
                HandledTransactionError::IgnoredTransactionReason(
                    tx.transaction_id,
                    IgnoredTransactionReason::LockedAccount,
                ),
            ),
        ),
{
}

/// No run of transactions changes a locked account.
pub proof fn lemma_locked_account_stays(balance: BalanceModel, txs: Seq<Transaction>)
    requires
        balance.locked,
    ensures
        balance.run(txs) == balance,
    decreases txs.len(),
{
    if txs.len() > 0 {
        lemma_locked_account_stays(balance, txs.drop_last());
        lemma_locked_account_ignores(balance, txs.last());
    }
}

/// An unlocked account ignores a deposit or a withdrawal of a zero or
/// negative amount, as `ZeroAmount` or `NegativeAmount`, and stays as it is.
pub proof fn lemma_non_positive_amount_is_ignored(balance: BalanceModel, tx: Transaction)
    requires
        !balance.locked,
        tx.transaction_type.amount() matches Some(amount) && amount@ <= 0,
    ensures
        balance.step(tx) == (
            balance,
            Err::<(), _>(
                HandledTransactionError::IgnoredTransactionReason(
                    tx.transaction_id,
                    if tx.transaction_type.amount()->0@ == 0 {
                        IgnoredTransactionReason::ZeroAmount
                    } else {
                        IgnoredTransactionReason::NegativeAmount
                    },
                ),
            ),
        ),
{
}

/// An accepted deposit that is disputed and then resolved: the dispute moves
/// its amount from the available to the held funds and leaves the total, and
/// the resolve puts the account back exactly as it was after the deposit.
pub proof fn lemma_dispute_resolve_round_trip(
    balance: BalanceModel,
    client_id: ClientID,
    transaction_id: TransactionID,
    amount: Amount,
)
    requires
        balance.step(
            Transaction {
                client_id,
                transaction_id,
                transaction_type: TransactionType::Deposit(amount),
            },
        ).1 is Ok,
    ensures
        ({
            let deposit = Transaction {
                client_id,
                transaction_id,
                transaction_type: TransactionType::Deposit(amount),
            };
            let dispute = Transaction {
                client_id,
                transaction_id,
                transaction_type: TransactionType::Dispute,
            };
            let resolve = Transaction {
                client_id,
                transaction_id,
                transaction_type: TransactionType::Resolve,
            };
            let deposited = balance.step(deposit).0;
            let disputed = deposited.step(dispute).0;
            let resolved = disputed.step(resolve).0;
            &&& deposited.step(dispute).1 is Ok
            &&& disputed.step(resolve).1 is Ok
            &&& disputed.available == deposited.available - amount@
            &&& disputed.held == deposited.held + amount@
            &&& disputed.total == deposited.total
            &&& resolved == deposited
        }),
{
    let deposit = Transaction {
        client_id,
        transaction_id,
        transaction_type: TransactionType::Deposit(amount),
    };
    let dispute = Transaction { client_id, transaction_id, transaction_type: TransactionType::Dispute };
    let resolve = Transaction { client_id, transaction_id, transaction_type: TransactionType::Resolve };
    let deposited = balance.step(deposit).0;
    let disputed = deposited.step(dispute).0;
    let resolved = disputed.step(resolve).0;
    assert(resolved.entries =~= deposited.entries);
}

/// An accepted withdrawal that is disputed: the dispute gives the available
/// funds back what the withdrawal took, and holds the amount as a negative
/// one, so that the total stays what the withdrawal left.
pub proof fn lemma_dispute_of_withdrawal(
    balance: BalanceModel,
    client_id: ClientID,
    transaction_id: TransactionID,
    amount: Amount,
)
    requires
        balance.step(
            Transaction {
                client_id,
                transaction_id,
                transaction_type: TransactionType::Withdrawal(amount),
            },
        ).1 is Ok,
    ensures
        ({
            let withdrawal = Transaction {
                client_id,
                transaction_id,
                transaction_type: TransactionType::Withdrawal(amount),
            };
            let dispute = Transaction {
                client_id,
                transaction_id,
                transaction_type: TransactionType::Dispute,
            };
            let withdrawn = balance.step(withdrawal).0;
            let disputed = withdrawn.step(dispute).0;
            &&& withdrawn.step(dispute).1 is Ok
            &&& disputed.available == balance.available
            &&& disputed.held == balance.held - amount@
            &&& disputed.total == balance.total - amount@
        }),
{
}

/// Transactions of different clients do not touch each other: handled in
/// either order they leave the same accounts, and return the same.
pub proof fn lemma_clients_are_independent(
    accounts: Map<u16, BalanceModel>,
    first: Transaction,
    second: Transaction,
)
    requires
        first.client_id != second.client_id,
    ensures
        Atm::routed(Atm::routed(accounts, first), second) == Atm::routed(
            Atm::routed(accounts, second),
            first,
        ),
        Atm::balance_of(Atm::routed(accounts, first), second.client_id).step(second).1
            == Atm::balance_of(accounts, second.client_id).step(second).1,
        Atm::balance_of(Atm::routed(accounts, second), first.client_id).step(first).1
            == Atm::balance_of(accounts, first.client_id).step(first).1,
{
    assert(Atm::routed(Atm::routed(accounts, first), second) =~= Atm::routed(
        Atm::routed(accounts, second),
        first,
    ));
}

} // verus!
