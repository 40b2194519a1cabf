//! The per-client balance state machine and the registry of client balances.

use vstd::prelude::*;
use vstd::std_specs::convert::FromSpecImpl;
use vstd::std_specs::iter::IteratorSpec;
use std::collections::HashMap;
use super::common::{Amount, ClientID, TransactionID};
use super::ledger::{
    entries_wf, fund_total, lemma_fund_sum_bounded, lemma_fund_sum_empty, lemma_fund_sum_insert,
    Fund, ID_SPACE,
};
use super::transaction::{Transaction, TransactionType, MAX_TRANSACTION_UNITS};

pub use super::ledger::{CreditDebitState, TransactionState, TransactionStateTransition};

verus! {

/// [IgnoredTransactionReason] states the reason why a transaction was ignored.
/// It stands for an error that leaves the account balance as it was.
#[derive(Debug, Clone, Copy, PartialEq, Eq, Structural)]
pub enum IgnoredTransactionReason {
    /// The account balance is locked (frozen), and a locked account takes no
    /// transaction of any type.
    LockedAccount,
    /// The credit or debit amount is negative. The direction of a transaction
    /// is given by its type, never by the sign of its amount.
    NegativeAmount,
    /// The credit or debit amount is zero. Such a transaction would change
    /// nothing, and is refused rather than silently accepted.
    ZeroAmount,
    /// The [TransactionID] of a Deposit or Withdrawal is in the ledger
    /// already.
    DuplicateTransactionIDInsertion,
    /// A Withdrawal asked for more than the available balance.
    InsufficientAvailableFunds,
    /// A Dispute, Resolve or Chargeback named a [TransactionID] that is not
    /// in the ledger.
    MissingTransactionID,
    /// The entry is in the requested state already.
    NoTransactionStateChange,
    /// The entry cannot go from its state to the one that the Dispute,
    /// Resolve or Chargeback asked for.
    InvalidTransactionStateTransition,
}

/// [InvalidClientBalance] indicates that the account balance is in an invalid
/// state: which of the three amounts is not what the other two make it.
#[derive(Debug, Clone, Copy, PartialEq, Eq, Structural)]
pub enum InvalidClientBalance {
    /// The available amount is not the total less the held amount.
    InvalidAvailableAmount,
    /// The held amount is not the total less the available amount.
    InvalidHeldAmount,
    /// The total is not the sum of the available and the held amount.
    InvalidTotalAmount,
}

/// [HandledTransactionError] says what went wrong with a transaction.
#[derive(Debug, Clone, Copy, PartialEq, Eq, Structural)]
pub enum HandledTransactionError {
    /// The transaction was ignored and changed no account balance.
    IgnoredTransactionReason(TransactionID, IgnoredTransactionReason),
    /// The transaction was handled and left an invalid account balance. The
    /// handlers are proved never to return this.
    InvalidClientBalance(TransactionID, InvalidClientBalance),
}

impl FromSpecImpl<(TransactionID, IgnoredTransactionReason)> for HandledTransactionError {
    open spec fn obeys_from_spec() -> bool {
        true
    }

    open spec fn from_spec(pair: (TransactionID, IgnoredTransactionReason)) -> Self {
        HandledTransactionError::IgnoredTransactionReason(pair.0, pair.1)
    }
}

impl From<(TransactionID, IgnoredTransactionReason)> for HandledTransactionError {
    fn from(pair: (TransactionID, IgnoredTransactionReason)) -> (error: Self) {
        let (transaction_id, ignored_reason) = pair;
        HandledTransactionError::IgnoredTransactionReason(transaction_id, ignored_reason)
    }
}

pub type HandledTransactionResult = Result<(), HandledTransactionError>;

/// What the defensive check finds of three amounts: each of them is computed
/// from the other two, in the order available, held, total, and the first
/// that differs from what is stored is reported.
pub open spec fn three_way_check(available: int, held: int, total: int) -> Result<
    (),
    InvalidClientBalance,
> {
    if available != total - held {
        Err(InvalidClientBalance::InvalidAvailableAmount)
    } else if held != total - available {
        Err(InvalidClientBalance::InvalidHeldAmount)
    } else if total != available + held {
        Err(InvalidClientBalance::InvalidTotalAmount)
    } else {
        Ok(())
    }
}

/// In exact arithmetic the three recomputations agree with each other: the
/// check passes exactly when the total is the sum of the other two, and what
/// it reports otherwise is the available amount.
pub proof fn lemma_three_way_check(available: int, held: int, total: int)
    ensures
        three_way_check(available, held, total) is Ok <==> total == available + held,
        three_way_check(available, held, total) is Err ==> three_way_check(available, held, total)
            == Err::<(), _>(InvalidClientBalance::InvalidAvailableAmount),
{
}

/// Some entry of the ledger was charged back.
pub open spec fn has_chargeback(entries: Map<u32, CreditDebitState>) -> bool {
    exists|id: u32| #[trigger]
        entries.contains_key(id) && entries[id].state() == TransactionState::Chargeback
}

/// What a client's balance is, as a mathematical value: the three amounts in
/// units, the lock, and the ledger of accepted deposits and withdrawals.
pub struct BalanceModel {
    pub client_id: ClientID,
    pub available: int,
    pub held: int,
    pub total: int,
    pub locked: bool,
    pub entries: Map<u32, CreditDebitState>,
}

impl BalanceModel {
    /// The balance of a client that no transaction has named yet.
    pub open spec fn fresh(client_id: ClientID) -> BalanceModel {
        BalanceModel {
            client_id,
            available: 0,
            held: 0,
            total: 0,
            locked: false,
            entries: Map::empty(),
        }
    }

    /// What holds of every balance that transactions have made: the available
    /// funds are what the resolved entries count, the held funds are what the
    /// disputed entries count, the total is the two together, and the account
    /// is locked exactly when an entry was charged back.
    pub open spec fn inv(self) -> bool {
        &&& entries_wf(self.entries)
        &&& self.available == fund_total(self.entries, Fund::Available)
        &&& self.held == fund_total(self.entries, Fund::Held)
        &&& self.total == self.available + self.held
        &&& self.locked <==> has_chargeback(self.entries)
    }

    /// Why an unlocked account refuses a deposit or a withdrawal, if it does.
    pub open spec fn insertion_refusal(
        self,
        transaction_id: TransactionID,
        amount: Amount,
        is_withdrawal: bool,
    ) -> Option<IgnoredTransactionReason> {
        if amount@ < 0 {
            Some(IgnoredTransactionReason::NegativeAmount)
        } else if amount@ == 0 {
            Some(IgnoredTransactionReason::ZeroAmount)
        } else if self.entries.contains_key(transaction_id.0) {
            Some(IgnoredTransactionReason::DuplicateTransactionIDInsertion)
        } else if is_withdrawal && self.available < amount@ {
            Some(IgnoredTransactionReason::InsufficientAvailableFunds)
        } else {
            None
        }
    }

    /// The balance after a deposit or a withdrawal that was accepted: a new
    /// resolved entry, and the amount added to, or taken from, both the
    /// available funds and the total.
    pub open spec fn after_insertion(
        self,
        transaction_id: TransactionID,
        amount: Amount,
        is_withdrawal: bool,
    ) -> BalanceModel {
        if is_withdrawal {
            BalanceModel {
                available: self.available - amount@,
                total: self.total - amount@,
                entries: self.entries.insert(
                    transaction_id.0,
                    CreditDebitState::Withdrawal(amount, TransactionState::Resolved),
                ),
                ..self
            }
        } else {
            BalanceModel {
                available: self.available + amount@,
                total: self.total + amount@,
                entries: self.entries.insert(
                    transaction_id.0,
                    CreditDebitState::Deposit(amount, TransactionState::Resolved),
                ),
                ..self
            }
        }
    }

    /// Why an unlocked account refuses to take the entry `transaction_id` to
    /// the state `to`, if it does.
    pub open spec fn transition_refusal(
        self,
        transaction_id: TransactionID,
        to: TransactionState,
    ) -> Option<IgnoredTransactionReason> {
        if !self.entries.contains_key(transaction_id.0) {
            Some(IgnoredTransactionReason::MissingTransactionID)
        } else {
            match TransactionState::transition(self.entries[transaction_id.0].state(), to) {
                TransactionStateTransition::NoOperation => Some(
                    IgnoredTransactionReason::NoTransactionStateChange,
                ),
                TransactionStateTransition::Invalid => Some(
                    IgnoredTransactionReason::InvalidTransactionStateTransition,
                ),
                TransactionStateTransition::Valid => None,
            }
        }
    }

    /// The balance after the entry `transaction_id` went to the state `to`.
    /// With `r` the reversal amount of the entry: a dispute moves `r` from the
    /// available to the held funds, a resolve moves it back, and a chargeback
    /// takes `r` from the held funds and the total and locks the account.
    pub open spec fn after_transition(
        self,
        transaction_id: TransactionID,
        to: TransactionState,
    ) -> BalanceModel {
        let entry = self.entries[transaction_id.0];
        let r = entry.reverse_amount();
        let entries = self.entries.insert(transaction_id.0, entry.with_state(to));
        match to {
            TransactionState::Disputed => BalanceModel {
                available: self.available - r,
                held: self.held + r,
                entries,
                ..self
            },
            TransactionState::Resolved => BalanceModel {
                available: self.available + r,
                held: self.held - r,
                entries,
                ..self
            },
            TransactionState::Chargeback => BalanceModel {
                locked: true,
                total: self.total - r,
                held: self.held - r,
                entries,
                ..self
            },
        }
    }

    /// Why the account ignores the transaction, if it does. A locked account
    /// ignores every transaction.
    pub open spec fn refusal(self, tx: Transaction) -> Option<IgnoredTransactionReason> {
        if self.locked {
            Some(IgnoredTransactionReason::LockedAccount)
        } else {
            match tx.transaction_type {
                TransactionType::Deposit(amount) => self.insertion_refusal(
                    tx.transaction_id,
                    amount,
                    false,
                ),
                TransactionType::Withdrawal(amount) => self.insertion_refusal(
                    tx.transaction_id,
                    amount,
                    true,
                ),
                TransactionType::Dispute => self.transition_refusal(
                    tx.transaction_id,
                    TransactionState::Disputed,
                ),
                TransactionType::Resolve => self.transition_refusal(
                    tx.transaction_id,
                    TransactionState::Resolved,
                ),
                TransactionType::Chargeback => self.transition_refusal(
                    tx.transaction_id,
                    TransactionState::Chargeback,
                ),
            }
        }
    }

    /// The balance after a transaction that was not ignored.
    pub open spec fn applied(self, tx: Transaction) -> BalanceModel {
        match tx.transaction_type {
            TransactionType::Deposit(amount) => self.after_insertion(
                tx.transaction_id,
                amount,
                false,
            ),
            TransactionType::Withdrawal(amount) => self.after_insertion(
                tx.transaction_id,
                amount,
                true,
            ),
            TransactionType::Dispute => self.after_transition(
                tx.transaction_id,
                TransactionState::Disputed,
            ),
            TransactionType::Resolve => self.after_transition(
                tx.transaction_id,
                TransactionState::Resolved,
            ),
            TransactionType::Chargeback => self.after_transition(
                tx.transaction_id,
                TransactionState::Chargeback,
            ),
        }
    }

    /// One step of the state machine: the balance after the transaction, and
    /// what handling it returns. An ignored transaction leaves the balance as
    /// it was.
    pub open spec fn step(self, tx: Transaction) -> (BalanceModel, HandledTransactionResult) {
        match self.refusal(tx) {
            Some(reason) => (
                self,
                Err(HandledTransactionError::IgnoredTransactionReason(tx.transaction_id, reason)),
            ),
            None => (self.applied(tx), Ok(())),
        }
    }

    /// What the defensive check finds of the three amounts of the balance.
    pub open spec fn validity(self) -> Result<(), InvalidClientBalance> {
        three_way_check(self.available, self.held, self.total)
    }

    /// What a snapshot of the balance shows.
    pub open spec fn shown_by(self, snapshot: ClientBalanceSnapshot) -> bool {
        &&& snapshot.client_id == self.client_id
        &&& snapshot.available@ == self.available
        &&& snapshot.held@ == self.held
        &&& snapshot.total@ == self.total
        &&& snapshot.locked == self.locked
    }

    /// The balances of a ledger stay far inside 128 bits.
    pub proof fn lemma_bounds(self)
        requires
            self.inv(),
        ensures
            -(ID_SPACE * MAX_TRANSACTION_UNITS) <= self.available <= ID_SPACE
                * MAX_TRANSACTION_UNITS,
            -(ID_SPACE * MAX_TRANSACTION_UNITS) <= self.held <= ID_SPACE * MAX_TRANSACTION_UNITS,
            2 * (ID_SPACE * MAX_TRANSACTION_UNITS) <= i128::MAX,
    {
        lemma_fund_sum_bounded(self.entries, Fund::Available, ID_SPACE as nat);
        lemma_fund_sum_bounded(self.entries, Fund::Held, ID_SPACE as nat);
    }

    /// The balance of a new client is one that transactions have made.
    pub proof fn lemma_fresh_inv(client_id: ClientID)
        ensures
            Self::fresh(client_id).inv(),
    {
        lemma_fund_sum_empty(Fund::Available, ID_SPACE as nat);
        lemma_fund_sum_empty(Fund::Held, ID_SPACE as nat);
    }

    /// An accepted deposit or withdrawal of an amount in range keeps the
    /// invariant.
    pub proof fn lemma_insertion_inv(
        self,
        transaction_id: TransactionID,
        amount: Amount,
        is_withdrawal: bool,
    )
        requires
            self.inv(),
            amount@ <= MAX_TRANSACTION_UNITS,
            self.insertion_refusal(transaction_id, amount, is_withdrawal) is None,
        ensures
            self.after_insertion(transaction_id, amount, is_withdrawal).inv(),
    {
        let after = self.after_insertion(transaction_id, amount, is_withdrawal);
        let entry = after.entries[transaction_id.0];
        lemma_fund_sum_insert(
            self.entries,
            Fund::Available,
            ID_SPACE as nat,
            transaction_id.0,
            entry,
        );
        lemma_fund_sum_insert(self.entries, Fund::Held, ID_SPACE as nat, transaction_id.0, entry);
        if has_chargeback(after.entries) {
            let id = choose|id: u32| #[trigger]
                after.entries.contains_key(id) && after.entries[id].state()
                    == TransactionState::Chargeback;
            assert(self.entries.contains_key(id));
        }
        if has_chargeback(self.entries) {
            let id = choose|id: u32| #[trigger]
                self.entries.contains_key(id) && self.entries[id].state()
                    == TransactionState::Chargeback;
            assert(after.entries.contains_key(id));
        }
    }

    /// A transition that was not refused keeps the invariant.
    pub proof fn lemma_transition_inv(self, transaction_id: TransactionID, to: TransactionState)
        requires
            self.inv(),
            self.transition_refusal(transaction_id, to) is None,
        ensures
            self.after_transition(transaction_id, to).inv(),
    {
        let after = self.after_transition(transaction_id, to);
        let entry = after.entries[transaction_id.0];
        lemma_fund_sum_insert(
            self.entries,
            Fund::Available,
            ID_SPACE as nat,
            transaction_id.0,
            entry,
        );
        lemma_fund_sum_insert(self.entries, Fund::Held, ID_SPACE as nat, transaction_id.0, entry);
        assert(self.entries.contains_key(transaction_id.0));
        if has_chargeback(after.entries) {
            let id = choose|id: u32| #[trigger]
                after.entries.contains_key(id) && after.entries[id].state()
                    == TransactionState::Chargeback;
            if id != transaction_id.0 {
                assert(self.entries.contains_key(id));
            }
        }
        if has_chargeback(self.entries) {
            let id = choose|id: u32| #[trigger]
                self.entries.contains_key(id) && self.entries[id].state()
                    == TransactionState::Chargeback;
            assert(after.entries.contains_key(id));
        }
        if to == TransactionState::Chargeback {
            assert(after.entries.contains_key(transaction_id.0));
        }
    }
}

/// What an account shows to the outside at one moment: the three amounts and
/// the lock, without the ledger behind them.
#[derive(Debug, Clone, Copy, PartialEq, Eq, Structural)]
pub struct ClientBalanceSnapshot {
    pub client_id: ClientID,
    pub available: Amount,
    pub held: Amount,
    pub total: Amount,
    pub locked: bool,
}

impl ClientBalanceSnapshot {
    /// Checks the three amounts against each other: the available amount
    /// against total - held, the held amount against total - available, and
    /// the total against available + held. A recomputation that does not fit
    /// in 128 bits differs from what is stored.
    pub fn is_valid(&self) -> (result: Result<(), InvalidClientBalance>)
        ensures
            result == three_way_check(self.available@, self.held@, self.total@),
    {
        let available = self.total.checked_sub(self.held);
        if available != Some(self.available) {
            proof {
                self.available.lemma_view_range();
                if available is Some {
                    available->0.lemma_view_injective(self.available);
                }
            }
            return Err(InvalidClientBalance::InvalidAvailableAmount);
        }
        let held = self.total.checked_sub(self.available);
        if held != Some(self.held) {
            proof {
                self.held.lemma_view_range();
                if held is Some {
                    held->0.lemma_view_injective(self.held);
                }
            }
            return Err(InvalidClientBalance::InvalidHeldAmount);
        }
        let total = self.available.checked_add(self.held);
        if total != Some(self.total) {
            proof {
                self.total.lemma_view_range();
                if total is Some {
                    total->0.lemma_view_injective(self.total);
                }
            }
            return Err(InvalidClientBalance::InvalidTotalAmount);
        }
        Ok(())
    }
}

/// The balance of one client: its available, held and total funds, its lock,
/// and the ledger of every deposit and withdrawal that it accepted.
#[derive(Debug)]
pub struct ClientBalance {
    client_id: ClientID,
    available: Amount,
    held: Amount,
    total: Amount,
    locked: bool,
    transactions: HashMap<u32, CreditDebitState>,
}

impl View for ClientBalance {
    type V = BalanceModel;

    closed spec fn view(&self) -> BalanceModel {
        BalanceModel {
            client_id: self.client_id,
            available: self.available@,
            held: self.held@,
            total: self.total@,
            locked: self.locked,
            entries: self.transactions@,
        }
    }
}

impl Default for ClientBalance {
    fn default() -> (balance: Self)
        ensures
            balance@ == BalanceModel::fresh(ClientID(0)),
            balance.wf(),
    {
        ClientBalance::new(ClientID(0))
    }
}

impl ClientBalance {
    /// A balance is well formed when it is one that transactions have made.
    pub open spec fn wf(&self) -> bool {
        self@.inv()
    }

    /// The balance of a client that no transaction has named yet: no funds,
    /// no lock, an empty ledger.
    pub fn new(client_id: ClientID) -> (balance: Self)
        ensures
            balance@ == BalanceModel::fresh(client_id),
            balance.wf(),
    {
        proof {
            BalanceModel::lemma_fresh_inv(client_id);
        }
        ClientBalance {
            client_id,
            available: Amount::new(0),
            held: Amount::new(0),
            total: Amount::new(0),
            locked: false,
            transactions: HashMap::new(),
        }
    }

    /// What the account shows at this moment.
    pub fn client_balance_snapshot(&self) -> (snapshot: ClientBalanceSnapshot)
        ensures
            self@.shown_by(snapshot),
            self.wf() ==> snapshot.total@ == snapshot.available@ + snapshot.held@,
    {
        ClientBalanceSnapshot {
            client_id: self.client_id,
            available: self.available,
            held: self.held,
            total: self.total,
            locked: self.locked,
        }
    }

    /// The defensive check of the three amounts against each other. On a
    /// well-formed balance it finds nothing.
    pub fn is_valid(&self) -> (result: Result<(), InvalidClientBalance>)
        ensures
            result == self@.validity(),
            self.wf() ==> result is Ok,
    {
        self.client_balance_snapshot().is_valid()
    }

    /// Handles one transaction: a locked account ignores it, an unlocked one
    /// accepts or ignores it by the rules of its type. Nothing but an accepted
    /// transaction changes the balance, and no transaction leaves an invalid
    /// balance behind.
    pub fn handle_transaction(&mut self, tx: Transaction) -> (result: HandledTransactionResult)
        requires
            old(self).wf(),
            tx.wf(),
        ensures
            final(self).wf(),
            (final(self)@, result) == old(self)@.step(tx),
            !(result matches Err(HandledTransactionError::InvalidClientBalance(_, _))),
    {
        let transaction_id = tx.transaction_id;
        let transaction_type = tx.transaction_type;
        if self.locked {
            return Err(
                HandledTransactionError::from(
                    (transaction_id, IgnoredTransactionReason::LockedAccount),
                ),
            );
        }
        let handled_tx_result = match transaction_type {
            TransactionType::Deposit(credit_amount) => self.handle_deposit(
                transaction_id,
                credit_amount,
            ),
            TransactionType::Withdrawal(debit_amount) => self.handle_withdrawal(
                transaction_id,
                debit_amount,
            ),
            TransactionType::Dispute => self.handle_dispute(transaction_id),
            TransactionType::Resolve => self.handle_resolve(transaction_id),
            TransactionType::Chargeback => self.handle_chargeback(transaction_id),
        };
        if let Err(ignore_err) = handled_tx_result {
            return Err(HandledTransactionError::from((transaction_id, ignore_err)));
        }
        if let Err(err) = self.is_valid() {
            return Err(HandledTransactionError::InvalidClientBalance(transaction_id, err));
        }
        Ok(())
    }

    fn handle_deposit(&mut self, transaction_id: TransactionID, amount: Amount) -> (result: Result<
        (),
        IgnoredTransactionReason,
    >)
        requires
            old(self).wf(),
            amount@ <= MAX_TRANSACTION_UNITS,
        ensures
            final(self).wf(),
            match old(self)@.insertion_refusal(transaction_id, amount, false) {
                Some(reason) => result == Err::<(), _>(reason) && final(self)@ == old(self)@,
                None => result is Ok && final(self)@ == old(self)@.after_insertion(
                    transaction_id,
                    amount,
                    false,
                ),
            },
    {
        self.handle_deposit_or_withdrawal_insertion(transaction_id, amount, false)
    }

    fn handle_withdrawal(&mut self, transaction_id: TransactionID, amount: Amount) -> (result:
        Result<(), IgnoredTransactionReason>)
        requires
            old(self).wf(),
            amount@ <= MAX_TRANSACTION_UNITS,
        ensures
            final(self).wf(),
            match old(self)@.insertion_refusal(transaction_id, amount, true) {
                Some(reason) => result == Err::<(), _>(reason) && final(self)@ == old(self)@,
                None => result is Ok && final(self)@ == old(self)@.after_insertion(
                    transaction_id,
                    amount,
                    true,
                ),
            },
    {
        self.handle_deposit_or_withdrawal_insertion(transaction_id, amount, true)
    }

    fn handle_deposit_or_withdrawal_insertion(
        &mut self,
        transaction_id: TransactionID,
        amount: Amount,
        is_withdrawal: bool,
    ) -> (result: Result<(), IgnoredTransactionReason>)
        requires
            old(self).wf(),
            amount@ <= MAX_TRANSACTION_UNITS,
        ensures
            final(self).wf(),
            match old(self)@.insertion_refusal(transaction_id, amount, is_withdrawal) {
                Some(reason) => result == Err::<(), _>(reason) && final(self)@ == old(self)@,
                None => result is Ok && final(self)@ == old(self)@.after_insertion(
                    transaction_id,
                    amount,
                    is_withdrawal,
                ),
            },
    {
        if amount.is_negative() {
            return Err(IgnoredTransactionReason::NegativeAmount);
        }
        if amount.is_zero() {
            return Err(IgnoredTransactionReason::ZeroAmount);
        }
        if self.transactions.contains_key(&transaction_id.0) {
            return Err(IgnoredTransactionReason::DuplicateTransactionIDInsertion);
        }
        if is_withdrawal && self.available < amount {
            return Err(IgnoredTransactionReason::InsufficientAvailableFunds);
        }
        proof {
            let after = old(self)@.after_insertion(transaction_id, amount, is_withdrawal);
            old(self)@.lemma_insertion_inv(transaction_id, amount, is_withdrawal);
            old(self)@.lemma_bounds();
            after.lemma_bounds();
        }
        // execute deposit or withdrawal
        if is_withdrawal {
            self.transactions.insert(transaction_id.0, CreditDebitState::withdrawal(amount));

            self.available = self.available - amount;
            self.total = self.total - amount;
        } else {
            self.transactions.insert(transaction_id.0, CreditDebitState::deposit(amount));

            self.available = self.available + amount;
            self.total = self.total + amount;
        }

        Ok(())
    }

    fn handle_dispute(&mut self, transaction_id: TransactionID) -> (result: Result<
        (),
        IgnoredTransactionReason,
    >)
        requires
            old(self).wf(),
        ensures
            final(self).wf(),
            match old(self)@.transition_refusal(transaction_id, TransactionState::Disputed) {
                Some(reason) => result == Err::<(), _>(reason) && final(self)@ == old(self)@,
                None => result is Ok && final(self)@ == old(self)@.after_transition(
                    transaction_id,
                    TransactionState::Disputed,
                ),
            },
    {
        self.handle_transaction_trasition(transaction_id, TransactionState::Disputed)
    }

    fn handle_resolve(&mut self, transaction_id: TransactionID) -> (result: Result<
        (),
        IgnoredTransactionReason,
    >)
        requires
            old(self).wf(),
        ensures
            final(self).wf(),
            match old(self)@.transition_refusal(transaction_id, TransactionState::Resolved) {
                Some(reason) => result == Err::<(), _>(reason) && final(self)@ == old(self)@,
                None => result is Ok && final(self)@ == old(self)@.after_transition(
                    transaction_id,
                    TransactionState::Resolved,
                ),
            },
    {
        self.handle_transaction_trasition(transaction_id, TransactionState::Resolved)
    }

    fn handle_chargeback(&mut self, transaction_id: TransactionID) -> (result: Result<
        (),
        IgnoredTransactionReason,
    >)
        requires
            old(self).wf(),
        ensures
            final(self).wf(),
            match old(self)@.transition_refusal(transaction_id, TransactionState::Chargeback) {
                Some(reason) => result == Err::<(), _>(reason) && final(self)@ == old(self)@,
                None => result is Ok && final(self)@ == old(self)@.after_transition(
                    transaction_id,
                    TransactionState::Chargeback,
                ),
            },
    {
        self.handle_transaction_trasition(transaction_id, TransactionState::Chargeback)
    }

    fn handle_transaction_trasition(
        &mut self,
        transaction_id: TransactionID,
        to: TransactionState,
    ) -> (result: Result<(), IgnoredTransactionReason>)
        requires
            old(self).wf(),
        ensures
            final(self).wf(),
            match old(self)@.transition_refusal(transaction_id, to) {
                Some(reason) => result == Err::<(), _>(reason) && final(self)@ == old(self)@,
                None => result is Ok && final(self)@ == old(self)@.after_transition(
                    transaction_id,
                    to,
                ),
            },
    {
        let mut tx = match self.transactions.get(&transaction_id.0) {
            Some(tx) => *tx,
            None => {
                return Err(IgnoredTransactionReason::MissingTransactionID);
            },
        };
        let from = tx.get_transaction_state();
        match TransactionState::calc_transition(&from, &to) {
            TransactionStateTransition::NoOperation => {
                return Err(IgnoredTransactionReason::NoTransactionStateChange);
            },
            TransactionStateTransition::Invalid => {
                return Err(IgnoredTransactionReason::InvalidTransactionStateTransition);
            },
            TransactionStateTransition::Valid => {
                tx.set_transaction_state(to);
            },
        }
        proof {
            let after = old(self)@.after_transition(transaction_id, to);
            old(self)@.lemma_transition_inv(transaction_id, to);
            old(self)@.lemma_bounds();
            after.lemma_bounds();
        }
        self.transactions.insert(transaction_id.0, tx);
        // execute balance change
        let amount = tx.get_credit_or_debit_reverse_amount();
        match to {
            TransactionState::Disputed => {
                self.available = self.available - amount;
                self.held = self.held + amount;
            },
            TransactionState::Resolved => {
                self.available = self.available + amount;
                self.held = self.held - amount;
            },
            TransactionState::Chargeback => {
                self.locked = true;
                self.total = self.total - amount;
                self.held = self.held - amount;
            },
        }
        Ok(())
    }
}

/// The registry of accounts: the balance of every client that a transaction
/// has named, each under its client ID.
#[derive(Debug)]
pub struct Atm {
    client_balances: HashMap<u16, ClientBalance>,
}

impl View for Atm {
    type V = Map<u16, BalanceModel>;

    closed spec fn view(&self) -> Map<u16, BalanceModel> {
        self.client_balances@.map_values(|balance: ClientBalance| balance@)
    }
}

impl Default for Atm {
    fn default() -> (atm: Self)
        ensures
            atm@ == Map::<u16, BalanceModel>::empty(),
            atm.wf(),
    {
        Atm::new()
    }
}

impl Atm {
    /// A registry is well formed when each of its balances is one that
    /// transactions have made, and stands under the ID of its own client.
    pub open spec fn wf(&self) -> bool {
        forall|client: u16| #[trigger]
            self@.contains_key(client) ==> self@[client].inv() && self@[client].client_id
                == ClientID(client)
    }

    /// The balance that the accounts hold for a client: the one on record, or
    /// a fresh one for a client that no transaction has named yet.
    pub open spec fn balance_of(
        accounts: Map<u16, BalanceModel>,
        client_id: ClientID,
    ) -> BalanceModel {
        if accounts.contains_key(client_id.0) {
            accounts[client_id.0]
        } else {
            BalanceModel::fresh(client_id)
        }
    }

    /// The accounts after a transaction was handled: the balance of its
    /// client took one step, all others are as they were.
    pub open spec fn routed(accounts: Map<u16, BalanceModel>, tx: Transaction) -> Map<
        u16,
        BalanceModel,
    > {
        accounts.insert(tx.client_id.0, Self::balance_of(accounts, tx.client_id).step(tx).0)
    }

    /// A registry without accounts.
    pub fn new() -> (atm: Self)
        ensures
            atm@ == Map::<u16, BalanceModel>::empty(),
            atm.wf(),
    {
        let atm = Atm { client_balances: HashMap::new() };
        assert(atm@ =~= Map::<u16, BalanceModel>::empty());
        atm
    }

    /// Hands the transaction to the balance of its client, which is created on
    /// first sight of the client. The balances of all other clients stay as
    /// they were.
    pub fn handle_transaction(&mut self, tx: Transaction) -> (result: HandledTransactionResult)
        requires
            old(self).wf(),
            tx.wf(),
        ensures
            final(self).wf(),
            final(self)@ == Self::routed(old(self)@, tx),
            result == Self::balance_of(old(self)@, tx.client_id).step(tx).1,
            !(result matches Err(HandledTransactionError::InvalidClientBalance(_, _))),
    {
        // get or create records for client
        let client_balance = self.client_balances.entry(tx.client_id.0).or_insert(
            ClientBalance::new(tx.client_id),
        );
        assert(client_balance@ == Self::balance_of(old(self)@, tx.client_id));
        assert(client_balance.wf());
        let result = client_balance.handle_transaction(tx);
        assert(self@ =~= Self::routed(old(self)@, tx));
        result
    }

    /// One snapshot for each account, in no particular order.
    pub fn accounts(&self) -> (snapshots: Vec<ClientBalanceSnapshot>)
        requires
            self.wf(),
        ensures
            snapshots@.len() == self@.len(),
            forall|i: int|
                0 <= i < snapshots@.len() ==> self@.contains_key(
                    (#[trigger] snapshots@[i]).client_id.0,
                ) && self@[snapshots@[i].client_id.0].shown_by(snapshots@[i]),
            forall|i: int|
                0 <= i < snapshots@.len() ==> (#[trigger] snapshots@[i]).total@
                    == snapshots@[i].available@ + snapshots@[i].held@,
            forall|i: int, j: int|
                0 <= i < j < snapshots@.len() ==> snapshots@[i].client_id != snapshots@[j].client_id,
            forall|client: u16| #[trigger]
                self@.contains_key(client) ==> exists|i: int|
                    0 <= i < snapshots@.len() && (#[trigger] snapshots@[i]).client_id == ClientID(
                        client,
                    ),
    {
        let mut snapshots: Vec<ClientBalanceSnapshot> = Vec::new();
        for pair in it: self.client_balances.iter()
            invariant
                self.wf(),
                it.seq() == self.client_balances.iter().remaining(),
                it.seq().no_duplicates(),
                snapshots@.len() == it.index(),
                forall|i: int|
                    0 <= i < snapshots@.len() ==> (#[trigger] snapshots@[i]).client_id.0
                        == *it.seq()[i].0 && it.seq()[i].1@.shown_by(snapshots@[i])
                        && snapshots@[i].total@ == snapshots@[i].available@ + snapshots@[i].held@,
        {
            let (client, client_balance) = pair;
            assert(self.client_balances@.contains_key(*client));
            assert(self.client_balances@[*client] == *client_balance);
            assert(self@.contains_key(*client));
            snapshots.push(client_balance.client_balance_snapshot());
        }
        proof {
            let pairs = self.client_balances.iter().remaining();
            assert(self@.dom() =~= self.client_balances@.dom());
            assert forall|client: u16| #[trigger] self@.contains_key(client) implies exists|i: int|
                0 <= i < snapshots@.len() && (#[trigger] snapshots@[i]).client_id == ClientID(
                    client,
                ) by {
                let pair = (&client, &self.client_balances@[client]);
                assert(self.client_balances@.contains_key(client));
                assert(pairs.contains(pair));
                let i = choose|i: int| 0 <= i < pairs.len() && pairs[i] == pair;
                assert(snapshots@[i].client_id.0 == client);
            }
            assert forall|i: int, j: int| 0 <= i < j < snapshots@.len() implies snapshots@[i].client_id
                != snapshots@[j].client_id by {
                if snapshots@[i].client_id == snapshots@[j].client_id {
                    assert(self.client_balances@[*pairs[i].0] == *pairs[i].1);
                    assert(self.client_balances@[*pairs[j].0] == *pairs[j].1);
                    assert(pairs[i] == pairs[j]);
                }
            }
        }
        snapshots
    }
}

} // verus!
