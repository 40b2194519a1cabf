//! Ledger entries and their dispute lifecycle, and the sums of a ledger that
//! a client's balance stands for.

use vstd::prelude::*;
use super::common::Amount;
use super::transaction::MAX_TRANSACTION_UNITS;

verus! {

/// [TransactionState] is used to represent a debit or credit state.
#[derive(Debug, Clone, Copy, PartialEq, Eq, Structural)]
pub enum TransactionState {
    /// [TransactionState::Disputed] indicates there was a Dispute.
    Disputed,
    /// [TransactionState::Resolved] indicates there was a Resolve to a
    /// Dispute; every new debit and credit starts out resolved.
    Resolved,
    /// [TransactionState::Chargeback] indicates the final state of a Dispute.
    Chargeback,
}

/// What a requested change of [TransactionState] amounts to.
#[derive(Debug, Clone, Copy, PartialEq, Eq, Structural)]
pub enum TransactionStateTransition {
    /// The entry is in the requested state already.
    NoOperation,
    /// The entry cannot go from its state to the requested one.
    Invalid,
    /// The entry can go to the requested state.
    Valid,
}

impl TransactionState {
    /// The class of the transition from `from` to `to`. A resolved entry can
    /// be disputed, a disputed entry can be resolved or charged back, and
    /// nothing leaves a chargeback; asking a disputed or resolved entry for
    /// the state it is in changes nothing.
    pub open spec fn transition(from: Self, to: Self) -> TransactionStateTransition {
        if from == TransactionState::Chargeback {
            TransactionStateTransition::Invalid
        } else if from == to {
            TransactionStateTransition::NoOperation
        } else if from == TransactionState::Resolved && to == TransactionState::Chargeback {
            TransactionStateTransition::Invalid
        } else {
            TransactionStateTransition::Valid
        }
    }

    /// Classifies the transition from `from` to `to`.
    pub fn calc_transition(from: &Self, to: &Self) -> (transition: TransactionStateTransition)
        ensures
            transition == Self::transition(*from, *to),
    {
        match (from, to) {
            (TransactionState::Disputed, TransactionState::Disputed) => {
                TransactionStateTransition::NoOperation
            },
            (TransactionState::Disputed, TransactionState::Resolved) => {
                TransactionStateTransition::Valid
            },
            (TransactionState::Disputed, TransactionState::Chargeback) => {
                TransactionStateTransition::Valid
            },
            (TransactionState::Resolved, TransactionState::Disputed) => {
                TransactionStateTransition::Valid
            },
            (TransactionState::Resolved, TransactionState::Resolved) => {
                TransactionStateTransition::NoOperation
            },
            (TransactionState::Resolved, TransactionState::Chargeback) => {
                TransactionStateTransition::Invalid
            },
            (TransactionState::Chargeback, _) => TransactionStateTransition::Invalid,
        }
    }
}

/// The two funds that a ledger entry can count towards.
pub enum Fund {
    /// Funds that the client may withdraw.
    Available,
    /// Funds frozen while a dispute is pending.
    Held,
}

/// [CreditDebitState] holds a debit or credit amount with its transaction state.
#[derive(Debug, Clone, Copy, PartialEq, Eq, Structural)]
pub enum CreditDebitState {
    Deposit(Amount, TransactionState),
    Withdrawal(Amount, TransactionState),
}

impl CreditDebitState {
    /// The amount that was deposited or withdrawn.
    pub open spec fn amount(self) -> Amount {
        match self {
            CreditDebitState::Deposit(amount, _) => amount,
            CreditDebitState::Withdrawal(amount, _) => amount,
        }
    }

    /// The dispute state of the entry.
    pub open spec fn state(self) -> TransactionState {
        match self {
            CreditDebitState::Deposit(_, state) => state,
            CreditDebitState::Withdrawal(_, state) => state,
        }
    }

    /// The same entry in the state `to`.
    pub open spec fn with_state(self, to: TransactionState) -> CreditDebitState {
        match self {
            CreditDebitState::Deposit(amount, _) => CreditDebitState::Deposit(amount, to),
            CreditDebitState::Withdrawal(amount, _) => CreditDebitState::Withdrawal(amount, to),
        }
    }

    /// The reversal amount of the entry: what a deposit added to the
    /// available funds, and, negated, what a withdrawal took from them.
    pub open spec fn reverse_amount(self) -> int {
        match self {
            CreditDebitState::Deposit(amount, _) => amount@,
            CreditDebitState::Withdrawal(amount, _) => -amount@,
        }
    }

    /// What the entry counts towards `fund`: a resolved entry counts its
    /// reversal amount as available, a disputed entry counts it as held, and
    /// a charged-back entry counts nothing.
    pub open spec fn share(self, fund: Fund) -> int {
        match fund {
            Fund::Available => if self.state() == TransactionState::Resolved {
                self.reverse_amount()
            } else {
                0
            },
            Fund::Held => if self.state() == TransactionState::Disputed {
                self.reverse_amount()
            } else {
                0
            },
        }
    }

    /// An entry of a ledger holds a positive amount of at most
    /// [`MAX_TRANSACTION_UNITS`].
    pub open spec fn wf(self) -> bool {
        0 < self.amount()@ <= MAX_TRANSACTION_UNITS
    }

    /// The entry of a new deposit.
    pub fn deposit(amount: Amount) -> (entry: Self)
        ensures
            entry == CreditDebitState::Deposit(amount, TransactionState::Resolved),
    {
        CreditDebitState::Deposit(amount, TransactionState::Resolved)
    }

    /// The entry of a new withdrawal.
    pub fn withdrawal(amount: Amount) -> (entry: Self)
        ensures
            entry == CreditDebitState::Withdrawal(amount, TransactionState::Resolved),
    {
        CreditDebitState::Withdrawal(amount, TransactionState::Resolved)
    }

    /// The reversal amount of the entry.
    pub fn get_credit_or_debit_reverse_amount(&self) -> (reverse: Amount)
        requires
            self.amount()@ != i128::MIN,
        ensures
            reverse@ == self.reverse_amount(),
    {
        match self {
            CreditDebitState::Deposit(amount, _) => *amount,
            CreditDebitState::Withdrawal(amount, _) => amount.reversed(),
        }
    }

    /// The dispute state of the entry.
    pub fn get_transaction_state(&self) -> (state: TransactionState)
        ensures
            state == self.state(),
    {
        match self {
            CreditDebitState::Deposit(_, state) => *state,
            CreditDebitState::Withdrawal(_, state) => *state,
        }
    }

    /// Puts the entry in the state `to`; its kind and amount stay.
    pub fn set_transaction_state(&mut self, to: TransactionState)
        ensures
            *final(self) == old(self).with_state(to),
    {
        match self {
            CreditDebitState::Deposit(_, state) => *state = to,
            CreditDebitState::Withdrawal(_, state) => *state = to,
        }
    }
}

/// The number of transaction IDs: a ledger is keyed by 32-bit IDs.
pub const ID_SPACE: u64 = 0x1_0000_0000;

/// What the entry under `id`, if there is one, counts towards `fund`.
pub open spec fn share_at(entries: Map<u32, CreditDebitState>, fund: Fund, id: u32) -> int {
    if entries.contains_key(id) {
        entries[id].share(fund)
    } else {
        0
    }
}

/// What the entries with an ID below `below` count towards `fund`, all
/// together.
pub open spec fn fund_sum(entries: Map<u32, CreditDebitState>, fund: Fund, below: nat) -> int
    decreases below,
{
    if below == 0 {
        0
    } else {
        fund_sum(entries, fund, (below - 1) as nat) + share_at(entries, fund, (below - 1) as u32)
    }
}

/// What a whole ledger counts towards `fund`.
pub open spec fn fund_total(entries: Map<u32, CreditDebitState>, fund: Fund) -> int {
    fund_sum(entries, fund, ID_SPACE as nat)
}

/// Every entry of the ledger is well formed.
pub open spec fn entries_wf(entries: Map<u32, CreditDebitState>) -> bool {
    forall|id: u32| #[trigger] entries.contains_key(id) ==> entries[id].wf()
}

/// An empty ledger counts nothing.
pub proof fn lemma_fund_sum_empty(fund: Fund, below: nat)
    ensures
        fund_sum(Map::<u32, CreditDebitState>::empty(), fund, below) == 0,
    decreases below,
{
    if below > 0 {
        lemma_fund_sum_empty(fund, (below - 1) as nat);
    }
}

/// Writing `entry` under `id` changes a sum by what `entry` counts, less what
/// the entry that it replaces counted.
pub proof fn lemma_fund_sum_insert(
    entries: Map<u32, CreditDebitState>,
    fund: Fund,
    below: nat,
    id: u32,
    entry: CreditDebitState,
)
    requires
        below <= ID_SPACE,
    ensures
        fund_sum(entries.insert(id, entry), fund, below) == fund_sum(entries, fund, below) + (if id
            < below {
            entry.share(fund) - share_at(entries, fund, id)
        } else {
            0
        }),
    decreases below,
{
    if below > 0 {
        lemma_fund_sum_insert(entries, fund, (below - 1) as nat, id, entry);
    }
}

/// No sum of a well-formed ledger exceeds what its entries could hold at most.
pub proof fn lemma_fund_sum_bounded(entries: Map<u32, CreditDebitState>, fund: Fund, below: nat)
    requires
        below <= ID_SPACE,
        entries_wf(entries),
    ensures
        -(below * MAX_TRANSACTION_UNITS) <= fund_sum(entries, fund, below) <= below
            * MAX_TRANSACTION_UNITS,
    decreases below,
{
    if below > 0 {
        lemma_fund_sum_bounded(entries, fund, (below - 1) as nat);
        assert((below - 1) * MAX_TRANSACTION_UNITS + MAX_TRANSACTION_UNITS == below
            * MAX_TRANSACTION_UNITS) by (nonlinear_arith);
    }
}

} // verus!
