//! Transactions as they reach the accounting core, and the rule that turns an
//! input record into one.

use vstd::prelude::*;
use vstd::string::StringSliceAdditionalSpecFns;
use vstd::utf8::encode_utf8_decode_utf8;
use super::common::{Amount, ClientID, TransactionID};

verus! {

/// The largest number of units that a deposit or a withdrawal may carry.
///
/// A ledger is keyed by 32-bit transaction IDs, so it never holds more than
/// 2^32 entries; with every entry below 2^94 units the balances stay within
/// 128 bits whatever the order of the transactions.
pub const MAX_TRANSACTION_UNITS: i128 = 0x3fff_ffff_ffff_ffff_ffff_ffff;

/// [TransactionType] represents the possible transaction types.
#[derive(Debug, Clone, Copy, PartialEq, Eq, Structural)]
pub enum TransactionType {
    /// [TransactionType::Deposit] represents the amount to credit an asset account.
    Deposit(Amount),
    /// Withdrawal represents the amount to debit an asset account.
    Withdrawal(Amount),
    /// Dispute represents a possibly erroneous transaction.
    Dispute,
    /// Resolve represents a resolution to a Dispute.
    Resolve,
    /// Chargeback represents a Dispute confirmation, meaning that there was
    /// an erroneous transaction.
    Chargeback,
}

/// [Transaction] represents a transaction type for a given client ID and
/// transaction ID. It is usually derived from outside, possibly untrusted,
/// input.
#[derive(Debug, Clone, Copy, PartialEq, Eq, Structural)]
pub struct Transaction {
    /// Represents the client ID.
    pub client_id: ClientID,
    /// Represents the transaction ID.
    pub transaction_id: TransactionID,
    /// Specifies the transaction type, which defines how the transaction is
    /// handled.
    pub transaction_type: TransactionType,
}

impl TransactionType {
    /// The amount that the transaction carries, if it carries one.
    pub open spec fn amount(self) -> Option<Amount> {
        match self {
            TransactionType::Deposit(amount) => Some(amount),
            TransactionType::Withdrawal(amount) => Some(amount),
            _ => None,
        }
    }

    /// The amount carried, if any, is at most [`MAX_TRANSACTION_UNITS`].
    pub open spec fn amount_in_range(self) -> bool {
        self.amount() matches Some(amount) ==> amount@ <= MAX_TRANSACTION_UNITS
    }

    /// What a record of type `record_type` with the optional `amount` stands
    /// for: a deposit or a withdrawal needs its amount, the other three types
    /// ignore one, and any other type name stands for nothing.
    pub open spec fn of_record(record_type: Seq<char>, amount: Option<Amount>) -> Option<
        TransactionType,
    > {
        if record_type == "deposit"@ {
            match amount {
                Some(amount) => Some(TransactionType::Deposit(amount)),
                None => None,
            }
        } else if record_type == "withdrawal"@ {
            match amount {
                Some(amount) => Some(TransactionType::Withdrawal(amount)),
                None => None,
            }
        } else if record_type == "dispute"@ {
            Some(TransactionType::Dispute)
        } else if record_type == "resolve"@ {
            Some(TransactionType::Resolve)
        } else if record_type == "chargeback"@ {
            Some(TransactionType::Chargeback)
        } else {
            None
        }
    }
}

impl Transaction {
    /// A transaction is well formed when the amount it carries, if any, is at
    /// most [`MAX_TRANSACTION_UNITS`].
    pub open spec fn wf(self) -> bool {
        self.transaction_type.amount_in_range()
    }

    /// Tells whether the transaction is well formed. Every amount made by
    /// [`Amount::new`] is in range.
    pub fn is_well_formed(&self) -> (well_formed: bool)
        ensures
            well_formed == self.wf(),
    {
        match self.transaction_type {
            TransactionType::Deposit(amount) => amount.units() <= MAX_TRANSACTION_UNITS,
            TransactionType::Withdrawal(amount) => amount.units() <= MAX_TRANSACTION_UNITS,
            _ => true,
        }
    }

    /// Builds the transaction that an input record stands for, or `None` for
    /// a record of unknown type and for a deposit or withdrawal without its
    /// amount.
    pub fn from_record(
        record_type: &str,
        client_id: ClientID,
        transaction_id: TransactionID,
        amount: Option<Amount>,
    ) -> (transaction: Option<Transaction>)
        ensures
            transaction == match TransactionType::of_record(record_type@, amount) {
                Some(transaction_type) => Some(
                    Transaction { client_id, transaction_id, transaction_type },
                ),
                None => None,
            },
    {
        let transaction_type = if same_text(record_type, "deposit") {
            match amount {
                Some(amount) => TransactionType::Deposit(amount),
                None => { return None; },
            }
        } else if same_text(record_type, "withdrawal") {
            match amount {
                Some(amount) => TransactionType::Withdrawal(amount),
                None => { return None; },
            }
        } else if same_text(record_type, "dispute") {
            TransactionType::Dispute
        } else if same_text(record_type, "resolve") {
            TransactionType::Resolve
        } else if same_text(record_type, "chargeback") {
            TransactionType::Chargeback
        } else {
            return None;
        };
        Some(Transaction { client_id, transaction_id, transaction_type })
    }
}

/// Tells whether two strings hold the same characters, by comparing their
/// UTF-8 bytes.
fn same_text(left: &str, right: &str) -> (same: bool)
    ensures
        same == (left@ == right@),
{
    let left_bytes = left.as_bytes();
    let right_bytes = right.as_bytes();
    proof {
        encode_utf8_decode_utf8(left@);
        encode_utf8_decode_utf8(right@);
    }
    if left_bytes.len() != right_bytes.len() {
        return false;
    }
    let mut index: usize = 0;
    while index < left_bytes.len()
        invariant
            left_bytes@ == left.spec_bytes(),
            right_bytes@ == right.spec_bytes(),
            left_bytes@.len() == right_bytes@.len(),
            index <= left_bytes@.len(),
            forall|i: int| 0 <= i < index ==> left_bytes@[i] == right_bytes@[i],
        decreases left_bytes@.len() - index,
    {
        if left_bytes[index] != right_bytes[index] {
            return false;
        }
        index = index + 1;
    }
    assert(left_bytes@ =~= right_bytes@);
    true
}

} // verus!
