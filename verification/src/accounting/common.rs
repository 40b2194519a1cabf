//! Identifiers and the fixed-precision [`Amount`].

use vstd::prelude::*;
use vstd::std_specs::cmp::PartialOrdSpecImpl;
use vstd::std_specs::ops::{AddSpecImpl, SubSpecImpl};
use core::cmp::Ordering;

verus! {

/// [ClientID] is a unique identifier for clients.
#[derive(Debug, Clone, Copy, PartialEq, Eq, Hash, Structural)]
pub struct ClientID(pub u16);

/// [TransactionID] is a unique identifier for transactions.
/// Transaction IDs are taken to be globally unique.
#[derive(Debug, Clone, Copy, PartialEq, Eq, Hash, Structural)]
pub struct TransactionID(pub u32);

impl Default for ClientID {
    fn default() -> (id: Self)
        ensures
            id == ClientID(0),
    {
        ClientID(0)
    }
}

impl Default for TransactionID {
    fn default() -> (id: Self)
        ensures
            id == TransactionID(0),
    {
        TransactionID(0)
    }
}

impl TransactionID {
    /// Mutates the [TransactionID] by 1.
    pub fn increase_by_one(&mut self)
        requires
            old(self).0 < u32::MAX,
        ensures
            final(self).0 == old(self).0 + 1,
    {
        self.0 = self.0 + 1;
    }

    /// Returns a new [TransactionID] increased by 1.
    pub fn next(&self) -> (id: Self)
        requires
            self.0 < u32::MAX,
        ensures
            id.0 == self.0 + 1,
    {
        TransactionID(self.0 + 1)
    }
}

/// How many units make one whole: an [`Amount`] counts ten-thousandths.
pub const UNITS_PER_WHOLE: i64 = 10_000;

/// [Amount] is a signed credit or debit value with four decimal digits of
/// precision, held exactly as a count of ten-thousandths.
#[derive(Debug, Clone, Copy, PartialEq, Eq, Structural)]
pub struct Amount(i128);

impl View for Amount {
    type V = int;

    /// The number of ten-thousandths.
    closed spec fn view(&self) -> int {
        self.0 as int
    }
}

impl Amount {
    /// Every amount fits in 128 bits.
    pub proof fn lemma_view_range(self)
        ensures
            i128::MIN <= self@ <= i128::MAX,
    {
    }

    /// Two amounts are the same amount exactly when they count the same units.
    pub proof fn lemma_view_injective(self, other: Amount)
        ensures
            (self@ == other@) <==> (self == other),
    {
    }

    /// The amount of `units` ten-thousandths.
    pub fn new(units: i64) -> (amount: Self)
        ensures
            amount@ == units,
    {
        Amount(units as i128)
    }

    /// The number of ten-thousandths in this amount.
    pub fn units(&self) -> (units: i128)
        ensures
            units == self@,
    {
        self.0
    }

    /// The additive inverse.
    pub fn reversed(&self) -> (amount: Self)
        requires
            self@ != i128::MIN,
        ensures
            amount@ == -self@,
    {
        Amount(-self.0)
    }

    /// The sum of the two amounts, or `None` where it does not fit in 128
    /// bits.
    pub fn checked_add(self, rhs: Amount) -> (sum: Option<Amount>)
        ensures
            match sum {
                Some(sum) => sum@ == self@ + rhs@,
                None => !(i128::MIN <= self@ + rhs@ <= i128::MAX),
            },
    {
        match self.0.checked_add(rhs.0) {
            Some(units) => Some(Amount(units)),
            None => None,
        }
    }

    /// The difference of the two amounts, or `None` where it does not fit in
    /// 128 bits.
    pub fn checked_sub(self, rhs: Amount) -> (difference: Option<Amount>)
        ensures
            match difference {
                Some(difference) => difference@ == self@ - rhs@,
                None => !(i128::MIN <= self@ - rhs@ <= i128::MAX),
            },
    {
        match self.0.checked_sub(rhs.0) {
            Some(units) => Some(Amount(units)),
            None => None,
        }
    }

    /// Check if the amount is negative.
    pub fn is_negative(&self) -> (negative: bool)
        ensures
            negative == (self@ < 0),
    {
        self.0 < 0
    }

    /// Check if the amount is zero.
    pub fn is_zero(&self) -> (zero: bool)
        ensures
            zero == (self@ == 0),
    {
        self.0 == 0
    }
}

impl Default for Amount {
    fn default() -> (amount: Self)
        ensures
            amount@ == 0,
    {
        Amount(0)
    }
}

impl PartialOrdSpecImpl for Amount {
    open spec fn obeys_partial_cmp_spec() -> bool {
        true
    }

    /// Amounts are ordered as their unit counts are.
    open spec fn partial_cmp_spec(&self, other: &Amount) -> Option<Ordering> {
        if self@ < other@ {
            Some(Ordering::Less)
        } else if self@ == other@ {
            Some(Ordering::Equal)
        } else {
            Some(Ordering::Greater)
        }
    }
}

impl PartialOrd for Amount {
    fn partial_cmp(&self, other: &Amount) -> (order: Option<Ordering>) {
        if self.0 < other.0 {
            Some(Ordering::Less)
        } else if self.0 == other.0 {
            Some(Ordering::Equal)
        } else {
            Some(Ordering::Greater)
        }
    }
}

impl AddSpecImpl for Amount {
    open spec fn obeys_add_spec() -> bool {
        true
    }

    open spec fn add_req(self, rhs: Amount) -> bool {
        i128::MIN <= self@ + rhs@ <= i128::MAX
    }

    closed spec fn add_spec(self, rhs: Amount) -> Amount {
        Amount((self.0 + rhs.0) as i128)
    }
}

impl core::ops::Add for Amount {
    type Output = Amount;

    fn add(self, rhs: Amount) -> (sum: Amount)
        ensures
            sum@ == self@ + rhs@,
    {
        Amount(self.0 + rhs.0)
    }
}

impl SubSpecImpl for Amount {
    open spec fn obeys_sub_spec() -> bool {
        true
    }

    open spec fn sub_req(self, rhs: Amount) -> bool {
        i128::MIN <= self@ - rhs@ <= i128::MAX
    }

    closed spec fn sub_spec(self, rhs: Amount) -> Amount {
        Amount((self.0 - rhs.0) as i128)
    }
}

impl core::ops::Sub for Amount {
    type Output = Amount;

    fn sub(self, rhs: Amount) -> (difference: Amount)
        ensures
            difference@ == self@ - rhs@,
    {
        Amount(self.0 - rhs.0)
    }
}

impl core::ops::AddAssign for Amount {
    fn add_assign(&mut self, rhs: Amount)
        requires
            i128::MIN <= old(self)@ + rhs@ <= i128::MAX,
        ensures
            final(self)@ == old(self)@ + rhs@,
    {
        self.0 = self.0 + rhs.0;
    }
}

impl core::ops::SubAssign for Amount {
    fn sub_assign(&mut self, rhs: Amount)
        requires
            i128::MIN <= old(self)@ - rhs@ <= i128::MAX,
        ensures
            final(self)@ == old(self)@ - rhs@,
    {
        self.0 = self.0 - rhs.0;
    }
}

} // verus!
