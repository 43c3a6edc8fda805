use vstd::prelude::*;

use crate::error::HostError;

verus! {

/// `r`, unless the budget cannot pay for `n` more units of work.
pub open spec fn metered<T>(b: Budget, n: nat, r: Result<T, HostError>) -> Result<T, HostError> {
    if b.can_afford(n) {
        r
    } else {
        Err(HostError::BudgetExceeded)
    }
}

/// The limit that a fresh budget starts with.
pub const DEFAULT_LIMIT: u64 = 100_000_000;

/// A deterministic cost meter: work is charged in units against a limit.
#[derive(Clone, Copy, Debug, PartialEq, Eq, Structural)]
pub struct Budget {
    pub limit: u64,
    pub consumed: u64,
}

impl Budget {
    /// Whether `amount` more units fit under the limit.
    pub open spec fn can_afford(self, amount: nat) -> bool {
        self.consumed + amount <= self.limit
    }

    /// The budget after `n` charges of one unit each, stopping at the
    /// first charge that does not fit.
    pub open spec fn charged(self, n: nat) -> Budget {
        if self.can_afford(n) {
            Budget { consumed: (self.consumed + n) as u64, ..self }
        } else if self.consumed <= self.limit {
            Budget { consumed: self.limit, ..self }
        } else {
            self
        }
    }

    /// A budget with the given limit and nothing consumed.
    pub fn new(limit: u64) -> (r: Budget)
        ensures
            r == (Budget { limit, consumed: 0 }),
    {
        Budget { limit, consumed: 0 }
    }

    /// Lifts the limit as far as it goes and forgets what was consumed.
    pub fn reset_unlimited(&mut self)
        ensures
            *final(self) == (Budget { limit: u64::MAX, consumed: 0 }),
    {
        self.limit = u64::MAX;
        self.consumed = 0;
    }

    /// The units that can still be charged.
    pub fn remaining(&self) -> (r: u64)
        ensures
            r == (if self.consumed <= self.limit { self.limit - self.consumed } else { 0 }),
    {
        if self.consumed <= self.limit {
            self.limit - self.consumed
        } else {
            0
        }
    }

    /// Charges `amount` units; fails, charging nothing, if they do not fit.
    pub fn charge(&mut self, amount: u64) -> (r: Result<(), HostError>)
        ensures
            old(self).can_afford(amount as nat) ==> r == Ok::<(), HostError>(()) && *final(self) == (Budget {
                consumed: (old(self).consumed + amount) as u64,
                ..*old(self)
            }),
            !old(self).can_afford(amount as nat) ==> r == Err::<(), HostError>(
                HostError::BudgetExceeded,
            ) && *final(self) == *old(self),
    {
        if self.consumed <= self.limit && amount <= self.limit - self.consumed {
            self.consumed = self.consumed + amount;
            Ok(())
        } else {
            Err(HostError::BudgetExceeded)
        }
    }

    /// Charges a single unit, the cost of one map operation.
    pub fn charge_unit(&mut self) -> (r: Result<(), HostError>)
        ensures
            *final(self) == old(self).charged(1),
            r == (if old(self).can_afford(1) { Ok::<(), HostError>(()) } else { Err(
                HostError::BudgetExceeded,
            ) }),
    {
        self.charge(1)
    }
}

impl Default for Budget {
    fn default() -> (r: Budget)
        ensures
            r == (Budget { limit: DEFAULT_LIMIT, consumed: 0 }),
    {
        Budget { limit: DEFAULT_LIMIT, consumed: 0 }
    }
}

} // verus!
