//! The fee reserve that a transaction draws cost units from.
use vstd::prelude::*;

verus! {

/// Why cost units could not be consumed.
#[derive(Clone, Copy, Debug, PartialEq, Eq, Structural)]
pub enum FeeReserveError {
    /// The cost unit limit of the transaction would be exceeded.
    LimitExceeded,
}

/// A fee reserve with a cost unit limit, lent by the system.
#[derive(Debug)]
pub struct SystemLoanFeeReserve {
    cost_unit_limit: u32,
    consumed: u32,
}

impl SystemLoanFeeReserve {
    pub closed spec fn limit(&self) -> nat {
        self.cost_unit_limit as nat
    }

    pub closed spec fn consumed_units(&self) -> nat {
        self.consumed as nat
    }

    /// No more than the limit is ever consumed.
    pub closed spec fn wf(&self) -> bool {
        self.consumed <= self.cost_unit_limit
    }

    pub fn new(cost_unit_limit: u32) -> (r: Self)
        ensures
            r.wf(),
            r.limit() == cost_unit_limit,
            r.consumed_units() == 0,
    {
        SystemLoanFeeReserve { cost_unit_limit, consumed: 0 }
    }

    /// The cost units consumed so far.
    pub fn consumed(&self) -> (r: u32)
        ensures
            r == self.consumed_units(),
    {
        self.consumed
    }

    /// The cost unit limit.
    pub fn cost_unit_limit(&self) -> (r: u32)
        ensures
            r == self.limit(),
    {
        self.cost_unit_limit
    }

    /// Consumes `n` cost units, unless that would go past the limit.
    pub fn consume(&mut self, n: u32) -> (r: Result<(), FeeReserveError>)
        requires
            old(self).wf(),
        ensures
            final(self).wf(),
            final(self).limit() == old(self).limit(),
            old(self).consumed_units() + n <= old(self).limit() ==> r is Ok && final(self).consumed_units()
                == old(self).consumed_units() + n,
            old(self).consumed_units() + n > old(self).limit() ==> r == Err::<(), FeeReserveError>(
                FeeReserveError::LimitExceeded,
            ) && final(self).consumed_units() == old(self).consumed_units(),
    {
        if n > self.cost_unit_limit - self.consumed {
            return Err(FeeReserveError::LimitExceeded);
        }
        self.consumed = self.consumed + n;
        Ok(())
    }
}

} // verus!
