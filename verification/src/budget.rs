//! Cost budget of one job, kept in millionths of a US dollar.
use vstd::prelude::*;

verus! {

/// The budget of one job: a limit and what has been charged so far.
pub struct JobBudget {
    max_cost_microusds: u64,
    current_cost_microusds: u64,
}

/// A charge that would take the total over the limit.
#[derive(Debug, Clone, Copy, PartialEq, Eq, Structural)]
pub struct BudgetExhaustedError {
    /// The limit, in millionths of a dollar.
    pub limit_micro: u64,
    /// The total the charge would have reached, in millionths of a dollar.
    pub actual_micro: u128,
}

impl JobBudget {
    /// The limit.
    pub closed spec fn limit(&self) -> nat {
        self.max_cost_microusds as nat
    }

    /// What has been charged.
    pub closed spec fn spent(&self) -> nat {
        self.current_cost_microusds as nat
    }

    /// Nothing beyond the limit has ever been charged.
    #[verifier::type_invariant]
    closed spec fn within_limit(self) -> bool {
        self.current_cost_microusds <= self.max_cost_microusds
    }

    /// A budget of `max_cost_micro` with nothing charged.
    pub fn new_micro(max_cost_micro: u64) -> (r: Self)
        ensures
            r.limit() == max_cost_micro,
            r.spent() == 0,
    {
        JobBudget { max_cost_microusds: max_cost_micro, current_cost_microusds: 0 }
    }

    /// Charges `cost_micro`. A charge that would take the total over the
    /// limit is refused and changes nothing.
    pub fn charge_micro(&mut self, cost_micro: u64) -> (r: Result<(), BudgetExhaustedError>)
        ensures
            final(self).limit() == old(self).limit(),
            old(self).spent() + cost_micro <= old(self).limit() ==> r is Ok && final(self).spent()
                == old(self).spent() + cost_micro,
            old(self).spent() + cost_micro > old(self).limit() ==> r == Err::<(), BudgetExhaustedError>(
                BudgetExhaustedError {
                    limit_micro: old(self).limit() as u64,
                    actual_micro: (old(self).spent() + cost_micro) as u128,
                },
            ) && final(self).spent() == old(self).spent(),
    {
        proof {
            use_type_invariant(&*self);
        }
        let total: u128 = self.current_cost_microusds as u128 + cost_micro as u128;
        if total > self.max_cost_microusds as u128 {
            return Err(
                BudgetExhaustedError { limit_micro: self.max_cost_microusds, actual_micro: total },
            );
        }
        self.current_cost_microusds = self.current_cost_microusds + cost_micro;
        Ok(())
    }

    /// What has been charged.
    pub fn current_cost_micro(&self) -> (r: u64)
        ensures
            r == self.spent(),
            r <= self.limit(),
    {
        proof {
            use_type_invariant(self);
        }
        self.current_cost_microusds
    }

    /// The limit.
    pub fn limit_micro(&self) -> (r: u64)
        ensures
            r == self.limit(),
    {
        self.max_cost_microusds
    }
}

} // verus!
