//! Cooperative cancellation token, polled by long computations at checkpoints.

use vstd::prelude::*;

verus! {

/// Where a dam stands.
#[derive(Clone, Copy, Debug, PartialEq, Eq, Structural)]
pub enum DamState {
    /// Never interrupts.
    Unlimited,
    /// Lets `allowance` more checkpoints pass, then interrupts.
    Armed { allowance: u64 },
    /// Every checkpoint reports an interruption.
    Interrupted,
}

/// A cancellation token. The event loop mints one per unit of background
/// work; the work polls it at each checkpoint and stops when it reports an
/// interruption.
#[derive(Clone, Copy, Debug, PartialEq, Eq, Structural)]
pub struct Dam {
    pub state: DamState,
}

impl Dam {
    /// Whether a computation passing `n` more checkpoints meets the interruption.
    pub open spec fn interrupts_within(self, n: nat) -> bool {
        match self.state {
            DamState::Unlimited => false,
            DamState::Armed { allowance } => allowance < n,
            DamState::Interrupted => n > 0,
        }
    }

    /// The dam after `n` checkpoints that all passed.
    pub open spec fn after(self, n: nat) -> Dam {
        match self.state {
            DamState::Armed { allowance } => Dam {
                state: DamState::Armed { allowance: (allowance - n) as u64 },
            },
            _ => self,
        }
    }

    /// The dam once a checkpoint has reported an interruption.
    pub open spec fn tripped(self) -> Dam {
        match self.state {
            DamState::Unlimited => self,
            _ => Dam { state: DamState::Interrupted },
        }
    }

    /// A dam that never interrupts, for work that must run to completion.
    pub fn unlimited() -> (d: Dam)
        ensures
            d.state == DamState::Unlimited,
    {
        Dam { state: DamState::Unlimited }
    }

    /// A dam that lets `allowance` checkpoints pass before it interrupts.
    pub fn armed(allowance: u64) -> (d: Dam)
        ensures
            d.state == (DamState::Armed { allowance }),
    {
        Dam { state: DamState::Armed { allowance } }
    }

    /// A dam that interrupts at the first checkpoint.
    pub fn interrupted() -> (d: Dam)
        ensures
            d.state == DamState::Interrupted,
    {
        Dam { state: DamState::Interrupted }
    }

    /// Signals the interruption: newer input superseded the work.
    pub fn interrupt(&mut self)
        ensures
            *final(self) == old(self).tripped(),
    {
        if !(self.state == DamState::Unlimited) {
            self.state = DamState::Interrupted;
        }
    }

    /// Whether the next checkpoint would report an interruption.
    pub fn is_interrupted(&self) -> (r: bool)
        ensures
            r == self.interrupts_within(1),
    {
        match self.state {
            DamState::Unlimited => false,
            DamState::Armed { allowance } => allowance == 0,
            DamState::Interrupted => true,
        }
    }

    /// A checkpoint: returns whether the work must stop here.
    pub fn checkpoint(&mut self) -> (stop: bool)
        ensures
            stop == old(self).interrupts_within(1),
            stop ==> *final(self) == old(self).tripped(),
            !stop ==> *final(self) == old(self).after(1),
    {
        match self.state {
            DamState::Unlimited => false,
            DamState::Armed { allowance } => {
                if allowance == 0 {
                    self.state = DamState::Interrupted;
                    true
                } else {
                    self.state = DamState::Armed { allowance: allowance - 1 };
                    false
                }
            },
            DamState::Interrupted => true,
        }
    }
}

/// Interruption within `a` checkpoints is interruption within any later count.
pub proof fn lemma_interrupts_monotone(d: Dam, a: nat, b: nat)
    requires
        a <= b,
        d.interrupts_within(a),
    ensures
        d.interrupts_within(b),
{
}

/// One more checkpoint after `k` passed ones.
pub proof fn lemma_after_step(d: Dam, k: nat)
    requires
        !d.interrupts_within(k),
    ensures
        d.after(k).interrupts_within(1) == d.interrupts_within(k + 1),
        !d.interrupts_within(k + 1) ==> d.after(k).after(1) == d.after(k + 1),
        d.after(0) == d,
{
}

} // verus!
