//! Step control for the damped (Levenberg-Marquardt style) least-squares
//! loop.  Each inner iteration the solver proposes a parameter step; the
//! controller decides, from the outcome the caller observed, whether the
//! loop stops, keeps the step, or reverts it, and how the damping factor
//! moves.  The damping factor itself is `10^exponent` times the starting
//! value; the controller tracks the exponent, so that acceptance shrinks
//! the factor tenfold and rejection grows it tenfold, exactly the
//! trust-region heuristic: propose, evaluate, accept or revert, adjust
//! damping.  The iteration budget of 100 is enforced here, so the loop
//! always terminates even when it never converges.

use vstd::prelude::*;

verus! {

/// Hard bound on the number of inner iterations of one estimator run.
pub const ITERATION_BUDGET: usize = 100;

/// What the caller observed about the proposed step.
#[derive(Clone, Copy, PartialEq, Eq, Structural, Debug)]
pub enum StepEvent {
    /// The proposed step's norm fell below the convergence threshold.
    Negligible,
    /// The regularized sum of squared residuals strictly decreased.
    Improved,
    /// The regularized sum of squared residuals did not decrease.
    NotImproved,
}

/// What the loop must do with the proposed step.
#[derive(Clone, Copy, PartialEq, Eq, Structural, Debug)]
pub enum StepAction {
    /// Converged: leave the loop without applying the step.
    Stop,
    /// Keep the applied step; the damping factor shrank tenfold.
    Accept,
    /// Undo the applied step; the damping factor grew tenfold.
    Revert,
}

pub struct EstimatorControl {
    iterations: usize,
    damping_exp: i32,
    finished: bool,
}

impl EstimatorControl {
    /// Inner iterations consumed so far.
    pub closed spec fn iterations(self) -> nat {
        self.iterations as nat
    }

    /// The damping factor equals its starting value times
    /// `10^damping_exp()`.
    pub closed spec fn damping_exp(self) -> int {
        self.damping_exp as int
    }

    /// True once the run converged or exhausted its budget.
    pub closed spec fn is_finished(self) -> bool {
        self.finished
    }

    /// The exponent moves by at most one per iteration, and a run never
    /// outlives its iteration budget.
    pub closed spec fn wf(self) -> bool {
        &&& self.iterations <= ITERATION_BUDGET
        &&& (self.iterations == ITERATION_BUDGET ==> self.finished)
        &&& -(self.iterations as int) <= self.damping_exp as int <= self.iterations as int
    }

    pub fn new() -> (r: Self)
        ensures
            r.wf(),
            r.iterations() == 0,
            r.damping_exp() == 0,
            !r.is_finished(),
    {
        EstimatorControl { iterations: 0, damping_exp: 0, finished: false }
    }

    /// Whether the loop may run another iteration.
    pub fn running(&self) -> (r: bool)
        ensures
            r == !self.is_finished(),
    {
        !self.finished
    }

    pub fn iterations_used(&self) -> (r: usize)
        ensures
            r == self.iterations(),
    {
        self.iterations
    }

    pub fn damping_exponent(&self) -> (r: i32)
        ensures
            r == self.damping_exp(),
    {
        self.damping_exp
    }

    /// Process the outcome of one proposed step.
    ///
    /// A step is kept exactly when the caller saw the regularized residual
    /// sum strictly decrease, and the damping exponent falls exactly on
    /// those kept steps; every other applied step is reverted and the
    /// exponent rises.  A negligible step ends the run at once, and no run
    /// passes the iteration budget.
    pub fn step(&mut self, event: StepEvent) -> (a: StepAction)
        requires
            old(self).wf(),
            !old(self).is_finished(),
        ensures
            final(self).wf(),
            final(self).iterations() == old(self).iterations() + 1,
            final(self).iterations() <= ITERATION_BUDGET,
            (a is Stop) <==> (event is Negligible),
            (a is Accept) <==> (event is Improved),
            (a is Revert) <==> (event is NotImproved),
            (event is Improved) ==> final(self).damping_exp() == old(self).damping_exp() - 1,
            (event is NotImproved) ==> final(self).damping_exp() == old(self).damping_exp() + 1,
            (event is Negligible) ==> final(self).damping_exp() == old(self).damping_exp(),
            final(self).is_finished() == (event is Negligible || final(self).iterations()
                == ITERATION_BUDGET),
    {
        self.iterations = self.iterations + 1;
        match event {
            StepEvent::Negligible => {
                self.finished = true;
                StepAction::Stop
            },
            StepEvent::Improved => {
                self.damping_exp = self.damping_exp - 1;
                if self.iterations == ITERATION_BUDGET {
                    self.finished = true;
                }
                StepAction::Accept
            },
            StepEvent::NotImproved => {
                self.damping_exp = self.damping_exp + 1;
                if self.iterations == ITERATION_BUDGET {
                    self.finished = true;
                }
                StepAction::Revert
            },
        }
    }

    /// The iteration budget is a hard bound: no well-formed control state
    /// ever records more than 100 iterations, and a state that has used
    /// them all is finished.
    pub proof fn lemma_iteration_budget(self)
        requires
            self.wf(),
        ensures
            self.iterations() <= 100,
            self.iterations() == 100 ==> self.is_finished(),
    {
    }
}

} // verus!
