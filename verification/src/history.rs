//! Run-scoped ledger of per-window results.  One entry is appended per
//! completed window: log-ratio of the support bounds, window size, expected
//! count, decay exponent gamma, dimensionless ratio q, and (from the second
//! window on) a boolean coherence flag.  The numeric payload is generic so
//! the surrounding program can store its scalar type; the ledger itself
//! only guarantees the bookkeeping: all numeric sequences stay the same
//! length, and the flag sequence stays exactly one entry shorter.

use vstd::prelude::*;

verus! {

pub struct CoherenceHistory<T> {
    logrhist: Vec<T>,
    counthist: Vec<usize>,
    nhist: Vec<T>,
    gammahist: Vec<T>,
    qhist: Vec<T>,
    coherencehist: Vec<bool>,
}

impl<T> CoherenceHistory<T> {
    /// Number of completed windows recorded so far.
    pub closed spec fn windows(self) -> nat {
        self.counthist@.len()
    }

    pub closed spec fn logr_seq(self) -> Seq<T> {
        self.logrhist@
    }

    pub closed spec fn count_seq(self) -> Seq<usize> {
        self.counthist@
    }

    pub closed spec fn n_seq(self) -> Seq<T> {
        self.nhist@
    }

    pub closed spec fn gamma_seq(self) -> Seq<T> {
        self.gammahist@
    }

    pub closed spec fn q_seq(self) -> Seq<T> {
        self.qhist@
    }

    pub closed spec fn flag_seq(self) -> Seq<bool> {
        self.coherencehist@
    }

    /// All numeric sequences are as long as the number of completed
    /// windows; the flag sequence is one entry shorter (the first window
    /// has no prior window to compare against).
    pub closed spec fn wf(self) -> bool {
        &&& self.logr_seq().len() == self.windows()
        &&& self.n_seq().len() == self.windows()
        &&& self.gamma_seq().len() == self.windows()
        &&& self.q_seq().len() == self.windows()
        &&& self.flag_seq().len() == if self.windows() == 0 {
            0int
        } else {
            self.windows() - 1
        }
    }

    pub fn new() -> (r: Self)
        ensures
            r.wf(),
            r.windows() == 0,
            r.logr_seq() == Seq::<T>::empty(),
            r.count_seq() == Seq::<usize>::empty(),
            r.n_seq() == Seq::<T>::empty(),
            r.gamma_seq() == Seq::<T>::empty(),
            r.q_seq() == Seq::<T>::empty(),
            r.flag_seq() == Seq::<bool>::empty(),
    {
        CoherenceHistory {
            logrhist: Vec::new(),
            counthist: Vec::new(),
            nhist: Vec::new(),
            gammahist: Vec::new(),
            qhist: Vec::new(),
            coherencehist: Vec::new(),
        }
    }

    /// Record one completed window.  A coherence flag accompanies every
    /// window but the first: the flag compares the window against its
    /// predecessor, which the first window does not have.
    pub fn record_window(
        &mut self,
        logr: T,
        count: usize,
        n: T,
        gamma: T,
        q: T,
        flag: Option<bool>,
    )
        requires
            old(self).wf(),
            flag is Some <==> old(self).windows() >= 1,
        ensures
            final(self).wf(),
            final(self).windows() == old(self).windows() + 1,
            final(self).logr_seq() == old(self).logr_seq().push(logr),
            final(self).count_seq() == old(self).count_seq().push(count),
            final(self).n_seq() == old(self).n_seq().push(n),
            final(self).gamma_seq() == old(self).gamma_seq().push(gamma),
            final(self).q_seq() == old(self).q_seq().push(q),
            final(self).flag_seq() == match flag {
                Some(b) => old(self).flag_seq().push(b),
                None => old(self).flag_seq(),
            },
    {
        self.logrhist.push(logr);
        self.counthist.push(count);
        self.nhist.push(n);
        self.gammahist.push(gamma);
        self.qhist.push(q);
        match flag {
            Some(b) => self.coherencehist.push(b),
            None => (),
        }
    }

    /// After a full run of 20 windows, every numeric sequence holds 20
    /// entries and the coherence-flag sequence holds 19.
    pub proof fn lemma_full_run_lengths(self)
        requires
            self.wf(),
            self.windows() == 20,
        ensures
            self.logr_seq().len() == 20,
            self.count_seq().len() == 20,
            self.n_seq().len() == 20,
            self.gamma_seq().len() == 20,
            self.q_seq().len() == 20,
            self.flag_seq().len() == 19,
    {
    }

    /// Read-only access for reporting.
    pub fn logr_entries(&self) -> (r: &Vec<T>)
        ensures
            r@ == self.logr_seq(),
    {
        &self.logrhist
    }

    pub fn count_entries(&self) -> (r: &Vec<usize>)
        ensures
            r@ == self.count_seq(),
    {
        &self.counthist
    }

    pub fn n_entries(&self) -> (r: &Vec<T>)
        ensures
            r@ == self.n_seq(),
    {
        &self.nhist
    }

    pub fn gamma_entries(&self) -> (r: &Vec<T>)
        ensures
            r@ == self.gamma_seq(),
    {
        &self.gammahist
    }

    pub fn q_entries(&self) -> (r: &Vec<T>)
        ensures
            r@ == self.q_seq(),
    {
        &self.qhist
    }

    pub fn flag_entries(&self) -> (r: &Vec<bool>)
        ensures
            r@ == self.flag_seq(),
    {
        &self.coherencehist
    }
}

} // verus!
