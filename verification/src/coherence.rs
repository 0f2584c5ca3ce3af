//! The window-to-window coherence rule.  A transition from one window to
//! the next is coherent when the dimensionless ratio q moved against the
//! expected count n: `dq / dn <= 0`.  The surrounding program computes the
//! two differences with its scalar arithmetic and reports only their
//! signs; the rule here decides the flag exactly as the quotient
//! comparison would under IEEE division, including the divide-by-zero and
//! no-sign (not-a-number) cases.  The run's score is the number of
//! coherent transitions out of the 19 recorded flags.

use vstd::prelude::*;

verus! {

/// Sign of a difference of two scalar values.  `Undefined` stands for a
/// value with no sign (a not-a-number produced by a degenerate fit).
#[derive(Clone, Copy, PartialEq, Eq, Structural, Debug)]
pub enum Sign {
    Negative,
    Zero,
    Positive,
    Undefined,
}

/// Whether a quotient `num / den` of values with the given signs is at
/// most zero under IEEE division: a zero numerator over a nonzero
/// denominator gives (signed) zero; a nonzero numerator over a zero
/// denominator gives an infinity carrying the numerator's sign; opposite
/// nonzero signs give a negative quotient; zero over zero or any operand
/// without a sign gives a not-a-number, which compares false.
pub open spec fn spec_ratio_nonpositive(num: Sign, den: Sign) -> bool {
    ||| (num is Zero && (den is Negative || den is Positive))
    ||| (num is Negative && (den is Positive || den is Zero))
    ||| (num is Positive && den is Negative)
}

/// The coherence flag for the transition into window `i >= 2`: coherent
/// exactly when `dq / dn <= 0`, where `dq` and `dn` are the changes of q
/// and of the expected count n since the previous window, decided from
/// their signs alone.
pub fn coherence_flag(dq: Sign, dn: Sign) -> (r: bool)
    ensures
        r == spec_ratio_nonpositive(dq, dn),
{
    match (dq, dn) {
        (Sign::Zero, Sign::Negative) => true,
        (Sign::Zero, Sign::Positive) => true,
        (Sign::Negative, Sign::Positive) => true,
        (Sign::Negative, Sign::Zero) => true,
        (Sign::Positive, Sign::Negative) => true,
        _ => false,
    }
}

/// Number of `true` entries in a flag sequence.
pub open spec fn spec_count_true(s: Seq<bool>) -> nat
    decreases s.len(),
{
    if s.len() == 0 {
        0
    } else {
        spec_count_true(s.drop_last()) + if s.last() {
            1nat
        } else {
            0nat
        }
    }
}

/// Count the coherent transitions of a run: the numerator of the reported
/// coherence score (the denominator is the number of recorded flags).
pub fn count_coherent(flags: &Vec<bool>) -> (r: usize)
    ensures
        r == spec_count_true(flags@),
        r <= flags@.len(),
{
    let mut r: usize = 0;
    let mut i: usize = 0;
    while i < flags.len()
        invariant
            0 <= i <= flags@.len(),
            r == spec_count_true(flags@.take(i as int)),
            r <= i,
        decreases flags@.len() - i,
    {
        proof {
            assert(flags@.take(i + 1).drop_last() =~= flags@.take(i as int));
            assert(flags@.take(i + 1).last() == flags@[i as int]);
        }
        if flags[i] {
            r = r + 1;
        }
        i = i + 1;
    }
    proof {
        assert(flags@.take(flags@.len() as int) =~= flags@);
    }
    r
}

} // verus!
