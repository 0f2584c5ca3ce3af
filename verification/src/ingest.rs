//! Decisions of the ingestion boundary and the per-window domain guards.
//! The surrounding program parses the tabular input and counts how many
//! strictly positive numeric entries and how many categorical entries it
//! found; the classification of the dataset, and the guards that keep a
//! degenerate window or an invalid parameter state out of the fit, are
//! decided here.

use vstd::prelude::*;

verus! {

/// What kind of dataset the ingestion found.
#[derive(Clone, Copy, PartialEq, Eq, Structural, Debug)]
pub enum DataClass {
    /// Numeric entries that already are rank-ordered sample values.
    Ranked,
    /// Raw numeric entries whose occurrences still need counting.
    Counted,
    /// Categorical (string) entries whose occurrences still need counting.
    Categorical,
    /// No usable entry at all: the run cannot start.
    Empty,
}

/// Classify a parsed dataset from the number of strictly positive numeric
/// entries, the number of categorical entries, and whether numeric data
/// was declared pre-ranked.  Numeric entries take precedence over
/// categorical ones, as the ingestion collects every positive number it
/// can parse and leaves only the rest as categorical.
pub fn classify_dataset(numeric: usize, categorical: usize, ranked: bool) -> (r: DataClass)
    ensures
        (r is Empty) <==> (numeric == 0 && categorical == 0),
        numeric > 0 ==> ((r is Ranked) <==> ranked),
        numeric > 0 ==> ((r is Counted) <==> !ranked),
        (numeric == 0 && categorical > 0) ==> (r is Categorical),
{
    if numeric == 0 && categorical == 0 {
        DataClass::Empty
    } else if numeric > 0 && ranked {
        DataClass::Ranked
    } else if numeric > 0 {
        DataClass::Counted
    } else {
        DataClass::Categorical
    }
}

/// A condition under which a window's fit is not defined.
#[derive(Clone, Copy, PartialEq, Eq, Structural, Debug)]
pub enum DomainError {
    /// The decay exponent does not exceed 1, where the rank model is
    /// singular or decays the wrong way.
    SingularAlpha,
    /// The window holds fewer than two samples, too few to fit.
    WindowTooSmall,
    /// The lower support bound is not strictly positive.
    NonPositiveBound,
    /// The lower support bound exceeds the upper one.
    InvertedBounds,
}

/// Guard a window by its sample count: a fit needs at least two samples,
/// since a single sample pins both support bounds to the same value and
/// leaves nothing to fit.
pub fn check_window(count: usize) -> (r: Result<(), DomainError>)
    ensures
        (r is Ok) <==> count >= 2,
        count < 2 ==> (r matches Err(e) && e is WindowTooSmall),
{
    if count >= 2 {
        Ok(())
    } else {
        Err(DomainError::WindowTooSmall)
    }
}

/// Guard a parameter state from the three domain conditions the model
/// needs, each reported by the caller as a comparison outcome: the decay
/// exponent exceeds 1, the lower bound is strictly positive, and the
/// bounds are ordered.  Violations are reported in that order.
pub fn check_parameters(alpha_above_one: bool, min_positive: bool, bounds_ordered: bool) -> (r:
    Result<(), DomainError>)
    ensures
        (r is Ok) <==> (alpha_above_one && min_positive && bounds_ordered),
        !alpha_above_one ==> (r matches Err(e) && e is SingularAlpha),
        (alpha_above_one && !min_positive) ==> (r matches Err(e) && e is NonPositiveBound),
        (alpha_above_one && min_positive && !bounds_ordered) ==> (r matches Err(e)
            && e is InvertedBounds),
{
    if !alpha_above_one {
        Err(DomainError::SingularAlpha)
    } else if !min_positive {
        Err(DomainError::NonPositiveBound)
    } else if !bounds_ordered {
        Err(DomainError::InvertedBounds)
    } else {
        Ok(())
    }
}

} // verus!
