//! Verified core of a bounded power-law (Zipf-Mandelbrot) fit-stability
//! analysis: the window schedule, the damped-step acceptance controller,
//! the per-window history ledger, the coherence rule, the float-literal
//! recognizer of the ingestion boundary, and the domain guards.
//! Floating-point evaluation of the rank model itself is left to the
//! surrounding program, which drives these controllers.

pub mod coherence;
pub mod control;
pub mod history;
pub mod ingest;
pub mod numeral;
pub mod schedule;
