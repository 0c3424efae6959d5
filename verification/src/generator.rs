//! A bounded random-number generator with an injectable simulated failure.
//!
//! The generator draws one integer from a closed range. A deliberately
//! artificial failure condition — the caller's clock reading being a
//! multiple of ten seconds — makes it report a transient error instead,
//! to demonstrate result-based error handling. The clock reading is an
//! explicit parameter so that the decision itself is deterministic.

use rand::RngExt;
use vstd::prelude::*;

verus! {

/// Lower bound of the default range.
pub const MIN_NUMBER: u32 = 1;

/// Upper bound of the default range.
pub const MAX_NUMBER: u32 = 100;

/// A closed integer interval `[min, max]`.
#[derive(Clone, Copy, PartialEq, Eq, Structural, Debug)]
pub struct Range {
    pub min: u32,
    pub max: u32,
}

impl Range {
    /// The bounds are ordered, so the interval is non-empty.
    pub open spec fn wf(self) -> bool {
        self.min <= self.max
    }

    pub fn new(min: u32, max: u32) -> (r: Range)
        requires
            min <= max,
        ensures
            r.wf(),
            r.min == min,
            r.max == max,
    {
        Range { min, max }
    }
}

/// The simulated transient failure holds exactly when the clock reading is
/// a multiple of ten seconds.
pub open spec fn failure_condition(clock_seconds: u64) -> bool {
    clock_seconds % 10 == 0
}

/// The message carried by the simulated transient failure.
pub open spec fn failure_message() -> Seq<char> {
    "Random error occurred (simulated)"@
}

/// Relies on rand::Rng::random_range on a closed `u32` range: the sampled
/// value lies within the given bounds. Nothing more is claimed of it, so
/// every caller is verified for every value the sampler may return.
#[verifier::external_body]
fn random_in_range(min: u32, max: u32) -> (r: u32)
    requires
        min <= max,
    ensures
        min <= r <= max,
{
    rand::rng().random_range(min..=max)
}

/// Draws one integer from `range`, each value in the interval a possible
/// outcome; reports the simulated transient failure instead exactly when
/// `clock_seconds` triggers it.
pub fn generate(range: Range, clock_seconds: u64) -> (r: Result<u32, String>)
    requires
        range.wf(),
    ensures
        r is Err <==> failure_condition(clock_seconds),
        r is Err ==> r->Err_0@ == failure_message(),
        r is Ok ==> range.min <= r->Ok_0 <= range.max,
{
    if clock_seconds % 10 == 0 {
        Err(String::from_str("Random error occurred (simulated)"))
    } else {
        Ok(random_in_range(range.min, range.max))
    }
}

/// Draws from the default range `[MIN_NUMBER, MAX_NUMBER]`.
pub fn generate_random_number(clock_seconds: u64) -> (r: Result<u32, String>)
    ensures
        r is Err <==> failure_condition(clock_seconds),
        r is Err ==> r->Err_0@ == failure_message(),
        r is Ok ==> MIN_NUMBER <= r->Ok_0 <= MAX_NUMBER,
{
    generate(Range::new(MIN_NUMBER, MAX_NUMBER), clock_seconds)
}

/// When the two bounds of a range coincide, any value the interval admits
/// is that bound: every successful draw from such a range is pinned down.
pub proof fn lemma_singleton_range_pins_value(range: Range, v: u32)
    requires
        range.wf(),
        range.min == range.max,
        range.min <= v <= range.max,
    ensures
        v == range.min,
{
}

} // verus!
