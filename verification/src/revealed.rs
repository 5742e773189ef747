//! The one way on which chosen fields of a tally leave the execution
//! boundary in the clear.

use vstd::prelude::*;
use crate::tally::VoteStats;
use crate::transcoder::PlaintextInBoundary;

verus! {

/// A value in the revealed domain: public plaintext. Only `reveal_counts`
/// makes one, and nothing encrypts one again.
pub struct Revealed<T> {
    value: T,
}

impl<T> View for Revealed<T> {
    type V = T;

    closed spec fn view(&self) -> T {
        self.value
    }
}

impl<T> Revealed<T> {
    /// The public value.
    pub fn into_inner(self) -> (value: T)
        ensures
            value == self@,
    {
        self.value
    }
}

/// What is revealed of a tally: its two counters, `yes` first.
pub open spec fn counts_of(stats: VoteStats) -> (u64, u64) {
    (stats.yes, stats.no)
}

/// Reveals both counters of `stats`, `yes` first, and leaves `stats` as it is.
pub fn reveal_counts(stats: &PlaintextInBoundary<VoteStats>) -> (counts: (
    Revealed<u64>,
    Revealed<u64>,
))
    ensures
        (counts.0@, counts.1@) == counts_of(stats@),
{
    let vote_stats = stats.expose();
    (Revealed { value: vote_stats.yes }, Revealed { value: vote_stats.no })
}

} // verus!
