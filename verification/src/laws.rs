//! What holds of the tally's operations taken together.

use vstd::prelude::*;
use crate::revealed::counts_of;
use crate::tally::{count_of, is_choice, sum_of, InputValues, Tally, VoteStats};

verus! {

/// The sum of two bytes is at most 510 and so fits sixteen bits.
pub proof fn lemma_sum_fits_sixteen_bits(input: InputValues)
    ensures
        0 <= sum_of(input) <= 510,
        sum_of(input) <= u16::MAX,
{
}

/// A tally that starts at zero and takes a sequence of votes counts them:
/// `yes` is the number of yes votes, `no` the number of no votes, and the two
/// together are the length of the sequence.
pub proof fn lemma_tally_counts_votes(votes: Seq<bool>)
    ensures
        Tally::zero().after(votes).yes == count_of(votes, true),
        Tally::zero().after(votes).no == count_of(votes, false),
        Tally::zero().after(votes).yes + Tally::zero().after(votes).no == votes.len(),
    decreases votes.len(),
{
    if votes.len() > 0 {
        let earlier = votes.drop_last();
        lemma_tally_counts_votes(earlier);
        assert(votes == earlier.push(votes.last()));
        earlier.lemma_filter_push(votes.last(), is_choice(true));
        earlier.lemma_filter_push(votes.last(), is_choice(false));
    }
}

/// No vote lowers a counter: after any votes both counters are at least what
/// they were.
pub proof fn lemma_counters_never_decrease(stats: Tally, votes: Seq<bool>)
    ensures
        stats.after(votes).yes >= stats.yes,
        stats.after(votes).no >= stats.no,
    decreases votes.len(),
{
    if votes.len() > 0 {
        lemma_counters_never_decrease(stats, votes.drop_last());
    }
}

/// Where the tally after all of `votes` fits the counters, so does the tally
/// after the first `n` of them: every vote on the way can be counted.
pub proof fn lemma_every_step_fits(votes: Seq<bool>, n: int)
    requires
        0 <= n <= votes.len(),
        Tally::zero().after(votes).fits(),
    ensures
        Tally::zero().after(votes.take(n)).fits(),
    decreases votes.len() - n,
{
    if n < votes.len() {
        lemma_every_step_fits(votes, n + 1);
        let longer = votes.take(n + 1);
        assert(longer.drop_last() == votes.take(n));
    } else {
        assert(votes.take(n) == votes);
    }
}

/// Revealing reads and nothing more: two reveals of one tally give the same
/// counts, and a vote between two reveals raises the counter that it voted
/// for by one and leaves the other.
pub proof fn lemma_vote_between_reveals(
    stats: VoteStats,
    vote: bool,
    next: VoteStats,
    first: (u64, u64),
    again: (u64, u64),
    second: (u64, u64),
)
    requires
        first == counts_of(stats),
        again == counts_of(stats),
        next@ == stats@.cast(vote),
        second == counts_of(next),
    ensures
        again == first,
        vote ==> second.0 == first.0 + 1 && second.1 == first.1,
        !vote ==> second.0 == first.0 && second.1 == first.1 + 1,
{
}

} // verus!
