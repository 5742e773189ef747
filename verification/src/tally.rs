//! The records of a tally and the operations that compute on them inside the
//! execution boundary.

use vstd::prelude::*;
use crate::transcoder::PlaintextInBoundary;

verus! {

/// Two bytes to be added.
#[derive(Clone, Copy)]
pub struct InputValues {
    pub v1: u8,
    pub v2: u8,
}

/// One vote: `true` for yes, `false` for no.
#[derive(Clone, Copy)]
pub struct UserVote {
    pub vote: bool,
}

/// The two counters of a tally.
#[derive(Clone, Copy)]
pub struct VoteStats {
    pub yes: u64,
    pub no: u64,
}

/// A tally as two natural numbers, without the counters' limit.
pub struct Tally {
    pub yes: nat,
    pub no: nat,
}

impl Tally {
    /// The tally before any vote.
    pub open spec fn zero() -> Tally {
        Tally { yes: 0, no: 0 }
    }

    /// The tally after one more vote.
    pub open spec fn cast(self, vote: bool) -> Tally {
        if vote {
            Tally { yes: self.yes + 1, no: self.no }
        } else {
            Tally { yes: self.yes, no: self.no + 1 }
        }
    }

    /// The tally after the votes of `votes`, taken in their order.
    pub open spec fn after(self, votes: Seq<bool>) -> Tally
        decreases votes.len(),
    {
        if votes.len() == 0 {
            self
        } else {
            self.after(votes.drop_last()).cast(votes.last())
        }
    }

    /// Whether both numbers fit the counters of `VoteStats`.
    pub open spec fn fits(self) -> bool {
        self.yes <= u64::MAX && self.no <= u64::MAX
    }
}

/// The test that a vote is `choice`.
pub open spec fn is_choice(choice: bool) -> spec_fn(bool) -> bool {
    |vote: bool| vote == choice
}

/// How many votes of `votes` are `choice`.
pub open spec fn count_of(votes: Seq<bool>, choice: bool) -> nat {
    votes.filter(is_choice(choice)).len()
}

impl View for VoteStats {
    type V = Tally;

    open spec fn view(&self) -> Tally {
        Tally { yes: self.yes as nat, no: self.no as nat }
    }
}

/// The sum of the two bytes of `input`, as an integer.
pub open spec fn sum_of(input: InputValues) -> int {
    input.v1 + input.v2
}

/// Adds the two bytes in sixteen bits, where no pair of bytes overflows.
pub fn sum(input: PlaintextInBoundary<InputValues>) -> (total: PlaintextInBoundary<u16>)
    ensures
        total@ == sum_of(input@),
{
    let values = *input.expose();
    let v1: u16 = values.v1 as u16;
    let v2: u16 = values.v2 as u16;
    PlaintextInBoundary::wrap(v1 + v2)
}

/// A new tally with both counters at zero. Each call makes a record of its
/// own.
pub fn init_stats() -> (stats: PlaintextInBoundary<VoteStats>)
    ensures
        stats@@ == Tally::zero(),
{
    PlaintextInBoundary::wrap(VoteStats { yes: 0, no: 0 })
}

/// Whether `stats` can take `vote`, that is whether the counter that the vote
/// adds to is below its limit.
pub fn can_apply(vote: &UserVote, stats: &VoteStats) -> (ok: bool)
    ensures
        ok == stats@.cast(vote.vote).fits(),
{
    if vote.vote {
        stats.yes < u64::MAX
    } else {
        stats.no < u64::MAX
    }
}

/// Counts one vote: a yes adds one to `yes`, a no adds one to `no`, and the
/// other counter stays. A counter at its limit cannot take the vote.
pub fn apply_vote(
    vote: PlaintextInBoundary<UserVote>,
    stats: PlaintextInBoundary<VoteStats>,
) -> (next: PlaintextInBoundary<VoteStats>)
    requires
        stats@@.cast(vote@.vote).fits(),
    ensures
        next@@ == stats@@.cast(vote@.vote),
{
    let user_vote = *vote.expose();
    let mut vote_stats = *stats.expose();
    if user_vote.vote {
        vote_stats.yes += 1;
    } else {
        vote_stats.no += 1;
    }
    PlaintextInBoundary::wrap(vote_stats)
}

} // verus!
