//! The four instructions that the execution environment runs. Each one takes
//! encrypted values, computes inside the boundary, and hands back what is
//! encrypted again or revealed.

use vstd::prelude::*;
use crate::domain::{ClientShared, ExecutionDomain};
use crate::revealed::{counts_of, reveal_counts};
use crate::tally::{apply_vote, init_stats, sum, sum_of, InputValues, Tally, UserVote, VoteStats};
use crate::transcoder::{decrypt, encrypt, EncryptedValue};

verus! {

/// Adds the two bytes of a client's input and encrypts the sum for the same
/// client.
pub fn add_together<K>(input_ctxt: EncryptedValue<ClientShared<K>, InputValues>) -> (sum_ctxt:
    EncryptedValue<ClientShared<K>, u16>)
    ensures
        sum_ctxt.domain() == input_ctxt.domain(),
        sum_ctxt.plaintext() == sum_of(input_ctxt.plaintext()),
{
    let input = decrypt(&input_ctxt);
    let total = sum(input);
    encrypt(total, input_ctxt.into_owner())
}

/// Starts a tally: both counters at zero, encrypted for the execution domain.
pub fn init_vote_stats<M>(mxe: ExecutionDomain<M>) -> (vote_stats_ctxt: EncryptedValue<
    ExecutionDomain<M>,
    VoteStats,
>)
    ensures
        vote_stats_ctxt.domain() == mxe,
        vote_stats_ctxt.plaintext()@ == Tally::zero(),
{
    let vote_stats = init_stats();
    encrypt(vote_stats, mxe)
}

/// Counts a client's vote in a tally and encrypts the new tally for the
/// execution domain that held the old one, not for the voter. A counter at
/// its limit cannot take the vote.
pub fn vote<K, M>(
    vote_ctxt: EncryptedValue<ClientShared<K>, UserVote>,
    vote_stats_ctxt: EncryptedValue<ExecutionDomain<M>, VoteStats>,
) -> (next_ctxt: EncryptedValue<ExecutionDomain<M>, VoteStats>)
    requires
        vote_stats_ctxt.plaintext()@.cast(vote_ctxt.plaintext().vote).fits(),
    ensures
        next_ctxt.domain() == vote_stats_ctxt.domain(),
        next_ctxt.plaintext()@ == vote_stats_ctxt.plaintext()@.cast(vote_ctxt.plaintext().vote),
{
    let user_vote = decrypt(&vote_ctxt);
    let vote_stats = decrypt(&vote_stats_ctxt);
    let next = apply_vote(user_vote, vote_stats);
    encrypt(next, vote_stats_ctxt.into_owner())
}

/// Reveals the two counters of a tally, `yes` first. The tally itself is not
/// changed and stays encrypted where it is kept.
pub fn reveal_result<M>(vote_stats_ctxt: EncryptedValue<ExecutionDomain<M>, VoteStats>) -> (counts:
    (u64, u64))
    ensures
        counts == counts_of(vote_stats_ctxt.plaintext()),
{
    let vote_stats = decrypt(&vote_stats_ctxt);
    let (yes, no) = reveal_counts(&vote_stats);
    (yes.into_inner(), no.into_inner())
}

} // verus!
