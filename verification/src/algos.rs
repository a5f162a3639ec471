//! Round-robin proposer rotation and per-round timeouts.

use vstd::prelude::*;

verus! {

/// Proposer index for a 1-indexed round: round-robin over the sequence.
pub open spec fn proposer_for_round_spec(round: int, proposer_sequence: Seq<usize>) -> usize
    recommends
        round >= 1,
        proposer_sequence.len() > 0,
{
    proposer_sequence[(round - 1) % (proposer_sequence.len() as int)]
}

/// Gets the proposer for a round.
///
/// Rounds are 1-indexed; round 0 is not a valid input.  Every replica runs
/// this function with the same sequence, so all replicas agree on who may
/// propose in a given round.
pub fn get_proposer_for_round(round: u64, proposer_sequence: &[usize]) -> (proposer: usize)
    requires
        round >= 1,
        proposer_sequence@.len() > 0,
    ensures
        proposer == proposer_for_round_spec(round as int, proposer_sequence@),
{
    let len = proposer_sequence.len();
    let idx = ((round - 1) % (len as u64)) as usize;
    proposer_sequence[idx]
}

/// Gets the timeout budget for one phase of a round, in milliseconds.
///
/// A fixed duration, identical for every round.
pub fn get_timeout_for_round(_round: u64) -> (millis: u64)
    ensures
        millis == 1000,
{
    1000
}

/// Round-robin selection is periodic: rounds `r` and `r + len` pick the same
/// proposer, for every round `r >= 1` and non-empty sequence.
pub proof fn lemma_proposer_rotation_periodic(round: int, proposer_sequence: Seq<usize>)
    requires
        round >= 1,
        proposer_sequence.len() > 0,
    ensures
        proposer_for_round_spec(round + proposer_sequence.len(), proposer_sequence)
            == proposer_for_round_spec(round, proposer_sequence),
{
    let len = proposer_sequence.len() as int;
    vstd::arithmetic::div_mod::lemma_mod_add_multiples_vanish(round - 1, len);
}

} // verus!
