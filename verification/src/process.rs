//! The consensus state machine driving one replica through rounds of
//! propose / prevote / precommit until a value commits.
//!
//! Each round is strictly sequential: the proposer for the round (or a
//! timeout) fixes the proposal slot, every process prevotes the proposal it
//! observed, a quorum of matching prevotes fixes the tentative decision,
//! and a quorum of matching precommits commits it.  Rounds that fail to
//! decide only advance the epoch to the next round.
//!
//! This module holds every decision of the protocol: which envelopes are
//! tallied (only authentic ones of the awaited kind and round), how votes
//! are counted, and how the epoch state changes.  The transport loop that
//! moves envelopes between processes performs no decision of its own: it
//! feeds received envelopes to the `accept_proposal` / `tally_prevote` /
//! `tally_precommit` steps until they report completion or its timeout
//! budget runs out, and broadcasts the messages these steps hand back.

use std::collections::HashMap;
use vstd::prelude::*;

use crate::algos::{get_proposer_for_round, proposer_for_round_spec};
use crate::crypto::Keypair;
use crate::events::EventSystem;
use crate::messages::{
    clone_opt_string,
    is_precommit_for,
    is_prevote_for,
    is_propose_for,
    propose_value,
    view_opt_value,
    vote_value,
    Message,
    SignedMessage,
};
use crate::params::QUORUM;

verus! {

broadcast use vstd::std_specs::hash::group_hash_axioms;

/// A consensus-level notification.
#[derive(Debug)]
pub enum Event {
    /// A height was decided: `value` committed in `round`, reported by the
    /// process `from`.  Emitted exactly once per committed height.
    Decision { height: u64, round: u64, value: String, from: usize },
}

impl Clone for Event {
    fn clone(&self) -> (res: Self)
        ensures
            res == *self,
    {
        match self {
            Event::Decision { height, round, value, from } => Event::Decision {
                height: *height,
                round: *round,
                value: value.clone(),
                from: *from,
            },
        }
    }
}

/// The mathematical shape of the per-height working state.
#[verifier::ext_equal]
pub struct EpochStateView {
    pub height: u64,
    pub round: u64,
    pub proposals: Map<u64, String>,
    pub prevotes: Map<u64, Seq<Option<String>>>,
    pub precommits: Map<u64, Seq<Option<String>>>,
    pub decision: Option<String>,
}

/// Per-height working state: the current round, the per-round proposal and
/// vote records, and the decision once one commits.
///
/// Created fresh per height and mutated only by the owning process; a new
/// height starts over from `initial` with the height counter carried on.
#[derive(Debug)]
pub struct EpochState {
    height: u64,
    round: u64,
    proposals: HashMap<u64, String>,
    prevotes: HashMap<u64, Vec<Option<String>>>,
    precommits: HashMap<u64, Vec<Option<String>>>,
    decision: Option<String>,
}

impl View for EpochState {
    type V = EpochStateView;

    closed spec fn view(&self) -> EpochStateView {
        EpochStateView {
            height: self.height,
            round: self.round,
            proposals: self.proposals@,
            prevotes: self.prevotes@.map_values(|v: Vec<Option<String>>| v@),
            precommits: self.precommits@.map_values(|v: Vec<Option<String>>| v@),
            decision: self.decision,
        }
    }
}

impl EpochState {
    /// The state a fresh epoch starts from: height 0, before round 1, no
    /// records, no decision.
    pub fn initial() -> (state: EpochState)
        ensures
            state@.height == 0,
            state@.round == 0,
            state@.proposals == Map::<u64, String>::empty(),
            state@.prevotes == Map::<u64, Seq<Option<String>>>::empty(),
            state@.precommits == Map::<u64, Seq<Option<String>>>::empty(),
            state@.decision is None,
    {
        let state = EpochState {
            height: 0,
            round: 0,
            proposals: HashMap::new(),
            prevotes: HashMap::new(),
            precommits: HashMap::new(),
            decision: None,
        };
        proof {
            assert(state@.prevotes =~= Map::<u64, Seq<Option<String>>>::empty());
            assert(state@.precommits =~= Map::<u64, Seq<Option<String>>>::empty());
        }
        state
    }

    /// The committed height count.
    pub fn height(&self) -> (height: u64)
        ensures
            height == self@.height,
    {
        self.height
    }

    /// The round most recently begun (0 before the first round).
    pub fn round(&self) -> (round: u64)
        ensures
            round == self@.round,
    {
        self.round
    }

    /// The committed value of this epoch, if any.
    pub fn decision(&self) -> (decision: Option<String>)
        ensures
            decision == self@.decision,
    {
        clone_opt_string(&self.decision)
    }

    /// The proposal recorded for a round, if one was observed.
    pub fn proposal_for(&self, round: u64) -> (proposal: Option<String>)
        ensures
            proposal matches Some(v) ==> self@.proposals.contains_key(round) && v
                == self@.proposals[round],
            proposal is None ==> !self@.proposals.contains_key(round),
    {
        match self.proposals.get(&round) {
            Some(v) => Some(v.clone()),
            None => None,
        }
    }

    /// The prevotes recorded for a round, if its prevote phase completed.
    pub fn prevotes_for(&self, round: u64) -> (votes: Option<&Vec<Option<String>>>)
        ensures
            votes matches Some(v) ==> self@.prevotes.contains_key(round) && v@
                == self@.prevotes[round],
            votes is None ==> !self@.prevotes.contains_key(round),
    {
        let r = self.prevotes.get(&round);
        proof {
            if self.prevotes@.contains_key(round) {
                assert(self@.prevotes.contains_key(round));
            }
        }
        r
    }

    /// The precommits recorded for a round, if its precommit phase
    /// completed.
    pub fn precommits_for(&self, round: u64) -> (votes: Option<&Vec<Option<String>>>)
        ensures
            votes matches Some(v) ==> self@.precommits.contains_key(round) && v@
                == self@.precommits[round],
            votes is None ==> !self@.precommits.contains_key(round),
    {
        let r = self.precommits.get(&round);
        proof {
            if self.precommits@.contains_key(round) {
                assert(self@.precommits.contains_key(round));
            }
        }
        r
    }

    /// Steps the state into its next round and returns its number.
    pub fn begin_round(&mut self) -> (round: u64)
        requires
            old(self)@.round < u64::MAX,
        ensures
            round == old(self)@.round + 1,
            final(self)@ == (EpochStateView { round, ..old(self)@ }),
    {
        self.round = self.round + 1;
        self.round
    }

    /// Records the proposal observed for a round.
    pub fn record_proposal(&mut self, round: u64, value: String)
        ensures
            final(self)@ == (EpochStateView {
                proposals: old(self)@.proposals.insert(round, value),
                ..old(self)@
            }),
    {
        self.proposals.insert(round, value);
        proof {
            assert(final(self)@ =~= (EpochStateView {
                proposals: old(self)@.proposals.insert(round, value),
                ..old(self)@
            }));
        }
    }

    /// Records the prevotes collected for a round.
    pub fn record_prevotes(&mut self, round: u64, votes: Vec<Option<String>>)
        ensures
            final(self)@ == (EpochStateView {
                prevotes: old(self)@.prevotes.insert(round, votes@),
                ..old(self)@
            }),
    {
        self.prevotes.insert(round, votes);
        proof {
            assert(self@.prevotes =~= old(self)@.prevotes.insert(round, votes@));
            assert(final(self)@ =~= (EpochStateView {
                prevotes: old(self)@.prevotes.insert(round, votes@),
                ..old(self)@
            }));
        }
    }

    /// The prevote this process casts for a round: the proposal it
    /// observed, or nil when none arrived in time.
    pub fn prevote_for(&self, round: u64) -> (msg: Message)
        ensures
            is_prevote_for(msg, round),
            self@.proposals.contains_key(round) ==> vote_value(msg) == Some(
                self@.proposals[round],
            ),
            !self@.proposals.contains_key(round) ==> vote_value(msg) is None,
    {
        Message::Prevote { round, value: self.proposal_for(round) }
    }

    /// Records the precommits collected for a round and applies the commit
    /// test: the round's tentative decision becomes the epoch's decision
    /// exactly when a quorum of the collected precommits matches it.
    pub fn conclude_round(
        &mut self,
        round: u64,
        tentative: Option<String>,
        precommits: Vec<Option<String>>,
    )
        ensures
            final(self)@ == (EpochStateView {
                precommits: old(self)@.precommits.insert(round, precommits@),
                decision: if count_votes(precommits@, view_opt_value(tentative)) >= QUORUM {
                    tentative
                } else {
                    old(self)@.decision
                },
                ..old(self)@
            }),
    {
        let quorum_met = Process::count_occurrences(&precommits, &tentative) >= QUORUM;
        self.precommits.insert(round, precommits);
        if quorum_met {
            self.decision = tentative;
        }
        proof {
            assert(self@.precommits =~= old(self)@.precommits.insert(round, precommits@));
            assert(final(self)@ =~= (EpochStateView {
                precommits: old(self)@.precommits.insert(round, precommits@),
                decision: if count_votes(precommits@, view_opt_value(tentative)) >= QUORUM {
                    tentative
                } else {
                    old(self)@.decision
                },
                ..old(self)@
            }));
        }
    }
}

/// How many of the votes carry the given value (with nil a value of its
/// own, distinct from every concrete value).
pub open spec fn count_votes(votes: Seq<Option<String>>, value: Option<Seq<char>>) -> nat
    decreases votes.len(),
{
    if votes.len() == 0 {
        0
    } else {
        count_votes(votes.drop_last(), value) + if view_opt_value(votes.last()) == value {
            1nat
        } else {
            0nat
        }
    }
}

/// Distinct values split the votes between them: their counts never add
/// up to more than the number of votes.
proof fn lemma_count_votes_disjoint(
    votes: Seq<Option<String>>,
    a: Option<Seq<char>>,
    b: Option<Seq<char>>,
)
    requires
        a != b,
    ensures
        count_votes(votes, a) + count_votes(votes, b) <= votes.len(),
    decreases votes.len(),
{
    if votes.len() > 0 {
        lemma_count_votes_disjoint(votes.drop_last(), a, b);
    }
}

/// At most one value can clear the quorum: whenever the tally holds fewer
/// than `2 * QUORUM` votes (as any tally of at most `NODES` processes
/// does, since `2 * QUORUM > NODES`), two values each carried by at least
/// `QUORUM` of the votes are the same value.
pub proof fn lemma_quorum_is_unique(
    votes: Seq<Option<String>>,
    a: Option<Seq<char>>,
    b: Option<Seq<char>>,
)
    requires
        votes.len() < 2 * QUORUM,
        count_votes(votes, a) >= QUORUM,
        count_votes(votes, b) >= QUORUM,
    ensures
        a == b,
{
    if a != b {
        lemma_count_votes_disjoint(votes, a, b);
    }
}

/// The round's tentative decision, scanning the votes from index `i`: the
/// first vote whose value (concrete or nil) is carried by at least `QUORUM`
/// of all the votes, or nil when no value reaches a quorum.
pub open spec fn spec_majority_from(votes: Seq<Option<String>>, i: int) -> Option<Seq<char>>
    decreases votes.len() - i,
{
    if i < 0 || i >= votes.len() {
        None
    } else if count_votes(votes, view_opt_value(votes[i])) >= QUORUM {
        view_opt_value(votes[i])
    } else {
        spec_majority_from(votes, i + 1)
    }
}

/// The round's tentative decision over all the votes.
pub open spec fn spec_majority(votes: Seq<Option<String>>) -> Option<Seq<char>> {
    spec_majority_from(votes, 0)
}

/// Whether two optional values agree, nil only matching nil.
fn vote_matches(a: &Option<String>, b: &Option<String>) -> (r: bool)
    ensures
        r == (view_opt_value(*a) == view_opt_value(*b)),
{
    match (a, b) {
        (None, None) => true,
        (Some(x), Some(y)) => *x == *y,
        _ => false,
    }
}

/// A process running the consensus algorithm: its identity and keypair,
/// the static proposer rotation, its event source, and the append-only log
/// of values it has committed.
pub struct Process {
    pub id: usize,
    pub keypair: Keypair,
    pub proposer_sequence: Vec<usize>,
    pub events: EventSystem<Event>,
    pub decisions: Vec<String>,
}

impl Process {
    /// A process is well formed when its keypair is and its proposer
    /// rotation is non-empty.
    pub open spec fn wf(&self) -> bool {
        &&& self.keypair.wf()
        &&& self.proposer_sequence@.len() > 0
    }

    /// Creates a process with an empty decision log.
    pub fn new(id: usize, keypair: Keypair, proposer_sequence: Vec<usize>) -> (process: Process)
        requires
            keypair.wf(),
            proposer_sequence@.len() > 0,
        ensures
            process.wf(),
            process.id == id,
            process.keypair == keypair,
            process.proposer_sequence@ == proposer_sequence@,
            process.decisions@ == Seq::<String>::empty(),
    {
        Process {
            id,
            keypair,
            proposer_sequence,
            events: EventSystem::new(),
            decisions: Vec::new(),
        }
    }

    /// Subscribes to the consensus event stream: the receiver observes
    /// every event published from now on.
    pub fn subscribe(&self) -> tokio::sync::broadcast::Receiver<Event> {
        self.events.subscribe()
    }

    /// The proposer this process expects for a round.
    pub fn proposer_for(&self, round: u64) -> (proposer: usize)
        requires
            self.wf(),
            round >= 1,
        ensures
            proposer == proposer_for_round_spec(round as int, self.proposer_sequence@),
    {
        get_proposer_for_round(round, self.proposer_sequence.as_slice())
    }

    /// Whether this process is the proposer for a round.
    pub fn is_proposer(&self, round: u64) -> (r: bool)
        requires
            self.wf(),
            round >= 1,
        ensures
            r == (self.id == proposer_for_round_spec(round as int, self.proposer_sequence@)),
    {
        self.id == self.proposer_for(round)
    }

    /// Signs a message body with this process's keypair.
    pub fn sign_message(&self, message: Message) -> (signed: SignedMessage)
        requires
            self.wf(),
        ensures
            signed.body == message,
            signed.sender@ == self.keypair.public(),
            signed.is_authentic(),
    {
        SignedMessage::new(message, &self.keypair)
    }

    /// The proposer's opening step of a round: records its own value and
    /// hands back the `Propose` message to broadcast.
    pub fn make_proposal(&self, state: &mut EpochState, round: u64, value: String) -> (msg: Message)
        ensures
            final(state)@ == (EpochStateView {
                proposals: old(state)@.proposals.insert(round, value),
                ..old(state)@
            }),
            msg == (Message::Propose { round, value }),
    {
        let broadcast_value = value.clone();
        state.record_proposal(round, value);
        Message::Propose { round, value: broadcast_value }
    }

    /// Offers a received envelope as the proposal of a round.  Records it
    /// and reports completion exactly when the envelope is authentic and
    /// carries a `Propose` for this round; everything else leaves the state
    /// unchanged.
    pub fn accept_proposal(state: &mut EpochState, round: u64, msg: &SignedMessage) -> (accepted:
        bool)
        ensures
            accepted == (msg.is_authentic() && is_propose_for(msg.body, round)),
            accepted ==> final(state)@ == (EpochStateView {
                proposals: old(state)@.proposals.insert(round, propose_value(msg.body)),
                ..old(state)@
            }),
            !accepted ==> final(state)@ == old(state)@,
    {
        if !msg.verify() {
            return false;
        }
        match &msg.body {
            Message::Propose { round: r, value } => {
                if *r == round {
                    state.record_proposal(round, value.clone());
                    true
                } else {
                    false
                }
            },
            _ => false,
        }
    }

    /// Offers a received envelope to the prevote tally of a round.  The
    /// vote joins the tally exactly when the envelope is authentic and
    /// carries a `Prevote` for this round; the result reports whether the
    /// tally has reached a quorum and collection may stop.
    pub fn tally_prevote(prevotes: &mut Vec<Option<String>>, round: u64, msg: &SignedMessage) -> (done:
        bool)
        ensures
            msg.is_authentic() && is_prevote_for(msg.body, round)
                ==> final(prevotes)@ == old(prevotes)@ + seq![vote_value(msg.body)],
            !(msg.is_authentic() && is_prevote_for(msg.body, round))
                ==> final(prevotes)@ == old(prevotes)@,
            done == (msg.is_authentic() && is_prevote_for(msg.body, round) && final(prevotes)@.len()
                >= QUORUM),
    {
        if !msg.verify() {
            return false;
        }
        match &msg.body {
            Message::Prevote { round: r, value } => {
                if *r == round {
                    prevotes.push(clone_opt_string(value));
                    prevotes.len() >= QUORUM
                } else {
                    false
                }
            },
            _ => false,
        }
    }

    /// Offers a received envelope to the precommit tally of a round, under
    /// the same rule as `tally_prevote`.
    pub fn tally_precommit(
        precommits: &mut Vec<Option<String>>,
        round: u64,
        msg: &SignedMessage,
    ) -> (done: bool)
        ensures
            msg.is_authentic() && is_precommit_for(msg.body, round)
                ==> final(precommits)@ == old(precommits)@ + seq![vote_value(msg.body)],
            !(msg.is_authentic() && is_precommit_for(msg.body, round))
                ==> final(precommits)@ == old(precommits)@,
            done == (msg.is_authentic() && is_precommit_for(msg.body, round)
                && final(precommits)@.len() >= QUORUM),
    {
        if !msg.verify() {
            return false;
        }
        match &msg.body {
            Message::Precommit { round: r, value } => {
                if *r == round {
                    precommits.push(clone_opt_string(value));
                    precommits.len() >= QUORUM
                } else {
                    false
                }
            },
            _ => false,
        }
    }

    /// Counts the votes that agree with `decision`, nil only matching nil.
    pub fn count_occurrences(precommits: &Vec<Option<String>>, decision: &Option<String>) -> (count:
        usize)
        ensures
            count == count_votes(precommits@, view_opt_value(*decision)),
    {
        let n = precommits.len();
        let mut count: usize = 0;
        for i in 0..n
            invariant
                n == precommits@.len(),
                count <= i,
                count == count_votes(precommits@.take(i as int), view_opt_value(*decision)),
        {
            if vote_matches(&precommits[i], decision) {
                count = count + 1;
            }
            proof {
                assert(precommits@.take(i + 1).drop_last() =~= precommits@.take(i as int));
                assert(precommits@.take(i + 1).last() == precommits@[i as int]);
            }
        }
        proof {
            assert(precommits@.take(n as int) =~= precommits@);
        }
        count
    }

    /// Tallies the collected prevotes: the first vote whose value (concrete
    /// or nil) is carried by at least `QUORUM` of them is the round's
    /// tentative decision; when no value reaches a quorum the tentative
    /// decision is nil.
    pub fn majority_decision(prevotes: &Vec<Option<String>>) -> (decision: Option<String>)
        ensures
            view_opt_value(decision) == spec_majority(prevotes@),
            decision matches Some(v) ==> count_votes(prevotes@, Some(v@)) >= QUORUM,
    {
        let n = prevotes.len();
        for i in 0..n
            invariant
                n == prevotes@.len(),
                spec_majority(prevotes@) == spec_majority_from(prevotes@, i as int),
        {
            if Self::count_occurrences(prevotes, &prevotes[i]) >= QUORUM {
                return clone_opt_string(&prevotes[i]);
            }
        }
        None
    }

    /// The epoch's closing step: when the state carries a decision, steps
    /// the height, appends the value to this process's decision log, and
    /// publishes the `Decision` event; reports whether it did.
    pub fn commit_decision(&mut self, state: &mut EpochState) -> (committed: bool)
        requires
            old(self).wf(),
            old(state)@.height < u64::MAX,
        ensures
            final(self).wf(),
            final(self).id == old(self).id,
            final(self).keypair == old(self).keypair,
            final(self).proposer_sequence@ == old(self).proposer_sequence@,
            committed == (old(state)@.decision is Some),
            committed ==> (old(state)@.decision matches Some(v) && final(state)@ == (EpochStateView {
                height: (old(state)@.height + 1) as u64,
                ..old(state)@
            }) && final(self).decisions@ == old(self).decisions@ + seq![v]),
            !committed ==> final(state)@ == old(state)@
                && final(self).decisions@ == old(self).decisions@,
    {
        match clone_opt_string(&state.decision) {
            Some(value) => {
                state.height = state.height + 1;
                self.decisions.push(value.clone());
                self.events.publish(
                    Event::Decision {
                        height: state.height,
                        round: state.round,
                        value,
                        from: self.id,
                    },
                );
                true
            },
            None => false,
        }
    }
}

} // verus!
