use tendermint::crypto::ECDSAKeypair;
use tendermint::events::EventSystem;
use tendermint::messages::{Message, MessageType, SignedMessage};
use tendermint::params::{F, NODES, QUORUM};
use tendermint::process::{EpochState, Event, Process};

fn votes(values: &[Option<&str>]) -> Vec<Option<String>> {
    values.iter().map(|v| v.map(|s| s.to_string())).collect()
}

#[test]
fn quorum_parameters() {
    assert_eq!(NODES, 5);
    assert_eq!(F, 1);
    assert_eq!(QUORUM, 2 * F + 1);
}

#[test]
fn majority_decision_reaches_quorum() {
    // N=5, f=1, QUORUM=3: three votes for A decide A.
    let prevotes = votes(&[Some("A"), Some("A"), Some("A"), Some("B"), None]);
    assert_eq!(Process::majority_decision(&prevotes), Some("A".to_string()));
}

#[test]
fn majority_decision_without_quorum_is_nil() {
    // No value reaches three votes.
    let prevotes = votes(&[Some("A"), Some("A"), Some("B"), Some("B"), None]);
    assert_eq!(Process::majority_decision(&prevotes), None);
}

#[test]
fn majority_decision_counts_nil_as_a_value() {
    // Three nil votes form a quorum for nil, which still yields no value.
    let prevotes = votes(&[None, None, None, Some("A"), Some("A")]);
    assert_eq!(Process::majority_decision(&prevotes), None);
}

#[test]
fn majority_decision_of_no_votes_is_nil() {
    // A phase that timed out with nothing collected decides nothing.
    assert_eq!(Process::majority_decision(&Vec::new()), None);
    assert_eq!(Process::count_occurrences(&Vec::new(), &None), 0);
}

#[test]
fn majority_decision_at_the_quorum_boundary() {
    // Two matching votes are one short of QUORUM = 3.
    let two = votes(&[Some("A"), Some("A")]);
    assert_eq!(Process::majority_decision(&two), None);
    // Exactly three suffice.
    let three = votes(&[Some("A"), Some("A"), Some("A")]);
    assert_eq!(Process::majority_decision(&three), Some("A".to_string()));
}

#[test]
fn count_occurrences_distinguishes_nil() {
    let precommits = votes(&[Some("A"), None, Some("A"), Some("B"), None]);
    assert_eq!(Process::count_occurrences(&precommits, &Some("A".to_string())), 2);
    assert_eq!(Process::count_occurrences(&precommits, &Some("B".to_string())), 1);
    assert_eq!(Process::count_occurrences(&precommits, &None), 2);
    assert_eq!(Process::count_occurrences(&precommits, &Some("C".to_string())), 0);
}

#[test]
fn message_type_matches_filters_by_kind() {
    let propose = Message::Propose { round: 1, value: "v".to_string() };
    let prevote = Message::Prevote { round: 1, value: None };
    let precommit = Message::Precommit { round: 1, value: None };

    assert!(MessageType::Propose.matches(&propose));
    assert!(!MessageType::Propose.matches(&prevote));
    assert!(!MessageType::Propose.matches(&precommit));
    assert!(MessageType::Prevote.matches(&prevote));
    assert!(!MessageType::Prevote.matches(&propose));
    assert!(MessageType::Precommit.matches(&precommit));
    assert!(!MessageType::Precommit.matches(&prevote));
}

fn four_processes() -> Vec<Process> {
    let sequence: Vec<usize> = vec![0, 1, 2, 3];
    (0..4)
        .map(|id| Process::new(id, ECDSAKeypair::new(), sequence.clone()))
        .collect()
}

/// End-to-end: four processes, f=1, QUORUM=3, round-robin [0,1,2,3].
/// Process 0 proposes "42" in round 1, everyone prevotes and precommits
/// it, and every process commits "42" and publishes exactly one
/// Decision event.
#[test]
fn four_processes_decide_in_round_one() {
    let mut processes = four_processes();
    let mut subscribers: Vec<_> = processes.iter().map(|p| p.subscribe()).collect();
    let mut states: Vec<EpochState> = (0..4).map(|_| EpochState::initial()).collect();

    // Round 1 begins on every process.
    for state in states.iter_mut() {
        assert_eq!(state.begin_round(), 1);
    }
    let round = 1u64;

    // Everyone agrees process 0 proposes.
    for p in &processes {
        assert_eq!(p.proposer_for(round), 0);
    }
    assert!(processes[0].is_proposer(round));
    assert!(!processes[1].is_proposer(round));

    // Propose phase: process 0 records its own value and broadcasts.
    let proposal = processes[0].make_proposal(&mut states[0], round, "42".to_string());
    let signed_proposal = processes[0].sign_message(proposal);
    for i in 1..4 {
        let accepted = Process::accept_proposal(&mut states[i], round, &signed_proposal);
        assert!(accepted);
        assert_eq!(states[i].proposal_for(round), Some("42".to_string()));
    }

    // Prevote phase: everyone broadcasts the proposal it observed.
    let signed_prevotes: Vec<SignedMessage> = (0..4)
        .map(|i| processes[i].sign_message(states[i].prevote_for(round)))
        .collect();
    let mut tallies: Vec<Vec<Option<String>>> = (0..4).map(|_| Vec::new()).collect();
    for i in 0..4 {
        for j in 0..4 {
            if i != j {
                Process::tally_prevote(&mut tallies[i], round, &signed_prevotes[j]);
            }
        }
        assert_eq!(tallies[i].len(), 3);
        assert!(tallies[i].iter().all(|v| *v == Some("42".to_string())));
    }

    // Each process reaches the tentative decision "42" and precommits it.
    let mut decisions: Vec<Option<String>> = Vec::new();
    for i in 0..4 {
        let tentative = Process::majority_decision(&tallies[i]);
        assert_eq!(tentative, Some("42".to_string()));
        decisions.push(tentative);
    }
    let signed_precommits: Vec<SignedMessage> = (0..4)
        .map(|i| {
            processes[i].sign_message(Message::Precommit {
                round,
                value: decisions[i].clone(),
            })
        })
        .collect();

    // Precommit phase and commit test.
    for i in 0..4 {
        let mut precommits: Vec<Option<String>> = Vec::new();
        for j in 0..4 {
            if i != j {
                Process::tally_precommit(&mut precommits, round, &signed_precommits[j]);
            }
        }
        assert_eq!(precommits.len(), 3);
        states[i].record_prevotes(round, std::mem::take(&mut tallies[i]));
        states[i].conclude_round(round, decisions[i].clone(), precommits);
        assert_eq!(states[i].decision(), Some("42".to_string()));
    }

    // Every process commits height 1 and publishes exactly one event.
    for i in 0..4 {
        assert!(processes[i].commit_decision(&mut states[i]));
        assert_eq!(states[i].height(), 1);
        assert_eq!(processes[i].decisions, vec!["42".to_string()]);

        match subscribers[i].try_recv().unwrap() {
            Event::Decision { height, round, value, from } => {
                assert_eq!(height, 1);
                assert_eq!(round, 1);
                assert_eq!(value, "42");
                assert_eq!(from, i);
            }
        }
        assert!(subscribers[i].try_recv().is_err());
    }
}

/// Timeout scenario: the round-1 proposer is unreachable, so the other
/// processes observe no proposal, prevote nil, reach no quorum, fail to
/// decide, and move to round 2 where a different process proposes.
#[test]
fn unreachable_proposer_forces_round_two() {
    let mut processes = four_processes();
    let mut states: Vec<EpochState> = (0..4).map(|_| EpochState::initial()).collect();

    for state in states.iter_mut() {
        assert_eq!(state.begin_round(), 1);
    }
    let round = 1u64;
    assert_eq!(processes[0].proposer_for(round), 0);

    // Process 0 is unreachable: nothing it sends is delivered.  The other
    // processes time out waiting and have no proposal recorded.
    for i in 1..4 {
        assert_eq!(states[i].proposal_for(round), None);
    }

    // They prevote nil and exchange prevotes among themselves.
    let signed_prevotes: Vec<SignedMessage> = (1..4)
        .map(|i| {
            let msg = states[i].prevote_for(round);
            assert!(matches!(msg, Message::Prevote { round: 1, value: None }));
            processes[i].sign_message(msg)
        })
        .collect();

    for i in 1..4usize {
        let mut tally: Vec<Option<String>> = Vec::new();
        for j in 1..4usize {
            if i != j {
                let done = Process::tally_prevote(&mut tally, round, &signed_prevotes[j - 1]);
                assert!(!done); // two votes never reach QUORUM = 3
            }
        }
        assert_eq!(tally.len(), 2);

        // Two nil votes are no quorum: the tentative decision is nil.
        let tentative = Process::majority_decision(&tally);
        assert_eq!(tentative, None);

        // Precommit phase: two nil precommits are no quorum either.
        let precommits = votes(&[None, None]);
        states[i].record_prevotes(round, tally);
        states[i].conclude_round(round, tentative, precommits);
        assert_eq!(states[i].decision(), None);
    }

    // No decision: the epoch moves to round 2 under a different proposer.
    for i in 1..4 {
        assert!(!processes[i].commit_decision(&mut states[i]));
    }
    for state in states.iter_mut().skip(1) {
        assert_eq!(state.begin_round(), 2);
    }
    assert_eq!(processes[1].proposer_for(2), 1);
}

/// A forged envelope (signed by a different keypair than the claimed
/// sender) is discarded and never contributes to a tally.
#[test]
fn forged_message_does_not_reach_the_tally() {
    let keypair = ECDSAKeypair::new();
    let other = ECDSAKeypair::new();
    let round = 1u64;

    let body = Message::Prevote { round, value: Some("evil".to_string()) };
    let signed_by_other = SignedMessage::new(body.clone(), &other);
    let forged = SignedMessage {
        body,
        signature: signed_by_other.signature.clone(),
        sender: keypair.get_public_key(),
    };
    assert!(!forged.verify());

    let mut tally: Vec<Option<String>> = votes(&[Some("42"), Some("42")]);
    let done = Process::tally_prevote(&mut tally, round, &forged);
    assert!(!done);
    assert_eq!(tally.len(), 2); // the tally is unaffected
    assert!(tally.iter().all(|v| *v == Some("42".to_string())));

    let mut precommit_tally: Vec<Option<String>> = Vec::new();
    let forged_precommit = SignedMessage {
        body: Message::Precommit { round, value: Some("evil".to_string()) },
        signature: signed_by_other.signature.clone(),
        sender: keypair.get_public_key(),
    };
    assert!(!Process::tally_precommit(&mut precommit_tally, round, &forged_precommit));
    assert_eq!(precommit_tally.len(), 0);
}

/// A genuine envelope for the wrong round or phase is skipped without
/// joining the tally.
#[test]
fn wrong_round_or_phase_is_skipped() {
    let keypair = ECDSAKeypair::new();
    let round = 1u64;
    let mut tally: Vec<Option<String>> = Vec::new();

    let wrong_round =
        SignedMessage::new(Message::Prevote { round: 2, value: Some("42".to_string()) }, &keypair);
    assert!(wrong_round.verify());
    assert!(!Process::tally_prevote(&mut tally, round, &wrong_round));
    assert_eq!(tally.len(), 0);

    let wrong_phase =
        SignedMessage::new(Message::Precommit { round, value: Some("42".to_string()) }, &keypair);
    assert!(!Process::tally_prevote(&mut tally, round, &wrong_phase));
    assert_eq!(tally.len(), 0);
}

/// Subscribing twice yields two independent streams: one published event
/// is delivered to both subscribers exactly once each.
#[test]
fn two_subscribers_each_receive_the_event_once() {
    let events: EventSystem<Event> = EventSystem::new();
    let mut first = events.subscribe();
    let mut second = events.subscribe();

    events.publish(Event::Decision {
        height: 1,
        round: 1,
        value: "42".to_string(),
        from: 0,
    });

    for subscriber in [&mut first, &mut second] {
        match subscriber.try_recv().unwrap() {
            Event::Decision { height, round, value, from } => {
                assert_eq!(height, 1);
                assert_eq!(round, 1);
                assert_eq!(value, "42");
                assert_eq!(from, 0);
            }
        }
        assert!(subscriber.try_recv().is_err());
    }
}

/// A subscriber that arrives after an event was published does not see
/// history.
#[test]
fn subscription_does_not_replay_history() {
    let events: EventSystem<Event> = EventSystem::new();
    let mut early = events.subscribe();
    events.publish(Event::Decision {
        height: 1,
        round: 1,
        value: "old".to_string(),
        from: 0,
    });
    let mut late = events.subscribe();
    assert!(early.try_recv().is_ok());
    assert!(late.try_recv().is_err());
}
