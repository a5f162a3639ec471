use tendermint::algos::{get_proposer_for_round, get_timeout_for_round};

#[test]
fn round_robin_rotation() {
    let sequence: Vec<usize> = vec![0, 1, 2, 3];
    for round in 1u64..=12 {
        let expected = ((round - 1) % 4) as usize;
        assert_eq!(get_proposer_for_round(round, &sequence), expected);
    }
}

#[test]
fn rotation_is_periodic_in_the_sequence_length() {
    let sequence: Vec<usize> = vec![5, 9, 7];
    for round in 1u64..=9 {
        assert_eq!(
            get_proposer_for_round(round, &sequence),
            get_proposer_for_round(round + 3, &sequence)
        );
    }
}

#[test]
fn rotation_follows_an_arbitrary_sequence() {
    let sequence: Vec<usize> = vec![2, 0];
    assert_eq!(get_proposer_for_round(1, &sequence), 2);
    assert_eq!(get_proposer_for_round(2, &sequence), 0);
    assert_eq!(get_proposer_for_round(3, &sequence), 2);
}

#[test]
fn timeout_is_fixed_per_round() {
    assert_eq!(get_timeout_for_round(1), 1000);
    assert_eq!(get_timeout_for_round(2), 1000);
    assert_eq!(get_timeout_for_round(100), 1000);
}
