use tendermint::codec::encode;
use tendermint::messages::Message;

fn propose(round: u64, value: &str) -> Message {
    Message::Propose { round, value: value.to_string() }
}

fn prevote(round: u64, value: Option<&str>) -> Message {
    Message::Prevote { round, value: value.map(|v| v.to_string()) }
}

fn precommit(round: u64, value: Option<&str>) -> Message {
    Message::Precommit { round, value: value.map(|v| v.to_string()) }
}

#[test]
fn encoding_is_deterministic() {
    let bytes1 = encode(&propose(7, "hello"));
    let bytes2 = encode(&propose(7, "hello"));
    assert_eq!(bytes1, bytes2);

    let nil1 = encode(&prevote(3, None));
    let nil2 = encode(&prevote(3, None));
    assert_eq!(nil1, nil2);
}

#[test]
fn exact_bytes_of_a_propose() {
    // tag 0, round 1 as 8 little-endian bytes, value length 1 as 8
    // little-endian bytes, then the UTF-8 byte of "A".
    let bytes = encode(&propose(1, "A"));
    assert_eq!(
        bytes,
        vec![0u8, 1, 0, 0, 0, 0, 0, 0, 0, 1, 0, 0, 0, 0, 0, 0, 0, 0x41]
    );
}

#[test]
fn exact_bytes_of_a_nil_prevote() {
    // tag 1, round 2, then a single 0 presence byte for nil.
    let bytes = encode(&prevote(2, None));
    assert_eq!(bytes, vec![1u8, 2, 0, 0, 0, 0, 0, 0, 0, 0]);
}

#[test]
fn exact_bytes_of_a_concrete_precommit() {
    // tag 2, round 2, presence byte 1, length 2, then "42" in UTF-8.
    let bytes = encode(&precommit(2, Some("42")));
    assert_eq!(
        bytes,
        vec![2u8, 2, 0, 0, 0, 0, 0, 0, 0, 1, 2, 0, 0, 0, 0, 0, 0, 0, 0x34, 0x32]
    );
}

#[test]
fn different_messages_encode_differently() {
    let samples = vec![
        encode(&propose(1, "a")),
        encode(&propose(2, "a")),
        encode(&propose(1, "b")),
        encode(&propose(1, "")),
        encode(&prevote(1, Some("a"))),
        encode(&prevote(1, Some(""))),
        encode(&prevote(1, None)),
        encode(&prevote(2, None)),
        encode(&precommit(1, Some("a"))),
        encode(&precommit(1, None)),
    ];
    for i in 0..samples.len() {
        for j in 0..samples.len() {
            if i != j {
                assert_ne!(samples[i], samples[j]);
            }
        }
    }
}

#[test]
fn multibyte_characters_round_their_length() {
    // A two-byte UTF-8 character: the length prefix counts bytes, not
    // characters.
    let bytes = encode(&propose(1, "é"));
    assert_eq!(bytes[9], 2);
    assert_eq!(bytes.len(), 1 + 8 + 8 + 2);
}
