//! Canonical byte encoding of message bodies.
//!
//! Signatures cover these bytes, so the encoding must be deterministic and
//! unique per distinct message: two semantically equal bodies always
//! serialize identically, and two different bodies never collide
//! (`lemma_encode_injective`).  The layout is a one-byte variant tag, the
//! round as eight little-endian bytes, then the value: its UTF-8 bytes
//! preceded by their count as eight little-endian bytes, with one leading
//! presence byte for the optional vote values.

use vstd::bytes::*;
use vstd::prelude::*;
use vstd::utf8::*;

use crate::messages::{Message, MessageView};

verus! {

/// Canonical bytes of a concrete string value: the UTF-8 bytes of the
/// string, preceded by their count.
pub open spec fn spec_encode_value(value: Seq<char>) -> Seq<u8> {
    spec_u64_to_le_bytes(encode_utf8(value).len() as u64) + encode_utf8(value)
}

/// Canonical bytes of an optional value: `0` for nil, else `1` followed by
/// the value.
pub open spec fn spec_encode_opt(value: Option<Seq<char>>) -> Seq<u8> {
    match value {
        None => seq![0u8],
        Some(v) => seq![1u8] + spec_encode_value(v),
    }
}

/// Canonical encoding of a message body.
pub open spec fn spec_encode(m: MessageView) -> Seq<u8> {
    match m {
        MessageView::Propose { round, value } => seq![0u8] + spec_u64_to_le_bytes(round)
            + spec_encode_value(value),
        MessageView::Prevote { round, value } => seq![1u8] + spec_u64_to_le_bytes(round)
            + spec_encode_opt(value),
        MessageView::Precommit { round, value } => seq![2u8] + spec_u64_to_le_bytes(round)
            + spec_encode_opt(value),
    }
}

/// Appends every byte of `src` to `dst`, in order.
pub(crate) fn push_all(dst: &mut Vec<u8>, src: &[u8])
    ensures
        final(dst)@ == old(dst)@ + src@,
{
    let n = src.len();
    for i in 0..n
        invariant
            n == src@.len(),
            dst@ == old(dst)@ + src@.subrange(0, i as int),
    {
        dst.push(src[i]);
        assert(src@.subrange(0, i + 1) == src@.subrange(0, i as int) + seq![src@[i as int]]);
    }
    assert(src@.subrange(0, n as int) == src@);
}

/// Appends the eight little-endian bytes of `x` to `dst`.
fn push_u64(dst: &mut Vec<u8>, x: u64)
    ensures
        final(dst)@ == old(dst)@ + spec_u64_to_le_bytes(x),
{
    let le = u64_to_le_bytes(x);
    push_all(dst, le.as_slice());
}

/// Appends the canonical bytes of a concrete string value to `dst`.
fn push_value(dst: &mut Vec<u8>, value: &String)
    ensures
        final(dst)@ == old(dst)@ + spec_encode_value(value@),
{
    let bytes = value.as_str().as_bytes();
    push_u64(dst, bytes.len() as u64);
    push_all(dst, bytes);
    assert(dst@ == old(dst)@ + spec_encode_value(value@));
}

/// Appends the canonical bytes of an optional value to `dst`.
fn push_opt_value(dst: &mut Vec<u8>, value: &Option<String>)
    ensures
        final(dst)@ == old(dst)@ + spec_encode_opt(crate::messages::view_opt_value(*value)),
{
    match value {
        None => {
            dst.push(0u8);
            assert(dst@ == old(dst)@ + seq![0u8]);
        },
        Some(v) => {
            dst.push(1u8);
            assert(dst@ == old(dst)@ + seq![1u8]);
            push_value(dst, v);
        },
    }
}

/// Serializes a message body into its canonical byte encoding.
pub fn encode(m: &Message) -> (bytes: Vec<u8>)
    ensures
        bytes@ == spec_encode(m@),
{
    let mut bytes: Vec<u8> = Vec::new();
    match m {
        Message::Propose { round, value } => {
            bytes.push(0u8);
            assert(bytes@ == seq![0u8]);
            push_u64(&mut bytes, *round);
            push_value(&mut bytes, value);
        },
        Message::Prevote { round, value } => {
            bytes.push(1u8);
            assert(bytes@ == seq![1u8]);
            push_u64(&mut bytes, *round);
            push_opt_value(&mut bytes, value);
        },
        Message::Precommit { round, value } => {
            bytes.push(2u8);
            assert(bytes@ == seq![2u8]);
            push_u64(&mut bytes, *round);
            push_opt_value(&mut bytes, value);
        },
    }
    bytes
}

/// Splitting equal concatenations at the same offset yields equal parts.
proof fn lemma_concat_parts(a1: Seq<u8>, b1: Seq<u8>, a2: Seq<u8>, b2: Seq<u8>)
    requires
        a1 + b1 == a2 + b2,
        a1.len() == a2.len(),
    ensures
        a1 == a2,
        b1 == b2,
{
    assert((a1 + b1).len() == a1.len() + b1.len());
    assert((a2 + b2).len() == a2.len() + b2.len());
    assert(b1.len() == b2.len());
    assert forall|i: int| 0 <= i < a1.len() implies a1[i] == a2[i] by {
        assert((a1 + b1)[i] == a1[i]);
        assert((a2 + b2)[i] == a2[i]);
    }
    assert(a1 =~= a2);
    assert forall|i: int| 0 <= i < b1.len() implies b1[i] == b2[i] by {
        assert((a1 + b1)[a1.len() + i] == b1[i]);
        assert((a2 + b2)[a2.len() + i] == b2[i]);
    }
    assert(b1 =~= b2);
}

/// The value encoding is injective.
proof fn lemma_encode_value_inj(v1: Seq<char>, v2: Seq<char>)
    requires
        spec_encode_value(v1) == spec_encode_value(v2),
    ensures
        v1 == v2,
{
    lemma_auto_spec_u64_to_from_le_bytes();
    lemma_concat_parts(
        spec_u64_to_le_bytes(encode_utf8(v1).len() as u64),
        encode_utf8(v1),
        spec_u64_to_le_bytes(encode_utf8(v2).len() as u64),
        encode_utf8(v2),
    );
    encode_utf8_decode_utf8(v1);
    encode_utf8_decode_utf8(v2);
}

/// The optional-value encoding is injective.
proof fn lemma_encode_opt_inj(o1: Option<Seq<char>>, o2: Option<Seq<char>>)
    requires
        spec_encode_opt(o1) == spec_encode_opt(o2),
    ensures
        o1 == o2,
{
    match (o1, o2) {
        (None, None) => {},
        (Some(v1), Some(v2)) => {
            lemma_concat_parts(seq![1u8], spec_encode_value(v1), seq![1u8], spec_encode_value(v2));
            lemma_encode_value_inj(v1, v2);
        },
        (None, Some(v2)) => {
            assert(spec_encode_opt(o1)[0] == 0u8);
            assert(spec_encode_opt(o2)[0] == 1u8);
        },
        (Some(v1), None) => {
            assert(spec_encode_opt(o1)[0] == 1u8);
            assert(spec_encode_opt(o2)[0] == 0u8);
        },
    }
}

/// The head, round bytes, and tail of one message encoding.
proof fn lemma_encode_shape(m: MessageView)
    ensures
        spec_encode(m) == seq![spec_tag(m)] + spec_u64_to_le_bytes(spec_round(m)) + spec_rest(m),
        spec_encode(m)[0] == spec_tag(m),
{
    lemma_auto_spec_u64_to_from_le_bytes();
    assert(spec_encode(m) =~= seq![spec_tag(m)] + spec_u64_to_le_bytes(spec_round(m))
        + spec_rest(m));
}

/// The variant tag byte of a message encoding.
spec fn spec_tag(m: MessageView) -> u8 {
    match m {
        MessageView::Propose { .. } => 0u8,
        MessageView::Prevote { .. } => 1u8,
        MessageView::Precommit { .. } => 2u8,
    }
}

/// The round carried by a message body.
spec fn spec_round(m: MessageView) -> u64 {
    match m {
        MessageView::Propose { round, .. } => round,
        MessageView::Prevote { round, .. } => round,
        MessageView::Precommit { round, .. } => round,
    }
}

/// The value bytes of a message encoding, after the tag and round bytes.
spec fn spec_rest(m: MessageView) -> Seq<u8> {
    match m {
        MessageView::Propose { value, .. } => spec_encode_value(value),
        MessageView::Prevote { value, .. } => spec_encode_opt(value),
        MessageView::Precommit { value, .. } => spec_encode_opt(value),
    }
}

/// Canonical encoding is injective: two message bodies that differ in any
/// field produce different byte sequences.  (That identical bodies produce
/// identical bytes is immediate, since the encoding is a function of the
/// body.)
pub proof fn lemma_encode_injective(m1: MessageView, m2: MessageView)
    requires
        spec_encode(m1) == spec_encode(m2),
    ensures
        m1 == m2,
{
    lemma_auto_spec_u64_to_from_le_bytes();
    lemma_encode_shape(m1);
    lemma_encode_shape(m2);
    assert(spec_tag(m1) == spec_tag(m2));
    assert(seq![spec_tag(m1)] + spec_u64_to_le_bytes(spec_round(m1)) + spec_rest(m1) =~= seq![
        spec_tag(m1),
    ] + (spec_u64_to_le_bytes(spec_round(m1)) + spec_rest(m1)));
    assert(seq![spec_tag(m2)] + spec_u64_to_le_bytes(spec_round(m2)) + spec_rest(m2) =~= seq![
        spec_tag(m2),
    ] + (spec_u64_to_le_bytes(spec_round(m2)) + spec_rest(m2)));
    lemma_concat_parts(
        seq![spec_tag(m1)],
        spec_u64_to_le_bytes(spec_round(m1)) + spec_rest(m1),
        seq![spec_tag(m2)],
        spec_u64_to_le_bytes(spec_round(m2)) + spec_rest(m2),
    );
    lemma_concat_parts(
        spec_u64_to_le_bytes(spec_round(m1)),
        spec_rest(m1),
        spec_u64_to_le_bytes(spec_round(m2)),
        spec_rest(m2),
    );
    assert(spec_round(m1) == spec_round(m2));
    match (m1, m2) {
        (MessageView::Propose { value: v1, .. }, MessageView::Propose { value: v2, .. }) => {
            lemma_encode_value_inj(v1, v2);
        },
        (MessageView::Prevote { value: o1, .. }, MessageView::Prevote { value: o2, .. }) => {
            lemma_encode_opt_inj(o1, o2);
        },
        (MessageView::Precommit { value: o1, .. }, MessageView::Precommit { value: o2, .. }) => {
            lemma_encode_opt_inj(o1, o2);
        },
        _ => {},
    }
}

} // verus!
