//! Protocol messages and the signed envelope that authenticates them.

use vstd::prelude::*;

use crate::codec;
use crate::crypto::{sig_of, verifies, Keypair, PublicKey, Signature};

verus! {

/// A protocol message body.
///
/// `Propose` always carries a concrete value; the vote messages carry
/// `None` ("nil") when no valid proposal was observed or no quorum was
/// reached.
#[derive(Debug)]
pub enum Message {
    Propose { round: u64, value: String },
    Prevote { round: u64, value: Option<String> },
    Precommit { round: u64, value: Option<String> },
}

/// The mathematical shape of a message body: rounds as integers, values as
/// character sequences.
pub enum MessageView {
    Propose { round: u64, value: Seq<char> },
    Prevote { round: u64, value: Option<Seq<char>> },
    Precommit { round: u64, value: Option<Seq<char>> },
}

/// The character sequence of an optional string value.
pub open spec fn view_opt_value(value: Option<String>) -> Option<Seq<char>> {
    match value {
        Some(v) => Some(v@),
        None => None,
    }
}

impl View for Message {
    type V = MessageView;

    open spec fn view(&self) -> MessageView {
        match self {
            Message::Propose { round, value } => MessageView::Propose {
                round: *round,
                value: value@,
            },
            Message::Prevote { round, value } => MessageView::Prevote {
                round: *round,
                value: view_opt_value(*value),
            },
            Message::Precommit { round, value } => MessageView::Precommit {
                round: *round,
                value: view_opt_value(*value),
            },
        }
    }
}

/// Clones an optional string value.
pub fn clone_opt_string(value: &Option<String>) -> (res: Option<String>)
    ensures
        res == *value,
{
    match value {
        Some(v) => Some(v.clone()),
        None => None,
    }
}

impl Clone for Message {
    fn clone(&self) -> (res: Self)
        ensures
            res == *self,
    {
        match self {
            Message::Propose { round, value } => Message::Propose {
                round: *round,
                value: value.clone(),
            },
            Message::Prevote { round, value } => Message::Prevote {
                round: *round,
                value: clone_opt_string(value),
            },
            Message::Precommit { round, value } => Message::Precommit {
                round: *round,
                value: clone_opt_string(value),
            },
        }
    }
}

/// Whether `m` is a `Propose` for the given round.
pub open spec fn is_propose_for(m: Message, round: u64) -> bool {
    match m {
        Message::Propose { round: r, .. } => r == round,
        _ => false,
    }
}

/// Whether `m` is a `Prevote` for the given round.
pub open spec fn is_prevote_for(m: Message, round: u64) -> bool {
    match m {
        Message::Prevote { round: r, .. } => r == round,
        _ => false,
    }
}

/// Whether `m` is a `Precommit` for the given round.
pub open spec fn is_precommit_for(m: Message, round: u64) -> bool {
    match m {
        Message::Precommit { round: r, .. } => r == round,
        _ => false,
    }
}

/// The concrete value carried by a `Propose`.
pub open spec fn propose_value(m: Message) -> String
    recommends
        m is Propose,
{
    match m {
        Message::Propose { value, .. } => value,
        _ => arbitrary(),
    }
}

/// The optional value carried by a `Prevote` or `Precommit`.
pub open spec fn vote_value(m: Message) -> Option<String>
    recommends
        m is Prevote || m is Precommit,
{
    match m {
        Message::Prevote { value, .. } => value,
        Message::Precommit { value, .. } => value,
        _ => arbitrary(),
    }
}

/// The three message kinds, used to filter envelopes by the phase that is
/// currently being awaited.
pub enum MessageType {
    Propose,
    Prevote,
    Precommit,
}

impl MessageType {
    /// Whether a message body is of this kind.
    pub open spec fn spec_matches(&self, m: MessageView) -> bool {
        match (self, m) {
            (MessageType::Propose, MessageView::Propose { .. }) => true,
            (MessageType::Prevote, MessageView::Prevote { .. }) => true,
            (MessageType::Precommit, MessageView::Precommit { .. }) => true,
            _ => false,
        }
    }

    /// Tests whether `msg` is of this kind.
    pub fn matches(&self, msg: &Message) -> (r: bool)
        ensures
            r == self.spec_matches(msg@),
    {
        match (self, msg) {
            (MessageType::Propose, Message::Propose { .. }) => true,
            (MessageType::Prevote, Message::Prevote { .. }) => true,
            (MessageType::Precommit, Message::Precommit { .. }) => true,
            _ => false,
        }
    }
}

/// A message body bound to its sender's public key by a signature over the
/// body's canonical byte encoding.
///
/// An envelope is only trustworthy after `verify` has returned `true`; one
/// that fails verification must be discarded, never tallied.
#[derive(Debug)]
pub struct SignedMessage {
    pub body: Message,
    pub signature: Signature,
    pub sender: PublicKey,
}

impl SignedMessage {
    /// Whether the signature is valid, under the sender's key, over the
    /// canonical encoding of the body.
    pub open spec fn is_authentic(&self) -> bool {
        verifies(self.sender@, codec::spec_encode(self.body@), self.signature@)
    }

    /// Signs the canonical encoding of `message` and wraps it in an
    /// envelope carrying the keypair's public key as sender.
    pub fn new(message: Message, keypair: &Keypair) -> (signed: SignedMessage)
        requires
            keypair.wf(),
        ensures
            signed.body == message,
            signed.sender@ == keypair.public(),
            signed.signature@ == sig_of(keypair.secret(), codec::spec_encode(message@)),
            signed.is_authentic(),
    {
        let sender = keypair.get_public_key();
        let encoded = codec::encode(&message);
        let signature = keypair.sign(encoded.as_slice());
        SignedMessage { body: message, sender, signature }
    }

    /// Re-encodes the body and checks the signature against the sender's
    /// key.  Returns a boolean; never panics.
    pub fn verify(&self) -> (ok: bool)
        ensures
            ok == self.is_authentic(),
    {
        let encoded = codec::encode(&self.body);
        crate::crypto::verify_signature(encoded.as_slice(), &self.signature, &self.sender)
    }
}

impl Clone for SignedMessage {
    fn clone(&self) -> (res: Self)
        ensures
            res.body == self.body,
            res.signature@ == self.signature@,
            res.sender@ == self.sender@,
    {
        SignedMessage {
            body: self.body.clone(),
            signature: self.signature.clone(),
            sender: self.sender.clone(),
        }
    }
}

/// Signing then verifying always succeeds: an envelope freshly built by
/// `SignedMessage::new` passes `verify`, for every message body and every
/// well-formed keypair.
pub fn signed_message_roundtrip(message: Message, keypair: &Keypair) -> (ok: bool)
    requires
        keypair.wf(),
    ensures
        ok,
{
    SignedMessage::new(message, keypair).verify()
}

} // verus!
