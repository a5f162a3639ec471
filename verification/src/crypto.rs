//! Hash-then-sign primitive over an elliptic-curve keypair.
//!
//! A keypair holds a 32-byte secret scalar and the 33-byte compressed
//! encoding of its public curve point.  Signing hashes the payload with a
//! 256-bit digest and signs the digest; verification recomputes the digest
//! and checks the signature, returning `false` (never panicking) on
//! malformed input.  The curve and hash computations are performed by the
//! `secp256k1` and `sha3` crates behind trusted wrappers; their results are
//! named by uninterpreted spec functions, so every contract in the crate
//! speaks of the same signing and verification relations.

use vstd::prelude::*;

use crate::codec::push_all;

verus! {

/// Whether the bytes form a valid secret key: 32 bytes encoding a non-zero
/// scalar below the curve order.  Names the success of
/// `secp256k1::SecretKey::from_slice`.
pub uninterp spec fn is_valid_secret(secret: Seq<u8>) -> bool;

/// The compressed 33-byte public key derived from a valid secret key.
/// Names the result of `secp256k1::PublicKey::from_secret_key`.
pub uninterp spec fn public_of(secret: Seq<u8>) -> Seq<u8>;

/// The DER-encoded deterministic signature over the Keccak-256 digest of
/// `data` under the given secret key.  Names the result of
/// `Secp256k1::sign_ecdsa` (deterministic RFC 6979 nonces) applied to
/// `sha3::Keccak256::digest(data)`.
pub uninterp spec fn sig_of(secret: Seq<u8>, data: Seq<u8>) -> Seq<u8>;

/// Whether `sig` is a valid signature over the Keccak-256 digest of `data`
/// under the public key encoded by `public`; `false` whenever `public` or
/// `sig` is malformed.  Names the result of `Secp256k1::verify_ecdsa`
/// applied to `sha3::Keccak256::digest(data)`.
pub uninterp spec fn verifies(public: Seq<u8>, data: Seq<u8>, sig: Seq<u8>) -> bool;

/// The secret key bytes parsed from a 64-digit hex string, or `None` when
/// the string is not the hex encoding of a valid secret key.  Names the
/// result of `secp256k1::SecretKey::from_str`.
pub uninterp spec fn secret_of_hex(hex_key: Seq<char>) -> Option<Seq<u8>>;

/// Relies on `secp256k1::generate_keypair` with an OS random source: the
/// secret half of a freshly generated keypair is a valid secret key.
#[verifier::external_body]
fn generate_secret() -> (secret: Vec<u8>)
    ensures
        is_valid_secret(secret@),
        secret@.len() == 32,
{
    let secp = secp256k1::Secp256k1::new();
    let (secret_key, _) = secp.generate_keypair(&mut rand::rngs::OsRng);
    secret_key.secret_bytes().to_vec()
}

/// Relies on `secp256k1::PublicKey::from_secret_key` and
/// `PublicKey::serialize`: the compressed 33-byte encoding of the public key
/// is a function of the secret key alone.
#[verifier::external_body]
fn derive_public(secret: &[u8]) -> (public: Vec<u8>)
    requires
        is_valid_secret(secret@),
    ensures
        public@ == public_of(secret@),
        public@.len() == 33,
{
    let secp = secp256k1::Secp256k1::new();
    let secret_key = secp256k1::SecretKey::from_slice(secret).expect("valid secret key");
    secp256k1::PublicKey::from_secret_key(&secp, &secret_key).serialize().to_vec()
}

/// Relies on `secp256k1::SecretKey::from_str`: it accepts exactly the
/// 64-digit hex encodings of valid secret keys, and returns the decoded
/// 32 bytes.
#[verifier::external_body]
fn parse_secret_hex(hex_key: &str) -> (secret: Option<Vec<u8>>)
    ensures
        secret matches Some(bytes) ==> secret_of_hex(hex_key@) == Some(bytes@)
            && is_valid_secret(bytes@) && bytes@.len() == 32,
        secret is None ==> secret_of_hex(hex_key@) is None,
{
    match <secp256k1::SecretKey as core::str::FromStr>::from_str(hex_key) {
        Ok(secret_key) => Some(secret_key.secret_bytes().to_vec()),
        Err(_) => None,
    }
}

/// Relies on `Secp256k1::sign_ecdsa` over a `sha3::Keccak256` digest:
/// signing is deterministic (RFC 6979), and the signature it produces
/// verifies under the public key derived from the same secret key.
#[verifier::external_body]
fn sign_bytes(secret: &[u8], data: &[u8]) -> (sig: Vec<u8>)
    requires
        is_valid_secret(secret@),
    ensures
        sig@ == sig_of(secret@, data@),
        verifies(public_of(secret@), data@, sig@),
{
    let secp = secp256k1::Secp256k1::new();
    let secret_key = secp256k1::SecretKey::from_slice(secret).expect("valid secret key");
    let digest: [u8; 32] = <sha3::Keccak256 as sha3::Digest>::digest(data).into();
    let message = secp256k1::Message::from_digest(digest);
    secp.sign_ecdsa(&message, &secret_key).serialize_der().to_vec()
}

/// Relies on `Secp256k1::verify_ecdsa` over a `sha3::Keccak256` digest;
/// malformed public-key or signature bytes fail to parse and yield `false`.
#[verifier::external_body]
fn verify_bytes(public: &[u8], data: &[u8], sig: &[u8]) -> (ok: bool)
    ensures
        ok == verifies(public@, data@, sig@),
{
    let secp = secp256k1::Secp256k1::new();
    let public_key = match secp256k1::PublicKey::from_slice(public) {
        Ok(key) => key,
        Err(_) => return false,
    };
    let parsed_sig = match secp256k1::ecdsa::Signature::from_der(sig) {
        Ok(s) => s,
        Err(_) => return false,
    };
    let digest: [u8; 32] = <sha3::Keccak256 as sha3::Digest>::digest(data).into();
    let message = secp256k1::Message::from_digest(digest);
    secp.verify_ecdsa(&message, &parsed_sig, &public_key).is_ok()
}

/// A DER-encoded ECDSA signature.
#[derive(Debug)]
pub struct Signature {
    der: Vec<u8>,
}

impl View for Signature {
    type V = Seq<u8>;

    closed spec fn view(&self) -> Seq<u8> {
        self.der@
    }
}

impl Signature {
    /// Wraps raw DER signature bytes.
    pub fn from_bytes(der: Vec<u8>) -> (sig: Signature)
        ensures
            sig@ == der@,
    {
        Signature { der }
    }

    /// The raw DER signature bytes.
    pub fn to_inner(&self) -> (der: &Vec<u8>)
        ensures
            der@ == self@,
    {
        &self.der
    }
}

impl Clone for Signature {
    fn clone(&self) -> (res: Self)
        ensures
            res@ == self@,
    {
        let mut der: Vec<u8> = Vec::new();
        push_all(&mut der, self.der.as_slice());
        Signature { der }
    }
}

/// A compressed 33-byte public key encoding; uniquely identifies a process.
#[derive(Debug)]
pub struct PublicKey {
    bytes: Vec<u8>,
}

impl View for PublicKey {
    type V = Seq<u8>;

    closed spec fn view(&self) -> Seq<u8> {
        self.bytes@
    }
}

impl PublicKey {
    /// Wraps a raw public key encoding.
    pub fn from_bytes(bytes: Vec<u8>) -> (public_key: PublicKey)
        ensures
            public_key@ == bytes@,
    {
        PublicKey { bytes }
    }

    /// The raw key encoding.
    pub fn as_bytes(&self) -> (bytes: &Vec<u8>)
        ensures
            bytes@ == self@,
    {
        &self.bytes
    }
}

impl Clone for PublicKey {
    fn clone(&self) -> (res: Self)
        ensures
            res@ == self@,
    {
        let mut bytes: Vec<u8> = Vec::new();
        push_all(&mut bytes, self.bytes.as_slice());
        PublicKey { bytes }
    }
}

/// Error raised when key material handed in at construction cannot be
/// decoded into a keypair.
#[derive(Debug, PartialEq, Eq, Structural)]
pub enum KeyError {
    InvalidKeyEncoding,
}

pub type Keypair = ECDSAKeypair;

/// An ECDSA keypair: the secret scalar together with its public key.
#[derive(Debug)]
pub struct ECDSAKeypair {
    secret_key: Vec<u8>,
    public_key: PublicKey,
}

impl ECDSAKeypair {
    /// The secret key bytes.
    pub closed spec fn secret(&self) -> Seq<u8> {
        self.secret_key@
    }

    /// The compressed public key bytes.
    pub closed spec fn public(&self) -> Seq<u8> {
        self.public_key@
    }

    /// A keypair is well formed when its secret scalar is valid and its
    /// public half is the key derived from that scalar.
    pub open spec fn wf(&self) -> bool {
        &&& is_valid_secret(self.secret())
        &&& self.secret().len() == 32
        &&& self.public() == public_of(self.secret())
    }

    /// Generates a fresh keypair from the operating system's random source.
    pub fn new() -> (keypair: ECDSAKeypair)
        ensures
            keypair.wf(),
    {
        let secret_key = generate_secret();
        let public_key = PublicKey::from_bytes(derive_public(secret_key.as_slice()));
        ECDSAKeypair { secret_key, public_key }
    }

    /// Reconstructs a keypair from the hex encoding of its secret key.
    ///
    /// Fails with `InvalidKeyEncoding` exactly when the input is not the
    /// hex encoding of a valid secret scalar.
    pub fn new_from_privatekey(private_key: &str) -> (result: Result<ECDSAKeypair, KeyError>)
        ensures
            result matches Ok(keypair) ==> keypair.wf()
                && secret_of_hex(private_key@) == Some(keypair.secret()),
            result is Err <==> secret_of_hex(private_key@) is None,
    {
        match parse_secret_hex(private_key) {
            Some(secret_key) => {
                let public_key = PublicKey::from_bytes(derive_public(secret_key.as_slice()));
                Ok(ECDSAKeypair { secret_key, public_key })
            },
            None => Err(KeyError::InvalidKeyEncoding),
        }
    }

    /// The public half of the keypair.
    pub fn get_public_key(&self) -> (public_key: PublicKey)
        ensures
            public_key@ == self.public(),
    {
        self.public_key.clone()
    }

    /// The secret key bytes.
    pub fn get_secret_key(&self) -> (secret_key: &Vec<u8>)
        ensures
            secret_key@ == self.secret(),
    {
        &self.secret_key
    }

    /// Signs the Keccak-256 digest of `data` with the secret key.
    pub fn sign(&self, data: &[u8]) -> (sig: Signature)
        requires
            self.wf(),
        ensures
            sig@ == sig_of(self.secret(), data@),
            verifies(self.public(), data@, sig@),
    {
        Signature::from_bytes(sign_bytes(self.secret_key.as_slice(), data))
    }
}

impl Default for ECDSAKeypair {
    /// A fresh randomly generated keypair.
    fn default() -> (keypair: Self)
        ensures
            keypair.wf(),
    {
        Self::new()
    }
}

/// Checks `sig` against the Keccak-256 digest of `data` under `public_key`.
///
/// Returns `false` (never panics) when the signature or key bytes are
/// malformed.
pub fn verify_signature(data: &[u8], sig: &Signature, public_key: &PublicKey) -> (ok: bool)
    ensures
        ok == verifies(public_key@, data@, sig@),
{
    verify_bytes(public_key.as_bytes().as_slice(), data, sig.to_inner().as_slice())
}

} // verus!
