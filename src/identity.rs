//! Ed25519 signing identities: key pairs, public-key derivation and signing,
//! with the lengths of keys and hashes checked before any key is used.

use vstd::prelude::*;
use ed25519_dalek::Signer;

verus! {

/// Length of a private or public key, in bytes.
pub const KEY_LEN: usize = 32;

/// Length of a payload hash, in bytes.
pub const HASH_LEN: usize = 32;

/// Length of a signature, in bytes.
pub const SIGNATURE_LEN: usize = 64;

/// The Ed25519 public key of the 32-byte private key `secret`.
pub uninterp spec fn ed25519_public_key(secret: Seq<u8>) -> Seq<u8>;

/// The Ed25519 signature of `message` under the 32-byte private key `secret`.
pub uninterp spec fn ed25519_signature(secret: Seq<u8>, message: Seq<u8>) -> Seq<u8>;

/// A private key with its public key.
#[derive(Clone, Debug)]
pub struct KeyPair {
    pub private_key: Vec<u8>,
    pub public_key: Vec<u8>,
}

impl KeyPair {
    /// The private key has the key length and the public key is derived from it.
    pub open spec fn wf(&self) -> bool {
        &&& self.private_key@.len() == KEY_LEN
        &&& self.public_key@ == ed25519_public_key(self.private_key@)
    }
}

/// Why an identity operation refused its input.
#[derive(Clone, Copy, Debug, PartialEq, Eq, Structural)]
pub enum KeyError {
    /// The private key is not 32 bytes long.
    InvalidPrivateKeyLength,
    /// The payload hash is not 32 bytes long.
    InvalidHashLength,
}

/// Relies on `ed25519_dalek::SigningKey::generate` with `rand_core::OsRng`:
/// a fresh private key from the operating system's entropy source;
/// `SigningKey::to_bytes` gives its 32 bytes.
#[verifier::external_body]
fn fresh_private_key() -> (r: Vec<u8>)
    ensures
        r@.len() == KEY_LEN,
{
    ed25519_dalek::SigningKey::generate(&mut rand_core::OsRng).to_bytes().to_vec()
}

/// Relies on `ed25519_dalek::SigningKey::from_bytes` and `verifying_key`: the
/// public key is derived from the 32 private-key bytes alone, and
/// `VerifyingKey::to_bytes` gives 32 bytes.
#[verifier::external_body]
fn derive_public_key(secret: &[u8]) -> (r: Vec<u8>)
    requires
        secret@.len() == KEY_LEN,
    ensures
        r@ == ed25519_public_key(secret@),
        r@.len() == KEY_LEN,
{
    ed25519_dalek::SigningKey::from_bytes(secret.try_into().unwrap()).verifying_key().to_bytes().to_vec()
}

/// Relies on `ed25519_dalek::SigningKey::sign`: Ed25519 signing is
/// deterministic in the private key and the message, and `Signature::to_bytes`
/// gives 64 bytes.
#[verifier::external_body]
fn sign_message(secret: &[u8], message: &[u8]) -> (r: Vec<u8>)
    requires
        secret@.len() == KEY_LEN,
    ensures
        r@ == ed25519_signature(secret@, message@),
        r@.len() == SIGNATURE_LEN,
{
    ed25519_dalek::SigningKey::from_bytes(secret.try_into().unwrap()).sign(message).to_bytes().to_vec()
}

/// A fresh key pair: a new private key and the public key derived from it.
pub fn generate_keypair() -> (r: KeyPair)
    ensures
        r.wf(),
        r.public_key@.len() == KEY_LEN,
{
    let private_key = fresh_private_key();
    let public_key = derive_public_key(private_key.as_slice());
    KeyPair { private_key, public_key }
}

/// What deriving a public key from `private_key` gives.
pub open spec fn public_from_private_spec(private_key: Seq<u8>) -> Result<Seq<u8>, KeyError> {
    if private_key.len() == KEY_LEN {
        Ok(ed25519_public_key(private_key))
    } else {
        Err(KeyError::InvalidPrivateKeyLength)
    }
}

/// What signing `payload_hash` with `private_key` gives.
pub open spec fn sign_payload_spec(payload_hash: Seq<u8>, private_key: Seq<u8>) -> Result<
    Seq<u8>,
    KeyError,
> {
    if payload_hash.len() != HASH_LEN {
        Err(KeyError::InvalidHashLength)
    } else if private_key.len() != KEY_LEN {
        Err(KeyError::InvalidPrivateKeyLength)
    } else {
        Ok(ed25519_signature(private_key, payload_hash))
    }
}

/// The bytes of a result, with its error unchanged.
pub open spec fn bytes_view(r: Result<Vec<u8>, KeyError>) -> Result<Seq<u8>, KeyError> {
    match r {
        Ok(v) => Ok(v@),
        Err(e) => Err(e),
    }
}

/// The public key of a 32-byte private key; any other length is refused.
pub fn public_from_private(private_key: &[u8]) -> (r: Result<Vec<u8>, KeyError>)
    ensures
        bytes_view(r) == public_from_private_spec(private_key@),
        r.is_ok() ==> r.unwrap()@.len() == KEY_LEN,
{
    if private_key.len() != KEY_LEN {
        return Err(KeyError::InvalidPrivateKeyLength);
    }
    Ok(derive_public_key(private_key))
}

/// The 64-byte signature of a 32-byte payload hash under a 32-byte private
/// key; a hash or a key of any other length is refused, the hash checked first.
pub fn sign_payload(payload_hash: &[u8], private_key: &[u8]) -> (r: Result<Vec<u8>, KeyError>)
    ensures
        bytes_view(r) == sign_payload_spec(payload_hash@, private_key@),
        r.is_ok() ==> r.unwrap()@.len() == SIGNATURE_LEN,
{
    if payload_hash.len() != HASH_LEN {
        return Err(KeyError::InvalidHashLength);
    }
    if private_key.len() != KEY_LEN {
        return Err(KeyError::InvalidPrivateKeyLength);
    }
    Ok(sign_message(private_key, payload_hash))
}

/// Deriving a public key depends on the private key alone, and gives back the
/// public key that a well-formed key pair holds for its private key.
pub proof fn public_from_private_matches_keypair(pair: KeyPair, other: Seq<u8>)
    requires
        pair.wf(),
        other == pair.private_key@,
    ensures
        public_from_private_spec(pair.private_key@) == Ok::<Seq<u8>, KeyError>(pair.public_key@),
        public_from_private_spec(other) == public_from_private_spec(pair.private_key@),
{
}

} // verus!
