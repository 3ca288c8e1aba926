//! X25519 keypairs for the trials, through the `x25519_dalek` crate.

use crate::encoding::base64_of;
use crate::encoding::b64_encode;
use crate::encoding::decode_public;
use vstd::prelude::*;

verus! {

/// The X25519 public key derived from 32 secret bytes: the secret is
/// clamped and multiplied onto the curve's base point, exactly as
/// `x25519_dalek::PublicKey::from` computes it.  The result depends on
/// the secret bytes alone.
pub uninterp spec fn pubkey_of(sk: Seq<u8>) -> Seq<u8>;

/// Relies on `x25519_dalek::StaticSecret::random` (32 bytes from the
/// operating system's random source; it aborts only if that source fails)
/// and `x25519_dalek::PublicKey::from`, which derives the public point
/// from the secret bytes alone.
#[verifier::external_body]
fn generate_keypair_bytes() -> (r: ([u8; 32], [u8; 32]))
    ensures
        r.1@ == pubkey_of(r.0@),
{
    let secret = x25519_dalek::StaticSecret::random();
    let public = x25519_dalek::PublicKey::from(&secret);
    (secret.to_bytes(), public.to_bytes())
}

/// Relies on `x25519_dalek::StaticSecret::from` (which stores the bytes
/// as given) and `x25519_dalek::PublicKey::from`, which derives the
/// public point from the secret bytes alone.
#[verifier::external_body]
fn derive_public_bytes(sk: &[u8; 32]) -> (r: [u8; 32])
    ensures
        r@ == pubkey_of(sk@),
{
    let secret = x25519_dalek::StaticSecret::from(*sk);
    let public = x25519_dalek::PublicKey::from(&secret);
    public.to_bytes()
}

/// A private X25519 scalar and the public point derived from it.  One is
/// drawn fresh for every trial and handed to whoever reports or discards
/// it.
pub struct Keypair {
    pub private: [u8; 32],
    pub public: [u8; 32],
}

impl Keypair {
    /// The public half really is the one derived from the private half.
    pub open spec fn wf(self) -> bool {
        self.public@ == pubkey_of(self.private@)
    }

    /// Draw one fresh keypair from the process-wide random source.
    pub fn generate() -> (r: Keypair)
        ensures
            r.wf(),
    {
        let (private, public) = generate_keypair_bytes();
        Keypair { private, public }
    }

    /// Rebuild a keypair from stored private bytes.
    pub fn from_private(private: [u8; 32]) -> (r: Keypair)
        ensures
            r.wf(),
            r.private == private,
    {
        let public = derive_public_bytes(&private);
        Keypair { private, public }
    }

    /// Derive the public key again from the stored private bytes.  For a
    /// well-formed keypair the result is identical to the stored public
    /// half: the public key is a deterministic function of the private
    /// scalar.
    pub fn rederive_public(&self) -> (r: [u8; 32])
        ensures
            r@ == pubkey_of(self.private@),
            self.wf() ==> r@ == self.public@,
    {
        derive_public_bytes(&self.private)
    }

    /// The standard base64 rendering of the public key: always 44 bytes
    /// for the 32 key bytes.
    pub fn encoded_public(&self) -> (r: Vec<u8>)
        ensures
            r@ == base64_of(self.public@),
            r@.len() == 44,
    {
        b64_encode(self.public.as_slice())
    }

    /// Encoding the public key and decoding the rendering again gives
    /// back exactly the 32 public-key bytes: the rendering loses
    /// nothing.
    pub fn encoded_public_round_trip(&self) -> (r: Vec<u8>)
        ensures
            r@ == self.public@,
    {
        let rendered = self.encoded_public();
        let decoded = decode_public(rendered.as_slice());
        decoded.unwrap()
    }
}

} // verus!
