//! Standard base64 rendering of key bytes, through the `base64` crate.

use base64::Engine;
use vstd::prelude::*;

verus! {

/// The standard padded base64 rendering of a byte string, as the `base64`
/// crate's `BASE64_STANDARD` engine produces it.
pub uninterp spec fn base64_of(b: Seq<u8>) -> Seq<u8>;

/// Relies on `base64::Engine::encode` with the `BASE64_STANDARD` engine:
/// the rendering depends on the input bytes alone, and a padded encoding
/// takes four output bytes for every three input bytes begun.
#[verifier::external_body]
pub(crate) fn b64_encode(b: &[u8]) -> (r: Vec<u8>)
    ensures
        r@ == base64_of(b@),
        r@.len() == 4 * ((b@.len() + 2) / 3),
{
    base64::prelude::BASE64_STANDARD.encode(b).into_bytes()
}

/// Relies on `base64::Engine::decode` with the `BASE64_STANDARD` engine:
/// it accepts exactly the canonical padded encodings (its configuration
/// rejects non-canonical padding and trailing bits) and inverts `encode`.
#[verifier::external_body]
fn b64_decode(s: &[u8]) -> (r: Option<Vec<u8>>)
    ensures
        r matches Some(v) ==> s@ == base64_of(v@) && (forall|b: Seq<u8>|
            s@ == base64_of(b) ==> v@ == b),
        r is None ==> (forall|b: Seq<u8>| s@ != base64_of(b)),
{
    base64::prelude::BASE64_STANDARD.decode(s).ok()
}

/// Decode a rendering back to the 32 public-key bytes.  Anything that is
/// not the canonical rendering of exactly 32 bytes is rejected.
pub fn decode_public(s: &[u8]) -> (r: Option<Vec<u8>>)
    ensures
        r matches Some(v) ==> v@.len() == 32 && s@ == base64_of(v@),
        forall|b: Seq<u8>|
            b.len() == 32 && s@ == base64_of(b) ==> (r matches Some(v) && v@ == b),
{
    match b64_decode(s) {
        Some(v) => if v.len() == 32 {
            Some(v)
        } else {
            None
        },
        None => None,
    }
}

} // verus!
