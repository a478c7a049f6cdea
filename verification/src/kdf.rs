//! The key-derivation capability: extract-and-expand (HKDF over SHA-256),
//! consumed as an opaque deterministic primitive behind trusted wrappers.
use vstd::prelude::*;

verus! {

/// The KDF's native output length in bytes (one SHA-256 digest).
pub const KDF_OUTPUT_LEN: usize = 32;

/// The longest output one expand call can produce (255 digest blocks).
pub const MAX_EXPAND_LEN: usize = 8160;

/// What the KDF's extract step returns: a pseudorandom key that is a
/// deterministic function of the salt and the input key material alone.
pub uninterp spec fn extract_of(salt: Seq<u8>, ikm: Seq<u8>) -> Seq<u8>;

/// What the KDF's expand step returns: output key material that is a
/// deterministic function of the pseudorandom key, the info string and the
/// requested length alone.
pub uninterp spec fn expand_of(prk: Seq<u8>, info: Seq<u8>, len: nat) -> Seq<u8>;

/// Relies on hkdf::Hkdf::<Sha256>::extract, the RFC 5869 HKDF-Extract step:
/// the pseudorandom key is a deterministic function of salt and input key
/// material, one digest long. It accepts salt and key material of any length.
#[verifier::external_body]
pub(crate) fn hkdf_extract(salt: &Vec<u8>, ikm: &Vec<u8>) -> (r: Vec<u8>)
    ensures
        r@ == extract_of(salt@, ikm@),
        r@.len() == KDF_OUTPUT_LEN,
{
    let (prk, _) = hkdf::Hkdf::<sha2::Sha256>::extract(Some(salt.as_slice()), ikm.as_slice());
    prk.to_vec()
}

/// Relies on hkdf::Hkdf::<Sha256>::from_prk and Hkdf::expand, the RFC 5869
/// HKDF-Expand step: the output is a deterministic function of the
/// pseudorandom key, the info string and the requested length. from_prk
/// accepts any pseudorandom key at least one digest long, and expand accepts
/// any output length up to 255 digests; the requires leave out exactly the
/// inputs those two reject.
#[verifier::external_body]
pub(crate) fn hkdf_expand(prk: &Vec<u8>, info: &Vec<u8>, len: usize) -> (r: Vec<u8>)
    requires
        prk@.len() == KDF_OUTPUT_LEN,
        len <= MAX_EXPAND_LEN,
    ensures
        r@ == expand_of(prk@, info@, len as nat),
        r@.len() == len,
{
    let hk = hkdf::Hkdf::<sha2::Sha256>::from_prk(prk.as_slice()).unwrap();
    let mut okm = vec![0u8; len];
    hk.expand(info.as_slice(), &mut okm).unwrap();
    okm
}

} // verus!
