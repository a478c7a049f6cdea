//! The randomness capability: an injected cryptographically secure generator,
//! consumed behind trusted wrappers that promise nothing of the drawn values.
use vstd::prelude::*;

verus! {

#[verifier::external_type_specification]
#[verifier::external_body]
pub struct ExThreadRng(rand::rngs::ThreadRng);

/// Relies on rand::RngCore::fill_bytes for ThreadRng: fills a buffer of the
/// requested length with bytes from the generator. Nothing can be promised of
/// the values themselves.
#[verifier::external_body]
pub(crate) fn random_bytes(rng: &mut rand::rngs::ThreadRng, len: usize) -> (r: Vec<u8>)
    ensures
        r@.len() == len,
{
    let mut buf: Vec<u8> = Vec::new();
    buf.resize(len, 0u8);
    rand::RngCore::fill_bytes(rng, buf.as_mut_slice());
    buf
}

/// Relies on rand::Rng::gen::<u8> for ThreadRng: draws one byte. Nothing can
/// be promised of its value.
#[verifier::external_body]
pub(crate) fn random_u8(rng: &mut rand::rngs::ThreadRng) -> u8 {
    rand::Rng::gen(rng)
}

} // verus!
