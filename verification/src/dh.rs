//! The key-exchange capability: X25519 Diffie-Hellman, consumed as an opaque
//! pure function behind a trusted wrapper. Key pairs are 32-byte secret
//! scalars with the public half the scalar's product with the basepoint.
use vstd::prelude::*;
use crate::rng::random_bytes;

verus! {

/// Length in bytes of X25519 secret keys, public keys and shared secrets.
pub const DH_LEN: usize = 32;

/// What the Diffie-Hellman function returns: a shared point that is a
/// deterministic function of the secret scalar and the peer's public point.
pub uninterp spec fn dh_of(sk: Seq<u8>, pk: Seq<u8>) -> Seq<u8>;

/// The standard X25519 basepoint: the byte 9 followed by 31 zero bytes.
pub open spec fn basepoint_seq() -> Seq<u8> {
    Seq::new(32, |i: int| if i == 0 { 9u8 } else { 0u8 })
}

/// The public key belonging to a secret scalar: its product with the
/// basepoint.
pub open spec fn pk_of(sk: Seq<u8>) -> Seq<u8> {
    dh_of(sk, basepoint_seq())
}

/// Relies on x25519_dalek::x25519, the bare RFC 7748 X25519 function: the
/// result is a deterministic 32-byte function of the two arguments, and
/// Diffie-Hellman agreement holds — evaluating one's own secret against the
/// peer's public key (the peer's secret times the basepoint) yields the same
/// bytes on both sides, as the crate's own documented example asserts.
#[verifier::external_body]
pub(crate) fn x25519_dh(sk: &Vec<u8>, pk: &Vec<u8>) -> (r: Vec<u8>)
    requires
        sk@.len() == DH_LEN,
        pk@.len() == DH_LEN,
    ensures
        r@ == dh_of(sk@, pk@),
        r@.len() == DH_LEN,
        forall|b: Seq<u8>| b.len() == DH_LEN && pk@ == pk_of(b) ==> r@ == dh_of(b, pk_of(sk@)),
{
    let mut k = [0u8; 32];
    k.copy_from_slice(sk.as_slice());
    let mut u = [0u8; 32];
    u.copy_from_slice(pk.as_slice());
    x25519_dalek::x25519(k, u).to_vec()
}

/// The X25519 basepoint as a byte vector.
pub fn basepoint() -> (r: Vec<u8>)
    ensures
        r@ == basepoint_seq(),
{
    let mut r: Vec<u8> = Vec::new();
    r.push(9u8);
    let mut i: usize = 1;
    while i < 32
        invariant
            1 <= i <= 32,
            r@.len() == i,
            r@[0] == 9u8,
            forall|j: int| 1 <= j < i ==> r@[j] == 0u8,
        decreases 32 - i,
    {
        r.push(0u8);
        i += 1;
    }
    proof {
        assert(r@ =~= basepoint_seq());
    }
    r
}

/// Generates a fresh key pair: a random 32-byte secret scalar and its public
/// half.
pub fn gen_keypair(rng: &mut rand::rngs::ThreadRng) -> (r: (Vec<u8>, Vec<u8>))
    ensures
        r.0@.len() == DH_LEN,
        r.1@.len() == DH_LEN,
        r.1@ == pk_of(r.0@),
{
    let sk = random_bytes(rng, DH_LEN);
    let bp = basepoint();
    let pk = x25519_dh(&sk, &bp);
    (sk, pk)
}

} // verus!
