//! Helpers for exercising the engine: random PSK bundles, agreeing mode
//! pairs, context pairs over shared material, and the round-trip equivalence
//! check that drives two contexts through many seal/open iterations.
use vstd::prelude::*;
use crate::aead::{AeadCtx, AEAD_KEY_LEN, AEAD_NONCE_LEN, MAX_SEQ};
use crate::bytes::{bytes_eq, copy_bytes};
use crate::dh::gen_keypair;
use crate::kdf::KDF_OUTPUT_LEN;
use crate::op_mode::{OpModeKind, OpModeR, OpModeS, PskBundle, modes_agree};
use crate::rng::{random_bytes, random_u8};
use crate::setup::psk_well_formed;

verus! {

/// Makes a random PSK bundle with a 32-byte secret and identifier.
pub fn gen_psk_bundle(rng: &mut rand::rngs::ThreadRng) -> (r: PskBundle)
    ensures
        r.psk@.len() == 32,
        r.psk_id@.len() == 32,
        r.usable(),
{
    let psk = random_bytes(rng, 32);
    let psk_id = random_bytes(rng, 32);
    PskBundle { psk, psk_id }
}

/// Creates a pair of contexts over the same freshly drawn key material,
/// without doing a key exchange: both sides hold byte-identical key, base
/// nonce and exporter secret, with their counters at zero.
pub fn gen_ctx_simple_pair(rng: &mut rand::rngs::ThreadRng) -> (r: (AeadCtx, AeadCtx))
    ensures
        r.0.wf(),
        r.1.wf(),
        r.0.same_material(&r.1),
        r.0.counter_spec() == 0,
        r.1.counter_spec() == 0,
{
    let key = random_bytes(rng, AEAD_KEY_LEN);
    let nonce = random_bytes(rng, AEAD_NONCE_LEN);
    let exporter = random_bytes(rng, KDF_OUTPUT_LEN);

    let ctx1 = AeadCtx::new(copy_bytes(&key), copy_bytes(&nonce), copy_bytes(&exporter));
    let ctx2 = AeadCtx::new(key, nonce, exporter);
    (ctx1, ctx2)
}

/// Makes an agreeing pair of operation modes of the specified kind: same
/// variant, shared PSK material, and corresponding identity-key halves.
pub fn gen_op_mode_pair(kind: OpModeKind, rng: &mut rand::rngs::ThreadRng) -> (r: (OpModeS, OpModeR))
    ensures
        modes_agree(&r.0, &r.1),
        psk_well_formed(r.0.tag_spec(), r.0.psk_spec(), r.0.psk_id_spec()),
        match kind {
            OpModeKind::Base => r.0 matches OpModeS::Base && r.1 matches OpModeR::Base,
            OpModeKind::Psk => r.0 matches OpModeS::Psk(_) && r.1 matches OpModeR::Psk(_),
            OpModeKind::Auth => r.0 matches OpModeS::Auth(_) && r.1 matches OpModeR::Auth(_),
            OpModeKind::AuthPsk => r.0 matches OpModeS::AuthPsk(_, _)
                && r.1 matches OpModeR::AuthPsk(_, _),
        },
{
    let (sk_sender_id, pk_sender_id) = gen_keypair(rng);
    let psk_bundle = gen_psk_bundle(rng);

    match kind {
        OpModeKind::Base => (OpModeS::Base, OpModeR::Base),
        OpModeKind::Psk => {
            let receiver_bundle = psk_bundle.duplicate();
            (OpModeS::Psk(psk_bundle), OpModeR::Psk(receiver_bundle))
        },
        OpModeKind::Auth => (OpModeS::Auth(sk_sender_id), OpModeR::Auth(pk_sender_id)),
        OpModeKind::AuthPsk => {
            let receiver_bundle = psk_bundle.duplicate();
            (
                OpModeS::AuthPsk(sk_sender_id, psk_bundle),
                OpModeR::AuthPsk(pk_sender_id, receiver_bundle),
            )
        },
    }
}

/// Round-trip equivalence: drives two contexts over the same material and
/// counter through 1000 seal/open iterations of one random message and
/// associated data. Every iteration must decrypt to the original message, so
/// the result is always true — the verified statement of in-order round
/// tripping — and both counters advance by exactly 1000.
pub fn aead_ctx_eq(ctx1: &mut AeadCtx, ctx2: &mut AeadCtx, rng: &mut rand::rngs::ThreadRng) -> (r: bool)
    requires
        old(ctx1).wf(),
        old(ctx2).wf(),
        old(ctx1).same_material(old(ctx2)),
        old(ctx1).counter_spec() == old(ctx2).counter_spec(),
        old(ctx1).counter_spec() + 1000 <= MAX_SEQ,
    ensures
        r == true,
        final(ctx1).wf(),
        final(ctx2).wf(),
        final(ctx1).same_material(old(ctx1)),
        final(ctx2).same_material(old(ctx2)),
        final(ctx1).counter_spec() == old(ctx1).counter_spec() + 1000,
        final(ctx2).counter_spec() == old(ctx2).counter_spec() + 1000,
{
    let msg_len = random_u8(rng);
    let msg = random_bytes(rng, msg_len as usize);
    let aad_len = random_u8(rng);
    let aad = random_bytes(rng, aad_len as usize);

    let mut i: usize = 0;
    while i < 1000
        invariant
            i <= 1000,
            ctx1.wf(),
            ctx2.wf(),
            ctx1.same_material(ctx2),
            ctx1.same_material(old(ctx1)),
            ctx2.same_material(old(ctx2)),
            ctx1.counter_spec() == ctx2.counter_spec(),
            ctx1.counter_spec() == old(ctx1).counter_spec() + i,
            old(ctx1).counter_spec() + 1000 <= MAX_SEQ,
            msg@.len() <= 255,
            aad@.len() <= 255,
        decreases 1000 - i,
    {
        let mut buffer = copy_bytes(&msg);
        let tag = match ctx1.seal(&mut buffer, &aad) {
            Ok(t) => t,
            Err(_) => {
                proof {
                    assert(false);
                }
                return false;
            },
        };
        match ctx2.open(&mut buffer, &aad, &tag) {
            Ok(()) => {},
            Err(_) => {
                proof {
                    assert(false);
                }
                return false;
            },
        }
        if !bytes_eq(&buffer, &msg) {
            proof {
                assert(false);
            }
            return false;
        }
        i += 1;
    }
    true
}

} // verus!
