//! The key schedule and the setup orchestrator: turning a key-exchange output
//! plus mode-dependent secrets into a symmetric key, base nonce and exporter
//! secret, and building one encryption context per side so that matching
//! inputs yield byte-identical contexts.
use vstd::prelude::*;
use crate::HpkeError;
use crate::aead::{AeadCtx, AEAD_KEY_LEN, AEAD_NONCE_LEN};
use crate::bytes::{all_zero, append_bytes, copy_bytes, is_all_zero};
use crate::dh::{DH_LEN, basepoint, dh_of, gen_keypair, pk_of, x25519_dh};
use crate::kdf::{KDF_OUTPUT_LEN, extract_of, expand_of, hkdf_extract, hkdf_expand};
use crate::op_mode::{
    MODE_TAG_AUTH_PSK, MODE_TAG_PSK, OpModeR, OpModeS, check_modes_agree, modes_agree,
};

verus! {

/// Domain-separation label for hashing the application info string.
pub const LABEL_INFO_HASH: u8 = 1;

/// Domain-separation label for hashing the PSK identifier.
pub const LABEL_PSK_ID_HASH: u8 = 2;

/// Domain-separation label for extracting the schedule secret.
pub const LABEL_SECRET: u8 = 3;

/// Domain-separation label for expanding the AEAD key.
pub const LABEL_KEY: u8 = 4;

/// Domain-separation label for expanding the base nonce.
pub const LABEL_BASE_NONCE: u8 = 5;

/// Domain-separation label for expanding the exporter secret.
pub const LABEL_EXPORTER: u8 = 6;

/// The all-zero stand-in secret used when a mode carries no PSK.
pub open spec fn zero_psk() -> Seq<u8> {
    Seq::new(KDF_OUTPUT_LEN as nat, |i: int| 0u8)
}

/// Whether a mode tag is one of the PSK-carrying modes.
pub open spec fn mode_tag_has_psk(tag: u8) -> bool {
    tag == MODE_TAG_PSK || tag == MODE_TAG_AUTH_PSK
}

/// The key schedule's defensive PSK validity check: a PSK-carrying mode must
/// supply both secret and identifier, a mode without PSK must supply neither.
pub open spec fn psk_well_formed(tag: u8, psk: Seq<u8>, psk_id: Seq<u8>) -> bool {
    if mode_tag_has_psk(tag) {
        psk.len() > 0 && psk_id.len() > 0
    } else {
        psk.len() == 0 && psk_id.len() == 0
    }
}

/// The key-schedule context: the mode tag, then the hashed info string, then
/// the hashed PSK identifier. Mixing the tag in first means two different
/// modes can never collide on the same derived material's inputs.
pub open spec fn ks_context_of(tag: u8, psk_id: Seq<u8>, info: Seq<u8>) -> Seq<u8> {
    seq![tag] + extract_of(seq![LABEL_INFO_HASH], info) + extract_of(seq![LABEL_PSK_ID_HASH], psk_id)
}

/// The secret the three outputs are expanded from: an extract over the shared
/// secret and the labeled PSK (or the all-zero stand-in without one).
pub open spec fn sched_secret_of(shared: Seq<u8>, tag: u8, psk: Seq<u8>) -> Seq<u8> {
    extract_of(shared, seq![LABEL_SECRET] + (if mode_tag_has_psk(tag) { psk } else { zero_psk() }))
}

/// The derived AEAD key.
pub open spec fn sched_key_of(shared: Seq<u8>, tag: u8, psk: Seq<u8>, psk_id: Seq<u8>, info: Seq<u8>) -> Seq<u8> {
    expand_of(
        sched_secret_of(shared, tag, psk),
        seq![LABEL_KEY] + ks_context_of(tag, psk_id, info),
        AEAD_KEY_LEN as nat,
    )
}

/// The derived base nonce.
pub open spec fn sched_nonce_of(shared: Seq<u8>, tag: u8, psk: Seq<u8>, psk_id: Seq<u8>, info: Seq<u8>) -> Seq<u8> {
    expand_of(
        sched_secret_of(shared, tag, psk),
        seq![LABEL_BASE_NONCE] + ks_context_of(tag, psk_id, info),
        AEAD_NONCE_LEN as nat,
    )
}

/// The derived exporter secret.
pub open spec fn sched_exporter_of(shared: Seq<u8>, tag: u8, psk: Seq<u8>, psk_id: Seq<u8>, info: Seq<u8>) -> Seq<u8> {
    expand_of(
        sched_secret_of(shared, tag, psk),
        seq![LABEL_EXPORTER] + ks_context_of(tag, psk_id, info),
        KDF_OUTPUT_LEN as nat,
    )
}

/// A context holds exactly the three outputs of the key schedule over the
/// given inputs.
pub open spec fn derived_ctx_ok(ctx: &AeadCtx, shared: Seq<u8>, tag: u8, psk: Seq<u8>, psk_id: Seq<u8>, info: Seq<u8>) -> bool {
    &&& ctx.key_spec() == sched_key_of(shared, tag, psk, psk_id, info)
    &&& ctx.base_nonce_spec() == sched_nonce_of(shared, tag, psk, psk_id, info)
    &&& ctx.exporter_secret_spec() == sched_exporter_of(shared, tag, psk, psk_id, info)
}

/// Mode mismatch separation: two different mode tags can never collide on the
/// same key-schedule context, whatever the info strings and PSK identifiers,
/// because the tag is the context's first byte.
pub proof fn lemma_mode_separation(tag1: u8, tag2: u8, psk_id1: Seq<u8>, psk_id2: Seq<u8>, info1: Seq<u8>, info2: Seq<u8>)
    requires
        tag1 != tag2,
    ensures
        ks_context_of(tag1, psk_id1, info1) != ks_context_of(tag2, psk_id2, info2),
{
    assert(ks_context_of(tag1, psk_id1, info1)[0] == tag1);
    assert(ks_context_of(tag2, psk_id2, info2)[0] == tag2);
}

/// A one-byte vector holding a domain-separation label.
fn label_salt(label: u8) -> (r: Vec<u8>)
    ensures
        r@ == seq![label],
{
    let mut r: Vec<u8> = Vec::new();
    r.push(label);
    proof {
        assert(r@ =~= seq![label]);
    }
    r
}

/// The all-zero stand-in PSK as a byte vector.
fn zero_psk_vec() -> (r: Vec<u8>)
    ensures
        r@ == zero_psk(),
{
    let mut r: Vec<u8> = Vec::new();
    let mut i: usize = 0;
    while i < KDF_OUTPUT_LEN
        invariant
            i <= KDF_OUTPUT_LEN,
            r@.len() == i,
            forall|j: int| 0 <= j < i ==> r@[j] == 0u8,
        decreases KDF_OUTPUT_LEN - i,
    {
        r.push(0u8);
        i += 1;
    }
    proof {
        assert(r@ =~= zero_psk());
    }
    r
}

/// The key schedule: turns the key-exchange shared secret, the mode's tag and
/// PSK material, and the application info string into the AEAD key, base
/// nonce and exporter secret, all three from the same derivation. Identical
/// inputs always yield identical output. Fails with `InvalidPsk` exactly when
/// the PSK material is inconsistent with the mode tag — a defensive check in
/// case mode validation was bypassed.
pub fn key_schedule(shared: &Vec<u8>, tag: u8, psk: &Vec<u8>, psk_id: &Vec<u8>, info: &Vec<u8>) -> (r: Result<(Vec<u8>, Vec<u8>, Vec<u8>), HpkeError>)
    ensures
        match r {
            Ok((key, base_nonce, exporter)) => {
                &&& psk_well_formed(tag, psk@, psk_id@)
                &&& key@ == sched_key_of(shared@, tag, psk@, psk_id@, info@)
                &&& key@.len() == AEAD_KEY_LEN
                &&& base_nonce@ == sched_nonce_of(shared@, tag, psk@, psk_id@, info@)
                &&& base_nonce@.len() == AEAD_NONCE_LEN
                &&& exporter@ == sched_exporter_of(shared@, tag, psk@, psk_id@, info@)
                &&& exporter@.len() == KDF_OUTPUT_LEN
            },
            Err(e) => {
                &&& e == HpkeError::InvalidPsk
                &&& !psk_well_formed(tag, psk@, psk_id@)
            },
        },
{
    let has_psk = tag == MODE_TAG_PSK || tag == MODE_TAG_AUTH_PSK;
    if has_psk {
        if psk.len() == 0 || psk_id.len() == 0 {
            return Err(HpkeError::InvalidPsk);
        }
    } else {
        if psk.len() > 0 || psk_id.len() > 0 {
            return Err(HpkeError::InvalidPsk);
        }
    }

    let info_salt = label_salt(LABEL_INFO_HASH);
    let info_hash = hkdf_extract(&info_salt, info);
    let psk_id_salt = label_salt(LABEL_PSK_ID_HASH);
    let psk_id_hash = hkdf_extract(&psk_id_salt, psk_id);
    let mut ks_context: Vec<u8> = Vec::new();
    ks_context.push(tag);
    append_bytes(&mut ks_context, &info_hash);
    append_bytes(&mut ks_context, &psk_id_hash);
    proof {
        assert(ks_context@ =~= ks_context_of(tag, psk_id@, info@));
    }

    let psk_input = if has_psk {
        copy_bytes(psk)
    } else {
        zero_psk_vec()
    };
    let mut secret_ikm: Vec<u8> = Vec::new();
    secret_ikm.push(LABEL_SECRET);
    append_bytes(&mut secret_ikm, &psk_input);
    proof {
        assert(secret_ikm@ =~= seq![LABEL_SECRET]
            + (if mode_tag_has_psk(tag) { psk@ } else { zero_psk() }));
    }
    let secret = hkdf_extract(shared, &secret_ikm);

    let mut key_info: Vec<u8> = Vec::new();
    key_info.push(LABEL_KEY);
    append_bytes(&mut key_info, &ks_context);
    proof {
        assert(key_info@ =~= seq![LABEL_KEY] + ks_context_of(tag, psk_id@, info@));
    }
    let key = hkdf_expand(&secret, &key_info, AEAD_KEY_LEN);

    let mut nonce_info: Vec<u8> = Vec::new();
    nonce_info.push(LABEL_BASE_NONCE);
    append_bytes(&mut nonce_info, &ks_context);
    proof {
        assert(nonce_info@ =~= seq![LABEL_BASE_NONCE] + ks_context_of(tag, psk_id@, info@));
    }
    let base_nonce = hkdf_expand(&secret, &nonce_info, AEAD_NONCE_LEN);

    let mut exporter_info: Vec<u8> = Vec::new();
    exporter_info.push(LABEL_EXPORTER);
    append_bytes(&mut exporter_info, &ks_context);
    proof {
        assert(exporter_info@ =~= seq![LABEL_EXPORTER] + ks_context_of(tag, psk_id@, info@));
    }
    let exporter = hkdf_expand(&secret, &exporter_info, KDF_OUTPUT_LEN);

    Ok((key, base_nonce, exporter))
}

/// The shared secret the sender derives: its ephemeral secret against the
/// receiver's public key, and, in authenticating modes, additionally its
/// identity secret against the same public key.
pub open spec fn sender_shared_secret(mode: &OpModeS, eph_sk: Seq<u8>, pk_recip: Seq<u8>) -> Seq<u8> {
    if mode.has_auth_spec() {
        dh_of(eph_sk, pk_recip) + dh_of(mode.auth_sk_spec(), pk_recip)
    } else {
        dh_of(eph_sk, pk_recip)
    }
}

/// The shared secret the receiver derives: its own secret against the
/// encapsulated key, and, in authenticating modes, additionally its own
/// secret against the sender's public identity key.
pub open spec fn receiver_shared_secret(mode: &OpModeR, sk_recip: Seq<u8>, enc: Seq<u8>) -> Seq<u8> {
    if mode.has_auth_spec() {
        dh_of(sk_recip, enc) + dh_of(sk_recip, mode.auth_pk_spec())
    } else {
        dh_of(sk_recip, enc)
    }
}

/// The sender's key exchange degenerates when any Diffie-Hellman component is
/// all zero.
pub open spec fn sender_kx_degenerate(mode: &OpModeS, eph_sk: Seq<u8>, pk_recip: Seq<u8>) -> bool {
    ||| all_zero(dh_of(eph_sk, pk_recip))
    ||| (mode.has_auth_spec() && all_zero(dh_of(mode.auth_sk_spec(), pk_recip)))
}

/// The receiver's key exchange degenerates when any Diffie-Hellman component
/// is all zero.
pub open spec fn receiver_kx_degenerate(mode: &OpModeR, sk_recip: Seq<u8>, enc: Seq<u8>) -> bool {
    ||| all_zero(dh_of(sk_recip, enc))
    ||| (mode.has_auth_spec() && all_zero(dh_of(sk_recip, mode.auth_pk_spec())))
}

/// The sender's key material is invalid when a key is not of the
/// key-exchange length.
pub open spec fn sender_keys_invalid(mode: &OpModeS, pk_recip: Seq<u8>, eph_sk: Seq<u8>) -> bool {
    ||| eph_sk.len() != DH_LEN
    ||| pk_recip.len() != DH_LEN
    ||| (mode.has_auth_spec() && mode.auth_sk_spec().len() != DH_LEN)
}

/// The receiver's key material is invalid when a key is not of the
/// key-exchange length.
pub open spec fn receiver_keys_invalid(mode: &OpModeR, sk_recip: Seq<u8>, enc: Seq<u8>) -> bool {
    ||| sk_recip.len() != DH_LEN
    ||| enc.len() != DH_LEN
    ||| (mode.has_auth_spec() && mode.auth_pk_spec().len() != DH_LEN)
}

/// Sender-side setup over a caller-supplied ephemeral secret: computes the
/// shared secret against the receiver's public key (incorporating the
/// identity key in authenticating modes), runs the key schedule, and returns
/// the encapsulated key — the ephemeral public key — beside the ready
/// context. Fails with `KeyExchangeFailure` exactly on malformed key material
/// or a degenerate shared secret, before any derivation; with `InvalidPsk`
/// exactly when the mode's PSK material is malformed. No partial context is
/// ever returned.
pub fn setup_sender_with_ephemeral(mode: &OpModeS, pk_recip: &Vec<u8>, info: &Vec<u8>, eph_sk: &Vec<u8>) -> (r: Result<(Vec<u8>, AeadCtx), HpkeError>)
    ensures
        match r {
            Ok((enc, ctx)) => {
                &&& !sender_keys_invalid(mode, pk_recip@, eph_sk@)
                &&& !sender_kx_degenerate(mode, eph_sk@, pk_recip@)
                &&& psk_well_formed(mode.tag_spec(), mode.psk_spec(), mode.psk_id_spec())
                &&& enc@ == pk_of(eph_sk@)
                &&& enc@.len() == DH_LEN
                &&& derived_ctx_ok(
                    &ctx,
                    sender_shared_secret(mode, eph_sk@, pk_recip@),
                    mode.tag_spec(),
                    mode.psk_spec(),
                    mode.psk_id_spec(),
                    info@,
                )
                &&& ctx.wf()
                &&& ctx.counter_spec() == 0
            },
            Err(e) => {
                if sender_keys_invalid(mode, pk_recip@, eph_sk@) {
                    e == HpkeError::KeyExchangeFailure
                } else if sender_kx_degenerate(mode, eph_sk@, pk_recip@) {
                    e == HpkeError::KeyExchangeFailure
                } else if !psk_well_formed(mode.tag_spec(), mode.psk_spec(), mode.psk_id_spec()) {
                    e == HpkeError::InvalidPsk
                } else {
                    false
                }
            },
        },
{
    if eph_sk.len() != DH_LEN || pk_recip.len() != DH_LEN {
        return Err(HpkeError::KeyExchangeFailure);
    }
    let auth_sk = mode.identity_key_bytes();
    if mode.has_auth() {
        if auth_sk.len() != DH_LEN {
            return Err(HpkeError::KeyExchangeFailure);
        }
    }

    let dh_eph = x25519_dh(eph_sk, pk_recip);
    if is_all_zero(&dh_eph) {
        return Err(HpkeError::KeyExchangeFailure);
    }
    let mut shared = dh_eph;
    if mode.has_auth() {
        let dh_auth = x25519_dh(&auth_sk, pk_recip);
        if is_all_zero(&dh_auth) {
            return Err(HpkeError::KeyExchangeFailure);
        }
        append_bytes(&mut shared, &dh_auth);
    }
    proof {
        assert(shared@ == sender_shared_secret(mode, eph_sk@, pk_recip@));
    }

    let bp = basepoint();
    let enc = x25519_dh(eph_sk, &bp);

    let psk = mode.psk_bytes();
    let psk_id = mode.psk_id_bytes();
    let tag = mode.mode_tag();
    match key_schedule(&shared, tag, &psk, &psk_id, info) {
        Ok((key, base_nonce, exporter)) => {
            let ctx = AeadCtx::new(key, base_nonce, exporter);
            Ok((enc, ctx))
        },
        Err(e) => Err(e),
    }
}

/// Sender-side setup: generates a fresh ephemeral key pair, then proceeds as
/// `setup_sender_with_ephemeral`. On success the context is derived through
/// the key schedule from the shared secret of some 32-byte ephemeral secret
/// whose public half is the returned encapsulated key.
pub fn setup_sender(mode: &OpModeS, pk_recip: &Vec<u8>, info: &Vec<u8>, rng: &mut rand::rngs::ThreadRng) -> (r: Result<(Vec<u8>, AeadCtx), HpkeError>)
    ensures
        match r {
            Ok((enc, ctx)) => {
                &&& pk_recip@.len() == DH_LEN
                &&& psk_well_formed(mode.tag_spec(), mode.psk_spec(), mode.psk_id_spec())
                &&& ctx.wf()
                &&& ctx.counter_spec() == 0
                &&& exists|eph: Seq<u8>| {
                    &&& eph.len() == DH_LEN
                    &&& enc@ == pk_of(eph)
                    &&& !sender_kx_degenerate(mode, eph, pk_recip@)
                    &&& derived_ctx_ok(
                        &ctx,
                        #[trigger] sender_shared_secret(mode, eph, pk_recip@),
                        mode.tag_spec(),
                        mode.psk_spec(),
                        mode.psk_id_spec(),
                        info@,
                    )
                }
            },
            Err(e) => e == HpkeError::KeyExchangeFailure || e == HpkeError::InvalidPsk,
        },
        pk_recip@.len() != DH_LEN ==> r == Err::<(Vec<u8>, AeadCtx), HpkeError>(HpkeError::KeyExchangeFailure),
        !psk_well_formed(mode.tag_spec(), mode.psk_spec(), mode.psk_id_spec()) ==> r is Err,
{
    let (eph_sk, _eph_pk) = gen_keypair(rng);
    match setup_sender_with_ephemeral(mode, pk_recip, info, &eph_sk) {
        Ok((enc, ctx)) => {
            proof {
                assert({
                    &&& eph_sk@.len() == DH_LEN
                    &&& enc@ == pk_of(eph_sk@)
                    &&& !sender_kx_degenerate(mode, eph_sk@, pk_recip@)
                    &&& derived_ctx_ok(
                        &ctx,
                        sender_shared_secret(mode, eph_sk@, pk_recip@),
                        mode.tag_spec(),
                        mode.psk_spec(),
                        mode.psk_id_spec(),
                        info@,
                    )
                });
            }
            Ok((enc, ctx))
        },
        Err(e) => Err(e),
    }
}

/// Receiver-side setup: recomputes the shared secret from the received
/// encapsulated key and its own secret key (plus identity material symmetric
/// to the sender's) and runs the identical key schedule. On success the
/// context equals, byte for byte, what the sender derived from any ephemeral
/// secret whose public half is the encapsulated key — Diffie-Hellman
/// agreement, stated here over the key-exchange capability's results. The
/// failure conditions mirror the sender's.
pub fn setup_receiver(mode: &OpModeR, sk_recip: &Vec<u8>, enc: &Vec<u8>, info: &Vec<u8>) -> (r: Result<AeadCtx, HpkeError>)
    ensures
        match r {
            Ok(ctx) => {
                &&& !receiver_keys_invalid(mode, sk_recip@, enc@)
                &&& !receiver_kx_degenerate(mode, sk_recip@, enc@)
                &&& psk_well_formed(mode.tag_spec(), mode.psk_spec(), mode.psk_id_spec())
                &&& derived_ctx_ok(
                    &ctx,
                    receiver_shared_secret(mode, sk_recip@, enc@),
                    mode.tag_spec(),
                    mode.psk_spec(),
                    mode.psk_id_spec(),
                    info@,
                )
                &&& ctx.wf()
                &&& ctx.counter_spec() == 0
                &&& forall|e: Seq<u8>|
                    e.len() == DH_LEN && enc@ == pk_of(e)
                        ==> dh_of(sk_recip@, enc@) == #[trigger] dh_of(e, pk_of(sk_recip@))
                &&& (mode.has_auth_spec() ==> forall|a: Seq<u8>|
                    a.len() == DH_LEN && mode.auth_pk_spec() == pk_of(a)
                        ==> dh_of(sk_recip@, mode.auth_pk_spec()) == #[trigger] dh_of(a, pk_of(sk_recip@)))
            },
            Err(e) => {
                if receiver_keys_invalid(mode, sk_recip@, enc@) {
                    e == HpkeError::KeyExchangeFailure
                } else if receiver_kx_degenerate(mode, sk_recip@, enc@) {
                    e == HpkeError::KeyExchangeFailure
                } else if !psk_well_formed(mode.tag_spec(), mode.psk_spec(), mode.psk_id_spec()) {
                    e == HpkeError::InvalidPsk
                } else {
                    false
                }
            },
        },
{
    if sk_recip.len() != DH_LEN || enc.len() != DH_LEN {
        return Err(HpkeError::KeyExchangeFailure);
    }
    let auth_pk = mode.identity_key_bytes();
    if mode.has_auth() {
        if auth_pk.len() != DH_LEN {
            return Err(HpkeError::KeyExchangeFailure);
        }
    }

    let dh_enc = x25519_dh(sk_recip, enc);
    if is_all_zero(&dh_enc) {
        return Err(HpkeError::KeyExchangeFailure);
    }
    let mut shared = dh_enc;
    if mode.has_auth() {
        let dh_auth = x25519_dh(sk_recip, &auth_pk);
        if is_all_zero(&dh_auth) {
            return Err(HpkeError::KeyExchangeFailure);
        }
        append_bytes(&mut shared, &dh_auth);
    }
    proof {
        assert(shared@ == receiver_shared_secret(mode, sk_recip@, enc@));
    }

    let psk = mode.psk_bytes();
    let psk_id = mode.psk_id_bytes();
    let tag = mode.mode_tag();
    match key_schedule(&shared, tag, &psk, &psk_id, info) {
        Ok((key, base_nonce, exporter)) => {
            let ctx = AeadCtx::new(key, base_nonce, exporter);
            Ok(ctx)
        },
        Err(e) => Err(e),
    }
}

/// The paired setup call: builds both sides of one session in one place.
/// Agreement: on success the two contexts hold byte-identical key, base nonce
/// and exporter secret, each with its counter at zero. Pairing modes that do
/// not agree — different variants, different PSK material, or identity halves
/// that do not correspond — is a hard `InvalidMode` failure at setup, never a
/// silent divergence.
pub fn setup_pair(mode_s: &OpModeS, mode_r: &OpModeR, info: &Vec<u8>, rng: &mut rand::rngs::ThreadRng) -> (r: Result<(Vec<u8>, AeadCtx, AeadCtx), HpkeError>)
    ensures
        match r {
            Ok((enc, ctx_s, ctx_r)) => {
                &&& modes_agree(mode_s, mode_r)
                &&& ctx_s.wf()
                &&& ctx_r.wf()
                &&& ctx_s.counter_spec() == 0
                &&& ctx_r.counter_spec() == 0
                &&& ctx_s.same_material(&ctx_r)
                &&& enc@.len() == DH_LEN
            },
            Err(e) => {
                &&& (e == HpkeError::InvalidMode || e == HpkeError::KeyExchangeFailure
                    || e == HpkeError::InvalidPsk)
                &&& (e == HpkeError::InvalidMode <==> !modes_agree(mode_s, mode_r))
            },
        },
{
    if !check_modes_agree(mode_s, mode_r) {
        return Err(HpkeError::InvalidMode);
    }
    let (sk_recip, pk_recip) = gen_keypair(rng);
    let (eph_sk, _eph_pk) = gen_keypair(rng);
    let (enc, ctx_s) = match setup_sender_with_ephemeral(mode_s, &pk_recip, info, &eph_sk) {
        Ok(p) => p,
        Err(e) => {
            return Err(e);
        },
    };
    let ctx_r = match setup_receiver(mode_r, &sk_recip, &enc, info) {
        Ok(c) => c,
        Err(e) => {
            return Err(e);
        },
    };
    proof {
        assert(dh_of(sk_recip@, enc@) == dh_of(eph_sk@, pk_of(sk_recip@)));
        if mode_s.has_auth_spec() {
            assert(dh_of(sk_recip@, mode_r.auth_pk_spec())
                == dh_of(mode_s.auth_sk_spec(), pk_of(sk_recip@)));
        }
        assert(receiver_shared_secret(mode_r, sk_recip@, enc@)
            == sender_shared_secret(mode_s, eph_sk@, pk_recip@));
    }
    Ok((enc, ctx_s, ctx_r))
}

} // verus!
