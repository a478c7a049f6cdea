use hpke::HpkeError;
use hpke::aead::{AeadCtx, MAX_SEQ};
use hpke::dh::gen_keypair;
use hpke::op_mode::{
    OpModeKind, OpModeR, OpModeS, PskBundle, check_modes_agree, resolve_receiver, resolve_sender,
};
use hpke::setup::{key_schedule, setup_pair, setup_receiver, setup_sender};
use hpke::test_util::{aead_ctx_eq, gen_ctx_simple_pair, gen_op_mode_pair, gen_psk_bundle};

fn roundtrip_once(ctx_s: &mut AeadCtx, ctx_r: &mut AeadCtx, msg: &[u8], aad: &[u8]) {
    let mut buffer = msg.to_vec();
    let aad = aad.to_vec();
    let tag = ctx_s.seal(&mut buffer, &aad).expect("seal failed");
    ctx_r.open(&mut buffer, &aad, &tag).expect("open failed");
    assert_eq!(buffer, msg.to_vec());
}

#[test]
fn base_pair_1000_roundtrips() {
    let mut rng = rand::thread_rng();
    let (_enc, mut ctx_s, mut ctx_r) =
        setup_pair(&OpModeS::Base, &OpModeR::Base, &vec![1u8, 2, 3], &mut rng)
            .expect("base setup failed");
    assert!(aead_ctx_eq(&mut ctx_s, &mut ctx_r, &mut rng));
}

#[test]
fn simple_pair_1000_roundtrips() {
    let mut rng = rand::thread_rng();
    let (mut ctx1, mut ctx2) = gen_ctx_simple_pair(&mut rng);
    assert!(aead_ctx_eq(&mut ctx1, &mut ctx2, &mut rng));
}

#[test]
fn agreement_all_modes() {
    let mut rng = rand::thread_rng();
    let kinds = vec![
        OpModeKind::Base,
        OpModeKind::Psk,
        OpModeKind::Auth,
        OpModeKind::AuthPsk,
    ];
    for kind in kinds {
        let (mode_s, mode_r) = gen_op_mode_pair(kind, &mut rng);
        let info = vec![9u8, 8, 7];
        let (_enc, mut ctx_s, mut ctx_r) =
            setup_pair(&mode_s, &mode_r, &info, &mut rng).expect("paired setup failed");

        // Byte-identical exporter secrets: secondary derivations agree.
        let exporter_ctx = vec![42u8; 11];
        let e1 = ctx_s.export(&exporter_ctx, 64).expect("export failed");
        let e2 = ctx_r.export(&exporter_ctx, 64).expect("export failed");
        assert_eq!(e1, e2);
        assert_eq!(e1.len(), 64);

        // Byte-identical key and base nonce: messages round-trip both ways.
        roundtrip_once(&mut ctx_s, &mut ctx_r, b"hello over hpke", b"header");
        roundtrip_once(&mut ctx_r, &mut ctx_s, b"and back again", b"");
    }
}

#[test]
fn separate_setup_calls_agree() {
    let mut rng = rand::thread_rng();
    let (sk_recip, pk_recip) = gen_keypair(&mut rng);
    let info = vec![5u8; 17];
    let (enc, mut ctx_s) =
        setup_sender(&OpModeS::Base, &pk_recip, &info, &mut rng).expect("sender setup failed");
    let mut ctx_r = setup_receiver(&OpModeR::Base, &sk_recip, &enc, &info)
        .expect("receiver setup failed");
    for i in 0..32u8 {
        roundtrip_once(&mut ctx_s, &mut ctx_r, &vec![i; i as usize], &[i]);
    }
}

#[test]
fn seal_changes_the_buffer() {
    let mut rng = rand::thread_rng();
    let (mut ctx_s, _ctx_r) = gen_ctx_simple_pair(&mut rng);
    let msg = b"a plaintext that must not survive sealing".to_vec();
    let mut buffer = msg.clone();
    let tag = ctx_s.seal(&mut buffer, &Vec::new()).expect("seal failed");
    assert_eq!(buffer.len(), msg.len());
    assert_ne!(buffer, msg);
    assert_eq!(tag.len(), 16);
}

#[test]
fn in_order_nonces_match_and_out_of_order_fails() {
    let mut rng = rand::thread_rng();
    let (mut ctx_s, mut ctx_r) = gen_ctx_simple_pair(&mut rng);
    let aad = vec![7u8];

    let mut c1 = b"first message".to_vec();
    let t1 = ctx_s.seal(&mut c1, &aad).unwrap();
    let mut c2 = b"second message".to_vec();
    let t2 = ctx_s.seal(&mut c2, &aad).unwrap();

    // Out of order: the receiver's first nonce does not match the second seal.
    let mut c2_try = c2.clone();
    assert_eq!(
        ctx_r.open(&mut c2_try, &aad, &t2),
        Err(HpkeError::AeadAuthFailure)
    );
    // In order, both messages open: the N-th seal and N-th open share a nonce.
    ctx_r.open(&mut c1, &aad, &t1).unwrap();
    ctx_r.open(&mut c2, &aad, &t2).unwrap();
    assert_eq!(c1, b"first message".to_vec());
    assert_eq!(c2, b"second message".to_vec());
}

#[test]
fn tampering_is_rejected_and_consumes_no_sequence_slot() {
    let mut rng = rand::thread_rng();
    let (mut ctx_s, mut ctx_r) = gen_ctx_simple_pair(&mut rng);
    let aad = b"bound header".to_vec();
    let msg = b"untampered payload".to_vec();

    let mut ct = msg.clone();
    let tag = ctx_s.seal(&mut ct, &aad).unwrap();

    // Flip one bit of the ciphertext.
    for byte in 0..ct.len() {
        for bit in 0..8 {
            let mut bad_ct = ct.clone();
            bad_ct[byte] ^= 1 << bit;
            assert_eq!(
                ctx_r.open(&mut bad_ct, &aad, &tag),
                Err(HpkeError::AeadAuthFailure)
            );
            assert_eq!(bad_ct[byte], ct[byte] ^ (1 << bit));
        }
    }
    // Flip one bit of the tag.
    for bit in 0..8 {
        let mut bad_tag = tag.clone();
        bad_tag[0] ^= 1 << bit;
        let mut ct_try = ct.clone();
        assert_eq!(
            ctx_r.open(&mut ct_try, &aad, &bad_tag),
            Err(HpkeError::AeadAuthFailure)
        );
        assert_eq!(ct_try, ct);
    }
    // Flip one bit of the associated data.
    let mut bad_aad = aad.clone();
    bad_aad[0] ^= 0x80;
    let mut ct_try = ct.clone();
    assert_eq!(
        ctx_r.open(&mut ct_try, &bad_aad, &tag),
        Err(HpkeError::AeadAuthFailure)
    );

    // None of the rejections advanced the receiver's counter: the legitimate
    // message still opens against the first nonce.
    let mut ct_good = ct.clone();
    ctx_r.open(&mut ct_good, &aad, &tag).unwrap();
    assert_eq!(ct_good, msg);
}

#[test]
fn overflow_is_terminal() {
    let key = vec![0xA5u8; 32];
    let nonce = vec![0x5Au8; 12];
    let exporter = vec![0x11u8; 32];
    let mut ctx = AeadCtx::new_with_counter(key, nonce, exporter, MAX_SEQ);

    let mut buffer = b"never sealed".to_vec();
    let aad = Vec::new();
    assert_eq!(
        ctx.seal(&mut buffer, &aad),
        Err(HpkeError::SequenceOverflow)
    );
    assert_eq!(buffer, b"never sealed".to_vec());
    // Permanent: a second call fails the same way, and so does open.
    assert_eq!(
        ctx.seal(&mut buffer, &aad),
        Err(HpkeError::SequenceOverflow)
    );
    let tag = vec![0u8; 16];
    assert_eq!(
        ctx.open(&mut buffer, &aad, &tag),
        Err(HpkeError::SequenceOverflow)
    );
    // One step below the maximum, the context is still live.
    let mut live = AeadCtx::new_with_counter(
        vec![0xA5u8; 32],
        vec![0x5Au8; 12],
        vec![0x11u8; 32],
        MAX_SEQ - 1,
    );
    assert!(live.seal(&mut buffer, &aad).is_ok());
    assert_eq!(
        live.seal(&mut buffer, &aad),
        Err(HpkeError::SequenceOverflow)
    );
}

#[test]
fn mode_mismatch_fails_at_paired_setup() {
    let mut rng = rand::thread_rng();
    let info = vec![3u8];

    // Different variants.
    let bundle = gen_psk_bundle(&mut rng);
    let sender = OpModeS::Psk(bundle);
    assert!(matches!(
        setup_pair(&sender, &OpModeR::Base, &info, &mut rng),
        Err(HpkeError::InvalidMode)
    ));

    // Same variant, different PSK identifiers.
    let b1 = gen_psk_bundle(&mut rng);
    let mut b2 = b1.duplicate();
    b2.psk_id[0] ^= 1;
    assert!(!check_modes_agree(&OpModeS::Psk(b1.duplicate()), &OpModeR::Psk(b2.duplicate())));
    assert!(matches!(
        setup_pair(&OpModeS::Psk(b1), &OpModeR::Psk(b2), &info, &mut rng),
        Err(HpkeError::InvalidMode)
    ));

    // Non-corresponding identity halves.
    let (sk_id, _pk_id) = gen_keypair(&mut rng);
    let (_sk_other, pk_other) = gen_keypair(&mut rng);
    assert!(matches!(
        setup_pair(&OpModeS::Auth(sk_id), &OpModeR::Auth(pk_other), &info, &mut rng),
        Err(HpkeError::InvalidMode)
    ));
}

#[test]
fn mode_mismatch_in_separate_setups_never_interoperates() {
    let mut rng = rand::thread_rng();
    let info = vec![3u8];
    let (sk_recip, pk_recip) = gen_keypair(&mut rng);

    let bundle = gen_psk_bundle(&mut rng);
    let (enc, mut ctx_s) =
        setup_sender(&OpModeS::Psk(bundle), &pk_recip, &info, &mut rng).expect("sender setup");
    let mut ctx_r =
        setup_receiver(&OpModeR::Base, &sk_recip, &enc, &info).expect("receiver setup");

    // Divergent keys: nothing the sender seals opens on the receiver.
    let mut buffer = b"must not interoperate".to_vec();
    let aad = Vec::new();
    let tag = ctx_s.seal(&mut buffer, &aad).unwrap();
    assert_eq!(
        ctx_r.open(&mut buffer, &aad, &tag),
        Err(HpkeError::AeadAuthFailure)
    );
}

#[test]
fn psk_bundle_validation() {
    assert!(matches!(
        PskBundle::new(b"secret".to_vec(), Vec::new()),
        Err(HpkeError::InvalidMode)
    ));
    assert!(matches!(
        PskBundle::new(Vec::new(), b"id".to_vec()),
        Err(HpkeError::InvalidMode)
    ));
    assert!(PskBundle::new(Vec::new(), Vec::new()).is_ok());
    assert!(PskBundle::new(b"secret".to_vec(), b"id".to_vec()).is_ok());
}

#[test]
fn resolver_validates_materials() {
    let mut rng = rand::thread_rng();
    let (sk_id, pk_id) = gen_keypair(&mut rng);
    let bundle = gen_psk_bundle(&mut rng);

    assert!(matches!(
        resolve_sender(OpModeKind::Base, None, None),
        Ok(OpModeS::Base)
    ));
    assert!(matches!(
        resolve_sender(OpModeKind::Psk, None, None),
        Err(HpkeError::InvalidMode)
    ));
    let empty_bundle = PskBundle::new(Vec::new(), Vec::new()).unwrap();
    assert!(matches!(
        resolve_sender(OpModeKind::Psk, None, Some(empty_bundle)),
        Err(HpkeError::InvalidMode)
    ));
    assert!(matches!(
        resolve_sender(OpModeKind::Auth, None, None),
        Err(HpkeError::InvalidMode)
    ));
    assert!(matches!(
        resolve_sender(OpModeKind::Auth, Some(vec![1u8; 16]), None),
        Err(HpkeError::InvalidMode)
    ));
    assert!(matches!(
        resolve_sender(OpModeKind::AuthPsk, Some(sk_id.clone()), Some(bundle.duplicate())),
        Ok(OpModeS::AuthPsk(_, _))
    ));
    assert!(matches!(
        resolve_receiver(OpModeKind::AuthPsk, Some(pk_id), Some(bundle.duplicate())),
        Ok(OpModeR::AuthPsk(_, _))
    ));
    assert!(matches!(
        resolve_receiver(OpModeKind::Psk, None, Some(bundle)),
        Ok(OpModeR::Psk(_))
    ));
}

#[test]
fn key_schedule_is_deterministic_and_mode_separated() {
    let shared = vec![0x42u8; 32];
    let info = vec![1u8, 2, 3];
    let none = Vec::new();

    let (k1, n1, e1) = key_schedule(&shared, 0, &none, &none, &info).expect("schedule failed");
    let (k2, n2, e2) = key_schedule(&shared, 0, &none, &none, &info).expect("schedule failed");
    assert_eq!((k1.clone(), n1.clone(), e1.clone()), (k2, n2, e2));
    assert_eq!(k1.len(), 32);
    assert_eq!(n1.len(), 12);
    assert_eq!(e1.len(), 32);

    // A different mode tag over identical secrets derives different material.
    let (k3, n3, e3) = key_schedule(&shared, 2, &none, &none, &info).expect("schedule failed");
    assert_ne!(k1, k3);
    assert_ne!(n1, n3);
    assert_ne!(e1, e3);
}

#[test]
fn key_schedule_rejects_malformed_psk() {
    let shared = vec![0x42u8; 32];
    let info = Vec::new();
    let psk = b"psk".to_vec();
    let psk_id = b"id".to_vec();
    let none = Vec::new();

    // PSK-carrying tags demand both halves.
    assert!(matches!(
        key_schedule(&shared, 1, &none, &none, &info),
        Err(HpkeError::InvalidPsk)
    ));
    assert!(matches!(
        key_schedule(&shared, 3, &psk, &none, &info),
        Err(HpkeError::InvalidPsk)
    ));
    assert!(matches!(
        key_schedule(&shared, 1, &none, &psk_id, &info),
        Err(HpkeError::InvalidPsk)
    ));
    // Tags without PSK demand neither.
    assert!(matches!(
        key_schedule(&shared, 0, &psk, &psk_id, &info),
        Err(HpkeError::InvalidPsk)
    ));
    assert!(key_schedule(&shared, 1, &psk, &psk_id, &info).is_ok());
}

#[test]
fn export_length_limit() {
    let mut rng = rand::thread_rng();
    let (ctx, _other) = gen_ctx_simple_pair(&mut rng);
    let exporter_ctx = b"more material".to_vec();

    let okm = ctx.export(&exporter_ctx, 8160).expect("export failed");
    assert_eq!(okm.len(), 8160);
    assert_eq!(
        ctx.export(&exporter_ctx, 8161),
        Err(HpkeError::InvalidKeyLength)
    );
    // Export is read-only and deterministic on one context.
    let a = ctx.export(&exporter_ctx, 32).unwrap();
    let b = ctx.export(&exporter_ctx, 32).unwrap();
    assert_eq!(a, b);
    // A different exporter context string derives different material.
    let c = ctx.export(&b"other".to_vec(), 32).unwrap();
    assert_ne!(a, c);
}

#[test]
fn key_exchange_failures() {
    let mut rng = rand::thread_rng();
    let info = Vec::new();

    // A peer public key of the wrong length is rejected before derivation.
    let short_pk = vec![1u8; 31];
    assert!(matches!(
        setup_sender(&OpModeS::Base, &short_pk, &info, &mut rng),
        Err(HpkeError::KeyExchangeFailure)
    ));

    let (sk_recip, _pk_recip) = gen_keypair(&mut rng);
    let short_enc = vec![1u8; 31];
    assert!(matches!(
        setup_receiver(&OpModeR::Base, &sk_recip, &short_enc, &info),
        Err(HpkeError::KeyExchangeFailure)
    ));

    // A low-order peer point yields an all-zero shared secret: degenerate.
    let zero_pk = vec![0u8; 32];
    assert!(matches!(
        setup_sender(&OpModeS::Base, &zero_pk, &info, &mut rng),
        Err(HpkeError::KeyExchangeFailure)
    ));
}

#[test]
fn shared_secrets_agree_across_sides() {
    let mut rng = rand::thread_rng();
    // The raw agreement the whole engine rests on, exercised end to end: two
    // independently generated key pairs, each side combining its secret with
    // the other's public half, reach interoperable contexts.
    let (sk_a, pk_a) = gen_keypair(&mut rng);
    assert_eq!(pk_a.len(), 32);
    assert_ne!(sk_a, pk_a);

    let (mode_s, mode_r) = gen_op_mode_pair(OpModeKind::Auth, &mut rng);
    assert!(check_modes_agree(&mode_s, &mode_r));
    let (_enc, mut ctx_s, mut ctx_r) =
        setup_pair(&mode_s, &mode_r, &Vec::new(), &mut rng).expect("auth setup failed");
    roundtrip_once(&mut ctx_s, &mut ctx_r, b"authenticated", b"aad");
}
