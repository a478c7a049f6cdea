//! The encryption context: authenticated seal/open over an opaque AEAD
//! capability (ChaCha20-Poly1305), with a per-message nonce computed from a
//! base nonce and a monotonically advancing sequence counter. A context is
//! live while the counter is below its maximum and permanently exhausted once
//! the counter reaches it.
use vstd::prelude::*;
use chacha20poly1305::aead::AeadInPlace;
use chacha20poly1305::KeyInit;
use crate::HpkeError;
use crate::bytes::append_bytes;
use crate::kdf::{KDF_OUTPUT_LEN, MAX_EXPAND_LEN, expand_of, hkdf_expand};

verus! {

/// The AEAD capability's key length in bytes.
pub const AEAD_KEY_LEN: usize = 32;

/// The AEAD capability's nonce length in bytes.
pub const AEAD_NONCE_LEN: usize = 12;

/// The AEAD capability's detached authentication tag length in bytes.
pub const AEAD_TAG_LEN: usize = 16;

/// Longest buffer a single seal/open call accepts; comfortably below the
/// cipher's own block-counter limit, so the underlying calls cannot fail.
pub const MAX_MSG_LEN: usize = 0xFFFF_FFFF;

/// The largest sequence-counter value representable in the nonce width
/// (96 bits). A context whose counter has reached this value is exhausted.
pub const MAX_SEQ: u128 = 0xFFFF_FFFF_FFFF_FFFF_FFFF_FFFF;

/// Domain-separation label for exporter-secret derivations.
pub const LABEL_EXPORT: u8 = 7;

/// What the AEAD's seal transform makes of the buffer: a ciphertext that is a
/// deterministic, length-preserving function of key, nonce, associated data
/// and plaintext.
pub uninterp spec fn ct_of(key: Seq<u8>, nonce: Seq<u8>, aad: Seq<u8>, msg: Seq<u8>) -> Seq<u8>;

/// What the AEAD's authenticator returns: a tag that is a deterministic
/// function of key, nonce, associated data and ciphertext. Seal returns it;
/// open succeeds exactly when the presented tag equals it.
pub uninterp spec fn vtag_of(key: Seq<u8>, nonce: Seq<u8>, aad: Seq<u8>, ct: Seq<u8>) -> Seq<u8>;

/// Relies on chacha20poly1305::ChaCha20Poly1305, KeyInit::new and
/// AeadInPlace::encrypt_in_place_detached: encrypts the buffer in place with
/// the ChaCha20 keystream — a deterministic, length-preserving function of
/// key, nonce and plaintext — and returns the 16-byte Poly1305 tag computed
/// over the associated data and the ciphertext. The only failure is a buffer
/// longer than the cipher's block-counter limit, which the length bound here
/// rules out.
#[verifier::external_body]
fn aead_seal_raw(key: &Vec<u8>, nonce: &Vec<u8>, aad: &Vec<u8>, buf: &mut Vec<u8>) -> (r: Vec<u8>)
    requires
        key@.len() == AEAD_KEY_LEN,
        nonce@.len() == AEAD_NONCE_LEN,
        old(buf)@.len() <= MAX_MSG_LEN,
    ensures
        final(buf)@ == ct_of(key@, nonce@, aad@, old(buf)@),
        final(buf)@.len() == old(buf)@.len(),
        r@ == vtag_of(key@, nonce@, aad@, final(buf)@),
        r@.len() == AEAD_TAG_LEN,
{
    let cipher = chacha20poly1305::ChaCha20Poly1305::new(
        chacha20poly1305::Key::from_slice(key.as_slice()),
    );
    let nonce = chacha20poly1305::Nonce::from_slice(nonce.as_slice());
    let tag = cipher
        .encrypt_in_place_detached(nonce, aad.as_slice(), buf.as_mut_slice())
        .unwrap();
    tag.to_vec()
}

/// Relies on chacha20poly1305::ChaCha20Poly1305, KeyInit::new and
/// AeadInPlace::decrypt_in_place_detached: recomputes the Poly1305 tag over
/// the associated data and the ciphertext, succeeds exactly when it equals
/// the presented tag, and only then applies the ChaCha20 keystream — the
/// inverse of the seal transform, so a faithful seal output decrypts to the
/// plaintext it was made from. On failure the buffer is untouched.
#[verifier::external_body]
fn aead_open_raw(key: &Vec<u8>, nonce: &Vec<u8>, aad: &Vec<u8>, buf: &mut Vec<u8>, tag: &Vec<u8>) -> (r: bool)
    requires
        key@.len() == AEAD_KEY_LEN,
        nonce@.len() == AEAD_NONCE_LEN,
        old(buf)@.len() <= MAX_MSG_LEN,
        tag@.len() == AEAD_TAG_LEN,
    ensures
        r == (tag@ == vtag_of(key@, nonce@, aad@, old(buf)@)),
        r ==> final(buf)@.len() == old(buf)@.len(),
        r ==> forall|m: Seq<u8>| old(buf)@ == ct_of(key@, nonce@, aad@, m) ==> final(buf)@ == m,
        !r ==> final(buf)@ == old(buf)@,
{
    let cipher = chacha20poly1305::ChaCha20Poly1305::new(
        chacha20poly1305::Key::from_slice(key.as_slice()),
    );
    let nonce = chacha20poly1305::Nonce::from_slice(nonce.as_slice());
    let tag = chacha20poly1305::Tag::from_slice(tag.as_slice());
    cipher
        .decrypt_in_place_detached(nonce, aad.as_slice(), buf.as_mut_slice(), tag)
        .is_ok()
}

/// Byte `i` of the big-endian encoding of the counter in the nonce width.
pub open spec fn counter_byte(ctr: u128, i: int) -> u8 {
    (ctr >> (((11 - i) * 8) as u128)) as u8
}

/// The per-message nonce: the base nonce XORed with the big-endian counter.
pub open spec fn nonce_of(base: Seq<u8>, ctr: u128) -> Seq<u8> {
    Seq::new(base.len(), |i: int| base[i] ^ counter_byte(ctr, i))
}

/// Computes the per-message nonce for the given counter value.
fn compute_nonce(base: &Vec<u8>, ctr: u128) -> (r: Vec<u8>)
    requires
        base@.len() == AEAD_NONCE_LEN,
    ensures
        r@ == nonce_of(base@, ctr),
        r@.len() == AEAD_NONCE_LEN,
{
    let mut r: Vec<u8> = Vec::new();
    let mut i: usize = 0;
    while i < 12
        invariant
            base@.len() == 12,
            i <= 12,
            r@.len() == i,
            forall|j: int| 0 <= j < i ==> r@[j] == (base@[j] ^ counter_byte(ctr, j)),
        decreases 12 - i,
    {
        let sh: u128 = ((11 - i) * 8) as u128;
        let b: u8 = (ctr >> sh) as u8;
        r.push(base[i] ^ b);
        i += 1;
    }
    proof {
        assert(r@ =~= nonce_of(base@, ctr));
    }
    r
}

/// A big-endian 96-bit encoding is injective on in-range counters.
proof fn lemma_be_bytes_injective(c1: u128, c2: u128)
    by (bit_vector)
    requires
        c1 <= 0xFFFF_FFFF_FFFF_FFFF_FFFF_FFFFu128,
        c2 <= 0xFFFF_FFFF_FFFF_FFFF_FFFF_FFFFu128,
        (c1 >> 88u128) as u8 == (c2 >> 88u128) as u8,
        (c1 >> 80u128) as u8 == (c2 >> 80u128) as u8,
        (c1 >> 72u128) as u8 == (c2 >> 72u128) as u8,
        (c1 >> 64u128) as u8 == (c2 >> 64u128) as u8,
        (c1 >> 56u128) as u8 == (c2 >> 56u128) as u8,
        (c1 >> 48u128) as u8 == (c2 >> 48u128) as u8,
        (c1 >> 40u128) as u8 == (c2 >> 40u128) as u8,
        (c1 >> 32u128) as u8 == (c2 >> 32u128) as u8,
        (c1 >> 24u128) as u8 == (c2 >> 24u128) as u8,
        (c1 >> 16u128) as u8 == (c2 >> 16u128) as u8,
        (c1 >> 8u128) as u8 == (c2 >> 8u128) as u8,
        (c1 >> 0u128) as u8 == (c2 >> 0u128) as u8,
    ensures
        c1 == c2,
{
}

/// Sequence monotonicity, nonce half: two distinct in-range counter values
/// never yield the same nonce from one base nonce, so a context never reuses
/// a per-message nonce.
pub proof fn lemma_nonce_uniqueness(base: Seq<u8>, c1: u128, c2: u128)
    requires
        base.len() == AEAD_NONCE_LEN,
        c1 <= MAX_SEQ,
        c2 <= MAX_SEQ,
        c1 != c2,
    ensures
        nonce_of(base, c1) != nonce_of(base, c2),
{
    if nonce_of(base, c1) == nonce_of(base, c2) {
        assert forall|i: int| 0 <= i < 12 implies counter_byte(c1, i) == counter_byte(c2, i) by {
            assert(nonce_of(base, c1)[i] == nonce_of(base, c2)[i]);
            let bb = base[i];
            let x = counter_byte(c1, i);
            let y = counter_byte(c2, i);
            assert(bb ^ x == bb ^ y ==> x == y) by (bit_vector);
        };
        assert(counter_byte(c1, 0) == (c1 >> 88u128) as u8);
        assert(counter_byte(c1, 1) == (c1 >> 80u128) as u8);
        assert(counter_byte(c1, 2) == (c1 >> 72u128) as u8);
        assert(counter_byte(c1, 3) == (c1 >> 64u128) as u8);
        assert(counter_byte(c1, 4) == (c1 >> 56u128) as u8);
        assert(counter_byte(c1, 5) == (c1 >> 48u128) as u8);
        assert(counter_byte(c1, 6) == (c1 >> 40u128) as u8);
        assert(counter_byte(c1, 7) == (c1 >> 32u128) as u8);
        assert(counter_byte(c1, 8) == (c1 >> 24u128) as u8);
        assert(counter_byte(c1, 9) == (c1 >> 16u128) as u8);
        assert(counter_byte(c1, 10) == (c1 >> 8u128) as u8);
        assert(counter_byte(c1, 11) == (c1 >> 0u128) as u8);
        assert(counter_byte(c2, 0) == (c2 >> 88u128) as u8);
        assert(counter_byte(c2, 1) == (c2 >> 80u128) as u8);
        assert(counter_byte(c2, 2) == (c2 >> 72u128) as u8);
        assert(counter_byte(c2, 3) == (c2 >> 64u128) as u8);
        assert(counter_byte(c2, 4) == (c2 >> 56u128) as u8);
        assert(counter_byte(c2, 5) == (c2 >> 48u128) as u8);
        assert(counter_byte(c2, 6) == (c2 >> 40u128) as u8);
        assert(counter_byte(c2, 7) == (c2 >> 32u128) as u8);
        assert(counter_byte(c2, 8) == (c2 >> 24u128) as u8);
        assert(counter_byte(c2, 9) == (c2 >> 16u128) as u8);
        assert(counter_byte(c2, 10) == (c2 >> 8u128) as u8);
        assert(counter_byte(c2, 11) == (c2 >> 0u128) as u8);
        lemma_be_bytes_injective(c1, c2);
        assert(false);
    }
}

/// An established encryption context: immutable key, base nonce and exporter
/// secret, plus the mutable sequence counter. Exactly one seal/open operation
/// owns the counter at a time; distinct contexts are independent.
pub struct AeadCtx {
    key: Vec<u8>,
    base_nonce: Vec<u8>,
    exporter_secret: Vec<u8>,
    counter: u128,
}

impl AeadCtx {
    /// The AEAD key this context seals and opens with.
    pub closed spec fn key_spec(&self) -> Seq<u8> {
        self.key@
    }

    /// The base nonce every per-message nonce is derived from.
    pub closed spec fn base_nonce_spec(&self) -> Seq<u8> {
        self.base_nonce@
    }

    /// The exporter secret backing `export`.
    pub closed spec fn exporter_secret_spec(&self) -> Seq<u8> {
        self.exporter_secret@
    }

    /// The current sequence counter.
    pub closed spec fn counter_spec(&self) -> u128 {
        self.counter
    }

    /// Well-formedness: the key material has the capability-mandated lengths
    /// and the counter is in the nonce width's range.
    pub open spec fn wf(&self) -> bool {
        &&& self.key_spec().len() == AEAD_KEY_LEN
        &&& self.base_nonce_spec().len() == AEAD_NONCE_LEN
        &&& self.exporter_secret_spec().len() == KDF_OUTPUT_LEN
        &&& self.counter_spec() <= MAX_SEQ
    }

    /// True when the two contexts hold byte-identical key material.
    pub open spec fn same_material(&self, o: &AeadCtx) -> bool {
        &&& self.key_spec() == o.key_spec()
        &&& self.base_nonce_spec() == o.base_nonce_spec()
        &&& self.exporter_secret_spec() == o.exporter_secret_spec()
    }

    /// Builds a fresh context over the given key material, with the sequence
    /// counter at zero.
    pub fn new(key: Vec<u8>, base_nonce: Vec<u8>, exporter_secret: Vec<u8>) -> (r: AeadCtx)
        requires
            key@.len() == AEAD_KEY_LEN,
            base_nonce@.len() == AEAD_NONCE_LEN,
            exporter_secret@.len() == KDF_OUTPUT_LEN,
        ensures
            r.key_spec() == key@,
            r.base_nonce_spec() == base_nonce@,
            r.exporter_secret_spec() == exporter_secret@,
            r.counter_spec() == 0,
            r.wf(),
    {
        AeadCtx { key, base_nonce, exporter_secret, counter: 0 }
    }

    /// Builds a context resuming at an arbitrary in-range counter position,
    /// for callers that persist and restore a session's progress.
    pub fn new_with_counter(key: Vec<u8>, base_nonce: Vec<u8>, exporter_secret: Vec<u8>, counter: u128) -> (r: AeadCtx)
        requires
            key@.len() == AEAD_KEY_LEN,
            base_nonce@.len() == AEAD_NONCE_LEN,
            exporter_secret@.len() == KDF_OUTPUT_LEN,
            counter <= MAX_SEQ,
        ensures
            r.key_spec() == key@,
            r.base_nonce_spec() == base_nonce@,
            r.exporter_secret_spec() == exporter_secret@,
            r.counter_spec() == counter,
            r.wf(),
    {
        AeadCtx { key, base_nonce, exporter_secret, counter }
    }

    /// Seals the buffer in place under the nonce of the current counter and
    /// returns the detached tag, advancing the counter on success. On an
    /// exhausted counter it fails with `SequenceOverflow` before any
    /// encryption — overflow is checked before use, so a nonce is never
    /// reused — and changes nothing.
    pub fn seal(&mut self, plaintext: &mut Vec<u8>, aad: &Vec<u8>) -> (r: Result<Vec<u8>, HpkeError>)
        requires
            old(self).wf(),
            old(plaintext)@.len() <= MAX_MSG_LEN,
        ensures
            final(self).wf(),
            final(self).same_material(old(self)),
            match r {
                Ok(tag) => {
                    &&& old(self).counter_spec() < MAX_SEQ
                    &&& final(self).counter_spec() == old(self).counter_spec() + 1
                    &&& final(plaintext)@ == ct_of(
                        old(self).key_spec(),
                        nonce_of(old(self).base_nonce_spec(), old(self).counter_spec()),
                        aad@,
                        old(plaintext)@,
                    )
                    &&& final(plaintext)@.len() == old(plaintext)@.len()
                    &&& tag@ == vtag_of(
                        old(self).key_spec(),
                        nonce_of(old(self).base_nonce_spec(), old(self).counter_spec()),
                        aad@,
                        final(plaintext)@,
                    )
                    &&& tag@.len() == AEAD_TAG_LEN
                },
                Err(e) => {
                    &&& e == HpkeError::SequenceOverflow
                    &&& old(self).counter_spec() == MAX_SEQ
                    &&& final(self).counter_spec() == old(self).counter_spec()
                    &&& final(plaintext)@ == old(plaintext)@
                },
            },
    {
        if self.counter >= MAX_SEQ {
            return Err(HpkeError::SequenceOverflow);
        }
        let nonce = compute_nonce(&self.base_nonce, self.counter);
        let tag = aead_seal_raw(&self.key, &nonce, aad, plaintext);
        self.counter = self.counter + 1;
        Ok(tag)
    }

    /// Opens the buffer in place against the nonce of the current counter,
    /// advancing the counter only on success. A rejected message fails with
    /// `AeadAuthFailure` and consumes no sequence slot; an exhausted counter
    /// fails with `SequenceOverflow`. Either failure leaves the context and
    /// the buffer exactly as they were.
    pub fn open(&mut self, ciphertext: &mut Vec<u8>, aad: &Vec<u8>, tag: &Vec<u8>) -> (r: Result<(), HpkeError>)
        requires
            old(self).wf(),
            old(ciphertext)@.len() <= MAX_MSG_LEN,
            tag@.len() == AEAD_TAG_LEN,
        ensures
            final(self).wf(),
            final(self).same_material(old(self)),
            match r {
                Ok(()) => {
                    &&& old(self).counter_spec() < MAX_SEQ
                    &&& tag@ == vtag_of(
                        old(self).key_spec(),
                        nonce_of(old(self).base_nonce_spec(), old(self).counter_spec()),
                        aad@,
                        old(ciphertext)@,
                    )
                    &&& final(self).counter_spec() == old(self).counter_spec() + 1
                    &&& final(ciphertext)@.len() == old(ciphertext)@.len()
                    &&& forall|m: Seq<u8>|
                        old(ciphertext)@ == ct_of(
                            old(self).key_spec(),
                            nonce_of(old(self).base_nonce_spec(), old(self).counter_spec()),
                            aad@,
                            m,
                        ) ==> final(ciphertext)@ == m
                },
                Err(e) => {
                    &&& final(self).counter_spec() == old(self).counter_spec()
                    &&& final(ciphertext)@ == old(ciphertext)@
                    &&& if old(self).counter_spec() == MAX_SEQ {
                        e == HpkeError::SequenceOverflow
                    } else {
                        &&& e == HpkeError::AeadAuthFailure
                        &&& tag@ != vtag_of(
                            old(self).key_spec(),
                            nonce_of(old(self).base_nonce_spec(), old(self).counter_spec()),
                            aad@,
                            old(ciphertext)@,
                        )
                    }
                },
            },
    {
        if self.counter >= MAX_SEQ {
            return Err(HpkeError::SequenceOverflow);
        }
        let nonce = compute_nonce(&self.base_nonce, self.counter);
        if aead_open_raw(&self.key, &nonce, aad, ciphertext, tag) {
            self.counter = self.counter + 1;
            Ok(())
        } else {
            Err(HpkeError::AeadAuthFailure)
        }
    }

    /// Derives further key material bound to this session from the exporter
    /// secret, without consuming sequence numbers. Fails with
    /// `InvalidKeyLength` exactly when the requested length exceeds what the
    /// KDF can expand in one call.
    pub fn export(&self, exporter_ctx: &Vec<u8>, out_len: usize) -> (r: Result<Vec<u8>, HpkeError>)
        requires
            self.wf(),
        ensures
            match r {
                Ok(okm) => {
                    &&& out_len <= MAX_EXPAND_LEN
                    &&& okm@ == expand_of(
                        self.exporter_secret_spec(),
                        seq![LABEL_EXPORT] + exporter_ctx@,
                        out_len as nat,
                    )
                    &&& okm@.len() == out_len
                },
                Err(e) => {
                    &&& e == HpkeError::InvalidKeyLength
                    &&& out_len > MAX_EXPAND_LEN
                },
            },
    {
        if out_len > MAX_EXPAND_LEN {
            return Err(HpkeError::InvalidKeyLength);
        }
        let mut info: Vec<u8> = Vec::new();
        info.push(LABEL_EXPORT);
        append_bytes(&mut info, exporter_ctx);
        proof {
            assert(info@ =~= seq![LABEL_EXPORT] + exporter_ctx@);
        }
        Ok(hkdf_expand(&self.exporter_secret, &info, out_len))
    }
}

} // verus!
