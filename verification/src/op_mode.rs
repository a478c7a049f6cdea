//! The operation-mode resolver: the closed set of four modes (Base, Psk,
//! Auth, AuthPsk), validation of the materials each mode needs, and the
//! uniform queries the key schedule consumes — mode tag, PSK presence and the
//! underlying secrets — so no caller branches on the mode kind itself.
use vstd::prelude::*;
use crate::HpkeError;
use crate::bytes::{bytes_eq, copy_bytes};
use crate::dh::{DH_LEN, pk_of, basepoint, x25519_dh};

verus! {

/// Mode tag mixed into the key schedule for the Base mode.
pub const MODE_TAG_BASE: u8 = 0;

/// Mode tag mixed into the key schedule for the Psk mode.
pub const MODE_TAG_PSK: u8 = 1;

/// Mode tag mixed into the key schedule for the Auth mode.
pub const MODE_TAG_AUTH: u8 = 2;

/// Mode tag mixed into the key schedule for the AuthPsk mode.
pub const MODE_TAG_AUTH_PSK: u8 = 3;

/// A pre-shared key with its identifier. The two are required together or
/// not at all: a bundle with one of them empty and the other not is invalid.
pub struct PskBundle {
    /// The pre-shared secret itself.
    pub psk: Vec<u8>,
    /// The identifier both parties know the secret under.
    pub psk_id: Vec<u8>,
}

impl PskBundle {
    /// Both halves present, or neither.
    pub open spec fn wf(&self) -> bool {
        (self.psk@.len() == 0) == (self.psk_id@.len() == 0)
    }

    /// Usable in a PSK-carrying mode: both halves non-empty.
    pub open spec fn usable(&self) -> bool {
        self.psk@.len() > 0 && self.psk_id@.len() > 0
    }

    /// Packages a secret and its identifier, rejecting a pair where one half
    /// is empty and the other is not.
    pub fn new(psk: Vec<u8>, psk_id: Vec<u8>) -> (r: Result<PskBundle, HpkeError>)
        ensures
            match r {
                Ok(b) => {
                    &&& (psk@.len() == 0) == (psk_id@.len() == 0)
                    &&& b.psk@ == psk@
                    &&& b.psk_id@ == psk_id@
                },
                Err(e) => {
                    &&& e == HpkeError::InvalidMode
                    &&& (psk@.len() == 0) != (psk_id@.len() == 0)
                },
            },
    {
        if (psk.len() == 0) != (psk_id.len() == 0) {
            return Err(HpkeError::InvalidMode);
        }
        Ok(PskBundle { psk, psk_id })
    }

    /// Byte-for-byte copy of the bundle.
    pub fn duplicate(&self) -> (r: PskBundle)
        ensures
            r.psk@ == self.psk@,
            r.psk_id@ == self.psk_id@,
    {
        PskBundle { psk: copy_bytes(&self.psk), psk_id: copy_bytes(&self.psk_id) }
    }
}

/// The requested mode kind, before materials are attached.
#[derive(Clone, Copy, PartialEq, Eq, Structural)]
pub enum OpModeKind {
    /// No extra secrets.
    Base,
    /// A pre-shared key contributes to the schedule.
    Psk,
    /// The sender authenticates through its identity key.
    Auth,
    /// Both of the above.
    AuthPsk,
}

/// The sender-side operation mode: which optional secrets feed the key
/// schedule. `Auth` variants carry the sender's own private identity key.
pub enum OpModeS {
    /// No extra secrets.
    Base,
    /// A pre-shared key contributes to the schedule.
    Psk(PskBundle),
    /// The sender's private identity key, for sender authentication.
    Auth(Vec<u8>),
    /// Both a private identity key and a pre-shared key.
    AuthPsk(Vec<u8>, PskBundle),
}

/// The receiver-side operation mode, structurally symmetric to the sender's.
/// `Auth` variants carry the sender's public identity key.
pub enum OpModeR {
    /// No extra secrets.
    Base,
    /// A pre-shared key contributes to the schedule.
    Psk(PskBundle),
    /// The sender's public identity key, for sender authentication.
    Auth(Vec<u8>),
    /// Both the sender's public identity key and a pre-shared key.
    AuthPsk(Vec<u8>, PskBundle),
}

impl OpModeS {
    /// The mode-identifying byte mixed into the key schedule.
    pub open spec fn tag_spec(&self) -> u8 {
        match self {
            OpModeS::Base => MODE_TAG_BASE,
            OpModeS::Psk(_) => MODE_TAG_PSK,
            OpModeS::Auth(_) => MODE_TAG_AUTH,
            OpModeS::AuthPsk(_, _) => MODE_TAG_AUTH_PSK,
        }
    }

    /// Does this mode carry a pre-shared key?
    pub open spec fn has_psk_spec(&self) -> bool {
        match self {
            OpModeS::Psk(_) | OpModeS::AuthPsk(_, _) => true,
            _ => false,
        }
    }

    /// Does this mode carry sender authentication?
    pub open spec fn has_auth_spec(&self) -> bool {
        match self {
            OpModeS::Auth(_) | OpModeS::AuthPsk(_, _) => true,
            _ => false,
        }
    }

    /// The pre-shared secret, empty when the mode carries none.
    pub open spec fn psk_spec(&self) -> Seq<u8> {
        match self {
            OpModeS::Psk(b) | OpModeS::AuthPsk(_, b) => b.psk@,
            _ => Seq::empty(),
        }
    }

    /// The pre-shared key identifier, empty when the mode carries none.
    pub open spec fn psk_id_spec(&self) -> Seq<u8> {
        match self {
            OpModeS::Psk(b) | OpModeS::AuthPsk(_, b) => b.psk_id@,
            _ => Seq::empty(),
        }
    }

    /// The sender's private identity key, empty when the mode carries none.
    pub open spec fn auth_sk_spec(&self) -> Seq<u8> {
        match self {
            OpModeS::Auth(sk) | OpModeS::AuthPsk(sk, _) => sk@,
            _ => Seq::empty(),
        }
    }

    /// The mode-identifying byte.
    pub fn mode_tag(&self) -> (r: u8)
        ensures
            r == self.tag_spec(),
    {
        match self {
            OpModeS::Base => MODE_TAG_BASE,
            OpModeS::Psk(_) => MODE_TAG_PSK,
            OpModeS::Auth(_) => MODE_TAG_AUTH,
            OpModeS::AuthPsk(_, _) => MODE_TAG_AUTH_PSK,
        }
    }

    /// Does this mode carry a pre-shared key?
    pub fn has_psk(&self) -> (r: bool)
        ensures
            r == self.has_psk_spec(),
    {
        match self {
            OpModeS::Psk(_) | OpModeS::AuthPsk(_, _) => true,
            _ => false,
        }
    }

    /// Does this mode carry sender authentication?
    pub fn has_auth(&self) -> (r: bool)
        ensures
            r == self.has_auth_spec(),
    {
        match self {
            OpModeS::Auth(_) | OpModeS::AuthPsk(_, _) => true,
            _ => false,
        }
    }

    /// The pre-shared secret, empty when the mode carries none.
    pub fn psk_bytes(&self) -> (r: Vec<u8>)
        ensures
            r@ == self.psk_spec(),
    {
        match self {
            OpModeS::Psk(b) | OpModeS::AuthPsk(_, b) => copy_bytes(&b.psk),
            _ => Vec::new(),
        }
    }

    /// The pre-shared key identifier, empty when the mode carries none.
    pub fn psk_id_bytes(&self) -> (r: Vec<u8>)
        ensures
            r@ == self.psk_id_spec(),
    {
        match self {
            OpModeS::Psk(b) | OpModeS::AuthPsk(_, b) => copy_bytes(&b.psk_id),
            _ => Vec::new(),
        }
    }

    /// The sender's private identity key, empty when the mode carries none.
    pub fn identity_key_bytes(&self) -> (r: Vec<u8>)
        ensures
            r@ == self.auth_sk_spec(),
    {
        match self {
            OpModeS::Auth(sk) | OpModeS::AuthPsk(sk, _) => copy_bytes(sk),
            _ => Vec::new(),
        }
    }
}

impl OpModeR {
    /// The mode-identifying byte mixed into the key schedule.
    pub open spec fn tag_spec(&self) -> u8 {
        match self {
            OpModeR::Base => MODE_TAG_BASE,
            OpModeR::Psk(_) => MODE_TAG_PSK,
            OpModeR::Auth(_) => MODE_TAG_AUTH,
            OpModeR::AuthPsk(_, _) => MODE_TAG_AUTH_PSK,
        }
    }

    /// Does this mode carry a pre-shared key?
    pub open spec fn has_psk_spec(&self) -> bool {
        match self {
            OpModeR::Psk(_) | OpModeR::AuthPsk(_, _) => true,
            _ => false,
        }
    }

    /// Does this mode carry sender authentication?
    pub open spec fn has_auth_spec(&self) -> bool {
        match self {
            OpModeR::Auth(_) | OpModeR::AuthPsk(_, _) => true,
            _ => false,
        }
    }

    /// The pre-shared secret, empty when the mode carries none.
    pub open spec fn psk_spec(&self) -> Seq<u8> {
        match self {
            OpModeR::Psk(b) | OpModeR::AuthPsk(_, b) => b.psk@,
            _ => Seq::empty(),
        }
    }

    /// The pre-shared key identifier, empty when the mode carries none.
    pub open spec fn psk_id_spec(&self) -> Seq<u8> {
        match self {
            OpModeR::Psk(b) | OpModeR::AuthPsk(_, b) => b.psk_id@,
            _ => Seq::empty(),
        }
    }

    /// The sender's public identity key, empty when the mode carries none.
    pub open spec fn auth_pk_spec(&self) -> Seq<u8> {
        match self {
            OpModeR::Auth(pk) | OpModeR::AuthPsk(pk, _) => pk@,
            _ => Seq::empty(),
        }
    }

    /// The mode-identifying byte.
    pub fn mode_tag(&self) -> (r: u8)
        ensures
            r == self.tag_spec(),
    {
        match self {
            OpModeR::Base => MODE_TAG_BASE,
            OpModeR::Psk(_) => MODE_TAG_PSK,
            OpModeR::Auth(_) => MODE_TAG_AUTH,
            OpModeR::AuthPsk(_, _) => MODE_TAG_AUTH_PSK,
        }
    }

    /// Does this mode carry a pre-shared key?
    pub fn has_psk(&self) -> (r: bool)
        ensures
            r == self.has_psk_spec(),
    {
        match self {
            OpModeR::Psk(_) | OpModeR::AuthPsk(_, _) => true,
            _ => false,
        }
    }

    /// Does this mode carry sender authentication?
    pub fn has_auth(&self) -> (r: bool)
        ensures
            r == self.has_auth_spec(),
    {
        match self {
            OpModeR::Auth(_) | OpModeR::AuthPsk(_, _) => true,
            _ => false,
        }
    }

    /// The pre-shared secret, empty when the mode carries none.
    pub fn psk_bytes(&self) -> (r: Vec<u8>)
        ensures
            r@ == self.psk_spec(),
    {
        match self {
            OpModeR::Psk(b) | OpModeR::AuthPsk(_, b) => copy_bytes(&b.psk),
            _ => Vec::new(),
        }
    }

    /// The pre-shared key identifier, empty when the mode carries none.
    pub fn psk_id_bytes(&self) -> (r: Vec<u8>)
        ensures
            r@ == self.psk_id_spec(),
    {
        match self {
            OpModeR::Psk(b) | OpModeR::AuthPsk(_, b) => copy_bytes(&b.psk_id),
            _ => Vec::new(),
        }
    }

    /// The sender's public identity key, empty when the mode carries none.
    pub fn identity_key_bytes(&self) -> (r: Vec<u8>)
        ensures
            r@ == self.auth_pk_spec(),
    {
        match self {
            OpModeR::Auth(pk) | OpModeR::AuthPsk(pk, _) => copy_bytes(pk),
            _ => Vec::new(),
        }
    }
}

/// When a requested mode kind is satisfied by the supplied materials: a
/// PSK-carrying kind needs a bundle with both halves non-empty, an
/// authenticating kind needs identity-key material of the key-exchange
/// length.
pub open spec fn sender_materials_valid(kind: OpModeKind, identity_sk: Option<Vec<u8>>, bundle: Option<PskBundle>) -> bool {
    &&& match kind {
        OpModeKind::Auth | OpModeKind::AuthPsk => identity_sk matches Some(sk) && sk@.len() == DH_LEN,
        _ => true,
    }
    &&& match kind {
        OpModeKind::Psk | OpModeKind::AuthPsk => bundle matches Some(b) && b.usable(),
        _ => true,
    }
}

/// Mirror of `sender_materials_valid` for the receiver, whose identity
/// material is the sender's public key.
pub open spec fn receiver_materials_valid(kind: OpModeKind, identity_pk: Option<Vec<u8>>, bundle: Option<PskBundle>) -> bool {
    &&& match kind {
        OpModeKind::Auth | OpModeKind::AuthPsk => identity_pk matches Some(pk) && pk@.len() == DH_LEN,
        _ => true,
    }
    &&& match kind {
        OpModeKind::Psk | OpModeKind::AuthPsk => bundle matches Some(b) && b.usable(),
        _ => true,
    }
}

/// Validates and packages the sender's materials into the requested mode.
/// Succeeds exactly when the materials satisfy the kind; a missing or
/// malformed piece is a hard `InvalidMode` failure, never a silent fallback.
pub fn resolve_sender(kind: OpModeKind, identity_sk: Option<Vec<u8>>, bundle: Option<PskBundle>) -> (r: Result<OpModeS, HpkeError>)
    ensures
        match r {
            Ok(m) => {
                &&& sender_materials_valid(kind, identity_sk, bundle)
                &&& match kind {
                    OpModeKind::Base => m matches OpModeS::Base,
                    OpModeKind::Psk => m matches OpModeS::Psk(b)
                        && Some(b) == bundle,
                    OpModeKind::Auth => m matches OpModeS::Auth(sk)
                        && Some(sk) == identity_sk,
                    OpModeKind::AuthPsk => m matches OpModeS::AuthPsk(sk, b)
                        && Some(sk) == identity_sk && Some(b) == bundle,
                }
            },
            Err(e) => {
                &&& e == HpkeError::InvalidMode
                &&& !sender_materials_valid(kind, identity_sk, bundle)
            },
        },
{
    match kind {
        OpModeKind::Base => Ok(OpModeS::Base),
        OpModeKind::Psk => {
            match bundle {
                Some(b) => {
                    if b.psk.len() > 0 && b.psk_id.len() > 0 {
                        Ok(OpModeS::Psk(b))
                    } else {
                        Err(HpkeError::InvalidMode)
                    }
                },
                None => Err(HpkeError::InvalidMode),
            }
        },
        OpModeKind::Auth => {
            match identity_sk {
                Some(sk) => {
                    if sk.len() == DH_LEN {
                        Ok(OpModeS::Auth(sk))
                    } else {
                        Err(HpkeError::InvalidMode)
                    }
                },
                None => Err(HpkeError::InvalidMode),
            }
        },
        OpModeKind::AuthPsk => {
            match (identity_sk, bundle) {
                (Some(sk), Some(b)) => {
                    if sk.len() == DH_LEN && b.psk.len() > 0 && b.psk_id.len() > 0 {
                        Ok(OpModeS::AuthPsk(sk, b))
                    } else {
                        Err(HpkeError::InvalidMode)
                    }
                },
                _ => Err(HpkeError::InvalidMode),
            }
        },
    }
}

/// Validates and packages the receiver's materials into the requested mode,
/// symmetric to `resolve_sender`.
pub fn resolve_receiver(kind: OpModeKind, identity_pk: Option<Vec<u8>>, bundle: Option<PskBundle>) -> (r: Result<OpModeR, HpkeError>)
    ensures
        match r {
            Ok(m) => {
                &&& receiver_materials_valid(kind, identity_pk, bundle)
                &&& match kind {
                    OpModeKind::Base => m matches OpModeR::Base,
                    OpModeKind::Psk => m matches OpModeR::Psk(b)
                        && Some(b) == bundle,
                    OpModeKind::Auth => m matches OpModeR::Auth(pk)
                        && Some(pk) == identity_pk,
                    OpModeKind::AuthPsk => m matches OpModeR::AuthPsk(pk, b)
                        && Some(pk) == identity_pk && Some(b) == bundle,
                }
            },
            Err(e) => {
                &&& e == HpkeError::InvalidMode
                &&& !receiver_materials_valid(kind, identity_pk, bundle)
            },
        },
{
    match kind {
        OpModeKind::Base => Ok(OpModeR::Base),
        OpModeKind::Psk => {
            match bundle {
                Some(b) => {
                    if b.psk.len() > 0 && b.psk_id.len() > 0 {
                        Ok(OpModeR::Psk(b))
                    } else {
                        Err(HpkeError::InvalidMode)
                    }
                },
                None => Err(HpkeError::InvalidMode),
            }
        },
        OpModeKind::Auth => {
            match identity_pk {
                Some(pk) => {
                    if pk.len() == DH_LEN {
                        Ok(OpModeR::Auth(pk))
                    } else {
                        Err(HpkeError::InvalidMode)
                    }
                },
                None => Err(HpkeError::InvalidMode),
            }
        },
        OpModeKind::AuthPsk => {
            match (identity_pk, bundle) {
                (Some(pk), Some(b)) => {
                    if pk.len() == DH_LEN && b.psk.len() > 0 && b.psk_id.len() > 0 {
                        Ok(OpModeR::AuthPsk(pk, b))
                    } else {
                        Err(HpkeError::InvalidMode)
                    }
                },
                _ => Err(HpkeError::InvalidMode),
            }
        },
    }
}

/// Sender and receiver modes agree: same variant, equal PSK material where
/// present, and identity halves that correspond — the receiver holds exactly
/// the public key of the sender's private identity key.
pub open spec fn modes_agree(s: &OpModeS, r: &OpModeR) -> bool {
    &&& s.tag_spec() == r.tag_spec()
    &&& s.psk_spec() == r.psk_spec()
    &&& s.psk_id_spec() == r.psk_id_spec()
    &&& (s.has_auth_spec() ==> {
        &&& s.auth_sk_spec().len() == DH_LEN
        &&& r.auth_pk_spec() == pk_of(s.auth_sk_spec())
    })
}

/// Decides `modes_agree` at run time: variant and PSK material are compared
/// byte for byte, and the identity halves by recomputing the public key from
/// the sender's private one.
pub fn check_modes_agree(s: &OpModeS, r: &OpModeR) -> (res: bool)
    ensures
        res == modes_agree(s, r),
{
    if s.mode_tag() != r.mode_tag() {
        return false;
    }
    let s_psk = s.psk_bytes();
    let r_psk = r.psk_bytes();
    if !bytes_eq(&s_psk, &r_psk) {
        return false;
    }
    let s_psk_id = s.psk_id_bytes();
    let r_psk_id = r.psk_id_bytes();
    if !bytes_eq(&s_psk_id, &r_psk_id) {
        return false;
    }
    if s.has_auth() {
        let sk = s.identity_key_bytes();
        let pk = r.identity_key_bytes();
        if sk.len() != DH_LEN {
            return false;
        }
        let bp = basepoint();
        let expected_pk = x25519_dh(&sk, &bp);
        if !bytes_eq(&pk, &expected_pk) {
            return false;
        }
    }
    true
}

} // verus!
