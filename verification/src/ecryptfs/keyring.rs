//! Adding a key to the kernel's keyrings.
use crate::ecryptfs::auth_tok;
use crate::ecryptfs::auth_tok::{native_byte_order, ByteOrder, EcryptfsAuthTok};
use crate::ecryptfs::error::{EcryptfsError, EcryptfsErrorView};
use crate::ecryptfs::key;
use crate::ecryptfs::key::derive_ecryptfs_key;
use vstd::prelude::*;
use vstd::string::*;
use vstd::utf8::*;

verus! {

/// The session keyring, where eCryptfs looks for its keys.
pub const KEY_SPEC_SESSION_KEYRING: i32 = -3;

/// The user keyring.
pub const KEY_SPEC_USER_KEYRING: i32 = -4;

/// The type of the keys.
pub const KEY_TYPE: &'static str = "user";

/// How far the addition of a key has come.
#[derive(Clone, Copy, Debug, PartialEq, Eq, Structural)]
pub enum KeyringStage {
    /// The key is offered to the session keyring.
    Session,
    /// The session keyring refused; the key is offered to the user keyring.
    User,
    /// A keyring took the key.
    Added,
    /// Both keyrings refused the key.
    Failed,
}

/// The arguments of one `add_key` system call.
pub struct KeyringRequest {
    /// The type of the key.
    pub key_type: String,
    /// The description: the signature alone, without a prefix.
    pub description: String,
    /// The payload.
    pub payload: Vec<u8>,
    /// The keyring.
    pub keyring: i32,
}

/// The contents of a [`KeyringRequest`].
pub struct KeyringRequestView {
    /// The type of the key.
    pub key_type: Seq<char>,
    /// The description.
    pub description: Seq<char>,
    /// The payload.
    pub payload: Seq<u8>,
    /// The keyring.
    pub keyring: int,
}

impl View for KeyringRequest {
    type V = KeyringRequestView;

    open spec fn view(&self) -> KeyringRequestView {
        KeyringRequestView {
            key_type: self.key_type@,
            description: self.description@,
            payload: self.payload@,
            keyring: self.keyring as int,
        }
    }
}

/// What an `add_key` system call came to.
pub struct KeyReply {
    /// Its result; a negative one is a refusal.
    pub result: i64,
    /// The system's reason, where it refused.
    pub cause: String,
}

/// The contents of a [`KeyReply`].
pub struct KeyReplyView {
    /// Its result.
    pub result: int,
    /// The system's reason.
    pub cause: Seq<char>,
}

impl View for KeyReply {
    type V = KeyReplyView;

    open spec fn view(&self) -> KeyReplyView {
        KeyReplyView { result: self.result as int, cause: self.cause@ }
    }
}

/// A key on its way into a keyring.
pub struct KeyringAddition {
    /// The signature of the key.
    pub sig: String,
    /// The token with the key.
    pub payload: Vec<u8>,
    /// How far it has come.
    pub stage: KeyringStage,
    /// The system's reason for the last refusal; empty before there is one.
    pub cause: String,
}

/// The contents of a [`KeyringAddition`].
pub struct KeyringAdditionView {
    /// The signature of the key.
    pub sig: Seq<char>,
    /// The token with the key.
    pub payload: Seq<u8>,
    /// How far it has come.
    pub stage: KeyringStage,
    /// The system's reason for the last refusal.
    pub cause: Seq<char>,
}

impl View for KeyringAddition {
    type V = KeyringAdditionView;

    open spec fn view(&self) -> KeyringAdditionView {
        KeyringAdditionView {
            sig: self.sig@,
            payload: self.payload@,
            stage: self.stage,
            cause: self.cause@,
        }
    }
}

impl KeyringAdditionView {
    /// A key before it is offered to any keyring.
    pub open spec fn start(passphrase: Seq<u8>, salt: Seq<u8>, order: ByteOrder) -> Self {
        let derived = key::derived_key(passphrase, salt);
        let sig = key::key_signature(derived);
        KeyringAdditionView {
            sig,
            payload: auth_tok::token_bytes(derived, encode_utf8(sig), salt, order),
            stage: KeyringStage::Session,
            cause: Seq::empty(),
        }
    }

    /// The request for `keyring`.
    pub open spec fn request_for(self, keyring: i32) -> KeyringRequestView {
        KeyringRequestView {
            key_type: KEY_TYPE@,
            description: self.sig,
            payload: self.payload,
            keyring: keyring as int,
        }
    }

    /// The request to make next, until the key is added or refused.
    pub open spec fn request(self) -> Option<KeyringRequestView> {
        match self.stage {
            KeyringStage::Session => Some(self.request_for(KEY_SPEC_SESSION_KEYRING)),
            KeyringStage::User => Some(self.request_for(KEY_SPEC_USER_KEYRING)),
            _ => None,
        }
    }

    /// After the reply to a request: a negative result is a refusal.
    pub open spec fn after(self, reply: KeyReplyView) -> Self {
        if self.finished() {
            self
        } else if reply.result >= 0 {
            KeyringAdditionView { stage: KeyringStage::Added, ..self }
        } else if self.stage == KeyringStage::Session {
            KeyringAdditionView { stage: KeyringStage::User, cause: reply.cause, ..self }
        } else {
            KeyringAdditionView { stage: KeyringStage::Failed, cause: reply.cause, ..self }
        }
    }

    /// What the addition came to, once nothing is left to do: the signature, or the
    /// reason of the last refusal.
    pub open spec fn outcome(self) -> Option<Result<Seq<char>, EcryptfsErrorView>> {
        match self.stage {
            KeyringStage::Added => Some(Ok(self.sig)),
            KeyringStage::Failed => Some(Err(EcryptfsErrorView::AddKey(self.cause))),
            _ => None,
        }
    }

    /// The signature of a key that was added.
    pub open spec fn added_sig(self) -> Option<Seq<char>> {
        if self.stage == KeyringStage::Added {
            Some(self.sig)
        } else {
            None
        }
    }

    /// Nothing is left to do.
    pub open spec fn finished(self) -> bool {
        self.stage == KeyringStage::Added || self.stage == KeyringStage::Failed
    }
}

/// Derives the key of a passphrase and prepares it for the keyrings, with the token's
/// numbers in the given byte order.
pub fn prepare_key(passphrase: &[u8], salt: &[u8; 8], order: ByteOrder) -> (r: KeyringAddition)
    ensures
        r@ == KeyringAdditionView::start(passphrase@, salt@, order),
{
    let (key, sig) = derive_ecryptfs_key(passphrase, salt);
    let tok = EcryptfsAuthTok::new(key.as_slice(), sig.as_str(), salt);
    let payload = tok.to_bytes(order);
    KeyringAddition { sig, payload, stage: KeyringStage::Session, cause: String::new() }
}

/// Derives the key of a passphrase and prepares it for the keyrings, with the token's
/// numbers in the machine's own byte order.
///
/// The size of the keys that encrypt files, `_key_bytes`, does not enter: the derived
/// key always has its full size.
pub fn add_key_to_keyring(passphrase: &[u8], _key_bytes: usize, salt: &[u8; 8]) -> (r:
    KeyringAddition)
    ensures
        exists|order: ByteOrder| #[trigger]
            auth_tok::is_native(order) && r@ == KeyringAdditionView::start(
                passphrase@,
                salt@,
                order,
            ),
{
    let order = native_byte_order();
    prepare_key(passphrase, salt, order)
}

/// A copy of bytes.
fn copy_bytes(v: &Vec<u8>) -> (r: Vec<u8>)
    ensures
        r@ == v@,
{
    let mut out: Vec<u8> = Vec::new();
    out.extend_from_slice(v.as_slice());
    assert(out@ =~= v@);
    out
}

impl KeyringAddition {
    fn request_for(&self, keyring: i32) -> (r: KeyringRequest)
        ensures
            r@ == self@.request_for(keyring),
    {
        KeyringRequest {
            key_type: KEY_TYPE.to_owned(),
            description: self.sig.clone(),
            payload: copy_bytes(&self.payload),
            keyring,
        }
    }

    /// The request to make next, until the key is added or refused.
    pub fn request(&self) -> (r: Option<KeyringRequest>)
        ensures
            r is Some <==> self@.request() is Some,
            r is Some ==> r->0@ == self@.request()->0,
    {
        match self.stage {
            KeyringStage::Session => Some(self.request_for(KEY_SPEC_SESSION_KEYRING)),
            KeyringStage::User => Some(self.request_for(KEY_SPEC_USER_KEYRING)),
            _ => None,
        }
    }

    /// Takes in the reply to the request.
    pub fn after(self, reply: KeyReply) -> (r: KeyringAddition)
        ensures
            r@ == self@.after(reply@),
    {
        let KeyringAddition { sig, payload, stage, cause } = self;
        let refused = reply.result < 0;
        match stage {
            KeyringStage::Session => if refused {
                KeyringAddition { sig, payload, stage: KeyringStage::User, cause: reply.cause }
            } else {
                KeyringAddition { sig, payload, stage: KeyringStage::Added, cause }
            },
            KeyringStage::User => if refused {
                KeyringAddition { sig, payload, stage: KeyringStage::Failed, cause: reply.cause }
            } else {
                KeyringAddition { sig, payload, stage: KeyringStage::Added, cause }
            },
            done => KeyringAddition { sig, payload, stage: done, cause },
        }
    }

    /// What the addition came to, once nothing is left to do: the signature, or the
    /// error with the reason of the last refusal.
    pub fn outcome(&self) -> (r: Option<Result<String, EcryptfsError>>)
        ensures
            match r {
                None => self@.outcome() is None,
                Some(Ok(sig)) => self@.outcome() == Some(Ok::<Seq<char>, EcryptfsErrorView>(sig@)),
                Some(Err(e)) => self@.outcome() == Some(Err::<Seq<char>, EcryptfsErrorView>(e@)),
            },
    {
        match self.stage {
            KeyringStage::Added => Some(Ok(self.sig.clone())),
            KeyringStage::Failed => Some(Err(EcryptfsError::AddKey(self.cause.clone()))),
            _ => None,
        }
    }

    /// The signature, once the key is added.
    pub fn added_sig(&self) -> (r: Option<String>)
        ensures
            r is Some <==> self@.added_sig() is Some,
            r is Some ==> r->0@ == self@.added_sig()->0,
    {
        match self.stage {
            KeyringStage::Added => Some(self.sig.clone()),
            _ => None,
        }
    }
}

/// A key is offered to the session keyring first, and to the user keyring only if that
/// one refuses. After two replies at most nothing is left to do: the key is added if
/// and only if one of the two keyrings took it, and otherwise the error has the user
/// keyring's reason.
pub proof fn law_key_is_added_if_a_keyring_takes_it(
    passphrase: Seq<u8>,
    salt: Seq<u8>,
    order: ByteOrder,
    session: KeyReplyView,
    user: KeyReplyView,
)
    ensures
        ({
            let start = KeyringAdditionView::start(passphrase, salt, order);
            let second = start.after(session);
            let last = second.after(user);
            &&& start.request() == Some(start.request_for(KEY_SPEC_SESSION_KEYRING))
            &&& session.result < 0 ==> second.request() == Some(
                start.request_for(KEY_SPEC_USER_KEYRING),
            )
            &&& session.result >= 0 ==> second.request() is None
            &&& last.request() is None
            &&& last.finished()
            &&& if session.result >= 0 || user.result >= 0 {
                let sig = key::key_signature(key::derived_key(passphrase, salt));
                last.added_sig() == Some(sig) && last.outcome() == Some(
                    Ok::<Seq<char>, EcryptfsErrorView>(sig),
                )
            } else {
                last.added_sig() is None && last.outcome() == Some(
                    Err::<Seq<char>, EcryptfsErrorView>(EcryptfsErrorView::AddKey(user.cause)),
                )
            }
        }),
{
}

} // verus!
