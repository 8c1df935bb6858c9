//! Collecting the mount options: the passphrases are fetched, their keys are added to a
//! keyring, and the signatures of the keys become options.
//!
//! [`ParameterBuild`] decides what to do; its caller fetches passphrases and makes the
//! `add_key` system calls, and hands the replies back.
use crate::ecryptfs::auth_tok;
use crate::ecryptfs::auth_tok::{native_byte_order, ByteOrder};
use crate::ecryptfs::defaults;
use crate::ecryptfs::key;
use crate::ecryptfs::key::{
    normalize_passphrase_bytes, ECRYPTFS_DEFAULT_SALT, ECRYPTFS_DEFAULT_SALT_FNEK,
};
use crate::ecryptfs::keyring::{
    prepare_key, KeyReply, KeyReplyView, KeyringAddition, KeyringAdditionView, KeyringRequest,
    KeyringRequestView, KeyringStage, KEY_SPEC_SESSION_KEYRING, KEY_SPEC_USER_KEYRING,
};
use crate::ecryptfs::params;
use crate::ecryptfs::params::{
    mount_options_text, parse_string_boolean_to_bool, EcryptfsMountParameters,
};
use crate::ecryptfs::secret::SecretBytes;
use crate::text::{parse_usize, same_text};
use vstd::prelude::*;
use vstd::string::*;

verus! {

/// How far the collection has come.
pub enum BuildStage {
    /// The passphrase is being fetched.
    FetchFek,
    /// Its key is being added.
    AddFek {
        /// The passphrase.
        passphrase: SecretBytes,
        /// The key.
        addition: KeyringAddition,
    },
    /// The passphrase for file names is being fetched.
    FetchFnek {
        /// The signature of the first key, if it was added.
        sig: Option<String>,
    },
    /// Its key is being added.
    AddFnek {
        /// The signature of the first key, if it was added.
        sig: Option<String>,
        /// The key for file names.
        addition: KeyringAddition,
    },
    /// Nothing is left to do.
    Finished {
        /// The signature of the first key, if it was added.
        sig: Option<String>,
        /// The signature of the key for file names, if there is one and it was added.
        fnek_sig: Option<String>,
    },
}

/// The contents of a [`BuildStage`].
pub enum BuildStageView {
    /// The passphrase is being fetched.
    FetchFek,
    /// Its key is being added.
    AddFek {
        /// The passphrase.
        passphrase: Seq<u8>,
        /// The key.
        addition: KeyringAdditionView,
    },
    /// The passphrase for file names is being fetched.
    FetchFnek {
        /// The signature of the first key.
        sig: Option<Seq<char>>,
    },
    /// Its key is being added.
    AddFnek {
        /// The signature of the first key.
        sig: Option<Seq<char>>,
        /// The key for file names.
        addition: KeyringAdditionView,
    },
    /// Nothing is left to do.
    Finished {
        /// The signature of the first key.
        sig: Option<Seq<char>>,
        /// The signature of the key for file names.
        fnek_sig: Option<Seq<char>>,
    },
}

impl View for BuildStage {
    type V = BuildStageView;

    open spec fn view(&self) -> BuildStageView {
        match *self {
            BuildStage::FetchFek => BuildStageView::FetchFek,
            BuildStage::AddFek { passphrase, addition } => BuildStageView::AddFek {
                passphrase: passphrase@,
                addition: addition@,
            },
            BuildStage::FetchFnek { sig } => BuildStageView::FetchFnek {
                sig: params::optional_text(sig),
            },
            BuildStage::AddFnek { sig, addition } => BuildStageView::AddFnek {
                sig: params::optional_text(sig),
                addition: addition@,
            },
            BuildStage::Finished { sig, fnek_sig } => BuildStageView::Finished {
                sig: params::optional_text(sig),
                fnek_sig: params::optional_text(fnek_sig),
            },
        }
    }
}

/// What the caller is to do next.
pub enum BuildAction {
    /// Fetch the passphrase at this address.
    FetchPassphrase(String),
    /// Make this `add_key` system call.
    AddKey(KeyringRequest),
    /// Nothing: these are the options.
    Done(String),
}

/// The contents of a [`BuildAction`].
pub enum BuildActionView {
    /// Fetch the passphrase at this address.
    FetchPassphrase(Seq<char>),
    /// Make this `add_key` system call.
    AddKey(KeyringRequestView),
    /// Nothing: these are the options.
    Done(Seq<char>),
}

impl View for BuildAction {
    type V = BuildActionView;

    open spec fn view(&self) -> BuildActionView {
        match *self {
            BuildAction::FetchPassphrase(uri) => BuildActionView::FetchPassphrase(uri@),
            BuildAction::AddKey(request) => BuildActionView::AddKey(request@),
            BuildAction::Done(options) => BuildActionView::Done(options@),
        }
    }
}

/// What came of an action.
pub enum BuildReply {
    /// The passphrase, or nothing if it could not be fetched.
    Passphrase(Option<SecretBytes>),
    /// What the system call came to.
    KeyResult(KeyReply),
}

/// The contents of a [`BuildReply`].
pub enum BuildReplyView {
    /// The passphrase.
    Passphrase(Option<Seq<u8>>),
    /// What the system call came to.
    KeyResult(KeyReplyView),
}

impl View for BuildReply {
    type V = BuildReplyView;

    open spec fn view(&self) -> BuildReplyView {
        match *self {
            BuildReply::Passphrase(Some(bytes)) => BuildReplyView::Passphrase(Some(bytes@)),
            BuildReply::Passphrase(None) => BuildReplyView::Passphrase(None),
            BuildReply::KeyResult(reply) => BuildReplyView::KeyResult(reply@),
        }
    }
}

/// The collection of the mount options.
pub struct ParameterBuild {
    /// The parameters.
    pub params: EcryptfsMountParameters,
    /// The byte order of the tokens.
    pub order: ByteOrder,
    /// How far it has come.
    pub stage: BuildStage,
}

/// The contents of a [`ParameterBuild`].
pub struct ParameterBuildView {
    /// The parameters.
    pub params: EcryptfsMountParameters,
    /// The byte order of the tokens.
    pub order: ByteOrder,
    /// How far it has come.
    pub stage: BuildStageView,
}

impl View for ParameterBuild {
    type V = ParameterBuildView;

    open spec fn view(&self) -> ParameterBuildView {
        ParameterBuildView { params: self.params, order: self.order, stage: self.stage@ }
    }
}

impl ParameterBuildView {
    /// The same collection, further on.
    pub open spec fn at(self, stage: BuildStageView) -> Self {
        ParameterBuildView { stage, ..self }
    }

    /// The stage in which the key for file names, from this passphrase, is added.
    pub open spec fn add_fnek(self, sig: Option<Seq<char>>, passphrase: Seq<u8>) -> BuildStageView {
        BuildStageView::AddFnek {
            sig,
            addition: KeyringAdditionView::start(passphrase, ECRYPTFS_DEFAULT_SALT_FNEK@, self.order),
        }
    }

    /// Once the first key is dealt with: the passphrase for file names, where there is
    /// one, is the first passphrase if both have the same address, and is fetched
    /// otherwise.
    pub open spec fn after_fek(self, passphrase: Option<Seq<u8>>, sig: Option<Seq<char>>) -> Self {
        self.at(
            if self.params.fnek_uri() is None {
                BuildStageView::Finished { sig, fnek_sig: None }
            } else if self.params.fnek_uri() != self.params.fek_uri() {
                BuildStageView::FetchFnek { sig }
            } else {
                match passphrase {
                    Some(passphrase) => self.add_fnek(sig, passphrase),
                    None => BuildStageView::Finished { sig, fnek_sig: None },
                }
            },
        )
    }

    /// Before anything is done.
    pub open spec fn start(params: EcryptfsMountParameters, order: ByteOrder) -> Self {
        let fresh = ParameterBuildView { params, order, stage: BuildStageView::FetchFek };
        if params.fek_uri() is Some {
            fresh
        } else {
            fresh.after_fek(None, None)
        }
    }

    /// What is to be done next.
    pub open spec fn action(self) -> BuildActionView {
        match self.stage {
            BuildStageView::FetchFek => BuildActionView::FetchPassphrase(
                match self.params.fek_uri() {
                    Some(uri) => uri,
                    None => Seq::empty(),
                },
            ),
            BuildStageView::FetchFnek { .. } => BuildActionView::FetchPassphrase(
                match self.params.fnek_uri() {
                    Some(uri) => uri,
                    None => Seq::empty(),
                },
            ),
            BuildStageView::AddFek { addition, .. } => match addition.request() {
                Some(request) => BuildActionView::AddKey(request),
                None => BuildActionView::Done(self.params.options(addition.added_sig(), None)),
            },
            BuildStageView::AddFnek { sig, addition } => match addition.request() {
                Some(request) => BuildActionView::AddKey(request),
                None => BuildActionView::Done(self.params.options(sig, addition.added_sig())),
            },
            BuildStageView::Finished { sig, fnek_sig } => {
                BuildActionView::Done(self.params.options(sig, fnek_sig))
            },
        }
    }

    /// After a reply. One that does not answer what was asked changes nothing.
    pub open spec fn after(self, reply: BuildReplyView) -> Self {
        match (self.stage, reply) {
            (BuildStageView::FetchFek, BuildReplyView::Passphrase(Some(raw))) => {
                let passphrase = key::without_line_ending(raw);
                self.at(
                    BuildStageView::AddFek {
                        passphrase,
                        addition: KeyringAdditionView::start(
                            passphrase,
                            ECRYPTFS_DEFAULT_SALT@,
                            self.order,
                        ),
                    },
                )
            },
            (BuildStageView::FetchFek, BuildReplyView::Passphrase(None)) => self.after_fek(
                None,
                None,
            ),
            (
                BuildStageView::AddFek { passphrase, addition },
                BuildReplyView::KeyResult(reply),
            ) => {
                let addition = addition.after(reply);
                if addition.finished() {
                    self.after_fek(Some(passphrase), addition.added_sig())
                } else {
                    self.at(BuildStageView::AddFek { passphrase, addition })
                }
            },
            (BuildStageView::FetchFnek { sig }, BuildReplyView::Passphrase(Some(raw))) => self.at(
                self.add_fnek(sig, key::without_line_ending(raw)),
            ),
            (BuildStageView::FetchFnek { sig }, BuildReplyView::Passphrase(None)) => self.at(
                BuildStageView::Finished { sig, fnek_sig: None },
            ),
            (BuildStageView::AddFnek { sig, addition }, BuildReplyView::KeyResult(reply)) => {
                let addition = addition.after(reply);
                self.at(
                    if addition.finished() {
                        BuildStageView::Finished { sig, fnek_sig: addition.added_sig() }
                    } else {
                        BuildStageView::AddFnek { sig, addition }
                    },
                )
            },
            _ => self,
        }
    }
}

impl EcryptfsMountParameters {
    /// Starts to collect the mount options.
    pub fn build_parameters(self) -> (r: ParameterBuild)
        ensures
            exists|order: ByteOrder| #[trigger]
                auth_tok::is_native(order) && r@ == ParameterBuildView::start(self, order),
    {
        let order = native_byte_order();
        ParameterBuild::start(self, order)
    }
}

impl ParameterBuild {
    /// Starts to collect the mount options, with tokens in the given byte order.
    pub fn start(params: EcryptfsMountParameters, order: ByteOrder) -> (r: ParameterBuild)
        ensures
            r@ == ParameterBuildView::start(params, order),
    {
        if params.passphrase.is_some() {
            ParameterBuild { params, order, stage: BuildStage::FetchFek }
        } else {
            Self::after_fek(params, order, None, None)
        }
    }

    /// Where the passphrase for file names is found, if they are to be encrypted.
    fn fnek_uri(params: &EcryptfsMountParameters) -> (r: Option<String>)
        ensures
            params::optional_text(r) == params.fnek_uri(),
    {
        if !parse_string_boolean_to_bool(params.enable_filename_crypto.as_str()) {
            return None;
        }
        match &params.fnek_passphrase {
            Some(uri) => Some(uri.clone()),
            None => match &params.passphrase {
                Some(uri) => Some(uri.clone()),
                None => None,
            },
        }
    }

    fn after_fek(
        params: EcryptfsMountParameters,
        order: ByteOrder,
        passphrase: Option<SecretBytes>,
        sig: Option<String>,
    ) -> (r: ParameterBuild)
        ensures
            ({
                let fresh = ParameterBuildView { params, order, stage: BuildStageView::FetchFek };
                r@ == fresh.after_fek(
                    match passphrase {
                        Some(p) => Some(p@),
                        None => None,
                    },
                    params::optional_text(sig),
                )
            }),
    {
        let stage = match Self::fnek_uri(&params) {
            None => BuildStage::Finished { sig, fnek_sig: None },
            Some(uri) => {
                let reuse = match &params.passphrase {
                    Some(fek_uri) => same_text(fek_uri.as_str(), uri.as_str()),
                    None => false,
                };
                if !reuse {
                    BuildStage::FetchFnek { sig }
                } else {
                    match passphrase {
                        Some(passphrase) => BuildStage::AddFnek {
                            sig,
                            addition: prepare_key(
                                passphrase.as_slice(),
                                &ECRYPTFS_DEFAULT_SALT_FNEK,
                                order,
                            ),
                        },
                        None => BuildStage::Finished { sig, fnek_sig: None },
                    }
                }
            },
        };
        ParameterBuild { params, order, stage }
    }

    fn options(
        params: &EcryptfsMountParameters,
        sig: &Option<String>,
        fnek_sig: &Option<String>,
    ) -> (r: String)
        ensures
            r@ == params.options(params::optional_text(*sig), params::optional_text(*fnek_sig)),
    {
        let key_bytes: usize = match parse_usize(params.key_bytes.as_str()) {
            Some(n) => n,
            None => defaults::KEY_BYTES,
        };
        mount_options_text(
            params.cipher.as_str(),
            key_bytes,
            parse_string_boolean_to_bool(params.enable_passthrough.as_str()),
            parse_string_boolean_to_bool(params.unlink_sigs.as_str()),
            sig,
            fnek_sig,
        )
    }

    /// What is to be done next.
    pub fn action(&self) -> (r: BuildAction)
        ensures
            r@ == self@.action(),
    {
        match &self.stage {
            BuildStage::FetchFek => BuildAction::FetchPassphrase(
                match &self.params.passphrase {
                    Some(uri) => uri.clone(),
                    None => String::new(),
                },
            ),
            BuildStage::FetchFnek { .. } => BuildAction::FetchPassphrase(
                match Self::fnek_uri(&self.params) {
                    Some(uri) => uri,
                    None => String::new(),
                },
            ),
            BuildStage::AddFek { addition, .. } => match addition.request() {
                Some(request) => BuildAction::AddKey(request),
                None => BuildAction::Done(
                    Self::options(&self.params, &addition.added_sig(), &None),
                ),
            },
            BuildStage::AddFnek { sig, addition } => match addition.request() {
                Some(request) => BuildAction::AddKey(request),
                None => BuildAction::Done(
                    Self::options(&self.params, sig, &addition.added_sig()),
                ),
            },
            BuildStage::Finished { sig, fnek_sig } => {
                BuildAction::Done(Self::options(&self.params, sig, fnek_sig))
            },
        }
    }

    /// Takes in the reply to what was asked. Another reply changes nothing.
    pub fn after(self, reply: BuildReply) -> (r: ParameterBuild)
        ensures
            r@ == self@.after(reply@),
    {
        let ParameterBuild { params, order, stage } = self;
        match (stage, reply) {
            (BuildStage::FetchFek, BuildReply::Passphrase(Some(raw))) => {
                let passphrase = normalize_passphrase_bytes(raw.as_slice());
                let addition = prepare_key(passphrase.as_slice(), &ECRYPTFS_DEFAULT_SALT, order);
                ParameterBuild { params, order, stage: BuildStage::AddFek { passphrase, addition } }
            },
            (BuildStage::FetchFek, BuildReply::Passphrase(None)) => {
                Self::after_fek(params, order, None, None)
            },
            (BuildStage::AddFek { passphrase, addition }, BuildReply::KeyResult(reply)) => {
                let addition = addition.after(reply);
                match addition.stage {
                    KeyringStage::Added | KeyringStage::Failed => {
                        let sig = addition.added_sig();
                        Self::after_fek(params, order, Some(passphrase), sig)
                    },
                    _ => ParameterBuild {
                        params,
                        order,
                        stage: BuildStage::AddFek { passphrase, addition },
                    },
                }
            },
            (BuildStage::FetchFnek { sig }, BuildReply::Passphrase(Some(raw))) => {
                let passphrase = normalize_passphrase_bytes(raw.as_slice());
                let addition = prepare_key(
                    passphrase.as_slice(),
                    &ECRYPTFS_DEFAULT_SALT_FNEK,
                    order,
                );
                ParameterBuild { params, order, stage: BuildStage::AddFnek { sig, addition } }
            },
            (BuildStage::FetchFnek { sig }, BuildReply::Passphrase(None)) => {
                ParameterBuild { params, order, stage: BuildStage::Finished { sig, fnek_sig: None } }
            },
            (BuildStage::AddFnek { sig, addition }, BuildReply::KeyResult(reply)) => {
                let addition = addition.after(reply);
                let stage = match addition.stage {
                    KeyringStage::Added | KeyringStage::Failed => {
                        let fnek_sig = addition.added_sig();
                        BuildStage::Finished { sig, fnek_sig }
                    },
                    _ => BuildStage::AddFnek { sig, addition },
                };
                ParameterBuild { params, order, stage }
            },
            (stage, _) => ParameterBuild { params, order, stage },
        }
    }
}

impl ParameterBuildView {
    /// The stage fits the parameters: passphrases are fetched only where an address is
    /// configured, the second one only from an address of its own, and a key that is
    /// being added is derived from its passphrase and still waits for a keyring.
    pub open spec fn is_consistent(self) -> bool {
        match self.stage {
            BuildStageView::FetchFek => self.params.fek_uri() is Some,
            BuildStageView::AddFek { passphrase, addition } => {
                let fresh = KeyringAdditionView::start(
                    passphrase,
                    ECRYPTFS_DEFAULT_SALT@,
                    self.order,
                );
                &&& self.params.fek_uri() is Some
                &&& !addition.finished()
                &&& addition.sig == fresh.sig
                &&& addition.payload == fresh.payload
            },
            BuildStageView::FetchFnek { sig } => {
                &&& sig is Some ==> self.params.fek_uri() is Some
                &&& self.params.fnek_uri() is Some
                &&& self.params.fnek_uri() != self.params.fek_uri()
            },
            BuildStageView::AddFnek { sig, addition } => {
                &&& sig is Some ==> self.params.fek_uri() is Some
                &&& self.params.fnek_uri() is Some
                &&& !addition.finished()
            },
            BuildStageView::Finished { sig, fnek_sig } => {
                &&& sig is Some ==> self.params.fek_uri() is Some
                &&& fnek_sig is Some ==> self.params.fnek_uri() is Some
            },
        }
    }

    /// Nothing is left to do.
    pub open spec fn is_finished(self) -> bool {
        self.stage is Finished
    }

    /// The reply answers what was asked.
    pub open spec fn is_answered_by(self, reply: BuildReplyView) -> bool {
        match self.action() {
            BuildActionView::FetchPassphrase(_) => reply is Passphrase,
            BuildActionView::AddKey(_) => reply is KeyResult,
            BuildActionView::Done(_) => false,
        }
    }

    /// How many replies there can be at most.
    pub open spec fn replies_left(self) -> nat {
        match self.stage {
            BuildStageView::FetchFek => 6,
            BuildStageView::AddFek { addition, .. } => if addition.stage == KeyringStage::Session {
                5
            } else {
                4
            },
            BuildStageView::FetchFnek { .. } => 3,
            BuildStageView::AddFnek { addition, .. } => if addition.stage
                == KeyringStage::Session {
                2
            } else {
                1
            },
            BuildStageView::Finished { .. } => 0,
        }
    }
}

/// Every collection starts out consistent and stays so, whatever the replies.
pub proof fn law_collection_stays_consistent(
    params: EcryptfsMountParameters,
    order: ByteOrder,
    build: ParameterBuildView,
    reply: BuildReplyView,
)
    requires
        build.is_consistent(),
    ensures
        ParameterBuildView::start(params, order).is_consistent(),
        build.after(reply).is_consistent(),
        build.after(reply).params == build.params,
        build.after(reply).order == build.order,
{
}

/// Every reply to what was asked brings a collection closer to its end; six replies at
/// most are asked for.
pub proof fn law_collection_ends(
    params: EcryptfsMountParameters,
    order: ByteOrder,
    build: ParameterBuildView,
    reply: BuildReplyView,
)
    requires
        build.is_consistent(),
        build.is_answered_by(reply),
    ensures
        ParameterBuildView::start(params, order).replies_left() <= 6,
        build.after(reply).replies_left() < build.replies_left(),
        build.replies_left() == 0 <==> build.is_finished(),
{
}

/// A passphrase is not fetched a second time: where both keys have the same address,
/// the collection never asks for the second passphrase.
pub proof fn law_shared_passphrase_is_fetched_once(
    build: ParameterBuildView,
    reply: BuildReplyView,
)
    requires
        build.is_consistent(),
        build.params.fnek_uri() == build.params.fek_uri(),
    ensures
        !(build.stage is FetchFnek),
        !(build.stage is FetchFek) ==> !(build.after(reply).stage is FetchFek),
        !(build.after(reply).stage is FetchFnek),
{
}

/// Without file name encryption, there is no signature for file names.
pub proof fn law_no_fnek_signature_without_filename_crypto(build: ParameterBuildView)
    requires
        build.is_consistent(),
        !build.params.filename_crypto(),
    ensures
        !(build.stage is FetchFnek),
        !(build.stage is AddFnek),
        build.stage matches BuildStageView::Finished { fnek_sig, .. } ==> fnek_sig is None,
{
}

/// What fetching a passphrase and offering a key to a keyring come to.
pub struct World {
    /// The passphrase at an address.
    pub fetch: spec_fn(Seq<char>) -> Option<Seq<u8>>,
    /// What an `add_key` system call comes to.
    pub add_key: spec_fn(KeyringRequestView) -> KeyReplyView,
}

impl World {
    /// The reply to what `build` asks for.
    pub open spec fn reply(self, build: ParameterBuildView) -> BuildReplyView {
        match build.action() {
            BuildActionView::FetchPassphrase(uri) => BuildReplyView::Passphrase((self.fetch)(uri)),
            BuildActionView::AddKey(request) => BuildReplyView::KeyResult((self.add_key)(request)),
            BuildActionView::Done(_) => BuildReplyView::Passphrase(None),
        }
    }

    /// The signature of the key that belongs to a passphrase, if a keyring takes the key.
    pub open spec fn accepted_sig(
        self,
        passphrase: Seq<u8>,
        salt: Seq<u8>,
        order: ByteOrder,
    ) -> Option<Seq<char>> {
        let fresh = KeyringAdditionView::start(passphrase, salt, order);
        if (self.add_key)(fresh.request_for(KEY_SPEC_SESSION_KEYRING)).result >= 0 || (
        self.add_key)(fresh.request_for(KEY_SPEC_USER_KEYRING)).result >= 0 {
            Some(fresh.sig)
        } else {
            None
        }
    }

    /// The signature of the key whose passphrase is at `uri`, if it can be fetched and a
    /// keyring takes the key.
    pub open spec fn sig_for(
        self,
        uri: Option<Seq<char>>,
        salt: Seq<u8>,
        order: ByteOrder,
    ) -> Option<Seq<char>> {
        match uri {
            None => None,
            Some(uri) => match (self.fetch)(uri) {
                None => None,
                Some(raw) => self.accepted_sig(key::without_line_ending(raw), salt, order),
            },
        }
    }
}

/// The collection after `n` replies.
pub open spec fn run(build: ParameterBuildView, world: World, n: nat) -> ParameterBuildView
    decreases n,
{
    if n == 0 || build.is_finished() {
        build
    } else {
        run(build.after(world.reply(build)), world, (n - 1) as nat)
    }
}

proof fn lemma_run_add_fnek(
    build: ParameterBuildView,
    sig: Option<Seq<char>>,
    passphrase: Seq<u8>,
    world: World,
    n: nat,
)
    requires
        n >= 2,
        build.stage == build.add_fnek(sig, passphrase),
    ensures
        run(build, world, n) == build.at(
            BuildStageView::Finished {
                sig,
                fnek_sig: world.accepted_sig(passphrase, ECRYPTFS_DEFAULT_SALT_FNEK@, build.order),
            },
        ),
{
    let fresh = KeyringAdditionView::start(passphrase, ECRYPTFS_DEFAULT_SALT_FNEK@, build.order);
    let second = build.after(world.reply(build));
    assert(run(build, world, n) == run(second, world, (n - 1) as nat));
    if (world.add_key)(fresh.request_for(KEY_SPEC_SESSION_KEYRING)).result < 0 {
        assert(second.stage is AddFnek);
        let last = second.after(world.reply(second));
        assert(run(second, world, (n - 1) as nat) == run(last, world, (n - 2) as nat));
    }
}

proof fn lemma_run_after_fek(
    build: ParameterBuildView,
    passphrase: Option<Seq<u8>>,
    sig: Option<Seq<char>>,
    world: World,
    n: nat,
)
    requires
        n >= 3,
        build.params.fek_uri() matches Some(uri) ==> passphrase == match (world.fetch)(uri) {
            Some(raw) => Some(key::without_line_ending(raw)),
            None => None,
        },
    ensures
        run(build.after_fek(passphrase, sig), world, n) == build.at(
            BuildStageView::Finished {
                sig,
                fnek_sig: world.sig_for(
                    build.params.fnek_uri(),
                    ECRYPTFS_DEFAULT_SALT_FNEK@,
                    build.order,
                ),
            },
        ),
{
    let next = build.after_fek(passphrase, sig);
    match next.stage {
        BuildStageView::AddFnek { .. } => {
            lemma_run_add_fnek(next, sig, passphrase->0, world, n);
        },
        BuildStageView::FetchFnek { .. } => {
            let then = next.after(world.reply(next));
            assert(run(next, world, n) == run(then, world, (n - 1) as nat));
            match (world.fetch)(build.params.fnek_uri()->0) {
                Some(raw) => {
                    lemma_run_add_fnek(
                        then,
                        sig,
                        key::without_line_ending(raw),
                        world,
                        (n - 1) as nat,
                    );
                },
                None => {},
            }
        },
        _ => {},
    }
}

proof fn lemma_run_add_fek(build: ParameterBuildView, raw: Seq<u8>, world: World, n: nat)
    requires
        n >= 6,
        build.stage is FetchFek,
        build.params.fek_uri() is Some,
        (world.fetch)(build.params.fek_uri()->0) == Some(raw),
    ensures
        run(build, world, n) == build.at(
            BuildStageView::Finished {
                sig: world.sig_for(build.params.fek_uri(), ECRYPTFS_DEFAULT_SALT@, build.order),
                fnek_sig: world.sig_for(
                    build.params.fnek_uri(),
                    ECRYPTFS_DEFAULT_SALT_FNEK@,
                    build.order,
                ),
            },
        ),
{
    let passphrase = key::without_line_ending(raw);
    let fresh = KeyringAdditionView::start(passphrase, ECRYPTFS_DEFAULT_SALT@, build.order);
    let second = build.after(world.reply(build));
    assert(run(build, world, n) == run(second, world, (n - 1) as nat));
    let third = second.after(world.reply(second));
    assert(run(second, world, (n - 1) as nat) == run(third, world, (n - 2) as nat));
    if (world.add_key)(fresh.request_for(KEY_SPEC_SESSION_KEYRING)).result < 0 {
        assert(third.stage is AddFek);
        let last = third.after(world.reply(third));
        assert(run(third, world, (n - 2) as nat) == run(last, world, (n - 3) as nat));
        let sig = if (world.add_key)(fresh.request_for(KEY_SPEC_USER_KEYRING)).result < 0 {
            None
        } else {
            Some(fresh.sig)
        };
        assert(last == build.after_fek(Some(passphrase), sig));
        lemma_run_after_fek(build, Some(passphrase), sig, world, (n - 3) as nat);
    } else {
        assert(third == build.after_fek(Some(passphrase), Some(fresh.sig)));
        lemma_run_after_fek(build, Some(passphrase), Some(fresh.sig), world, (n - 2) as nat);
    }
}

/// Where a collection leads, whatever the world: after six replies at most it is done,
/// and the options name the signature of every key whose passphrase could be fetched
/// and which a keyring took, each at its own label.
pub proof fn law_collected_options(
    params: EcryptfsMountParameters,
    order: ByteOrder,
    world: World,
)
    ensures
        run(ParameterBuildView::start(params, order), world, 6).action() == BuildActionView::Done(
            params.options(
                world.sig_for(params.fek_uri(), ECRYPTFS_DEFAULT_SALT@, order),
                world.sig_for(params.fnek_uri(), ECRYPTFS_DEFAULT_SALT_FNEK@, order),
            ),
        ),
        run(ParameterBuildView::start(params, order), world, 6).is_finished(),
{
    let fresh = ParameterBuildView { params, order, stage: BuildStageView::FetchFek };
    let start = ParameterBuildView::start(params, order);
    match params.fek_uri() {
        Some(uri) => match (world.fetch)(uri) {
            Some(raw) => {
                lemma_run_add_fek(start, raw, world, 6);
            },
            None => {
                let next = start.after(world.reply(start));
                assert(run(start, world, 6) == run(next, world, 5));
                assert(next == fresh.after_fek(None, None));
                lemma_run_after_fek(fresh, None, None, world, 5);
            },
        },
        None => {
            lemma_run_after_fek(fresh, None, None, world, 6);
        },
    }
}

} // verus!
