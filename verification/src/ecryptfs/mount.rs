//! Mounting an eCryptfs layer.
//!
//! [`EcryptfsMount`] decides what to do; its caller does it and hands the replies back.
use crate::ecryptfs::auth_tok;
use crate::ecryptfs::auth_tok::{native_byte_order, ByteOrder};
use crate::ecryptfs::collect;
use crate::ecryptfs::collect::{
    BuildAction, BuildActionView, BuildReply, BuildReplyView, BuildStageView, ParameterBuild,
    ParameterBuildView, World,
};
use crate::ecryptfs::error::{EcryptfsError, EcryptfsErrorView};
use crate::ecryptfs::key::{ECRYPTFS_DEFAULT_SALT, ECRYPTFS_DEFAULT_SALT_FNEK};
use crate::ecryptfs::params;
use crate::ecryptfs::params::EcryptfsMountParameters;
use crate::syscall;
use crate::syscall::{MountCall, MountCallView};
use vstd::prelude::*;
use vstd::string::*;

verus! {

/// The type of the file system.
pub const ECRYPTFS_FS_NAME: &'static str = "ecryptfs";

/// How far the mount has come.
pub enum EcryptfsStage {
    /// The options are being collected.
    Collecting(ParameterBuild),
    /// It is being looked whether the mount point exists.
    CheckMountPoint {
        /// The options.
        options: String,
    },
    /// The mount point is being created.
    CreateMountPoint {
        /// The options.
        options: String,
    },
    /// The system call is being made.
    Mounting {
        /// The options.
        options: String,
    },
    /// The mount is done or has failed. A mount gives an empty header path.
    Finished(Result<Option<String>, EcryptfsError>),
}

/// The contents of an [`EcryptfsStage`].
pub enum EcryptfsStageView {
    /// The options are being collected.
    Collecting(ParameterBuildView),
    /// It is being looked whether the mount point exists.
    CheckMountPoint {
        /// The options.
        options: Seq<char>,
    },
    /// The mount point is being created.
    CreateMountPoint {
        /// The options.
        options: Seq<char>,
    },
    /// The system call is being made.
    Mounting {
        /// The options.
        options: Seq<char>,
    },
    /// The mount is done or has failed.
    Finished(Result<Option<Seq<char>>, EcryptfsErrorView>),
}

/// The contents of a mount's result.
pub open spec fn mount_result_view(r: Result<Option<String>, EcryptfsError>) -> Result<
    Option<Seq<char>>,
    EcryptfsErrorView,
> {
    match r {
        Ok(header) => Ok(params::optional_text(header)),
        Err(e) => Err(e@),
    }
}

impl View for EcryptfsStage {
    type V = EcryptfsStageView;

    open spec fn view(&self) -> EcryptfsStageView {
        match *self {
            EcryptfsStage::Collecting(build) => EcryptfsStageView::Collecting(build@),
            EcryptfsStage::CheckMountPoint { options } => EcryptfsStageView::CheckMountPoint {
                options: options@,
            },
            EcryptfsStage::CreateMountPoint { options } => EcryptfsStageView::CreateMountPoint {
                options: options@,
            },
            EcryptfsStage::Mounting { options } => EcryptfsStageView::Mounting {
                options: options@,
            },
            EcryptfsStage::Finished(result) => EcryptfsStageView::Finished(
                mount_result_view(result),
            ),
        }
    }
}

/// What the caller is to do next.
pub enum EcryptfsAction {
    /// Go on collecting options.
    Collect(BuildAction),
    /// Look whether this path exists.
    CheckExists(String),
    /// Create this directory and its parents.
    CreateDir(String),
    /// Make this system call.
    Mount(MountCall),
    /// Nothing.
    Done,
}

/// The contents of an [`EcryptfsAction`].
pub enum EcryptfsActionView {
    /// Go on collecting options.
    Collect(BuildActionView),
    /// Look whether this path exists.
    CheckExists(Seq<char>),
    /// Create this directory and its parents.
    CreateDir(Seq<char>),
    /// Make this system call.
    Mount(MountCallView),
    /// Nothing.
    Done,
}

impl View for EcryptfsAction {
    type V = EcryptfsActionView;

    open spec fn view(&self) -> EcryptfsActionView {
        match *self {
            EcryptfsAction::Collect(action) => EcryptfsActionView::Collect(action@),
            EcryptfsAction::CheckExists(path) => EcryptfsActionView::CheckExists(path@),
            EcryptfsAction::CreateDir(path) => EcryptfsActionView::CreateDir(path@),
            EcryptfsAction::Mount(call) => EcryptfsActionView::Mount(call@),
            EcryptfsAction::Done => EcryptfsActionView::Done,
        }
    }
}

/// What came of an action.
pub enum EcryptfsReply {
    /// A reply to the collection of options.
    Collect(BuildReply),
    /// Whether the path exists.
    Exists(bool),
    /// Whether the operation succeeded, or the reason why not.
    Outcome(Result<(), String>),
}

/// The contents of an [`EcryptfsReply`].
pub enum EcryptfsReplyView {
    /// A reply to the collection of options.
    Collect(BuildReplyView),
    /// Whether the path exists.
    Exists(bool),
    /// Whether the operation succeeded.
    Outcome(Result<(), Seq<char>>),
}

impl View for EcryptfsReply {
    type V = EcryptfsReplyView;

    open spec fn view(&self) -> EcryptfsReplyView {
        match *self {
            EcryptfsReply::Collect(reply) => EcryptfsReplyView::Collect(reply@),
            EcryptfsReply::Exists(exists) => EcryptfsReplyView::Exists(exists),
            EcryptfsReply::Outcome(outcome) => EcryptfsReplyView::Outcome(
                syscall::outcome_view(outcome),
            ),
        }
    }
}

/// An eCryptfs mount under way.
pub struct EcryptfsMount {
    /// The directory with the encrypted files.
    pub source_path: String,
    /// Where the clear files are to appear.
    pub mount_point: String,
    /// How far it has come.
    pub stage: EcryptfsStage,
}

/// The contents of an [`EcryptfsMount`].
pub struct EcryptfsMountView {
    /// The directory with the encrypted files.
    pub source_path: Seq<char>,
    /// Where the clear files are to appear.
    pub mount_point: Seq<char>,
    /// How far it has come.
    pub stage: EcryptfsStageView,
}

impl View for EcryptfsMount {
    type V = EcryptfsMountView;

    open spec fn view(&self) -> EcryptfsMountView {
        EcryptfsMountView {
            source_path: self.source_path@,
            mount_point: self.mount_point@,
            stage: self.stage@,
        }
    }
}

/// Once the options are collected, the mount point is looked for.
pub open spec fn settled(build: ParameterBuildView) -> EcryptfsStageView {
    match build.action() {
        BuildActionView::Done(options) => EcryptfsStageView::CheckMountPoint { options },
        _ => EcryptfsStageView::Collecting(build),
    }
}

impl EcryptfsMountView {
    /// The same mount, further on.
    pub open spec fn at(self, stage: EcryptfsStageView) -> Self {
        EcryptfsMountView { stage, ..self }
    }

    /// Before anything is done.
    pub open spec fn start(
        params: EcryptfsMountParameters,
        source_path: Seq<char>,
        mount_point: Seq<char>,
        order: ByteOrder,
    ) -> Self {
        EcryptfsMountView {
            source_path,
            mount_point,
            stage: settled(ParameterBuildView::start(params, order)),
        }
    }

    /// The system call of the mount.
    pub open spec fn call(self, options: Seq<char>) -> MountCallView {
        MountCallView {
            source: self.source_path,
            target: self.mount_point,
            fs_type: ECRYPTFS_FS_NAME@,
            no_atime: true,
            options,
        }
    }

    /// What is to be done next.
    pub open spec fn action(self) -> EcryptfsActionView {
        match self.stage {
            EcryptfsStageView::Collecting(build) => EcryptfsActionView::Collect(build.action()),
            EcryptfsStageView::CheckMountPoint { .. } => EcryptfsActionView::CheckExists(
                self.mount_point,
            ),
            EcryptfsStageView::CreateMountPoint { .. } => EcryptfsActionView::CreateDir(
                self.mount_point,
            ),
            EcryptfsStageView::Mounting { options } => EcryptfsActionView::Mount(
                self.call(options),
            ),
            EcryptfsStageView::Finished(_) => EcryptfsActionView::Done,
        }
    }

    /// After a reply. One that does not answer what was asked changes nothing.
    pub open spec fn after(self, reply: EcryptfsReplyView) -> Self {
        match (self.stage, reply) {
            (EcryptfsStageView::Collecting(build), EcryptfsReplyView::Collect(reply)) => self.at(
                settled(build.after(reply)),
            ),
            (
                EcryptfsStageView::CheckMountPoint { options },
                EcryptfsReplyView::Exists(exists),
            ) => self.at(
                if exists {
                    EcryptfsStageView::Mounting { options }
                } else {
                    EcryptfsStageView::CreateMountPoint { options }
                },
            ),
            (
                EcryptfsStageView::CreateMountPoint { options },
                EcryptfsReplyView::Outcome(outcome),
            ) => self.at(
                match outcome {
                    Ok(()) => EcryptfsStageView::Mounting { options },
                    Err(cause) => EcryptfsStageView::Finished(
                        Err(EcryptfsErrorView::CreateMountPoint(cause)),
                    ),
                },
            ),
            (EcryptfsStageView::Mounting { .. }, EcryptfsReplyView::Outcome(outcome)) => self.at(
                EcryptfsStageView::Finished(
                    match outcome {
                        Ok(()) => Ok(Some(Seq::empty())),
                        Err(cause) => Err(
                            EcryptfsErrorView::Mount {
                                source_path: self.source_path,
                                mount_point: self.mount_point,
                                cause,
                            },
                        ),
                    },
                ),
            ),
            _ => self,
        }
    }
}

/// Moves on once the options are collected.
fn settle(build: ParameterBuild) -> (r: EcryptfsStage)
    ensures
        r@ == settled(build@),
{
    match build.action() {
        BuildAction::Done(options) => EcryptfsStage::CheckMountPoint { options },
        _ => EcryptfsStage::Collecting(build),
    }
}

impl EcryptfsMountParameters {
    /// Starts to mount `source_path` at `mount_point`. Without a passphrase nothing is
    /// started.
    pub fn do_mount(self, source_path: &str, mount_point: &str) -> (r: Result<
        EcryptfsMount,
        EcryptfsError,
    >)
        ensures
            r is Ok <==> self.passphrase is Some,
            r is Err ==> r->Err_0 is MissingPassphrase,
            r is Ok ==> exists|order: ByteOrder| #[trigger]
                auth_tok::is_native(order) && r->Ok_0@ == EcryptfsMountView::start(
                    self,
                    source_path@,
                    mount_point@,
                    order,
                ),
    {
        let order = native_byte_order();
        EcryptfsMount::start(self, source_path, mount_point, order)
    }
}

impl EcryptfsMount {
    /// Starts to mount `source_path` at `mount_point`, with tokens in the given byte
    /// order. Without a passphrase nothing is started.
    pub fn start(
        params: EcryptfsMountParameters,
        source_path: &str,
        mount_point: &str,
        order: ByteOrder,
    ) -> (r: Result<EcryptfsMount, EcryptfsError>)
        ensures
            r is Ok <==> params.passphrase is Some,
            r is Err ==> r->Err_0 is MissingPassphrase,
            r is Ok ==> r->Ok_0@ == EcryptfsMountView::start(
                params,
                source_path@,
                mount_point@,
                order,
            ),
    {
        match params.validate() {
            Err(e) => {
                return Err(e);
            },
            Ok(()) => {},
        }
        Ok(
            EcryptfsMount {
                source_path: source_path.to_owned(),
                mount_point: mount_point.to_owned(),
                stage: settle(ParameterBuild::start(params, order)),
            },
        )
    }

    /// What is to be done next.
    pub fn action(&self) -> (r: EcryptfsAction)
        ensures
            r@ == self@.action(),
    {
        match &self.stage {
            EcryptfsStage::Collecting(build) => EcryptfsAction::Collect(build.action()),
            EcryptfsStage::CheckMountPoint { .. } => EcryptfsAction::CheckExists(
                self.mount_point.clone(),
            ),
            EcryptfsStage::CreateMountPoint { .. } => EcryptfsAction::CreateDir(
                self.mount_point.clone(),
            ),
            EcryptfsStage::Mounting { options } => EcryptfsAction::Mount(
                MountCall {
                    source: self.source_path.clone(),
                    target: self.mount_point.clone(),
                    fs_type: ECRYPTFS_FS_NAME.to_owned(),
                    no_atime: true,
                    options: options.clone(),
                },
            ),
            EcryptfsStage::Finished(_) => EcryptfsAction::Done,
        }
    }

    /// Takes in the reply to what was asked. Another reply changes nothing.
    pub fn after(self, reply: EcryptfsReply) -> (r: EcryptfsMount)
        ensures
            r@ == self@.after(reply@),
    {
        let EcryptfsMount { source_path, mount_point, stage } = self;
        let stage = match (stage, reply) {
            (EcryptfsStage::Collecting(build), EcryptfsReply::Collect(reply)) => {
                settle(build.after(reply))
            },
            (EcryptfsStage::CheckMountPoint { options }, EcryptfsReply::Exists(exists)) => {
                if exists {
                    EcryptfsStage::Mounting { options }
                } else {
                    EcryptfsStage::CreateMountPoint { options }
                }
            },
            (EcryptfsStage::CreateMountPoint { options }, EcryptfsReply::Outcome(outcome)) => {
                match outcome {
                    Ok(()) => EcryptfsStage::Mounting { options },
                    Err(cause) => {
                        EcryptfsStage::Finished(Err(EcryptfsError::CreateMountPoint(cause)))
                    },
                }
            },
            (EcryptfsStage::Mounting { .. }, EcryptfsReply::Outcome(outcome)) => {
                match outcome {
                    Ok(()) => EcryptfsStage::Finished(Ok(Some(String::new()))),
                    Err(cause) => EcryptfsStage::Finished(
                        Err(
                            EcryptfsError::Mount {
                                source_path: source_path.clone(),
                                mount_point: mount_point.clone(),
                                cause,
                            },
                        ),
                    ),
                }
            },
            (stage, _) => stage,
        };
        EcryptfsMount { source_path, mount_point, stage }
    }
}

impl EcryptfsMountView {
    /// The stage fits: options are being collected only as long as some are missing.
    pub open spec fn is_consistent(self) -> bool {
        self.stage matches EcryptfsStageView::Collecting(build) ==> build.is_consistent()
            && !build.is_finished()
    }

    /// The mount is done or has failed.
    pub open spec fn is_finished(self) -> bool {
        self.stage is Finished
    }

    /// The reply answers what was asked.
    pub open spec fn is_answered_by(self, reply: EcryptfsReplyView) -> bool {
        match self.stage {
            EcryptfsStageView::Collecting(build) => {
                reply matches EcryptfsReplyView::Collect(reply) && build.is_answered_by(reply)
            },
            EcryptfsStageView::CheckMountPoint { .. } => reply is Exists,
            EcryptfsStageView::CreateMountPoint { .. } => reply is Outcome,
            EcryptfsStageView::Mounting { .. } => reply is Outcome,
            EcryptfsStageView::Finished(_) => false,
        }
    }

    /// How many replies there can be at most.
    pub open spec fn replies_left(self) -> nat {
        match self.stage {
            EcryptfsStageView::Collecting(build) => 3 + build.replies_left(),
            EcryptfsStageView::CheckMountPoint { .. } => 3,
            EcryptfsStageView::CreateMountPoint { .. } => 2,
            EcryptfsStageView::Mounting { .. } => 1,
            EcryptfsStageView::Finished(_) => 0,
        }
    }
}

/// Every mount starts out consistent and stays so; every reply to what was asked brings
/// it closer to its end, and nine replies at most are asked for.
pub proof fn law_ecryptfs_mount_ends(
    params: EcryptfsMountParameters,
    source_path: Seq<char>,
    mount_point: Seq<char>,
    order: ByteOrder,
    mount: EcryptfsMountView,
    reply: EcryptfsReplyView,
)
    requires
        mount.is_consistent(),
    ensures
        EcryptfsMountView::start(params, source_path, mount_point, order).is_consistent(),
        EcryptfsMountView::start(params, source_path, mount_point, order).replies_left() <= 9,
        mount.after(reply).is_consistent(),
        mount.is_answered_by(reply) ==> mount.after(reply).replies_left() < mount.replies_left(),
        mount.replies_left() == 0 <==> mount.is_finished(),
{
    if let (EcryptfsStageView::Collecting(build), EcryptfsReplyView::Collect(reply)) = (
        mount.stage,
        reply,
    ) {
        collect::law_collection_stays_consistent(params, order, build, reply);
        if build.is_answered_by(reply) {
            collect::law_collection_ends(params, order, build, reply);
        }
    }
}

/// What the actions of a mount come to.
pub struct MountWorld {
    /// Fetching passphrases and adding keys.
    pub collect: World,
    /// Whether a path exists.
    pub exists: spec_fn(Seq<char>) -> bool,
    /// What creating a directory comes to.
    pub create: spec_fn(Seq<char>) -> Result<(), Seq<char>>,
    /// What the system call comes to.
    pub mount: spec_fn(MountCallView) -> Result<(), Seq<char>>,
}

impl MountWorld {
    /// The reply to what `mount` asks for.
    pub open spec fn reply(self, mount: EcryptfsMountView) -> EcryptfsReplyView {
        match mount.stage {
            EcryptfsStageView::Collecting(build) => EcryptfsReplyView::Collect(
                self.collect.reply(build),
            ),
            EcryptfsStageView::CheckMountPoint { .. } => EcryptfsReplyView::Exists(
                (self.exists)(mount.action()->CheckExists_0),
            ),
            EcryptfsStageView::CreateMountPoint { .. } => EcryptfsReplyView::Outcome(
                (self.create)(mount.action()->CreateDir_0),
            ),
            EcryptfsStageView::Mounting { .. } => EcryptfsReplyView::Outcome(
                (self.mount)(mount.action()->Mount_0),
            ),
            EcryptfsStageView::Finished(_) => EcryptfsReplyView::Exists(false),
        }
    }

    /// What a mount with these options comes to.
    pub open spec fn result(self, mount: EcryptfsMountView, options: Seq<char>) -> Result<
        Option<Seq<char>>,
        EcryptfsErrorView,
    > {
        if !(self.exists)(mount.mount_point) && (self.create)(mount.mount_point) is Err {
            Err(EcryptfsErrorView::CreateMountPoint((self.create)(mount.mount_point)->Err_0))
        } else {
            match (self.mount)(mount.call(options)) {
                Ok(()) => Ok(Some(Seq::empty())),
                Err(cause) => Err(
                    EcryptfsErrorView::Mount {
                        source_path: mount.source_path,
                        mount_point: mount.mount_point,
                        cause,
                    },
                ),
            }
        }
    }
}

/// The mount after `n` replies.
pub open spec fn run_mount(mount: EcryptfsMountView, world: MountWorld, n: nat) -> EcryptfsMountView
    decreases n,
{
    if n == 0 || mount.is_finished() {
        mount
    } else {
        run_mount(mount.after(world.reply(mount)), world, (n - 1) as nat)
    }
}

proof fn lemma_run_mount_from_check(
    mount: EcryptfsMountView,
    options: Seq<char>,
    world: MountWorld,
    n: nat,
)
    requires
        n >= 3,
        mount.stage == (EcryptfsStageView::CheckMountPoint { options }),
    ensures
        run_mount(mount, world, n) == mount.at(
            EcryptfsStageView::Finished(world.result(mount, options)),
        ),
{
    let second = mount.after(world.reply(mount));
    assert(run_mount(mount, world, n) == run_mount(second, world, (n - 1) as nat));
    let third = second.after(world.reply(second));
    assert(run_mount(second, world, (n - 1) as nat) == run_mount(third, world, (n - 2) as nat));
    if !third.is_finished() {
        let last = third.after(world.reply(third));
        assert(run_mount(third, world, (n - 2) as nat) == run_mount(last, world, (n - 3) as nat));
    }
}

proof fn lemma_run_mount_collecting(
    mount: EcryptfsMountView,
    build: ParameterBuildView,
    world: MountWorld,
    n: nat,
    options: Seq<char>,
)
    requires
        build.is_consistent(),
        mount.stage == settled(build),
        collect::run(build, world.collect, n).is_finished(),
        collect::run(build, world.collect, n).action() == BuildActionView::Done(options),
    ensures
        run_mount(mount, world, n + 3) == mount.at(
            EcryptfsStageView::Finished(world.result(mount, options)),
        ),
    decreases n,
{
    if build.is_finished() {
        lemma_run_mount_from_check(mount, options, world, n + 3);
    } else {
        let reply = world.collect.reply(build);
        let next = mount.after(world.reply(mount));
        collect::law_collection_stays_consistent(build.params, build.order, build, reply);
        assert(run_mount(mount, world, n + 3) == run_mount(next, world, (n + 2) as nat));
        lemma_run_mount_collecting(
            next,
            build.after(reply),
            world,
            (n - 1) as nat,
            options,
        );
    }
}

/// A mount makes one system call at most: it asks for one exactly in one stage, any
/// outcome of the call ends the mount, and a mount that has ended asks for nothing more.
/// The call is first asked for right after the mount point was found or created.
pub proof fn law_ecryptfs_mount_calls_once(mount: EcryptfsMountView, reply: EcryptfsReplyView)
    ensures
        mount.action() is Mount <==> mount.stage is Mounting,
        mount.stage is Mounting && reply is Outcome ==> mount.after(reply).is_finished(),
        mount.is_finished() ==> mount.action() is Done && mount.after(reply) == mount,
        mount.after(reply).stage is Mounting && !(mount.stage is Mounting) ==> (
        mount.stage is CheckMountPoint && reply == EcryptfsReplyView::Exists(true)) || (
        mount.stage is CreateMountPoint && (reply matches EcryptfsReplyView::Outcome(outcome)
            && outcome is Ok)),
{
}

/// Where a mount leads, whatever its actions come to: after nine replies at most it is
/// done. The options of its system call name the signatures of the keys that were added.
/// It succeeds if and only if the mount point exists or can be created and the system
/// call succeeds.
pub proof fn law_ecryptfs_mount_result(
    params: EcryptfsMountParameters,
    source_path: Seq<char>,
    mount_point: Seq<char>,
    order: ByteOrder,
    world: MountWorld,
)
    ensures
        ({
            let start = EcryptfsMountView::start(params, source_path, mount_point, order);
            let options = params.options(
                world.collect.sig_for(params.fek_uri(), ECRYPTFS_DEFAULT_SALT@, order),
                world.collect.sig_for(params.fnek_uri(), ECRYPTFS_DEFAULT_SALT_FNEK@, order),
            );
            run_mount(start, world, 9) == start.at(
                EcryptfsStageView::Finished(world.result(start, options)),
            )
        }),
{
    let start = EcryptfsMountView::start(params, source_path, mount_point, order);
    let build = ParameterBuildView::start(params, order);
    let options = params.options(
        world.collect.sig_for(params.fek_uri(), ECRYPTFS_DEFAULT_SALT@, order),
        world.collect.sig_for(params.fnek_uri(), ECRYPTFS_DEFAULT_SALT_FNEK@, order),
    );
    collect::law_collected_options(params, order, world.collect);
    collect::law_collection_stays_consistent(
        params,
        order,
        ParameterBuildView {
            params,
            order,
            stage: BuildStageView::Finished { sig: None, fnek_sig: None },
        },
        BuildReplyView::Passphrase(None),
    );
    lemma_run_mount_collecting(start, build, world, 6, options);
}

} // verus!
