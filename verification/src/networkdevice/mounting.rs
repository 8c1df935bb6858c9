//! Mounting a network device.
//!
//! [`MountRun`] decides what to do; its caller does it and hands the replies back
//! through [`NetworkDevice::advance`].
use crate::ecryptfs::auth_tok;
use crate::ecryptfs::auth_tok::{native_byte_order, ByteOrder};
use crate::ecryptfs::error::EcryptfsErrorView;
use crate::ecryptfs::mount::{
    EcryptfsAction, EcryptfsActionView, EcryptfsMount, EcryptfsMountView, EcryptfsReply,
    EcryptfsReplyView, EcryptfsStage, EcryptfsStageView,
};
use crate::ecryptfs::params;
use crate::networkdevice::device;
use crate::networkdevice::device::{
    choose_transit_mount_point, NetworkDevice, NetworkDeviceEncryptType, NetworkDeviceParameters,
    NetworkDeviceView,
};
use crate::networkdevice::error::{NetworkDeviceError, NetworkDeviceErrorView};
use crate::networkdevice::hooks;
use crate::networkdevice::hooks::{create_guest_hooks, write_hook_config, HookStep, HookStepView};
use crate::networkdevice::mounts;
use crate::networkdevice::mounts::is_mounted;
use crate::networkdevice::network::{
    wait_for_system_network_ready, NetworkAction, NetworkActionView, NetworkReply,
    NetworkReplyView, NetworkWait, NetworkWaitView,
};
use crate::networkdevice::options;
use crate::networkdevice::options::ensure_nfs4_mount_options;
use crate::networkdevice::relative;
use crate::networkdevice::relative::resolve_relative_mount_path;
use crate::syscall;
use crate::syscall::{MountCall, MountCallView};
use crate::text;
use crate::text::{trimmed_end, CharSet};
use vstd::prelude::*;
use vstd::string::*;

verus! {

/// The type of the transit file system. It demands NFSv4.
pub const NFS4_FS_NAME: &'static str = "nfs4";

/// How far the mount has come.
pub enum MountStage {
    /// The hooks are being created.
    Hooks {
        /// The step under way.
        step: HookStep,
        /// The steps after it.
        rest: Vec<HookStep>,
    },
    /// It is being looked whether the transit mount point exists.
    TransitExists,
    /// The transit mount point is being created.
    TransitCreate,
    /// It is being looked whether something is mounted there.
    ReadMounts,
    /// The network is being waited for.
    Network(NetworkWait),
    /// The server's path is being mounted.
    NfsMount,
    /// It is being looked whether the directory with the encrypted files exists.
    SourceExists {
        /// The directory.
        source: String,
    },
    /// The directory with the encrypted files is being created.
    SourceCreate {
        /// The directory.
        source: String,
    },
    /// It is being looked whether the mount point of the clear files exists.
    TargetExists {
        /// The directory with the encrypted files.
        source: String,
    },
    /// The mount point of the clear files is being created.
    TargetCreate {
        /// The directory with the encrypted files.
        source: String,
    },
    /// The eCryptfs layer is being mounted.
    Ecryptfs(EcryptfsMount),
    /// The configuration of the hooks is being written.
    HookConfig,
    /// The mount is done or has failed.
    Finished(Result<(), NetworkDeviceError>),
}

/// The contents of a [`MountStage`].
pub enum MountStageView {
    /// The hooks are being created.
    Hooks {
        /// The step under way.
        step: HookStepView,
        /// The steps after it.
        rest: Seq<HookStepView>,
    },
    /// It is being looked whether the transit mount point exists.
    TransitExists,
    /// The transit mount point is being created.
    TransitCreate,
    /// It is being looked whether something is mounted there.
    ReadMounts,
    /// The network is being waited for.
    Network(NetworkWaitView),
    /// The server's path is being mounted.
    NfsMount,
    /// It is being looked whether the directory with the encrypted files exists.
    SourceExists {
        /// The directory.
        source: Seq<char>,
    },
    /// The directory with the encrypted files is being created.
    SourceCreate {
        /// The directory.
        source: Seq<char>,
    },
    /// It is being looked whether the mount point of the clear files exists.
    TargetExists {
        /// The directory with the encrypted files.
        source: Seq<char>,
    },
    /// The mount point of the clear files is being created.
    TargetCreate {
        /// The directory with the encrypted files.
        source: Seq<char>,
    },
    /// The eCryptfs layer is being mounted.
    Ecryptfs(EcryptfsMountView),
    /// The configuration of the hooks is being written.
    HookConfig,
    /// The mount is done or has failed.
    Finished(Result<(), NetworkDeviceErrorView>),
}

impl View for MountStage {
    type V = MountStageView;

    open spec fn view(&self) -> MountStageView {
        match *self {
            MountStage::Hooks { step, rest } => MountStageView::Hooks {
                step: step@,
                rest: hooks::steps_view(rest@),
            },
            MountStage::TransitExists => MountStageView::TransitExists,
            MountStage::TransitCreate => MountStageView::TransitCreate,
            MountStage::ReadMounts => MountStageView::ReadMounts,
            MountStage::Network(wait) => MountStageView::Network(wait@),
            MountStage::NfsMount => MountStageView::NfsMount,
            MountStage::SourceExists { source } => MountStageView::SourceExists { source: source@ },
            MountStage::SourceCreate { source } => MountStageView::SourceCreate { source: source@ },
            MountStage::TargetExists { source } => MountStageView::TargetExists { source: source@ },
            MountStage::TargetCreate { source } => MountStageView::TargetCreate { source: source@ },
            MountStage::Ecryptfs(mount) => MountStageView::Ecryptfs(mount@),
            MountStage::HookConfig => MountStageView::HookConfig,
            MountStage::Finished(Ok(())) => MountStageView::Finished(Ok(())),
            MountStage::Finished(Err(e)) => MountStageView::Finished(Err(e@)),
        }
    }
}

/// What the caller is to do next.
pub enum MountAction {
    /// Take this step for the hooks.
    Hook(HookStep),
    /// Look whether this path exists.
    CheckExists(String),
    /// Create this directory and its parents.
    CreateDir(String),
    /// Read the kernel's list of mounts and find the canonical form of this path.
    ReadMounts(String),
    /// Go on waiting for the network.
    Network(NetworkAction),
    /// Make this system call.
    Mount(MountCall),
    /// Go on mounting the eCryptfs layer.
    Ecryptfs(EcryptfsAction),
    /// Nothing.
    Done,
}

/// The contents of a [`MountAction`].
pub enum MountActionView {
    /// Take this step for the hooks.
    Hook(HookStepView),
    /// Look whether this path exists.
    CheckExists(Seq<char>),
    /// Create this directory and its parents.
    CreateDir(Seq<char>),
    /// Read the kernel's list of mounts and find the canonical form of this path.
    ReadMounts(Seq<char>),
    /// Go on waiting for the network.
    Network(NetworkActionView),
    /// Make this system call.
    Mount(MountCallView),
    /// Go on mounting the eCryptfs layer.
    Ecryptfs(EcryptfsActionView),
    /// Nothing.
    Done,
}

impl View for MountAction {
    type V = MountActionView;

    open spec fn view(&self) -> MountActionView {
        match *self {
            MountAction::Hook(step) => MountActionView::Hook(step@),
            MountAction::CheckExists(path) => MountActionView::CheckExists(path@),
            MountAction::CreateDir(path) => MountActionView::CreateDir(path@),
            MountAction::ReadMounts(path) => MountActionView::ReadMounts(path@),
            MountAction::Network(action) => MountActionView::Network(action@),
            MountAction::Mount(call) => MountActionView::Mount(call@),
            MountAction::Ecryptfs(action) => MountActionView::Ecryptfs(action@),
            MountAction::Done => MountActionView::Done,
        }
    }
}

/// What came of an action.
pub enum MountReply {
    /// Whether the operation succeeded, or the reason why not.
    Outcome(Result<(), String>),
    /// Whether the path exists.
    Exists(bool),
    /// The list of mounts, or the reason why it could not be read, and the canonical
    /// form of the path, if it has one.
    Mounts {
        /// The list.
        mounts: Result<String, String>,
        /// The canonical form of the path.
        canonical_path: Option<String>,
    },
    /// A reply to the wait for the network.
    Network(NetworkReply),
    /// A reply to the mount of the eCryptfs layer.
    Ecryptfs(EcryptfsReply),
}

/// The contents of a [`MountReply`].
pub enum MountReplyView {
    /// Whether the operation succeeded.
    Outcome(Result<(), Seq<char>>),
    /// Whether the path exists.
    Exists(bool),
    /// The list of mounts and the canonical form of the path.
    Mounts {
        /// The list.
        mounts: Result<Seq<char>, Seq<char>>,
        /// The canonical form of the path.
        canonical_path: Option<Seq<char>>,
    },
    /// A reply to the wait for the network.
    Network(NetworkReplyView),
    /// A reply to the mount of the eCryptfs layer.
    Ecryptfs(EcryptfsReplyView),
}

/// The text of a list that could perhaps not be read.
pub open spec fn list_view(list: Result<String, String>) -> Result<Seq<char>, Seq<char>> {
    match list {
        Ok(list) => Ok(list@),
        Err(cause) => Err(cause@),
    }
}

impl View for MountReply {
    type V = MountReplyView;

    open spec fn view(&self) -> MountReplyView {
        match *self {
            MountReply::Outcome(outcome) => MountReplyView::Outcome(syscall::outcome_view(outcome)),
            MountReply::Exists(exists) => MountReplyView::Exists(exists),
            MountReply::Mounts { mounts, canonical_path } => MountReplyView::Mounts {
                mounts: list_view(mounts),
                canonical_path: params::optional_text(canonical_path),
            },
            MountReply::Network(reply) => MountReplyView::Network(reply@),
            MountReply::Ecryptfs(reply) => MountReplyView::Ecryptfs(reply@),
        }
    }
}

/// A mount of a network device under way.
pub struct MountRun {
    /// The parameters of the device.
    pub params: NetworkDeviceParameters,
    /// Where the server's path is mounted.
    pub transit: String,
    /// Where the container expects the files.
    pub mount_point: String,
    /// The byte order of key tokens.
    pub order: ByteOrder,
    /// How far it has come.
    pub stage: MountStage,
}

/// The contents of a [`MountRun`].
pub struct MountRunView {
    /// The parameters of the device.
    pub params: NetworkDeviceParameters,
    /// Where the server's path is mounted.
    pub transit: Seq<char>,
    /// Where the container expects the files.
    pub mount_point: Seq<char>,
    /// The byte order of key tokens.
    pub order: ByteOrder,
    /// How far it has come.
    pub stage: MountStageView,
}

impl View for MountRun {
    type V = MountRunView;

    open spec fn view(&self) -> MountRunView {
        MountRunView {
            params: self.params,
            transit: self.transit@,
            mount_point: self.mount_point@,
            order: self.order,
            stage: self.stage@,
        }
    }
}

/// The server and its path, as NFS names them.
pub open spec fn nfs_source(params: NetworkDeviceParameters) -> Seq<char> {
    params.ip_addr@ + ":"@ + params.source_path@
}

/// The mount point of the clear files: beside the transit mount point.
pub open spec fn clear_path(transit: Seq<char>) -> Seq<char> {
    text::trim_end(transit, CharSet::Only('/')) + "_ecryptfs"@
}

impl MountRunView {
    /// The same mount, further on.
    pub open spec fn at(self, stage: MountStageView) -> Self {
        MountRunView { stage, ..self }
    }

    /// Before anything is done. The hooks come first, where they will be needed.
    pub open spec fn start(
        params: NetworkDeviceParameters,
        transit: Seq<char>,
        mount_point: Seq<char>,
        order: ByteOrder,
    ) -> Self {
        MountRunView {
            params,
            transit,
            mount_point,
            order,
            stage: if params.encryption_type is Some {
                MountStageView::Hooks {
                    step: hooks::hook_steps()[0],
                    rest: hooks::hook_steps().drop_first(),
                }
            } else {
                MountStageView::TransitExists
            },
        }
    }

    /// The system call of the NFSv4 mount.
    pub open spec fn nfs_call(self) -> MountCallView {
        MountCallView {
            source: nfs_source(self.params),
            target: self.transit,
            fs_type: NFS4_FS_NAME@,
            no_atime: false,
            options: options::options_text(
                options::with_nfs4_defaults(
                    options::user_entries(params::optional_text(self.params.mount_options)),
                    self.params.ip_addr@,
                ),
            ),
        }
    }

    /// What the directory with the encrypted files resolves to.
    pub open spec fn source(self) -> Result<Seq<char>, NetworkDeviceErrorView> {
        relative::resolved_path(
            self.transit,
            params::optional_text(self.params.relative_mount_path),
        )
    }

    /// Once the server's path is mounted: the encrypted layer, if there is to be one.
    pub open spec fn after_nfs(self) -> Self {
        match self.params.encryption_type {
            None => self.at(MountStageView::Finished(Ok(()))),
            Some(_) => match self.source() {
                Ok(source) => self.at(MountStageView::SourceExists { source }),
                Err(e) => self.at(MountStageView::Finished(Err(e))),
            },
        }
    }

    /// Once both directories of the encrypted layer exist.
    pub open spec fn begin_ecryptfs(self, source: Seq<char>) -> Self {
        match self.params.encryption_type {
            Some(NetworkDeviceEncryptType::Ecryptfs(ecryptfs)) => if ecryptfs.passphrase is Some {
                self.at(
                    MountStageView::Ecryptfs(
                        EcryptfsMountView::start(
                            ecryptfs,
                            source,
                            clear_path(self.transit),
                            self.order,
                        ),
                    ),
                )
            } else {
                self.at(
                    MountStageView::Finished(
                        Err(
                            NetworkDeviceErrorView::EcryptfsError {
                                source: EcryptfsErrorView::MissingPassphrase,
                            },
                        ),
                    ),
                )
            },
            None => self.at(MountStageView::Finished(Ok(()))),
        }
    }

    /// Failed, because of a file operation.
    pub open spec fn failed_io(self, cause: Seq<char>) -> Self {
        self.at(MountStageView::Finished(Err(NetworkDeviceErrorView::IOError(cause))))
    }

    /// What is to be done next.
    pub open spec fn action(self) -> MountActionView {
        match self.stage {
            MountStageView::Hooks { step, .. } => MountActionView::Hook(step),
            MountStageView::TransitExists => MountActionView::CheckExists(self.transit),
            MountStageView::TransitCreate => MountActionView::CreateDir(self.transit),
            MountStageView::ReadMounts => MountActionView::ReadMounts(self.transit),
            MountStageView::Network(wait) => MountActionView::Network(wait.action()),
            MountStageView::NfsMount => MountActionView::Mount(self.nfs_call()),
            MountStageView::SourceExists { source } => MountActionView::CheckExists(source),
            MountStageView::SourceCreate { source } => MountActionView::CreateDir(source),
            MountStageView::TargetExists { .. } => MountActionView::CheckExists(
                clear_path(self.transit),
            ),
            MountStageView::TargetCreate { .. } => MountActionView::CreateDir(
                clear_path(self.transit),
            ),
            MountStageView::Ecryptfs(mount) => MountActionView::Ecryptfs(mount.action()),
            MountStageView::HookConfig => MountActionView::Hook(
                hooks::hook_config_step(clear_path(self.transit), self.mount_point),
            ),
            MountStageView::Finished(_) => MountActionView::Done,
        }
    }

    /// After a reply. One that does not answer what was asked changes nothing.
    pub open spec fn after(self, reply: MountReplyView) -> Self {
        match (self.stage, reply) {
            (MountStageView::Hooks { rest, .. }, MountReplyView::Outcome(outcome)) => if outcome is Ok
                && rest.len() > 0 {
                self.at(MountStageView::Hooks { step: rest[0], rest: rest.drop_first() })
            } else {
                self.at(MountStageView::TransitExists)
            },
            (MountStageView::TransitExists, MountReplyView::Exists(exists)) => if exists {
                self.at(MountStageView::ReadMounts)
            } else {
                self.at(MountStageView::TransitCreate)
            },
            (MountStageView::TransitCreate, MountReplyView::Outcome(outcome)) => match outcome {
                Ok(()) => self.at(MountStageView::ReadMounts),
                Err(cause) => self.failed_io(cause),
            },
            (
                MountStageView::ReadMounts,
                MountReplyView::Mounts { mounts, canonical_path },
            ) => match mounts {
                Ok(mounts) => if mounts::lists_mount_point(
                    mounts,
                    match canonical_path {
                        Some(path) => path,
                        None => self.transit,
                    },
                ) {
                    self.after_nfs()
                } else {
                    self.at(MountStageView::Network(NetworkWaitView::start()))
                },
                Err(cause) => self.failed_io(cause),
            },
            (MountStageView::Network(wait), MountReplyView::Network(reply)) => match wait.after(
                reply,
            ).result() {
                None => self.at(MountStageView::Network(wait.after(reply))),
                Some(Ok(())) => self.at(MountStageView::NfsMount),
                Some(Err(e)) => self.at(MountStageView::Finished(Err(e))),
            },
            (MountStageView::NfsMount, MountReplyView::Outcome(outcome)) => match outcome {
                Ok(()) => self.after_nfs(),
                Err(source) => self.at(
                    MountStageView::Finished(
                        Err(
                            NetworkDeviceErrorView::MountError {
                                ip_addr: nfs_source(self.params),
                                mount_point: self.transit,
                                source,
                            },
                        ),
                    ),
                ),
            },
            (MountStageView::SourceExists { source }, MountReplyView::Exists(exists)) => if exists {
                self.at(MountStageView::TargetExists { source })
            } else {
                self.at(MountStageView::SourceCreate { source })
            },
            (
                MountStageView::SourceCreate { source },
                MountReplyView::Outcome(outcome),
            ) => match outcome {
                Ok(()) => self.at(MountStageView::TargetExists { source }),
                Err(cause) => self.failed_io(cause),
            },
            (MountStageView::TargetExists { source }, MountReplyView::Exists(exists)) => if exists {
                self.begin_ecryptfs(source)
            } else {
                self.at(MountStageView::TargetCreate { source })
            },
            (
                MountStageView::TargetCreate { source },
                MountReplyView::Outcome(outcome),
            ) => match outcome {
                Ok(()) => self.begin_ecryptfs(source),
                Err(cause) => self.failed_io(cause),
            },
            (
                MountStageView::Ecryptfs(mount),
                MountReplyView::Ecryptfs(reply),
            ) => match mount.after(reply).stage {
                EcryptfsStageView::Finished(Ok(_)) => self.at(MountStageView::HookConfig),
                EcryptfsStageView::Finished(Err(source)) => self.at(
                    MountStageView::Finished(Err(NetworkDeviceErrorView::EcryptfsError { source })),
                ),
                _ => self.at(MountStageView::Ecryptfs(mount.after(reply))),
            },
            (MountStageView::HookConfig, MountReplyView::Outcome(_)) => self.at(
                MountStageView::Finished(Ok(())),
            ),
            _ => self,
        }
    }

    /// What the mount came to, once it is over.
    pub open spec fn result(self) -> Option<Result<(), NetworkDeviceErrorView>> {
        match self.stage {
            MountStageView::Finished(result) => Some(result),
            _ => None,
        }
    }
}

impl NetworkDeviceView {
    /// The device after a reply to `run`. The transit mount point and the mount point of
    /// the clear files are to be removed later, if it was this mount that created them,
    /// and to be unmounted before, if it was this mount that mounted something there.
    pub open spec fn after(self, run: MountRunView, reply: MountReplyView) -> Self {
        match (run.stage, reply) {
            (
                MountStageView::TransitCreate,
                MountReplyView::Outcome(Ok(())),
            ) => self.with_temp_path(run.transit),
            (
                MountStageView::TargetCreate { .. },
                MountReplyView::Outcome(Ok(())),
            ) => self.with_temp_path(clear_path(run.transit)),
            (
                MountStageView::NfsMount,
                MountReplyView::Outcome(Ok(())),
            ) => self.with_mount_point(run.transit),
            (
                MountStageView::Ecryptfs(layer),
                MountReplyView::Ecryptfs(answer),
            ) => match layer.after(answer).stage {
                EcryptfsStageView::Finished(Ok(_)) => self.with_mount_point(
                    clear_path(run.transit),
                ),
                _ => self,
            },
            _ => self,
        }
    }
}

impl NetworkDevice {
    /// Starts to mount the device for a container that expects the files at
    /// `mount_point`.
    pub fn real_mount(params: NetworkDeviceParameters, mount_point: &str) -> (r: MountRun)
        ensures
            r@ == MountRunView::start(params, r.transit@, mount_point@, r.order),
            auth_tok::is_native(r.order),
            match params.transit_mount_point {
                Some(path) => r.transit@ == path@,
                None => exists|uuid: Seq<char>|
                    #[trigger] device::is_random_uuid(uuid) && r.transit@ == device::transit_path(
                        uuid,
                    ),
            },
    {
        let transit = choose_transit_mount_point(&params.transit_mount_point);
        MountRun::start(params, transit, mount_point, native_byte_order())
    }

    /// Takes in the reply to what `run` asked for. Another reply changes nothing.
    pub fn advance(&mut self, run: MountRun, reply: MountReply) -> (r: MountRun)
        ensures
            r@ == run@.after(reply@),
            final(self)@ == old(self)@.after(run@, reply@),
    {
        let created = match (&run.stage, &reply) {
            (MountStage::TransitCreate, MountReply::Outcome(Ok(()))) => Some(run.transit.clone()),
            (MountStage::TargetCreate { .. }, MountReply::Outcome(Ok(()))) => Some(
                run.clear_path(),
            ),
            _ => None,
        };
        let mounted = match (&run.stage, &reply) {
            (MountStage::NfsMount, MountReply::Outcome(Ok(()))) => Some(run.transit.clone()),
            _ => None,
        };
        let layer_under_way = match (&run.stage, &reply) {
            (MountStage::Ecryptfs(_), MountReply::Ecryptfs(_)) => Some(run.clear_path()),
            _ => None,
        };
        let next = run.after(reply);
        match created {
            Some(path) => self.record_temp_path(path),
            None => {},
        }
        match mounted {
            Some(path) => self.record_mount_point(path),
            None => {},
        }
        match (layer_under_way, &next.stage) {
            (Some(path), MountStage::HookConfig) => self.record_mount_point(path),
            _ => {},
        }
        next
    }

    fn record_temp_path(&mut self, path: String)
        ensures
            final(self)@ == old(self)@.with_temp_path(path@),
    {
        self.temp_paths.push(path);
        assert(self@ =~= old(self)@.with_temp_path(path@));
    }

    fn record_mount_point(&mut self, path: String)
        ensures
            final(self)@ == old(self)@.with_mount_point(path@),
    {
        self.mount_points.push(path);
        assert(self@ =~= old(self)@.with_mount_point(path@));
    }
}

impl MountRun {
    /// Starts a mount by way of the given transit mount point, with key tokens in the
    /// given byte order.
    pub fn start(
        params: NetworkDeviceParameters,
        transit: String,
        mount_point: &str,
        order: ByteOrder,
    ) -> (r: MountRun)
        ensures
            r@ == MountRunView::start(params, transit@, mount_point@, order),
            r.transit == transit,
            r.order == order,
    {
        let stage = if params.encryption_type.is_some() {
            let mut rest = create_guest_hooks();
            let ghost steps = hooks::steps_view(rest@);
            assert(steps == hooks::hook_steps());
            let step = rest.remove(0);
            assert(hooks::steps_view(rest@) =~= steps.drop_first());
            assert(step@ == steps[0]);
            MountStage::Hooks { step, rest }
        } else {
            MountStage::TransitExists
        };
        MountRun { params, transit, mount_point: mount_point.to_owned(), order, stage }
    }

    /// The server and its path, as NFS names them.
    fn nfs_source(&self) -> (r: String)
        ensures
            r@ == nfs_source(self.params),
    {
        self.params.ip_addr.clone().concat(":").concat(self.params.source_path.as_str())
    }

    /// The mount point of the clear files.
    fn clear_path(&self) -> (r: String)
        ensures
            r@ == clear_path(self.transit@),
    {
        trimmed_end(self.transit.as_str(), CharSet::Only('/')).to_owned().concat("_ecryptfs")
    }

    /// The system call of the NFSv4 mount.
    fn nfs_call(&self) -> (r: MountCall)
        ensures
            r@ == self@.nfs_call(),
    {
        let user_options = match &self.params.mount_options {
            Some(given) => Some(given.as_str()),
            None => None,
        };
        MountCall {
            source: self.nfs_source(),
            target: self.transit.clone(),
            fs_type: NFS4_FS_NAME.to_owned(),
            no_atime: false,
            options: ensure_nfs4_mount_options(self.params.ip_addr.as_str(), user_options),
        }
    }

    /// What is to be done next.
    pub fn action(&self) -> (r: MountAction)
        ensures
            r@ == self@.action(),
    {
        match &self.stage {
            MountStage::Hooks { step, .. } => MountAction::Hook(step.clone()),
            MountStage::TransitExists => MountAction::CheckExists(self.transit.clone()),
            MountStage::TransitCreate => MountAction::CreateDir(self.transit.clone()),
            MountStage::ReadMounts => MountAction::ReadMounts(self.transit.clone()),
            MountStage::Network(wait) => MountAction::Network(wait.action()),
            MountStage::NfsMount => MountAction::Mount(self.nfs_call()),
            MountStage::SourceExists { source } => MountAction::CheckExists(source.clone()),
            MountStage::SourceCreate { source } => MountAction::CreateDir(source.clone()),
            MountStage::TargetExists { .. } => MountAction::CheckExists(self.clear_path()),
            MountStage::TargetCreate { .. } => MountAction::CreateDir(self.clear_path()),
            MountStage::Ecryptfs(mount) => MountAction::Ecryptfs(mount.action()),
            MountStage::HookConfig => {
                let source_mount = self.clear_path();
                MountAction::Hook(
                    write_hook_config(source_mount.as_str(), self.mount_point.as_str()),
                )
            },
            MountStage::Finished(_) => MountAction::Done,
        }
    }

    /// The stage once the server's path is mounted.
    fn stage_after_nfs(&self) -> (r: MountStage)
        ensures
            r@ == self@.after_nfs().stage,
    {
        if self.params.encryption_type.is_none() {
            return MountStage::Finished(Ok(()));
        }
        let given = match &self.params.relative_mount_path {
            Some(path) => Some(path.as_str()),
            None => None,
        };
        match resolve_relative_mount_path(self.transit.as_str(), given) {
            Ok(source) => MountStage::SourceExists { source },
            Err(e) => MountStage::Finished(Err(e)),
        }
    }

    /// The stage once both directories of the encrypted layer exist.
    fn stage_begin_ecryptfs(&self, source: String) -> (r: MountStage)
        ensures
            r@ == self@.begin_ecryptfs(source@).stage,
    {
        match &self.params.encryption_type {
            Some(NetworkDeviceEncryptType::Ecryptfs(ecryptfs)) => {
                let target = self.clear_path();
                match EcryptfsMount::start(
                    ecryptfs.clone(),
                    source.as_str(),
                    target.as_str(),
                    self.order,
                ) {
                    Ok(mount) => MountStage::Ecryptfs(mount),
                    Err(e) => MountStage::Finished(
                        Err(NetworkDeviceError::EcryptfsError { source: e }),
                    ),
                }
            },
            None => MountStage::Finished(Ok(())),
        }
    }

    /// Takes in the reply to what was asked. Another reply changes nothing.
    fn after(self, reply: MountReply) -> (r: MountRun)
        ensures
            r@ == self@.after(reply@),
    {
        let MountRun { params, transit, mount_point, order, stage } = self;
        let run = MountRun { params, transit, mount_point, order, stage: MountStage::TransitExists };
        let stage = match (stage, reply) {
            (MountStage::Hooks { step: _, rest }, MountReply::Outcome(outcome)) => {
                let mut rest = rest;
                if outcome.is_ok() && rest.len() > 0 {
                    let ghost before = hooks::steps_view(rest@);
                    let step = rest.remove(0);
                    assert(hooks::steps_view(rest@) =~= before.drop_first());
                    assert(step@ == before[0]);
                    MountStage::Hooks { step, rest }
                } else {
                    MountStage::TransitExists
                }
            },
            (MountStage::TransitExists, MountReply::Exists(exists)) => if exists {
                MountStage::ReadMounts
            } else {
                MountStage::TransitCreate
            },
            (MountStage::TransitCreate, MountReply::Outcome(outcome)) => match outcome {
                Ok(()) => MountStage::ReadMounts,
                Err(cause) => MountStage::Finished(Err(NetworkDeviceError::IOError(cause))),
            },
            (MountStage::ReadMounts, MountReply::Mounts { mounts, canonical_path }) => match mounts {
                Ok(mounts) => {
                    let canonical = match &canonical_path {
                        Some(path) => Some(path.as_str()),
                        None => None,
                    };
                    if is_mounted(mounts.as_str(), canonical, run.transit.as_str()) {
                        run.stage_after_nfs()
                    } else {
                        MountStage::Network(wait_for_system_network_ready())
                    }
                },
                Err(cause) => MountStage::Finished(Err(NetworkDeviceError::IOError(cause))),
            },
            (MountStage::Network(wait), MountReply::Network(reply)) => {
                let wait = wait.after(reply);
                match wait.result() {
                    None => MountStage::Network(wait),
                    Some(Ok(())) => MountStage::NfsMount,
                    Some(Err(e)) => MountStage::Finished(Err(e)),
                }
            },
            (MountStage::NfsMount, MountReply::Outcome(outcome)) => match outcome {
                Ok(()) => run.stage_after_nfs(),
                Err(source) => MountStage::Finished(
                    Err(
                        NetworkDeviceError::MountError {
                            ip_addr: run.nfs_source(),
                            mount_point: run.transit.clone(),
                            source,
                        },
                    ),
                ),
            },
            (MountStage::SourceExists { source }, MountReply::Exists(exists)) => if exists {
                MountStage::TargetExists { source }
            } else {
                MountStage::SourceCreate { source }
            },
            (MountStage::SourceCreate { source }, MountReply::Outcome(outcome)) => match outcome {
                Ok(()) => MountStage::TargetExists { source },
                Err(cause) => MountStage::Finished(Err(NetworkDeviceError::IOError(cause))),
            },
            (MountStage::TargetExists { source }, MountReply::Exists(exists)) => if exists {
                run.stage_begin_ecryptfs(source)
            } else {
                MountStage::TargetCreate { source }
            },
            (MountStage::TargetCreate { source }, MountReply::Outcome(outcome)) => match outcome {
                Ok(()) => run.stage_begin_ecryptfs(source),
                Err(cause) => MountStage::Finished(Err(NetworkDeviceError::IOError(cause))),
            },
            (MountStage::Ecryptfs(mount), MountReply::Ecryptfs(reply)) => {
                let EcryptfsMount { source_path, mount_point, stage } = mount.after(reply);
                match stage {
                    EcryptfsStage::Finished(Ok(_)) => MountStage::HookConfig,
                    EcryptfsStage::Finished(Err(source)) => MountStage::Finished(
                        Err(NetworkDeviceError::EcryptfsError { source }),
                    ),
                    stage => MountStage::Ecryptfs(
                        EcryptfsMount { source_path, mount_point, stage },
                    ),
                }
            },
            (MountStage::HookConfig, MountReply::Outcome(_)) => MountStage::Finished(Ok(())),
            (stage, _) => stage,
        };
        MountRun { stage, ..run }
    }

    /// What the mount came to, once it is over.
    pub fn result(self) -> (r: Option<Result<(), NetworkDeviceError>>)
        ensures
            match r {
                None => self@.result() is None,
                Some(Ok(())) => self@.result() == Some(Ok::<(), NetworkDeviceErrorView>(())),
                Some(Err(e)) => self@.result() == Some(Err::<(), NetworkDeviceErrorView>(e@)),
            },
    {
        match self.stage {
            MountStage::Finished(result) => Some(result),
            _ => None,
        }
    }
}

} // verus!
