//! Where the mount of a network device leads.
use crate::ecryptfs::auth_tok::ByteOrder;
use crate::ecryptfs::error::EcryptfsErrorView;
use crate::ecryptfs::key::{ECRYPTFS_DEFAULT_SALT, ECRYPTFS_DEFAULT_SALT_FNEK};
use crate::ecryptfs::mount;
use crate::ecryptfs::mount::{
    EcryptfsMountView, EcryptfsReplyView, EcryptfsStageView, MountWorld,
};
use crate::ecryptfs::params::EcryptfsMountParameters;
use crate::networkdevice::device;
use crate::networkdevice::device::{
    NetworkDeviceEncryptType, NetworkDeviceParameters, NetworkDeviceView,
};
use crate::networkdevice::error::NetworkDeviceErrorView;
use crate::networkdevice::hooks::HookStepView;
use crate::networkdevice::mounting;
use crate::networkdevice::mounting::{MountReplyView, MountRunView, MountStageView};
use crate::networkdevice::mounts;
use crate::networkdevice::network;
use crate::networkdevice::network::{
    NetworkReplyView, NetworkWaitView, NetworkWorld, MAX_RETRIES,
};
use crate::syscall::MountCallView;
use crate::text;
use crate::text::CharSet;
use vstd::prelude::*;

verus! {

impl MountRunView {
    /// The stage fits the parameters: there are hooks and an encrypted layer only where
    /// encryption was asked for, and the encrypted files lie where the relative path
    /// says.
    pub open spec fn is_consistent(self) -> bool {
        match self.stage {
            MountStageView::Hooks { .. } => self.params.encryption_type is Some,
            MountStageView::Network(wait) => wait.is_consistent() && !wait.is_finished(),
            MountStageView::SourceExists { source } => self.is_encrypted_at(source),
            MountStageView::SourceCreate { source } => self.is_encrypted_at(source),
            MountStageView::TargetExists { source } => self.is_encrypted_at(source),
            MountStageView::TargetCreate { source } => self.is_encrypted_at(source),
            MountStageView::Ecryptfs(mount) => {
                &&& mount.is_consistent()
                &&& !mount.is_finished()
                &&& self.is_encrypted_at(mount.source_path)
                &&& mount.mount_point == mounting::clear_path(self.transit)
            },
            MountStageView::HookConfig => self.params.encryption_type is Some,
            _ => true,
        }
    }

    /// Encryption was asked for, and the encrypted files lie here.
    pub open spec fn is_encrypted_at(self, source: Seq<char>) -> bool {
        &&& self.params.encryption_type is Some
        &&& self.source() == Ok::<Seq<char>, NetworkDeviceErrorView>(source)
    }

    /// The mount is done or has failed.
    pub open spec fn is_finished(self) -> bool {
        self.stage is Finished
    }

    /// The reply answers what was asked.
    pub open spec fn is_answered_by(self, reply: MountReplyView) -> bool {
        match self.stage {
            MountStageView::TransitExists => reply is Exists,
            MountStageView::SourceExists { .. } => reply is Exists,
            MountStageView::TargetExists { .. } => reply is Exists,
            MountStageView::ReadMounts => reply is Mounts,
            MountStageView::Network(wait) => {
                reply matches MountReplyView::Network(reply) && wait.is_answered_by(reply)
            },
            MountStageView::Ecryptfs(mount) => {
                reply matches MountReplyView::Ecryptfs(reply) && mount.is_answered_by(reply)
            },
            MountStageView::Finished(_) => false,
            _ => reply is Outcome,
        }
    }

    /// How many stages are left at most.
    pub open spec fn stages_left(self) -> nat {
        match self.stage {
            MountStageView::Hooks { .. } => 12,
            MountStageView::TransitExists => 11,
            MountStageView::TransitCreate => 10,
            MountStageView::ReadMounts => 9,
            MountStageView::Network(_) => 8,
            MountStageView::NfsMount => 7,
            MountStageView::SourceExists { .. } => 6,
            MountStageView::SourceCreate { .. } => 5,
            MountStageView::TargetExists { .. } => 4,
            MountStageView::TargetCreate { .. } => 3,
            MountStageView::Ecryptfs(_) => 2,
            MountStageView::HookConfig => 1,
            MountStageView::Finished(_) => 0,
        }
    }

    /// How much of the stage is left: steps for the hooks, replies for the encrypted
    /// layer, looks for the network.
    pub open spec fn stage_left(self) -> int {
        match self.stage {
            MountStageView::Hooks { rest, .. } => rest.len() as int,
            MountStageView::Network(wait) => MAX_RETRIES - wait.attempt,
            MountStageView::Ecryptfs(mount) => mount.replies_left() as int,
            _ => 0,
        }
    }

    /// Whether a look for the network has yet to list the interfaces.
    pub open spec fn lists_left(self) -> nat {
        match self.stage {
            MountStageView::Network(wait) => if wait.stage is Listing {
                1
            } else {
                0
            },
            _ => 0,
        }
    }

    /// How much of a look for the network is left.
    pub open spec fn look_left(self) -> nat {
        match self.stage {
            MountStageView::Network(wait) => wait.distance(),
            _ => 0,
        }
    }
}

/// Every mount starts out consistent and stays so.
pub proof fn law_device_mount_stays_consistent(
    params: NetworkDeviceParameters,
    transit: Seq<char>,
    mount_point: Seq<char>,
    order: ByteOrder,
    run: MountRunView,
    reply: MountReplyView,
)
    requires
        run.is_consistent(),
    ensures
        MountRunView::start(params, transit, mount_point, order).is_consistent(),
        run.after(reply).is_consistent(),
{
    match (run.stage, reply) {
        (MountStageView::Network(wait), MountReplyView::Network(reply)) => {
            network::law_wait_stays_consistent(wait, reply);
        },
        (MountStageView::ReadMounts, _) => {
            network::law_wait_stays_consistent(NetworkWaitView::start(), NetworkReplyView::Slept);
        },
        (MountStageView::TargetExists { source }, _) => {
            lemma_layer_starts(run, source);
        },
        (MountStageView::TargetCreate { source }, _) => {
            lemma_layer_starts(run, source);
        },
        (MountStageView::Ecryptfs(mount), MountReplyView::Ecryptfs(reply)) => {
            lemma_layer_goes_on(mount, reply);
        },
        _ => {},
    }
}

proof fn lemma_layer_starts(run: MountRunView, source: Seq<char>)
    requires
        run.is_encrypted_at(source),
    ensures
        run.begin_ecryptfs(source).is_consistent(),
{
    if let Some(NetworkDeviceEncryptType::Ecryptfs(ecryptfs)) = run.params.encryption_type {
        let layer = EcryptfsMountView::start(
            ecryptfs,
            source,
            mounting::clear_path(run.transit),
            run.order,
        );
        mount::law_ecryptfs_mount_ends(
            ecryptfs,
            source,
            mounting::clear_path(run.transit),
            run.order,
            layer.at(EcryptfsStageView::Finished(Ok(None))),
            EcryptfsReplyView::Exists(true),
        );
    }
}

proof fn lemma_layer_goes_on(layer: EcryptfsMountView, reply: EcryptfsReplyView)
    requires
        layer.is_consistent(),
    ensures
        layer.after(reply).is_consistent(),
        layer.after(reply).source_path == layer.source_path,
        layer.after(reply).mount_point == layer.mount_point,
        layer.is_answered_by(reply) ==> layer.after(reply).replies_left() < layer.replies_left(),
{
    let params = arbitrary::<EcryptfsMountParameters>();
    mount::law_ecryptfs_mount_ends(
        params,
        layer.source_path,
        layer.mount_point,
        ByteOrder::Little,
        layer,
        reply,
    );
}

/// Every reply to what was asked brings a mount closer to its end: to a later stage, or
/// further within its stage.
pub proof fn law_device_mount_ends(run: MountRunView, reply: MountReplyView)
    requires
        run.is_consistent(),
        run.is_answered_by(reply),
    ensures
        decreases_to!(
            run.stages_left(), run.stage_left(), run.lists_left(), run.look_left() =>
            run.after(reply).stages_left(),
            run.after(reply).stage_left(),
            run.after(reply).lists_left(),
            run.after(reply).look_left()
        ),
{
    match (run.stage, reply) {
        (MountStageView::Network(wait), MountReplyView::Network(reply)) => {
            network::law_wait_ends(wait, reply);
            network::law_wait_stays_consistent(wait, reply);
        },
        (MountStageView::Ecryptfs(mount), MountReplyView::Ecryptfs(reply)) => {
            lemma_layer_goes_on(mount, reply);
        },
        _ => {},
    }
}

/// A directory is recorded for removal exactly when the mount was just told that it
/// created the directory it asked for: the transit mount point or that of the clear
/// files. A mount point is recorded for unmounting exactly when the mount was just told
/// that it mounted the server's path, or has just mounted the encrypted layer.
pub proof fn law_created_paths_are_recorded(
    device: NetworkDeviceView,
    run: MountRunView,
    reply: MountReplyView,
)
    ensures
        device.after(run, reply).temp_paths == if (run.stage is TransitCreate
            || run.stage is TargetCreate) && (reply matches MountReplyView::Outcome(outcome)
            && outcome is Ok) {
            device.temp_paths.push(run.action()->CreateDir_0)
        } else {
            device.temp_paths
        },
        device.after(run, reply).mount_points == if run.stage is NfsMount && (reply matches
            MountReplyView::Outcome(outcome) && outcome is Ok) {
            device.mount_points.push(run.nfs_call().target)
        } else if run.stage is Ecryptfs && run.after(reply).stage is HookConfig {
            device.mount_points.push(mounting::clear_path(run.transit))
        } else {
            device.mount_points
        },
{
}

/// The server's path is mounted only right after the wait for the network succeeded,
/// and the network is waited for only if nothing is mounted at the transit mount point.
pub proof fn law_nfs_mount_needs_the_network(run: MountRunView, reply: MountReplyView)
    requires
        run.is_consistent(),
    ensures
        run.after(reply).stage is NfsMount && !(run.stage is NfsMount) ==> (run.stage matches
            MountStageView::Network(wait) && (reply matches MountReplyView::Network(answer)
            && wait.after(answer).stage is Ready)),
        run.after(reply).stage is Network && !(run.stage is Network) ==> run.stage is ReadMounts && (
        reply matches MountReplyView::Mounts { mounts: Ok(mounts), canonical_path }
            && !mounts::lists_mount_point(
            mounts,
            match canonical_path {
                Some(path) => path,
                None => run.transit,
            },
        )),
{
}

/// The hooks are configured only right after the encrypted layer was mounted.
pub proof fn law_hooks_are_configured_last(run: MountRunView, reply: MountReplyView)
    requires
        run.is_consistent(),
    ensures
        run.after(reply).stage is HookConfig && !(run.stage is HookConfig) ==> (run.stage matches
            MountStageView::Ecryptfs(layer) && (reply matches MountReplyView::Ecryptfs(answer) && (
        layer.after(answer).stage matches EcryptfsStageView::Finished(result) && result is Ok))),
{
}

/// The mount point of the clear files lies beside the transit mount point: in the same
/// directory, under its name with `_ecryptfs` at the end.
pub proof fn law_clear_path_is_beside_the_transit(transit: Seq<char>)
    ensures
        ({
            let pieces = text::split(text::trim_end(transit, CharSet::Only('/')), '/');
            text::split(mounting::clear_path(transit), '/') == pieces.drop_last().push(
                pieces.last() + "_ecryptfs"@,
            )
        }),
{
    reveal_strlit("_ecryptfs");
    text::lemma_split_longer(
        text::trim_end(transit, CharSet::Only('/')),
        '/',
        "_ecryptfs"@,
    );
}

/// Beside a fresh transit mount point `/tmp/<uuid>/nfs`, the mount point of the clear
/// files is `/tmp/<uuid>/nfs_ecryptfs`.
pub proof fn law_clear_path_of_a_fresh_transit(uuid: Seq<char>)
    ensures
        mounting::clear_path(device::transit_path(uuid)) == "/tmp/"@ + uuid + "/nfs_ecryptfs"@,
{
    reveal_strlit("/nfs");
    reveal_strlit("_ecryptfs");
    reveal_strlit("/nfs_ecryptfs");
    let transit = device::transit_path(uuid);
    assert(transit.last() == 's');
    assert(text::trim_end(transit, CharSet::Only('/')) == transit);
    assert(mounting::clear_path(transit) =~= "/tmp/"@ + uuid + "/nfs_ecryptfs"@);
}

/// A list with the path, or an empty one.
pub open spec fn listed_if(wanted: bool, path: Seq<char>) -> Seq<Seq<char>> {
    if wanted {
        seq![path]
    } else {
        Seq::empty()
    }
}

/// What the actions of a mount come to.
pub struct DeviceWorld {
    /// Steps for the hooks.
    pub hook: spec_fn(HookStepView) -> Result<(), Seq<char>>,
    /// Whether a path exists, asked for the transit mount point.
    pub transit_exists: spec_fn(Seq<char>) -> bool,
    /// Creating a directory, asked for the transit mount point.
    pub transit_create: spec_fn(Seq<char>) -> Result<(), Seq<char>>,
    /// Reading the kernel's list of mounts.
    pub mounts: Result<Seq<char>, Seq<char>>,
    /// The canonical form of a path.
    pub canonical_path: spec_fn(Seq<char>) -> Option<Seq<char>>,
    /// The wait for the network.
    pub network: NetworkWorld,
    /// The system call of the NFSv4 mount.
    pub nfs_mount: spec_fn(MountCallView) -> Result<(), Seq<char>>,
    /// Whether a path exists, asked for the directory with the encrypted files.
    pub source_exists: spec_fn(Seq<char>) -> bool,
    /// Creating a directory, asked for the directory with the encrypted files.
    pub source_create: spec_fn(Seq<char>) -> Result<(), Seq<char>>,
    /// Whether a path exists, asked for the mount point of the clear files.
    pub target_exists: spec_fn(Seq<char>) -> bool,
    /// Creating a directory, asked for the mount point of the clear files.
    pub target_create: spec_fn(Seq<char>) -> Result<(), Seq<char>>,
    /// The mount of the encrypted layer.
    pub layer: MountWorld,
}

impl DeviceWorld {
    /// The reply to what `run` asks for.
    pub open spec fn reply(self, run: MountRunView) -> MountReplyView {
        match run.stage {
            MountStageView::Hooks { .. } => MountReplyView::Outcome(
                (self.hook)(run.action()->Hook_0),
            ),
            MountStageView::TransitExists => MountReplyView::Exists(
                (self.transit_exists)(run.action()->CheckExists_0),
            ),
            MountStageView::TransitCreate => MountReplyView::Outcome(
                (self.transit_create)(run.action()->CreateDir_0),
            ),
            MountStageView::ReadMounts => MountReplyView::Mounts {
                mounts: self.mounts,
                canonical_path: (self.canonical_path)(run.action()->ReadMounts_0),
            },
            MountStageView::Network(wait) => MountReplyView::Network(self.network.reply(wait)),
            MountStageView::NfsMount => MountReplyView::Outcome(
                (self.nfs_mount)(run.action()->Mount_0),
            ),
            MountStageView::SourceExists { .. } => MountReplyView::Exists(
                (self.source_exists)(run.action()->CheckExists_0),
            ),
            MountStageView::SourceCreate { .. } => MountReplyView::Outcome(
                (self.source_create)(run.action()->CreateDir_0),
            ),
            MountStageView::TargetExists { .. } => MountReplyView::Exists(
                (self.target_exists)(run.action()->CheckExists_0),
            ),
            MountStageView::TargetCreate { .. } => MountReplyView::Outcome(
                (self.target_create)(run.action()->CreateDir_0),
            ),
            MountStageView::Ecryptfs(mount) => MountReplyView::Ecryptfs(self.layer.reply(mount)),
            MountStageView::HookConfig => MountReplyView::Outcome(
                (self.hook)(run.action()->Hook_0),
            ),
            MountStageView::Finished(_) => MountReplyView::Exists(false),
        }
    }

    /// Something is mounted at the transit mount point already.
    pub open spec fn is_mounted(self, run: MountRunView) -> bool {
        self.mounts matches Ok(mounts) && mounts::lists_mount_point(
            mounts,
            match (self.canonical_path)(run.transit) {
                Some(path) => path,
                None => run.transit,
            },
        )
    }

    /// What the transit comes to: the directory, unless it exists, and the NFSv4 mount,
    /// unless there is one, once the network is ready.
    pub open spec fn transit_result(self, run: MountRunView) -> Result<
        (),
        NetworkDeviceErrorView,
    > {
        if !(self.transit_exists)(run.transit) && (self.transit_create)(run.transit) is Err {
            Err(NetworkDeviceErrorView::IOError((self.transit_create)(run.transit)->Err_0))
        } else if self.mounts is Err {
            Err(NetworkDeviceErrorView::IOError(self.mounts->Err_0))
        } else if self.is_mounted(run) {
            Ok(())
        } else if !self.network.is_ready_from(1) {
            Err(
                NetworkDeviceErrorView::NetworkUnreachable {
                    addr: "system network"@,
                    attempts: 60,
                },
            )
        } else {
            match (self.nfs_mount)(run.nfs_call()) {
                Ok(()) => Ok(()),
                Err(source) => Err(
                    NetworkDeviceErrorView::MountError {
                        ip_addr: mounting::nfs_source(run.params),
                        mount_point: run.transit,
                        source,
                    },
                ),
            }
        }
    }

    /// What the directories of the encrypted layer come to: where the encrypted files
    /// lie.
    pub open spec fn layer_dirs_result(self, run: MountRunView) -> Result<
        Seq<char>,
        NetworkDeviceErrorView,
    > {
        match run.source() {
            Err(e) => Err(e),
            Ok(source) => if !(self.source_exists)(source) && (self.source_create)(source) is Err {
                Err(NetworkDeviceErrorView::IOError((self.source_create)(source)->Err_0))
            } else if !(self.target_exists)(mounting::clear_path(run.transit)) && (self.target_create)(mounting::clear_path(run.transit)) is Err {
                Err(NetworkDeviceErrorView::IOError((self.target_create)(mounting::clear_path(run.transit))->Err_0))
            } else {
                Ok(source)
            },
        }
    }

    /// What the encrypted layer comes to.
    pub open spec fn layer_result(
        self,
        run: MountRunView,
        ecryptfs: EcryptfsMountParameters,
        source: Seq<char>,
    ) -> Result<(), NetworkDeviceErrorView> {
        if ecryptfs.passphrase is None {
            Err(
                NetworkDeviceErrorView::EcryptfsError {
                    source: EcryptfsErrorView::MissingPassphrase,
                },
            )
        } else {
            let mount = EcryptfsMountView::start(
                ecryptfs,
                source,
                mounting::clear_path(run.transit),
                run.order,
            );
            let collect = self.layer.collect;
            let options = ecryptfs.options(
                collect.sig_for(ecryptfs.fek_uri(), ECRYPTFS_DEFAULT_SALT@, run.order),
                collect.sig_for(ecryptfs.fnek_uri(), ECRYPTFS_DEFAULT_SALT_FNEK@, run.order),
            );
            match self.layer.result(mount, options) {
                Ok(_) => Ok(()),
                Err(source) => Err(NetworkDeviceErrorView::EcryptfsError { source }),
            }
        }
    }

    /// What a mount comes to: first the transit, then the encrypted layer, if there is
    /// to be one. The hooks have no say in it.
    pub open spec fn result(self, run: MountRunView) -> Result<(), NetworkDeviceErrorView> {
        match (self.transit_result(run), run.params.encryption_type) {
            (Err(e), _) => Err(e),
            (Ok(()), None) => Ok(()),
            (
                Ok(()),
                Some(NetworkDeviceEncryptType::Ecryptfs(ecryptfs)),
            ) => match self.layer_dirs_result(run) {
                Err(e) => Err(e),
                Ok(source) => self.layer_result(run, ecryptfs, source),
            },
        }
    }

    /// This mount creates the transit mount point.
    pub open spec fn creates_transit(self, run: MountRunView) -> bool {
        !(self.transit_exists)(run.transit) && (self.transit_create)(run.transit) is Ok
    }

    /// This mount mounts the server's path.
    pub open spec fn mounts_transit(self, run: MountRunView) -> bool {
        self.transit_result(run) is Ok && !self.is_mounted(run)
    }

    /// This mount creates the mount point of the clear files.
    pub open spec fn creates_target(self, run: MountRunView) -> bool {
        self.transit_result(run) is Ok && run.params.encryption_type is Some
            && self.layer_dirs_result(run) is Ok && !(self.target_exists)(mounting::clear_path(run.transit))
    }

    /// This mount mounts the encrypted layer.
    pub open spec fn mounts_layer(self, run: MountRunView) -> bool {
        run.params.encryption_type is Some && self.result(run) is Ok
    }

    /// The device after a mount: with the directories that the mount created for itself,
    /// and with its mount points.
    pub open spec fn device(self, device: NetworkDeviceView, run: MountRunView) -> NetworkDeviceView {
        let target = mounting::clear_path(run.transit);
        NetworkDeviceView {
            temp_paths: device.temp_paths + listed_if(self.creates_transit(run), run.transit)
                + listed_if(self.creates_target(run), target),
            mount_points: device.mount_points + listed_if(self.mounts_transit(run), run.transit)
                + listed_if(self.mounts_layer(run), target),
        }
    }
}

/// The device and the mount at the mount's end.
pub open spec fn run_device_mount(
    device: NetworkDeviceView,
    run: MountRunView,
    world: DeviceWorld,
) -> (NetworkDeviceView, MountRunView)
    decreases run.stages_left(), run.stage_left(), run.lists_left(), run.look_left(),
    when run.is_consistent()
{
    if run.is_finished() {
        (device, run)
    } else {
        proof {
            law_device_mount_ends(run, world.reply(run));
            law_device_mount_stays_consistent(
                run.params,
                run.transit,
                run.mount_point,
                run.order,
                run,
                world.reply(run),
            );
        }
        run_device_mount(
            device.after(run, world.reply(run)),
            run.after(world.reply(run)),
            world,
        )
    }
}

proof fn lemma_step(device: NetworkDeviceView, run: MountRunView, world: DeviceWorld)
    requires
        run.is_consistent(),
        !run.is_finished(),
    ensures
        run.after(world.reply(run)).is_consistent(),
        run.is_answered_by(world.reply(run)),
        run_device_mount(device, run, world) == run_device_mount(
            device.after(run, world.reply(run)),
            run.after(world.reply(run)),
            world,
        ),
{
    law_device_mount_stays_consistent(
        run.params,
        run.transit,
        run.mount_point,
        run.order,
        run,
        world.reply(run),
    );
}

proof fn lemma_run_hooks(device: NetworkDeviceView, run: MountRunView, world: DeviceWorld)
    requires
        run.is_consistent(),
        run.stage is Hooks,
    ensures
        run_device_mount(device, run, world) == run_device_mount(
            device,
            run.at(MountStageView::TransitExists),
            world,
        ),
    decreases run.stage_left(),
{
    lemma_step(device, run, world);
    let next = run.after(world.reply(run));
    if next.stage is Hooks {
        lemma_run_hooks(device, next, world);
        assert(next.at(MountStageView::TransitExists) == run.at(MountStageView::TransitExists));
    }
}

proof fn lemma_run_network(
    device: NetworkDeviceView,
    run: MountRunView,
    wait: NetworkWaitView,
    world: DeviceWorld,
)
    requires
        run.is_consistent(),
        run.stage == MountStageView::Network(wait),
    ensures
        match network::run_wait(wait, world.network).result() {
            Some(Ok(())) => run_device_mount(device, run, world) == run_device_mount(
                device,
                run.at(MountStageView::NfsMount),
                world,
            ),
            Some(Err(e)) => run_device_mount(device, run, world) == (
                device,
                run.at(MountStageView::Finished(Err(e))),
            ),
            None => false,
        },
    decreases run.stage_left(), run.lists_left(), run.look_left(),
{
    lemma_step(device, run, world);
    let reply = world.network.reply(wait);
    let next = run.after(world.reply(run));
    let next_wait = wait.after(reply);
    network::law_wait_stays_consistent(wait, reply);
    network::law_wait_ends(wait, reply);
    assert(network::run_wait(wait, world.network) == network::run_wait(next_wait, world.network));
    if next_wait.is_finished() {
        assert(network::run_wait(next_wait, world.network) == next_wait);
    } else {
        lemma_run_network(device, next, next_wait, world);
        assert(next.at(MountStageView::NfsMount) == run.at(MountStageView::NfsMount));
    }
}

proof fn lemma_run_layer(
    device: NetworkDeviceView,
    run: MountRunView,
    layer: EcryptfsMountView,
    world: DeviceWorld,
    n: nat,
)
    requires
        run.is_consistent(),
        run.stage == MountStageView::Ecryptfs(layer),
        mount::run_mount(layer, world.layer, n).is_finished(),
    ensures
        match mount::run_mount(layer, world.layer, n).stage {
            EcryptfsStageView::Finished(Ok(_)) => run_device_mount(device, run, world) == (
                device.with_mount_point(mounting::clear_path(run.transit)),
                run.at(MountStageView::Finished(Ok(()))),
            ),
            EcryptfsStageView::Finished(Err(source)) => run_device_mount(device, run, world) == (
                device,
                run.at(
                    MountStageView::Finished(Err(NetworkDeviceErrorView::EcryptfsError { source })),
                ),
            ),
            _ => false,
        },
    decreases n,
{
    lemma_step(device, run, world);
    let next = run.after(world.reply(run));
    let next_layer = layer.after(world.layer.reply(layer));
    let m = (n - 1) as nat;
    assert(mount::run_mount(layer, world.layer, n) == mount::run_mount(
        next_layer,
        world.layer,
        m,
    ));
    if next_layer.is_finished() {
        assert(mount::run_mount(next_layer, world.layer, m) == next_layer);
        if !next.is_finished() {
            lemma_step(device.after(run, world.reply(run)), next, world);
        }
    } else {
        lemma_run_layer(device, next, next_layer, world, m);
    }
}

/// The device with the mount point of the clear files, as far as the mount created it
/// and mounted the layer there.
spec fn with_layer(
    device: NetworkDeviceView,
    target: Seq<char>,
    created: bool,
    mounted: bool,
) -> NetworkDeviceView {
    NetworkDeviceView {
        temp_paths: device.temp_paths + listed_if(created, target),
        mount_points: device.mount_points + listed_if(mounted, target),
    }
}

proof fn lemma_run_from_layer_dirs(
    device: NetworkDeviceView,
    run: MountRunView,
    ecryptfs: EcryptfsMountParameters,
    source: Seq<char>,
    world: DeviceWorld,
)
    requires
        run.is_encrypted_at(source),
        run.params.encryption_type == Some(NetworkDeviceEncryptType::Ecryptfs(ecryptfs)),
    ensures
        run_device_mount(device, run.begin_ecryptfs(source), world) == (
            if world.layer_result(run, ecryptfs, source) is Ok {
                device.with_mount_point(mounting::clear_path(run.transit))
            } else {
                device
            },
            run.at(MountStageView::Finished(world.layer_result(run, ecryptfs, source))),
        ),
{
    lemma_layer_starts(run, source);
    if ecryptfs.passphrase is Some {
        let target = mounting::clear_path(run.transit);
        let layer = EcryptfsMountView::start(ecryptfs, source, target, run.order);
        mount::law_ecryptfs_mount_result(ecryptfs, source, target, run.order, world.layer);
        lemma_run_layer(device, run.begin_ecryptfs(source), layer, world, 9);
    }
}

proof fn lemma_run_from_nfs(device: NetworkDeviceView, run: MountRunView, world: DeviceWorld)
    ensures
        run.after_nfs().is_consistent(),
        run_device_mount(device, run.after_nfs(), world) == (match run.params.encryption_type {
            None => (device, run.at(MountStageView::Finished(Ok(())))),
            Some(
                NetworkDeviceEncryptType::Ecryptfs(ecryptfs),
            ) => match world.layer_dirs_result(run) {
                Err(e) => (device, run.at(MountStageView::Finished(Err(e)))),
                Ok(source) => (
                    with_layer(
                        device,
                        mounting::clear_path(run.transit),
                        !(world.target_exists)(mounting::clear_path(run.transit)),
                        world.layer_result(run, ecryptfs, source) is Ok,
                    ),
                    run.at(MountStageView::Finished(world.layer_result(run, ecryptfs, source))),
                ),
            },
        }),
{
    if let (Some(NetworkDeviceEncryptType::Ecryptfs(ecryptfs)), Ok(source)) = (
        run.params.encryption_type,
        run.source(),
    ) {
        let first = run.after_nfs();
        lemma_step(device, first, world);
        let second = first.after(world.reply(first));
        let target = if second.stage is SourceCreate {
            lemma_step(device, second, world);
            second.after(world.reply(second))
        } else {
            second
        };
        if !target.is_finished() {
            assert(target == run.at(MountStageView::TargetExists { source }));
            lemma_step(device, target, world);
            let third = target.after(world.reply(target));
            if (world.target_exists)(mounting::clear_path(run.transit)) {
                assert(third == run.begin_ecryptfs(source));
                lemma_run_from_layer_dirs(device, run, ecryptfs, source, world);
            } else {
                lemma_step(device, third, world);
                if (world.target_create)(mounting::clear_path(run.transit)) is Ok {
                    let created = device.with_temp_path(mounting::clear_path(run.transit));
                    assert(third.after(world.reply(third)) == run.begin_ecryptfs(source));
                    lemma_run_from_layer_dirs(created, run, ecryptfs, source, world);
                }
            }
        }
    }
}

proof fn lemma_run_from_read_mounts(
    device: NetworkDeviceView,
    run: MountRunView,
    world: DeviceWorld,
)
    requires
        run.stage is ReadMounts,
        (world.transit_exists)(run.transit) || (world.transit_create)(run.transit) is Ok,
    ensures
        run_device_mount(device, run, world) == (
            with_layer(
                NetworkDeviceView {
                    mount_points: device.mount_points + listed_if(
                        world.mounts_transit(run),
                        run.transit,
                    ),
                    ..device
                },
                mounting::clear_path(run.transit),
                world.creates_target(run),
                world.mounts_layer(run),
            ),
            run.at(MountStageView::Finished(world.result(run))),
        ),
{
    lemma_step(device, run, world);
    let target = mounting::clear_path(run.transit);
    let expected = with_layer(
        NetworkDeviceView {
            mount_points: device.mount_points + listed_if(world.mounts_transit(run), run.transit),
            ..device
        },
        target,
        world.creates_target(run),
        world.mounts_layer(run),
    );
    if world.mounts is Err {
        assert(expected =~= device);
    } else if world.is_mounted(run) {
        lemma_run_from_nfs(device, run, world);
        assert(run_device_mount(device, run, world).0 =~= expected);
    } else {
        let start = NetworkWaitView::start();
        let waiting = run.at(MountStageView::Network(start));
        network::law_wait_result(world.network);
        lemma_run_network(device, waiting, start, world);
        if world.network.is_ready_from(1) {
            let mounting_nfs = run.at(MountStageView::NfsMount);
            lemma_step(device, mounting_nfs, world);
            if (world.nfs_mount)(run.nfs_call()) is Ok {
                let mounted = device.with_mount_point(run.transit);
                assert(mounting_nfs.after_nfs() == run.after_nfs());
                lemma_run_from_nfs(mounted, run, world);
                assert(run_device_mount(device, run, world).0 =~= expected);
            } else {
                assert(expected =~= device);
            }
        } else {
            assert(expected =~= device);
        }
    }
}

/// What a mount comes to does not depend on how far it has come.
proof fn lemma_world_ignores_stage(run: MountRunView, later: MountRunView, world: DeviceWorld)
    requires
        later == run.at(later.stage),
    ensures
        world.result(later) == world.result(run),
        world.creates_target(later) == world.creates_target(run),
        world.mounts_transit(later) == world.mounts_transit(run),
        world.mounts_layer(later) == world.mounts_layer(run),
{
    assert(later.nfs_call() == run.nfs_call());
    assert(later.source() == run.source());
    assert(world.transit_result(later) == world.transit_result(run));
    assert(world.layer_dirs_result(later) == world.layer_dirs_result(run));
}

/// Where a mount leads, whatever its actions come to. The transit mount point is
/// created unless it exists; the server's path is mounted there, once the network is
/// ready, unless something is mounted already; the encrypted layer, where one was asked
/// for, is mounted over what the relative path resolves to, beside the transit mount
/// point. The first failure ends the mount and is its result, but for the hooks, whose
/// failures do not count. The device records the two directories, if it was this mount
/// that created them, and the two mount points, if it was this mount that mounted
/// something there, the transit mount point first.
#[verifier::rlimit(60)]
#[verifier::spinoff_prover]
pub proof fn law_device_mount_result(
    device: NetworkDeviceView,
    params: NetworkDeviceParameters,
    transit: Seq<char>,
    mount_point: Seq<char>,
    order: ByteOrder,
    world: DeviceWorld,
)
    ensures
        ({
            let start = MountRunView::start(params, transit, mount_point, order);
            run_device_mount(device, start, world) == (
                world.device(device, start),
                start.at(MountStageView::Finished(world.result(start))),
            )
        }),
{
    let start = MountRunView::start(params, transit, mount_point, order);
    let first = start.at(MountStageView::TransitExists);
    if params.encryption_type is Some {
        lemma_run_hooks(device, start, world);
    }
    lemma_step(device, first, world);
    let second = first.after(world.reply(first));
    let reading = start.at(MountStageView::ReadMounts);
    lemma_world_ignores_stage(start, reading, world);
    if (world.transit_exists)(transit) {
        lemma_run_from_read_mounts(device, reading, world);
        assert(run_device_mount(device, reading, world).0 =~= world.device(device, start));
    } else {
        lemma_step(device, second, world);
        if (world.transit_create)(transit) is Ok {
            let created = device.with_temp_path(transit);
            lemma_run_from_read_mounts(created, reading, world);
            assert(run_device_mount(created, reading, world).0 =~= world.device(device, start));
        } else {
            assert(world.device(device, start) =~= device);
        }
    }
}

} // verus!
