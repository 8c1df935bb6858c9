//! What the models hold: every part of the value that they stand for, as it is.
use crate::ecryptfs::collect::{
    BuildAction, BuildActionView, BuildReply, BuildReplyView, BuildStage, BuildStageView,
    ParameterBuild,
};
use crate::ecryptfs::error::{EcryptfsError, EcryptfsErrorView};
use crate::ecryptfs::keyring::{KeyReply, KeyringAddition, KeyringRequest};
use crate::ecryptfs::mount::{
    EcryptfsAction, EcryptfsActionView, EcryptfsMount, EcryptfsReply, EcryptfsReplyView,
    EcryptfsStage, EcryptfsStageView,
};
use crate::networkdevice::device::NetworkDevice;
use crate::networkdevice::error::{NetworkDeviceError, NetworkDeviceErrorView};
use crate::networkdevice::hooks;
use crate::networkdevice::hooks::{HookStep, HookStepView};
use crate::networkdevice::mounting::{
    MountAction, MountActionView, MountReply, MountReplyView, MountRun, MountStage, MountStageView,
};
use crate::networkdevice::network::{
    NetworkAction, NetworkActionView, NetworkReply, NetworkReplyView, NetworkStage,
    NetworkStageView, NetworkWait,
};
use crate::networkdevice::umount::{UmountAction, UmountActionView, UmountRun};
use crate::syscall::MountCall;
use crate::text;
use vstd::prelude::*;
use vstd::string::*;

verus! {

/// The text of a list of strings has the text of each of them, in its place.
pub proof fn law_lists_of_text(strings: Seq<String>, slices: Seq<&str>, steps: Seq<HookStep>, i: int)
    ensures
        text::strings(strings).len() == strings.len(),
        0 <= i < strings.len() ==> text::strings(strings)[i] == strings[i]@,
        text::texts(slices).len() == slices.len(),
        0 <= i < slices.len() ==> text::texts(slices)[i] == slices[i]@,
        hooks::steps_view(steps).len() == steps.len(),
        0 <= i < steps.len() ==> hooks::steps_view(steps)[i] == steps[i]@,
{
}

/// The arguments of system calls, and what they came to.
pub proof fn law_models_of_calls(call: MountCall, request: KeyringRequest, reply: KeyReply)
    ensures
        call@.source == call.source@,
        call@.target == call.target@,
        call@.fs_type == call.fs_type@,
        call@.no_atime == call.no_atime,
        call@.options == call.options@,
        request@.key_type == request.key_type@,
        request@.description == request.description@,
        request@.payload == request.payload@,
        request@.keyring == request.keyring,
        reply@.result == reply.result,
        reply@.cause == reply.cause@,
{
}

/// The errors.
pub proof fn law_models_of_errors(e: EcryptfsError, d: NetworkDeviceError)
    ensures
        match e {
            EcryptfsError::MissingPassphrase => e@ is MissingPassphrase,
            EcryptfsError::AddKey(cause) => e@ == EcryptfsErrorView::AddKey(cause@),
            EcryptfsError::CreateMountPoint(cause) => e@ == EcryptfsErrorView::CreateMountPoint(
                cause@,
            ),
            EcryptfsError::Mount { source_path, mount_point, cause } => e@ == (
            EcryptfsErrorView::Mount {
                source_path: source_path@,
                mount_point: mount_point@,
                cause: cause@,
            }),
        },
        match d {
            NetworkDeviceError::EcryptfsError { source } => d@ == (
            NetworkDeviceErrorView::EcryptfsError { source: source@ }),
            NetworkDeviceError::IOError(cause) => d@ == NetworkDeviceErrorView::IOError(cause@),
            NetworkDeviceError::SerdeError(cause) => d@ == NetworkDeviceErrorView::SerdeError(
                cause@,
            ),
            NetworkDeviceError::MountError { ip_addr, mount_point, source } => d@ == (
            NetworkDeviceErrorView::MountError {
                ip_addr: ip_addr@,
                mount_point: mount_point@,
                source: source@,
            }),
            NetworkDeviceError::UmountFailed { mount_point, source } => d@ == (
            NetworkDeviceErrorView::UmountFailed { mount_point: mount_point@, source: source@ }),
            NetworkDeviceError::NetworkUnreachable { addr, attempts } => d@ == (
            NetworkDeviceErrorView::NetworkUnreachable { addr: addr@, attempts: attempts as nat }),
            NetworkDeviceError::InvalidRelativeMountPath { path, reason } => d@ == (
            NetworkDeviceErrorView::InvalidRelativeMountPath { path: path@, reason: reason@ }),
        },
{
}

/// What a collection of options asks for, gets, and holds.
pub proof fn law_models_of_a_collection(
    action: BuildAction,
    reply: BuildReply,
    build: ParameterBuild,
    addition: KeyringAddition,
)
    ensures
        match action {
            BuildAction::FetchPassphrase(uri) => action@ == BuildActionView::FetchPassphrase(uri@),
            BuildAction::AddKey(request) => action@ == BuildActionView::AddKey(request@),
            BuildAction::Done(options) => action@ == BuildActionView::Done(options@),
        },
        match reply {
            BuildReply::Passphrase(Some(bytes)) => reply@ == BuildReplyView::Passphrase(
                Some(bytes@),
            ),
            BuildReply::Passphrase(None) => reply@ == BuildReplyView::Passphrase(None),
            BuildReply::KeyResult(result) => reply@ == BuildReplyView::KeyResult(result@),
        },
        build@.params == build.params,
        build@.order == build.order,
        build@.stage == build.stage@,
        match build.stage {
            BuildStage::FetchFek => build@.stage is FetchFek,
            BuildStage::AddFek { passphrase, addition } => build@.stage == (
            BuildStageView::AddFek { passphrase: passphrase@, addition: addition@ }),
            BuildStage::FetchFnek { sig } => build@.stage == (BuildStageView::FetchFnek {
                sig: match sig {
                    Some(sig) => Some(sig@),
                    None => None,
                },
            }),
            BuildStage::AddFnek { sig, addition } => build@.stage == (BuildStageView::AddFnek {
                sig: match sig {
                    Some(sig) => Some(sig@),
                    None => None,
                },
                addition: addition@,
            }),
            BuildStage::Finished { sig, fnek_sig } => build@.stage == (BuildStageView::Finished {
                sig: match sig {
                    Some(sig) => Some(sig@),
                    None => None,
                },
                fnek_sig: match fnek_sig {
                    Some(sig) => Some(sig@),
                    None => None,
                },
            }),
        },
        addition@.sig == addition.sig@,
        addition@.payload == addition.payload@,
        addition@.stage == addition.stage,
        addition@.cause == addition.cause@,
{
}

/// What a mount of the layer asks for, gets, and holds.
pub proof fn law_models_of_a_layer_mount(
    action: EcryptfsAction,
    reply: EcryptfsReply,
    mount: EcryptfsMount,
)
    ensures
        match action {
            EcryptfsAction::Collect(inner) => action@ == EcryptfsActionView::Collect(inner@),
            EcryptfsAction::CheckExists(path) => action@ == EcryptfsActionView::CheckExists(path@),
            EcryptfsAction::CreateDir(path) => action@ == EcryptfsActionView::CreateDir(path@),
            EcryptfsAction::Mount(call) => action@ == EcryptfsActionView::Mount(call@),
            EcryptfsAction::Done => action@ is Done,
        },
        match reply {
            EcryptfsReply::Collect(inner) => reply@ == EcryptfsReplyView::Collect(inner@),
            EcryptfsReply::Exists(exists) => reply@ == EcryptfsReplyView::Exists(exists),
            EcryptfsReply::Outcome(Ok(())) => reply@ == EcryptfsReplyView::Outcome(Ok(())),
            EcryptfsReply::Outcome(Err(cause)) => reply@ == EcryptfsReplyView::Outcome(Err(cause@)),
        },
        mount@.source_path == mount.source_path@,
        mount@.mount_point == mount.mount_point@,
        mount@.stage == mount.stage@,
        match mount.stage {
            EcryptfsStage::Collecting(build) => mount@.stage == EcryptfsStageView::Collecting(
                build@,
            ),
            EcryptfsStage::CheckMountPoint { options } => mount@.stage == (
            EcryptfsStageView::CheckMountPoint { options: options@ }),
            EcryptfsStage::CreateMountPoint { options } => mount@.stage == (
            EcryptfsStageView::CreateMountPoint { options: options@ }),
            EcryptfsStage::Mounting { options } => mount@.stage == (EcryptfsStageView::Mounting {
                options: options@,
            }),
            EcryptfsStage::Finished(Ok(Some(header))) => mount@.stage
                == EcryptfsStageView::Finished(Ok(Some(header@))),
            EcryptfsStage::Finished(Ok(None)) => mount@.stage == EcryptfsStageView::Finished(
                Ok(None),
            ),
            EcryptfsStage::Finished(Err(e)) => mount@.stage == EcryptfsStageView::Finished(
                Err(e@),
            ),
        },
{
}

/// What a wait for the network asks for, gets, and holds.
pub proof fn law_models_of_a_wait(action: NetworkAction, reply: NetworkReply, wait: NetworkWait)
    ensures
        match action {
            NetworkAction::ListDir(path) => action@ == NetworkActionView::ListDir(path@),
            NetworkAction::ReadFile(path) => action@ == NetworkActionView::ReadFile(path@),
            NetworkAction::Sleep(ms) => action@ == NetworkActionView::Sleep(ms as nat),
            NetworkAction::Done => action@ is Done,
        },
        match reply {
            NetworkReply::Names(Some(names)) => reply@ == NetworkReplyView::Names(
                Some(text::strings(names@)),
            ),
            NetworkReply::Names(None) => reply@ == NetworkReplyView::Names(None),
            NetworkReply::Contents(Some(contents)) => reply@ == NetworkReplyView::Contents(
                Some(contents@),
            ),
            NetworkReply::Contents(None) => reply@ == NetworkReplyView::Contents(None),
            NetworkReply::Slept => reply@ is Slept,
        },
        wait@.attempt == wait.attempt,
        wait@.stage == wait.stage@,
        match wait.stage {
            NetworkStage::Listing => wait@.stage is Listing,
            NetworkStage::Operstate { interface, rest } => wait@.stage == (
            NetworkStageView::Operstate { interface: interface@, rest: text::strings(rest@) }),
            NetworkStage::Routes { interface, rest } => wait@.stage == (NetworkStageView::Routes {
                interface: interface@,
                rest: text::strings(rest@),
            }),
            NetworkStage::Sleeping => wait@.stage is Sleeping,
            NetworkStage::Ready => wait@.stage is Ready,
            NetworkStage::Unreachable => wait@.stage is Unreachable,
        },
{
}

/// What the mount of a device asks for and gets.
pub proof fn law_models_of_a_device_mount(action: MountAction, reply: MountReply, step: HookStep)
    ensures
        match action {
            MountAction::Hook(step) => action@ == MountActionView::Hook(step@),
            MountAction::CheckExists(path) => action@ == MountActionView::CheckExists(path@),
            MountAction::CreateDir(path) => action@ == MountActionView::CreateDir(path@),
            MountAction::ReadMounts(path) => action@ == MountActionView::ReadMounts(path@),
            MountAction::Network(inner) => action@ == MountActionView::Network(inner@),
            MountAction::Mount(call) => action@ == MountActionView::Mount(call@),
            MountAction::Ecryptfs(inner) => action@ == MountActionView::Ecryptfs(inner@),
            MountAction::Done => action@ is Done,
        },
        match reply {
            MountReply::Outcome(Ok(())) => reply@ == MountReplyView::Outcome(Ok(())),
            MountReply::Outcome(Err(cause)) => reply@ == MountReplyView::Outcome(Err(cause@)),
            MountReply::Exists(exists) => reply@ == MountReplyView::Exists(exists),
            MountReply::Mounts { mounts, canonical_path } => reply@ == (MountReplyView::Mounts {
                mounts: match mounts {
                    Ok(list) => Ok(list@),
                    Err(cause) => Err(cause@),
                },
                canonical_path: match canonical_path {
                    Some(path) => Some(path@),
                    None => None,
                },
            }),
            MountReply::Network(inner) => reply@ == MountReplyView::Network(inner@),
            MountReply::Ecryptfs(inner) => reply@ == MountReplyView::Ecryptfs(inner@),
        },
        match step {
            HookStep::CreateDir(path) => step@ == HookStepView::CreateDir(path@),
            HookStep::WriteFile { path, contents } => step@ == (HookStepView::WriteFile {
                path: path@,
                contents: contents@,
            }),
            HookStep::SetMode { path, mode } => step@ == (HookStepView::SetMode {
                path: path@,
                mode,
            }),
        },
{
}

/// What the mount of a device holds.
pub proof fn law_model_of_a_device_mounts_state(run: MountRun)
    ensures
        run@.params == run.params,
        run@.transit == run.transit@,
        run@.mount_point == run.mount_point@,
        run@.order == run.order,
        run@.stage == run.stage@,
        match run.stage {
            MountStage::Hooks { step, rest } => run@.stage == (MountStageView::Hooks {
                step: step@,
                rest: hooks::steps_view(rest@),
            }),
            MountStage::TransitExists => run@.stage is TransitExists,
            MountStage::TransitCreate => run@.stage is TransitCreate,
            MountStage::ReadMounts => run@.stage is ReadMounts,
            MountStage::Network(wait) => run@.stage == MountStageView::Network(wait@),
            MountStage::NfsMount => run@.stage is NfsMount,
            MountStage::SourceExists { source } => run@.stage == (MountStageView::SourceExists {
                source: source@,
            }),
            MountStage::SourceCreate { source } => run@.stage == (MountStageView::SourceCreate {
                source: source@,
            }),
            MountStage::TargetExists { source } => run@.stage == (MountStageView::TargetExists {
                source: source@,
            }),
            MountStage::TargetCreate { source } => run@.stage == (MountStageView::TargetCreate {
                source: source@,
            }),
            MountStage::Ecryptfs(mount) => run@.stage == MountStageView::Ecryptfs(mount@),
            MountStage::HookConfig => run@.stage is HookConfig,
            MountStage::Finished(Ok(())) => run@.stage == MountStageView::Finished(Ok(())),
            MountStage::Finished(Err(e)) => run@.stage == MountStageView::Finished(Err(e@)),
        },
{
}

/// The device, and its unmounting.
pub proof fn law_models_of_a_device(
    device: NetworkDevice,
    action: UmountAction,
    run: UmountRun,
)
    ensures
        device@.temp_paths == text::strings(device.temp_paths@),
        device@.mount_points == text::strings(device.mount_points@),
        match action {
            UmountAction::Umount(path) => action@ == UmountActionView::Umount(path@),
            UmountAction::RemovePath(path) => action@ == UmountActionView::RemovePath(path@),
            UmountAction::Done => action@ is Done,
        },
        run@.mount_points == text::strings(run.mount_points@),
        run@.temp_paths == text::strings(run.temp_paths@),
        run@.failure == match run.failure {
            Some(e) => Some(e@),
            None => None,
        },
{
}

} // verus!
