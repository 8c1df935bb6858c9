//! Unmounting a network device.
//!
//! [`UmountRun`] decides what to do; its caller does it and hands the outcomes back.
use crate::networkdevice::device::{NetworkDevice, NetworkDeviceView};
use crate::networkdevice::error::{NetworkDeviceError, NetworkDeviceErrorView};
use crate::syscall;
use crate::text;
use vstd::prelude::*;
use vstd::string::*;

verus! {

/// What the caller is to do next.
#[derive(Debug)]
pub enum UmountAction {
    /// Unmount this mount point.
    Umount(String),
    /// Remove what is at this path: an empty directory as a directory, anything else as
    /// a file.
    RemovePath(String),
    /// Nothing.
    Done,
}

/// The contents of an [`UmountAction`].
pub enum UmountActionView {
    /// Unmount this mount point.
    Umount(Seq<char>),
    /// Remove what is at this path.
    RemovePath(Seq<char>),
    /// Nothing.
    Done,
}

impl View for UmountAction {
    type V = UmountActionView;

    open spec fn view(&self) -> UmountActionView {
        match *self {
            UmountAction::Umount(path) => UmountActionView::Umount(path@),
            UmountAction::RemovePath(path) => UmountActionView::RemovePath(path@),
            UmountAction::Done => UmountActionView::Done,
        }
    }
}

/// The unmounting of a device under way.
pub struct UmountRun {
    /// The mount points that are left.
    pub mount_points: Vec<String>,
    /// The paths that are left.
    pub temp_paths: Vec<String>,
    /// The failure that ended it.
    pub failure: Option<NetworkDeviceError>,
}

/// The contents of an [`UmountRun`].
#[verifier::ext_equal]
pub struct UmountRunView {
    /// The mount points that are left.
    pub mount_points: Seq<Seq<char>>,
    /// The paths that are left.
    pub temp_paths: Seq<Seq<char>>,
    /// The failure that ended it.
    pub failure: Option<NetworkDeviceErrorView>,
}

impl View for UmountRun {
    type V = UmountRunView;

    open spec fn view(&self) -> UmountRunView {
        UmountRunView {
            mount_points: text::strings(self.mount_points@),
            temp_paths: text::strings(self.temp_paths@),
            failure: match self.failure {
                Some(e) => Some(e@),
                None => None,
            },
        }
    }
}

impl UmountRunView {
    /// Before anything is done.
    pub open spec fn start(device: NetworkDeviceView) -> Self {
        UmountRunView {
            mount_points: device.mount_points,
            temp_paths: device.temp_paths,
            failure: None,
        }
    }

    /// What is to be done next: first all mount points, then all paths, as long as
    /// nothing fails.
    pub open spec fn action(self) -> UmountActionView {
        if self.failure is Some {
            UmountActionView::Done
        } else if self.mount_points.len() > 0 {
            UmountActionView::Umount(self.mount_points[0])
        } else if self.temp_paths.len() > 0 {
            UmountActionView::RemovePath(self.temp_paths[0])
        } else {
            UmountActionView::Done
        }
    }

    /// After the outcome of what was asked.
    pub open spec fn after(self, outcome: Result<(), Seq<char>>) -> Self {
        match (self.action(), outcome) {
            (UmountActionView::Umount(_), Ok(())) => UmountRunView {
                mount_points: self.mount_points.drop_first(),
                ..self
            },
            (UmountActionView::Umount(mount_point), Err(source)) => UmountRunView {
                failure: Some(NetworkDeviceErrorView::UmountFailed { mount_point, source }),
                ..self
            },
            (UmountActionView::RemovePath(_), Ok(())) => UmountRunView {
                temp_paths: self.temp_paths.drop_first(),
                ..self
            },
            (UmountActionView::RemovePath(_), Err(cause)) => UmountRunView {
                failure: Some(NetworkDeviceErrorView::IOError(cause)),
                ..self
            },
            (UmountActionView::Done, _) => self,
        }
    }

    /// What the unmounting came to, once it is over.
    pub open spec fn result(self) -> Option<Result<(), NetworkDeviceErrorView>> {
        match self.failure {
            Some(e) => Some(Err(e)),
            None => if self.mount_points.len() == 0 && self.temp_paths.len() == 0 {
                Some(Ok(()))
            } else {
                None
            },
        }
    }
}

/// Copies a list of strings.
fn copied(list: &Vec<String>) -> (r: Vec<String>)
    ensures
        text::strings(r@) == text::strings(list@),
{
    let mut out: Vec<String> = Vec::new();
    let n: usize = list.len();
    let mut i: usize = 0;
    while i < n
        invariant
            i <= n,
            n == list@.len(),
            out@.len() == i,
            forall|k: int| 0 <= k < i ==> #[trigger] out@[k] == list@[k],
        decreases n - i,
    {
        out.push(list[i].clone());
        i = i + 1;
    }
    assert(text::strings(out@) =~= text::strings(list@));
    out
}

impl NetworkDevice {
    /// Starts to unmount the device. The device itself keeps what it holds.
    pub fn umount(&self) -> (r: UmountRun)
        ensures
            r@ == UmountRunView::start(self@),
    {
        UmountRun {
            mount_points: copied(&self.mount_points),
            temp_paths: copied(&self.temp_paths),
            failure: None,
        }
    }
}

impl UmountRun {
    /// What is to be done next.
    pub fn action(&self) -> (r: UmountAction)
        ensures
            r@ == self@.action(),
    {
        if self.failure.is_some() {
            UmountAction::Done
        } else if self.mount_points.len() > 0 {
            UmountAction::Umount(self.mount_points[0].clone())
        } else if self.temp_paths.len() > 0 {
            UmountAction::RemovePath(self.temp_paths[0].clone())
        } else {
            UmountAction::Done
        }
    }

    /// Takes in the outcome of what was asked.
    pub fn after(self, outcome: Result<(), String>) -> (r: UmountRun)
        ensures
            r@ == self@.after(syscall::outcome_view(outcome)),
    {
        let UmountRun { mut mount_points, mut temp_paths, failure } = self;
        if failure.is_some() {
            return UmountRun { mount_points, temp_paths, failure };
        }
        if mount_points.len() > 0 {
            match outcome {
                Ok(()) => {
                    let _done = mount_points.remove(0);
                    let r = UmountRun { mount_points, temp_paths, failure: None };
                    assert(r@ =~= self@.after(Ok(())));
                    r
                },
                Err(source) => {
                    let mount_point = mount_points[0].clone();
                    UmountRun {
                        mount_points,
                        temp_paths,
                        failure: Some(NetworkDeviceError::UmountFailed { mount_point, source }),
                    }
                },
            }
        } else if temp_paths.len() > 0 {
            match outcome {
                Ok(()) => {
                    let _done = temp_paths.remove(0);
                    let r = UmountRun { mount_points, temp_paths, failure: None };
                    assert(r@ =~= self@.after(Ok(())));
                    r
                },
                Err(cause) => UmountRun {
                    mount_points,
                    temp_paths,
                    failure: Some(NetworkDeviceError::IOError(cause)),
                },
            }
        } else {
            UmountRun { mount_points, temp_paths, failure: None }
        }
    }

    /// What the unmounting came to, once it is over.
    pub fn result(self) -> (r: Option<Result<(), NetworkDeviceError>>)
        ensures
            match r {
                None => self@.result() is None,
                Some(Ok(())) => self@.result() == Some(Ok::<(), NetworkDeviceErrorView>(())),
                Some(Err(e)) => self@.result() == Some(Err::<(), NetworkDeviceErrorView>(e@)),
            },
    {
        let over = self.mount_points.len() == 0 && self.temp_paths.len() == 0;
        match self.failure {
            Some(e) => Some(Err(e)),
            None => if over {
                Some(Ok(()))
            } else {
                None
            },
        }
    }
}

/// What unmounting and removing come to.
pub struct UmountWorld {
    /// Unmounting a mount point.
    pub umount: spec_fn(Seq<char>) -> Result<(), Seq<char>>,
    /// Removing what is at a path.
    pub remove: spec_fn(Seq<char>) -> Result<(), Seq<char>>,
}

impl UmountWorld {
    /// The outcome of what `run` asks for.
    pub open spec fn outcome(self, run: UmountRunView) -> Result<(), Seq<char>> {
        match run.action() {
            UmountActionView::Umount(path) => (self.umount)(path),
            UmountActionView::RemovePath(path) => (self.remove)(path),
            UmountActionView::Done => Ok(()),
        }
    }

    /// The first `n` mount points can be unmounted.
    pub open spec fn can_unmount(self, mount_points: Seq<Seq<char>>, n: int) -> bool {
        forall|i: int| 0 <= i < n ==> (self.umount)(#[trigger] mount_points[i]) is Ok
    }

    /// The first `n` paths can be removed.
    pub open spec fn can_remove(self, temp_paths: Seq<Seq<char>>, n: int) -> bool {
        forall|i: int| 0 <= i < n ==> (self.remove)(#[trigger] temp_paths[i]) is Ok
    }
}

/// The unmounting at its end.
pub open spec fn run_umount(run: UmountRunView, world: UmountWorld) -> UmountRunView
    decreases
            run.mount_points.len() + run.temp_paths.len() + if run.failure is None {
                1nat
            } else {
                0nat
            },
{
    if run.action() is Done {
        run
    } else {
        run_umount(run.after(world.outcome(run)), world)
    }
}

/// No path is removed before every mount point is unmounted.
pub proof fn law_paths_are_removed_last(run: UmountRunView)
    ensures
        run.action() is RemovePath ==> run.mount_points.len() == 0 && run.failure is None,
        run.action() is Done <==> run.result() is Some,
{
}

/// An unmounting that failed comes to its failure; one with nothing left, and no failure,
/// has succeeded; any other one is not over. What a failure is about stays in the list.
pub proof fn law_umount_result(run: UmountRunView, cause: Seq<char>)
    ensures
        run.result() == match run.failure {
            Some(e) => Some(Err::<(), NetworkDeviceErrorView>(e)),
            None => if run.mount_points.len() == 0 && run.temp_paths.len() == 0 {
                Some(Ok::<(), NetworkDeviceErrorView>(()))
            } else {
                None
            },
        },
        run.failure is Some ==> run.after(Ok(())) == run && run.after(Err(cause)) == run,
        run.after(Err(cause)).mount_points == run.mount_points,
        run.after(Err(cause)).temp_paths == run.temp_paths,
{
}

/// Where every operation succeeds, everything is unmounted and removed.
pub proof fn law_umount_succeeds(device: NetworkDeviceView, world: UmountWorld)
    requires
        world.can_unmount(device.mount_points, device.mount_points.len() as int),
        world.can_remove(device.temp_paths, device.temp_paths.len() as int),
    ensures
        run_umount(UmountRunView::start(device), world).result() == Some(
            Ok::<(), NetworkDeviceErrorView>(()),
        ),
    decreases device.mount_points.len() + device.temp_paths.len(),
{
    let run = UmountRunView::start(device);
    if !(run.action() is Done) {
        let next = run.after(world.outcome(run));
        let rest = NetworkDeviceView {
            mount_points: next.mount_points,
            temp_paths: next.temp_paths,
        };
        if device.mount_points.len() > 0 {
            assert((world.umount)(device.mount_points[0]) is Ok);
            assert forall|i: int| 0 <= i < rest.mount_points.len() implies (world.umount)(
                #[trigger] rest.mount_points[i],
            ) is Ok by {
                assert(rest.mount_points[i] == device.mount_points[i + 1]);
            }
        } else {
            assert((world.remove)(device.temp_paths[0]) is Ok);
            assert forall|i: int| 0 <= i < rest.temp_paths.len() implies (world.remove)(
                #[trigger] rest.temp_paths[i],
            ) is Ok by {
                assert(rest.temp_paths[i] == device.temp_paths[i + 1]);
            }
        }
        assert(next == UmountRunView::start(rest));
        law_umount_succeeds(rest, world);
    }
}

/// The first mount point that cannot be unmounted ends the unmounting: the result names
/// it, what comes after it and every path stays.
pub proof fn law_first_umount_failure_ends(
    device: NetworkDeviceView,
    world: UmountWorld,
    i: int,
)
    requires
        0 <= i < device.mount_points.len(),
        world.can_unmount(device.mount_points, i),
        (world.umount)(device.mount_points[i]) is Err,
    ensures
        run_umount(UmountRunView::start(device), world) == (UmountRunView {
            mount_points: device.mount_points.skip(i),
            temp_paths: device.temp_paths,
            failure: Some(
                NetworkDeviceErrorView::UmountFailed {
                    mount_point: device.mount_points[i],
                    source: (world.umount)(device.mount_points[i])->Err_0,
                },
            ),
        }),
    decreases i,
{
    let run = UmountRunView::start(device);
    let next = run.after(world.outcome(run));
    if i == 0 {
        assert(run_umount(next, world) == next);
        assert(device.mount_points.skip(0) =~= device.mount_points);
    } else {
        assert((world.umount)(device.mount_points[0]) is Ok);
        let rest = NetworkDeviceView {
            mount_points: device.mount_points.drop_first(),
            temp_paths: device.temp_paths,
        };
        assert forall|k: int| 0 <= k < i - 1 implies (world.umount)(
            #[trigger] rest.mount_points[k],
        ) is Ok by {
            assert(rest.mount_points[k] == device.mount_points[k + 1]);
        }
        assert(next == UmountRunView::start(rest));
        law_first_umount_failure_ends(rest, world, i - 1);
        assert(rest.mount_points.skip(i - 1) =~= device.mount_points.skip(i));
    }
}

/// Where every mount point can be unmounted, the first path that cannot be removed ends
/// the unmounting: what comes after it stays.
pub proof fn law_first_remove_failure_ends(
    device: NetworkDeviceView,
    world: UmountWorld,
    i: int,
)
    requires
        0 <= i < device.temp_paths.len(),
        world.can_unmount(device.mount_points, device.mount_points.len() as int),
        world.can_remove(device.temp_paths, i),
        (world.remove)(device.temp_paths[i]) is Err,
    ensures
        run_umount(UmountRunView::start(device), world) == (UmountRunView {
            mount_points: Seq::empty(),
            temp_paths: device.temp_paths.skip(i),
            failure: Some(
                NetworkDeviceErrorView::IOError((world.remove)(device.temp_paths[i])->Err_0),
            ),
        }),
    decreases device.mount_points.len(), i,
{
    let run = UmountRunView::start(device);
    let next = run.after(world.outcome(run));
    if device.mount_points.len() > 0 {
        assert((world.umount)(device.mount_points[0]) is Ok);
        let rest = NetworkDeviceView {
            mount_points: device.mount_points.drop_first(),
            temp_paths: device.temp_paths,
        };
        assert forall|k: int| 0 <= k < rest.mount_points.len() implies (world.umount)(
            #[trigger] rest.mount_points[k],
        ) is Ok by {
            assert(rest.mount_points[k] == device.mount_points[k + 1]);
        }
        assert(next == UmountRunView::start(rest));
        law_first_remove_failure_ends(rest, world, i);
    } else if i == 0 {
        assert(run_umount(next, world) == next);
        assert(device.temp_paths.skip(0) =~= device.temp_paths);
        assert(device.mount_points =~= Seq::empty());
    } else {
        assert((world.remove)(device.temp_paths[0]) is Ok);
        let rest = NetworkDeviceView {
            mount_points: device.mount_points,
            temp_paths: device.temp_paths.drop_first(),
        };
        assert forall|k: int| 0 <= k < i - 1 implies (world.remove)(
            #[trigger] rest.temp_paths[k],
        ) is Ok by {
            assert(rest.temp_paths[k] == device.temp_paths[k + 1]);
        }
        assert(next == UmountRunView::start(rest));
        law_first_remove_failure_ends(rest, world, i - 1);
        assert(rest.temp_paths.skip(i - 1) =~= device.temp_paths.skip(i));
    }
}

} // verus!
