//! The mount system call.
use vstd::prelude::*;
use vstd::string::*;

verus! {

/// The arguments of one mount system call.
#[derive(Debug)]
pub struct MountCall {
    /// What is mounted.
    pub source: String,
    /// Where it is mounted.
    pub target: String,
    /// The type of the file system.
    pub fs_type: String,
    /// Whether access times are not kept (`MS_NOATIME`); no other flag is ever set.
    pub no_atime: bool,
    /// The options of the file system.
    pub options: String,
}

/// The contents of a [`MountCall`].
pub struct MountCallView {
    /// What is mounted.
    pub source: Seq<char>,
    /// Where it is mounted.
    pub target: Seq<char>,
    /// The type of the file system.
    pub fs_type: Seq<char>,
    /// Whether access times are not kept.
    pub no_atime: bool,
    /// The options of the file system.
    pub options: Seq<char>,
}

impl View for MountCall {
    type V = MountCallView;

    open spec fn view(&self) -> MountCallView {
        MountCallView {
            source: self.source@,
            target: self.target@,
            fs_type: self.fs_type@,
            no_atime: self.no_atime,
            options: self.options@,
        }
    }
}

/// The text form of an outcome: nothing, or the reason of a failure.
pub open spec fn outcome_view(outcome: Result<(), String>) -> Result<(), Seq<char>> {
    match outcome {
        Ok(()) => Ok(()),
        Err(cause) => Err(cause@),
    }
}

} // verus!
