//! What can go wrong with a network device.
use crate::ecryptfs::error::{EcryptfsError, EcryptfsErrorView};
use crate::text;
use crate::text::decimal_text;
use vstd::prelude::*;
use vstd::string::*;

verus! {

/// Why an operation on a network device failed. Reasons that come from the operating
/// system or from a decoder are kept as text.
#[derive(Debug)]
#[allow(inconsistent_fields)]
pub enum NetworkDeviceError {
    /// The encrypted layer could not be mounted.
    EcryptfsError {
        /// The reason.
        source: EcryptfsError,
    },
    /// A file operation failed.
    IOError(String),
    /// The parameters could not be decoded.
    SerdeError(String),
    /// The NFSv4 mount failed.
    MountError {
        /// The server and its path.
        ip_addr: String,
        /// The transit mount point.
        mount_point: String,
        /// The reason.
        source: String,
    },
    /// A mount point could not be unmounted.
    UmountFailed {
        /// The mount point.
        mount_point: String,
        /// The reason.
        source: String,
    },
    /// The network did not come up.
    NetworkUnreachable {
        /// What was waited for.
        addr: String,
        /// How often it was looked for.
        attempts: u32,
    },
    /// The relative mount path could lead out of the transit mount point.
    InvalidRelativeMountPath {
        /// The path, without surrounding white space.
        path: String,
        /// The reason.
        reason: String,
    },
}

/// The contents of a [`NetworkDeviceError`].
#[allow(inconsistent_fields)]
pub enum NetworkDeviceErrorView {
    /// The encrypted layer could not be mounted.
    EcryptfsError {
        /// The reason.
        source: EcryptfsErrorView,
    },
    /// A file operation failed.
    IOError(Seq<char>),
    /// The parameters could not be decoded.
    SerdeError(Seq<char>),
    /// The NFSv4 mount failed.
    MountError {
        /// The server and its path.
        ip_addr: Seq<char>,
        /// The transit mount point.
        mount_point: Seq<char>,
        /// The reason.
        source: Seq<char>,
    },
    /// A mount point could not be unmounted.
    UmountFailed {
        /// The mount point.
        mount_point: Seq<char>,
        /// The reason.
        source: Seq<char>,
    },
    /// The network did not come up.
    NetworkUnreachable {
        /// What was waited for.
        addr: Seq<char>,
        /// How often it was looked for.
        attempts: nat,
    },
    /// The relative mount path could lead out of the transit mount point.
    InvalidRelativeMountPath {
        /// The path.
        path: Seq<char>,
        /// The reason.
        reason: Seq<char>,
    },
}

impl View for NetworkDeviceError {
    type V = NetworkDeviceErrorView;

    open spec fn view(&self) -> NetworkDeviceErrorView {
        match *self {
            NetworkDeviceError::EcryptfsError { source } => NetworkDeviceErrorView::EcryptfsError {
                source: source@,
            },
            NetworkDeviceError::IOError(cause) => NetworkDeviceErrorView::IOError(cause@),
            NetworkDeviceError::SerdeError(cause) => NetworkDeviceErrorView::SerdeError(cause@),
            NetworkDeviceError::MountError { ip_addr, mount_point, source } => {
                NetworkDeviceErrorView::MountError {
                    ip_addr: ip_addr@,
                    mount_point: mount_point@,
                    source: source@,
                }
            },
            NetworkDeviceError::UmountFailed { mount_point, source } => {
                NetworkDeviceErrorView::UmountFailed { mount_point: mount_point@, source: source@ }
            },
            NetworkDeviceError::NetworkUnreachable { addr, attempts } => {
                NetworkDeviceErrorView::NetworkUnreachable {
                    addr: addr@,
                    attempts: attempts as nat,
                }
            },
            NetworkDeviceError::InvalidRelativeMountPath { path, reason } => {
                NetworkDeviceErrorView::InvalidRelativeMountPath { path: path@, reason: reason@ }
            },
        }
    }
}

impl NetworkDeviceErrorView {
    /// The message for a reader.
    pub open spec fn text(self) -> Seq<char> {
        match self {
            NetworkDeviceErrorView::EcryptfsError { source } => "Ecryptfs error: "@ + source.text(),
            NetworkDeviceErrorView::IOError(cause) => "I/O error: "@ + cause,
            NetworkDeviceErrorView::SerdeError(cause) => {
                "Failed to serialize or deserialize JSON: "@ + cause
            },
            NetworkDeviceErrorView::MountError { ip_addr, mount_point, source } => {
                "Failed to mount NFSv4 from "@ + ip_addr + " to mount point "@ + mount_point + ": "@
                    + source
            },
            NetworkDeviceErrorView::UmountFailed { mount_point, source } => {
                "Failed to umount device "@ + mount_point + ": "@ + source
            },
            NetworkDeviceErrorView::NetworkUnreachable { addr, attempts } => {
                "Network unreachable to "@ + addr + " after "@ + text::decimal(attempts)
                    + " attempts"@
            },
            NetworkDeviceErrorView::InvalidRelativeMountPath { path, reason } => {
                "Invalid relative mount path "@ + path + ": "@ + reason
            },
        }
    }
}

impl NetworkDeviceError {
    /// The message for a reader.
    pub fn message(&self) -> (r: String)
        ensures
            r@ == self@.text(),
    {
        match self {
            NetworkDeviceError::EcryptfsError { source } => {
                "Ecryptfs error: ".to_owned().concat(source.message().as_str())
            },
            NetworkDeviceError::IOError(cause) => "I/O error: ".to_owned().concat(cause.as_str()),
            NetworkDeviceError::SerdeError(cause) => {
                "Failed to serialize or deserialize JSON: ".to_owned().concat(cause.as_str())
            },
            NetworkDeviceError::MountError { ip_addr, mount_point, source } => {
                "Failed to mount NFSv4 from ".to_owned().concat(ip_addr.as_str()).concat(
                    " to mount point ",
                ).concat(mount_point.as_str()).concat(": ").concat(source.as_str())
            },
            NetworkDeviceError::UmountFailed { mount_point, source } => {
                "Failed to umount device ".to_owned().concat(mount_point.as_str()).concat(
                    ": ",
                ).concat(source.as_str())
            },
            NetworkDeviceError::NetworkUnreachable { addr, attempts } => {
                "Network unreachable to ".to_owned().concat(addr.as_str()).concat(" after ").concat(
                    decimal_text(*attempts as u64).as_str(),
                ).concat(" attempts")
            },
            NetworkDeviceError::InvalidRelativeMountPath { path, reason } => {
                "Invalid relative mount path ".to_owned().concat(path.as_str()).concat(": ").concat(
                    reason.as_str(),
                )
            },
        }
    }
}

} // verus!
