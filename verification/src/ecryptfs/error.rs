//! What can go wrong with an eCryptfs mount and its keys.
use vstd::prelude::*;
use vstd::string::*;

verus! {

/// Why an eCryptfs mount, or the addition of one of its keys, failed.
#[derive(Debug)]
pub enum EcryptfsError {
    /// No passphrase is configured.
    MissingPassphrase,
    /// No keyring took the key; the operating system's reason.
    AddKey(String),
    /// The mount point could not be created; the operating system's reason.
    CreateMountPoint(String),
    /// The mount system call failed.
    Mount {
        /// The directory with the encrypted files.
        source_path: String,
        /// Where the clear files were to appear.
        mount_point: String,
        /// The operating system's reason.
        cause: String,
    },
}

/// The contents of an [`EcryptfsError`].
pub enum EcryptfsErrorView {
    /// No passphrase is configured.
    MissingPassphrase,
    /// No keyring took the key.
    AddKey(Seq<char>),
    /// The mount point could not be created.
    CreateMountPoint(Seq<char>),
    /// The mount system call failed.
    Mount {
        /// The directory with the encrypted files.
        source_path: Seq<char>,
        /// Where the clear files were to appear.
        mount_point: Seq<char>,
        /// The operating system's reason.
        cause: Seq<char>,
    },
}

impl View for EcryptfsError {
    type V = EcryptfsErrorView;

    open spec fn view(&self) -> EcryptfsErrorView {
        match *self {
            EcryptfsError::MissingPassphrase => EcryptfsErrorView::MissingPassphrase,
            EcryptfsError::AddKey(cause) => EcryptfsErrorView::AddKey(cause@),
            EcryptfsError::CreateMountPoint(cause) => EcryptfsErrorView::CreateMountPoint(cause@),
            EcryptfsError::Mount { source_path, mount_point, cause } => EcryptfsErrorView::Mount {
                source_path: source_path@,
                mount_point: mount_point@,
                cause: cause@,
            },
        }
    }
}

impl EcryptfsErrorView {
    /// The message for a reader.
    pub open spec fn text(self) -> Seq<char> {
        match self {
            EcryptfsErrorView::MissingPassphrase => "passphrase must be provided"@,
            EcryptfsErrorView::AddKey(cause) => "Failed to add key to keyring: "@ + cause,
            EcryptfsErrorView::CreateMountPoint(cause) => cause,
            EcryptfsErrorView::Mount { source_path, mount_point, .. } => {
                "Failed to mount ecryptfs from "@ + source_path + " to mount point "@ + mount_point
            },
        }
    }
}

impl EcryptfsError {
    /// The message for a reader.
    pub fn message(&self) -> (r: String)
        ensures
            r@ == self@.text(),
    {
        match self {
            EcryptfsError::MissingPassphrase => "passphrase must be provided".to_owned(),
            EcryptfsError::AddKey(cause) => {
                "Failed to add key to keyring: ".to_owned().concat(cause.as_str())
            },
            EcryptfsError::CreateMountPoint(cause) => cause.clone(),
            EcryptfsError::Mount { source_path, mount_point, .. } => {
                "Failed to mount ecryptfs from ".to_owned().concat(source_path.as_str()).concat(
                    " to mount point ",
                ).concat(mount_point.as_str())
            },
        }
    }
}

} // verus!
