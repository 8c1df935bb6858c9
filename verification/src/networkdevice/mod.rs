//! Network devices: NFSv4 as transit, with an optional encrypted layer on top.
//!
//! Only NFSv4 is mounted. It uses the well-known port 2049 and needs no
//! negotiation with a port mapper, so that a plain mount system call does.

pub mod device;
pub mod error;
pub mod hooks;
pub mod laws;
pub mod mounting;
pub mod mounts;
pub mod network;
pub mod options;
pub mod outcome;
pub mod relative;
pub mod umount;
