//! Secure storage mounts for confidential containers.
//!
//! [`networkdevice`] mounts a path of an NFSv4 server and, where it is asked for, an
//! encrypted layer over it; [`ecryptfs`] is the driver of that layer. Both decide what
//! is to be done and leave the doing to their caller: they are state machines whose
//! actions are system calls, file operations and pauses, and whose replies are what
//! came of them.

pub mod ecryptfs;
pub mod model_laws;
pub mod networkdevice;
pub mod syscall;
pub mod text;
pub mod text_laws;
