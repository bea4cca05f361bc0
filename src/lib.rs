//! Receiving, validating and answering seccomp notifications that an lxc monitor forwards.
pub mod wire;
pub mod seccomp;
pub mod lxcseccomp;
