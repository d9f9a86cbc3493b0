//! A verified model of a minimal container launch pipeline.
//!
//! The library holds everything about one launch that can be decided and
//! proved ahead of the privileged system calls: the per-launch identity
//! and the paths scoped by it, validation of the resource limits, the
//! exact plans the host must carry out (control-group writes, staging,
//! the child's isolation steps), the orchestrating state machine with its
//! always-clean-up discipline, and the mapping of every failure into one
//! typed error. A thin unverified driver performs the system calls the
//! plans describe and feeds each outcome back into the state machine as
//! an event.

pub mod cgroup;
pub mod container;
pub mod filesystem;
pub mod image;
pub mod namespace;
pub mod network;
pub mod text;
