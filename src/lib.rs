//! Decision logic of a sandbox resource manager: which collaborator call comes
//! next during the two boot phases, per-container device handling, teardown,
//! and what is persisted across a runtime restart.
//!
//! Every operation that talks to the hypervisor, the guest agent or the host is
//! driven by a small state machine: the caller performs the call that the
//! machine names, hands the outcome back, and stops at `Finished` or `Aborted`.

pub mod error;
pub mod outcome;
pub mod prepare;
pub mod after_start;
pub mod devices;
pub mod cleanup;
pub mod persist;
pub mod manager;
