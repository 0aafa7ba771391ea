//! Working storage for a fuzzing campaign, placed in RAM where the host allows it.
//!
//! The campaign keeps its input queue, its scratch file and its socket at a
//! logical path that never moves. Provisioning makes that path ready: as a
//! symbolic link to a per-process directory on the RAM-backed mount, or as an
//! ordinary directory where the mount is missing or the operator opted out.
//! Release undoes it.
//!
//! This crate decides and does no I/O. Provisioning and release are two small
//! state machines. A driver takes the pending request from the machine,
//! carries it out on the filesystem, and hands the reply back, until nothing
//! is pending:
//!
//! - [`protocol`] holds the requests and replies, the two modes and the error
//!   kinds;
//! - [`acquire`] and [`release`] hold the two machines;
//! - [`naming`] says where the store of a process lies;
//! - [`world`] is a model of the filesystem that answers the requests, and
//!   [`laws`] states what the machines achieve against it.

pub mod naming;
pub mod protocol;
pub mod acquire;
pub mod release;
pub mod world;
pub mod laws;
