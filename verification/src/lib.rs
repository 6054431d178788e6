//! Verified core of a bridge to the kernel packet-logging facility.
//!
//! The native logging library is reached only through raw C entry points, so
//! the calls themselves live outside this crate.  What is verified here is
//! everything the bridge decides and computes around those calls: the
//! configuration value and its defaults, the exact sequence of native
//! operations that building and tearing down a queue performs, the status
//! logic of the native callback trampoline, and the typed accessors over the
//! plain fields of one delivered log record.

pub mod config;
pub mod lifecycle;
pub mod callback;
pub mod message;
pub mod socket;

pub use config::{AddressFamily, CopyMode, Flags, QueueConfig};
pub use message::{L3Protocol, MacAddr, Message, MessageHandler};

use vstd::prelude::*;

verus! {

/// How an operation of the bridge can fail.
#[derive(Clone, Copy, PartialEq, Eq, Structural, Debug)]
pub enum QueueError {
    /// A native entry point reported failure; carries the OS error code.
    Native(i32),
    /// A per-group operation was requested before any group was bound.
    GroupNotBound,
    /// The native library handed the callback a null record pointer.
    NullRecord,
}

} // verus!
