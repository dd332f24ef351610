//! Stable, byte-serializable references to filesystem objects on Linux.
//!
//! A [`LinuxFileHandle`] names an inode independently of any path that leads
//! to it. This crate holds the data representation and every decision of the
//! two system-call protocols around it (`name_to_handle_at` and
//! `open_by_handle_at`); issuing the system calls themselves is left to the
//! caller, who hands their outcomes back as plain values.

pub mod error;
pub mod flags;
pub mod handle;
pub mod laws;
pub mod obtain;
pub mod platform;
pub mod reopen;
pub mod reserve;
pub mod sizes;
pub mod words;

pub use error::HandleError;
pub use flags::OpenFlags;
pub use handle::{HandleView, LinuxFileHandle};
pub use obtain::{Action, Negotiation, Phase, SyscallOutcome};
pub use reopen::OpenRequest;
