//! Numbers of the Linux system-call interface.
//!
//! These are given by the operating system, not chosen here. They are the
//! values that Linux and its C library define on x86-64.

use vstd::prelude::*;

verus! {

/// The directory argument that stands for the current working directory.
pub const AT_FDCWD: i32 = -100;

/// Lookup flag: follow a symbolic link in the last component of the path.
pub const AT_SYMLINK_FOLLOW: i32 = 0x400;

/// Lookup flag: with an empty path, operate on the directory argument itself.
pub const AT_EMPTY_PATH: i32 = 0x1000;

/// Error code: a value is too large for the buffer given for it.
pub const EOVERFLOW: i32 = 75;

/// Open for reading only.
pub const O_RDONLY: u32 = 0o0;

/// Open for writing only.
pub const O_WRONLY: u32 = 0o1;

/// Open for reading and writing.
pub const O_RDWR: u32 = 0o2;

/// Create the file if it does not exist.
pub const O_CREAT: u32 = 0o100;

/// With `O_CREAT`, fail if the file exists.
pub const O_EXCL: u32 = 0o200;

/// Do not make a terminal the controlling terminal.
pub const O_NOCTTY: u32 = 0o400;

/// Truncate the file to length zero.
pub const O_TRUNC: u32 = 0o1000;

/// Write at the end of the file.
pub const O_APPEND: u32 = 0o2000;

/// Do not block on open or on later operations.
pub const O_NONBLOCK: u32 = 0o4000;

/// Writes complete with the integrity of the data.
pub const O_DSYNC: u32 = 0o10000;

/// Signal-driven input and output.
pub const O_ASYNC: u32 = 0o20000;

/// Bypass the page cache.
pub const O_DIRECT: u32 = 0o40000;

/// Allow files whose size needs 64 bits; no bit is needed for it on x86-64.
pub const O_LARGEFILE: u32 = 0o0;

/// Fail unless the file is a directory.
pub const O_DIRECTORY: u32 = 0o200000;

/// Fail if the last component of the path is a symbolic link.
pub const O_NOFOLLOW: u32 = 0o400000;

/// Do not update the access time.
pub const O_NOATIME: u32 = 0o1000000;

/// Close the descriptor on `exec`.
pub const O_CLOEXEC: u32 = 0o2000000;

/// Writes complete with the integrity of the file.
pub const O_SYNC: u32 = 0o4010000;

/// Another name of `O_SYNC`.
pub const O_FSYNC: u32 = 0o4010000;

/// Reads complete as `O_SYNC` writes do.
pub const O_RSYNC: u32 = 0o4010000;

/// A descriptor that names the file without opening it.
pub const O_PATH: u32 = 0o10000000;

/// An unnamed temporary file in the given directory.
pub const O_TMPFILE: u32 = 0o20200000;

} // verus!
