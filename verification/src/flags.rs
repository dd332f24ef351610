//! The set of open flags for reopening a file by its handle.
//!
//! The flags themselves are the numbers of [`crate::platform`]; a set of them
//! is the bitwise union of its members.

use vstd::prelude::*;
use crate::platform::{
    O_APPEND, O_ASYNC, O_CLOEXEC, O_CREAT, O_DIRECT, O_DIRECTORY, O_DSYNC, O_EXCL, O_FSYNC,
    O_LARGEFILE, O_NOATIME, O_NOCTTY, O_NOFOLLOW, O_NONBLOCK, O_PATH, O_RDONLY, O_RDWR, O_RSYNC,
    O_SYNC, O_TMPFILE, O_TRUNC, O_WRONLY,
};

verus! {

/// A set of open flags, as a bit mask. Its view is the mask.
#[derive(Clone, Copy, Debug, PartialEq, Eq, Hash, Structural)]
pub struct OpenFlags {
    bits: u32,
}

impl View for OpenFlags {
    type V = u32;

    closed spec fn view(&self) -> u32 {
        self.bits
    }
}

/// Every bit that a named flag sets.
pub const ALL_FLAGS: u32 = O_RDONLY | O_WRONLY | O_RDWR | O_CREAT | O_EXCL | O_NOCTTY | O_TRUNC
    | O_APPEND | O_NONBLOCK | O_SYNC | O_FSYNC | O_ASYNC | O_LARGEFILE | O_DIRECTORY | O_NOFOLLOW
    | O_CLOEXEC | O_DIRECT | O_NOATIME | O_PATH | O_TMPFILE | O_DSYNC | O_RSYNC;

impl OpenFlags {
    /// The set without any flag.
    pub fn empty() -> (r: OpenFlags)
        ensures
            r@ == 0,
    {
        OpenFlags { bits: 0 }
    }

    /// The set with the mask `bits`, where every bit of it belongs to a named
    /// flag; `None` where one does not.
    pub fn from_bits(bits: u32) -> (r: Option<OpenFlags>)
        ensures
            match r {
                Some(flags) => flags@ == bits && bits & !ALL_FLAGS == 0,
                None => bits & !ALL_FLAGS != 0,
            },
    {
        if bits & !ALL_FLAGS == 0 {
            Some(OpenFlags { bits })
        } else {
            None
        }
    }

    /// The set with the mask `bits`, whatever its bits are.
    pub fn from_bits_retain(bits: u32) -> (r: OpenFlags)
        ensures
            r@ == bits,
    {
        OpenFlags { bits }
    }

    /// The bit mask of the set.
    pub fn bits(&self) -> (r: u32)
        ensures
            r == self@,
    {
        self.bits
    }

    /// Whether the set holds no flag.
    pub fn is_empty(&self) -> (r: bool)
        ensures
            r <==> self@ == 0,
    {
        self.bits == 0
    }

    /// The flags that are in `self` or in `other`.
    pub fn union(self, other: OpenFlags) -> (r: OpenFlags)
        ensures
            r@ == self@ | other@,
    {
        OpenFlags { bits: self.bits | other.bits }
    }

    /// The flags that are in `self` and in `other`.
    pub fn intersection(self, other: OpenFlags) -> (r: OpenFlags)
        ensures
            r@ == self@ & other@,
    {
        OpenFlags { bits: self.bits & other.bits }
    }

    /// Whether every flag of `other` is in `self`.
    pub fn contains(&self, other: OpenFlags) -> (r: bool)
        ensures
            r <==> self@ & other@ == other@,
    {
        self.bits & other.bits == other.bits
    }
}

} // verus!
