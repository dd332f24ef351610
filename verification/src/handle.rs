//! The opaque file handle and its serialization.

use vstd::prelude::*;
use std::collections::TryReserveError;
use crate::reserve::{try_copy, try_grow};
use crate::words::{bytes_to_words, decode_reserved, encode_reserved, words_to_bytes};

verus! {

/// A file handle: the words that the operating system issued for an inode,
/// and the mount they were issued against.
///
/// The words are opaque. Nothing in them is read, compared or checked here;
/// only the operating system can tell what they mean.
#[derive(Clone, Debug, PartialEq, Eq)]
pub struct LinuxFileHandle {
    v: Vec<u32>,
    mnt_id: i32,
}

/// What a [`LinuxFileHandle`] stands for.
pub struct HandleView {
    /// The words of the handle, header first.
    pub words: Seq<u32>,
    /// The mount the handle was issued against, where that is known.
    pub mount: Option<i32>,
}

/// The mount that a stored identifier stands for: negative identifiers mark
/// a handle whose mount is not known.
pub open spec fn mount_of(mnt_id: i32) -> Option<i32> {
    if mnt_id >= 0 {
        Some(mnt_id)
    } else {
        None
    }
}

impl View for LinuxFileHandle {
    type V = HandleView;

    closed spec fn view(&self) -> HandleView {
        HandleView { words: self.v@, mount: mount_of(self.mnt_id) }
    }
}

impl LinuxFileHandle {
    /// A handle of the given words, issued against the mount that `mnt_id`
    /// stands for.
    pub(crate) fn from_parts(v: Vec<u32>, mnt_id: i32) -> (h: LinuxFileHandle)
        ensures
            h@ == (HandleView { words: v@, mount: mount_of(mnt_id) }),
    {
        LinuxFileHandle { v, mnt_id }
    }

    /// The mount the handle was issued against, or `None` for a handle that was
    /// rebuilt from raw words or bytes.
    pub fn get_mnt_id(&self) -> (r: Option<i32>)
        ensures
            r == self@.mount,
            r matches Some(id) ==> id >= 0,
    {
        if self.mnt_id >= 0 {
            Some(self.mnt_id)
        } else {
            None
        }
    }

    /// The words of the handle, for example to send them to a client or to
    /// store them.
    pub fn get_slice(&self) -> (r: &[u32])
        ensures
            r@ == self@.words,
    {
        self.v.as_slice()
    }

    /// The handle as bytes: every word in the byte order of this machine.
    /// Fails only where the allocator refuses the storage for the bytes; a
    /// handle without words needs none, and its bytes are always given.
    pub fn get_vec(&self) -> (r: Result<Vec<u8>, TryReserveError>)
        ensures
            r matches Ok(bytes) ==> bytes@ == words_to_bytes(self@.words),
            self@.words.len() == 0 ==> r is Ok,
    {
        let size = match self.v.len().checked_mul(4) {
            Some(n) => n,
            None => usize::MAX,
        };
        encode_reserved(try_grow(Vec::new(), size), self.v.as_slice())
    }

    /// Rebuilds a handle from bytes. Every four bytes make one word; a last
    /// group of fewer than four bytes is completed with zero bytes. The mount
    /// of such a handle is not known. Fails only where the allocator refuses
    /// the storage for the words; no bytes need none.
    pub fn from_vec(src: &[u8]) -> (r: Result<LinuxFileHandle, TryReserveError>)
        ensures
            r matches Ok(h) ==> h@ == (HandleView { words: bytes_to_words(src@), mount: None }),
            src@.len() == 0 ==> r is Ok,
    {
        let reserved = try_grow(Vec::new(), Self::get_aligned_fh_size(src.len()));
        match decode_reserved(reserved, src) {
            Ok(v) => Ok(LinuxFileHandle { v, mnt_id: -1 }),
            Err(e) => Err(e),
        }
    }

    /// A second handle with the same words and mount, in storage of its own.
    /// Fails only where the allocator refuses that storage; a handle without
    /// words needs none, and is always duplicated.
    pub fn duplicate(&self) -> (r: Result<LinuxFileHandle, TryReserveError>)
        ensures
            r matches Ok(h) ==> h@ == self@,
            self@.words.len() == 0 ==> r is Ok,
    {
        match try_copy(self.v.as_slice()) {
            Ok(v) => Ok(LinuxFileHandle { v, mnt_id: self.mnt_id }),
            Err(e) => Err(e),
        }
    }
}

impl vstd::std_specs::convert::TryFromSpecImpl<&[u32]> for LinuxFileHandle {
    /// The conversion allocates: its result is no function of the words alone.
    open spec fn obeys_try_from_spec() -> bool {
        false
    }

    open spec fn try_from_spec(value: &[u32]) -> Result<LinuxFileHandle, TryReserveError> {
        arbitrary()
    }
}

impl TryFrom<&[u32]> for LinuxFileHandle {
    type Error = TryReserveError;

    /// A handle of the given words, whose mount is not known.
    /// Fails only where the allocator refuses the storage for the words; no
    /// words need none, and the handle without words is always given.
    fn try_from(value: &[u32]) -> (r: Result<LinuxFileHandle, TryReserveError>)
        ensures
            r matches Ok(h) ==> h@ == (HandleView { words: value@, mount: None }),
            value@.len() == 0 ==> r is Ok,
    {
        match try_copy(value) {
            Ok(v) => Ok(LinuxFileHandle { v, mnt_id: -1 }),
            Err(e) => Err(e),
        }
    }
}

} // verus!
