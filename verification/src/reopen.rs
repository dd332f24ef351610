//! Reopening a file by its handle.
//!
//! `open_by_handle_at` turns a handle and a descriptor of any file on the same
//! filesystem into a descriptor of the file that the handle names. This module
//! prepares the arguments of that call and interprets what it returns; the
//! caller issues the call.
//!
//! # Security
//!
//! The call needs the capability `CAP_DAC_READ_SEARCH` and is usually not
//! available in unprivileged containers. It opens the file without walking any
//! path, so no directory permission and no restricted view of the filesystem
//! stands in its way: a privileged process that holds or guesses a handle can
//! open a file that no path visible to it leads to, such as a file outside the
//! subtree that was bind-mounted into its container. A server that reopens
//! handles on behalf of less trusted clients must check what the descriptor it
//! got refers to, for example by comparing its device and inode numbers with
//! the expected ones, before it trusts it. The descriptor passed as the mount
//! must belong to the filesystem that issued the handle.

use vstd::prelude::*;
use std::collections::TryReserveError;
use crate::error::HandleError;
use crate::flags::OpenFlags;
use crate::handle::LinuxFileHandle;
use crate::reserve::try_copy;

verus! {

/// The arguments of one `open_by_handle_at` call, apart from the mount
/// descriptor.
#[derive(Debug, PartialEq, Eq)]
pub struct OpenRequest {
    /// A private copy of the handle's words, to hand to the call.
    pub buffer: Vec<u32>,
    /// The open flags as the signed integer that the call takes.
    pub flags: i32,
}

impl OpenRequest {
    /// Makes the request from a copy of the handle's words that was to be
    /// allocated, and the flags. A refused allocation is the error `Alloc`;
    /// with the copy made, flags that do not fit a signed integer are the
    /// error `Conversion`.
    pub fn prepare(copy: Result<Vec<u32>, TryReserveError>, flags: OpenFlags) -> (r: Result<
        OpenRequest,
        HandleError,
    >)
        ensures
            match copy {
                Err(_) => r == Err::<OpenRequest, HandleError>(HandleError::Alloc),
                Ok(words) => if flags@ <= i32::MAX {
                    r matches Ok(request) && request.buffer@ == words@ && request.flags == flags@
                } else {
                    r == Err::<OpenRequest, HandleError>(HandleError::Conversion)
                },
            },
    {
        match copy {
            Err(_) => Err(HandleError::Alloc),
            Ok(buffer) => match LinuxFileHandle::get_signed(flags.bits()) {
                Ok(flags) => Ok(OpenRequest { buffer, flags }),
                Err(error) => Err(error),
            },
        }
    }

    /// Interprets what the call returned: a value that is not negative is the
    /// new descriptor, and after any other the error code `errno` of the
    /// calling thread says why the call failed.
    pub fn finish(self, ret: i32, errno: i32) -> (r: Result<i32, HandleError>)
        ensures
            r == if ret >= 0 {
                Ok::<i32, HandleError>(ret)
            } else {
                Err::<i32, HandleError>(HandleError::Os(errno))
            },
    {
        if ret >= 0 {
            Ok(ret)
        } else {
            Err(HandleError::Os(errno))
        }
    }
}

impl LinuxFileHandle {
    /// Prepares the reopening of the file that the handle names, with the
    /// open flags `flags`. The request holds a copy of the handle's words, so
    /// that the call works on storage of its own.
    ///
    /// Flags that do not fit a signed integer are refused; apart from that the
    /// preparation fails only where the allocator refuses the copy, which a
    /// handle without words does not need. See the module documentation for
    /// what the caller must ensure.
    pub fn open_by_handle(&self, flags: OpenFlags) -> (r: Result<OpenRequest, HandleError>)
        ensures
            match r {
                Ok(request) => request.buffer@ == self@.words && request.flags == flags@,
                Err(error) => error == HandleError::Alloc || (error == HandleError::Conversion
                    && flags@ > i32::MAX),
            },
            flags@ > i32::MAX ==> r is Err,
            self@.words.len() == 0 && flags@ <= i32::MAX ==> r is Ok,
            self@.words.len() == 0 && flags@ > i32::MAX ==> r == Err::<
                OpenRequest,
                HandleError,
            >(HandleError::Conversion),
    {
        OpenRequest::prepare(try_copy(self.get_slice()), flags)
    }
}

} // verus!
