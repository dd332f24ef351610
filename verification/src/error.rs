//! The failures that handle operations report.

use vstd::prelude::*;

verus! {

/// Why an operation on a file handle failed.
#[derive(Clone, Copy, Debug, PartialEq, Eq, Structural)]
pub enum HandleError {
    /// A buffer could not be grown: the allocator refused the request.
    Alloc,
    /// A size or flag value does not fit the integer type that the platform
    /// expects for it.
    Conversion,
    /// The sizing call succeeded although its buffer holds no payload.
    UnexpectedSuccess,
    /// The operating system rejected a system call with this error code.
    Os(i32),
    /// An outcome was handed in that answers no outstanding system call: the
    /// negotiation had ended, or the buffer is not the one that was handed out.
    Protocol,
}

} // verus!
