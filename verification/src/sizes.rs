//! Conversions between the integer types of the system-call interface, and
//! the sizing rule for handle buffers.

use vstd::prelude::*;
use crate::error::HandleError;
use crate::handle::LinuxFileHandle;

verus! {

/// The number of 4-byte words that hold `s` bytes: `s` rounded up to a whole
/// word, counted in words.
pub open spec fn aligned_words(s: int) -> int {
    (s + 3) / 4
}

impl LinuxFileHandle {
    /// Converts an unsigned value of the system-call interface to the signed
    /// type that the system calls take. A value that does not fit is refused.
    pub fn get_signed(s: u32) -> (r: Result<i32, HandleError>)
        ensures
            r == if s <= i32::MAX {
                Ok::<i32, HandleError>(s as i32)
            } else {
                Err::<i32, HandleError>(HandleError::Conversion)
            },
    {
        if s <= 0x7fff_ffff {
            Ok(s as i32)
        } else {
            Err(HandleError::Conversion)
        }
    }

    /// Converts a size that the operating system reported to the pointer-sized
    /// type. A size that does not fit is refused.
    pub fn get_usize(s: u32) -> (r: Result<usize, HandleError>)
        ensures
            r == if s <= usize::MAX {
                Ok::<usize, HandleError>(s as usize)
            } else {
                Err::<usize, HandleError>(HandleError::Conversion)
            },
    {
        match usize::try_from(s) {
            Ok(f) => Ok(f),
            Err(_) => Err(HandleError::Conversion),
        }
    }

    /// The number of words that hold `s` bytes: the least count of words
    /// whose bytes are no fewer than `s`.
    pub fn get_aligned_fh_size(s: usize) -> (r: usize)
        ensures
            r == aligned_words(s as int),
    {
        if s % 4 == 0 {
            s / 4
        } else {
            s / 4 + 1
        }
    }
}

} // verus!
