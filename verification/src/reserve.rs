//! Filling buffers whose storage is reserved fallibly.
//!
//! Every buffer of this crate grows through `Vec::try_reserve`, which reports a
//! refusal of the allocator instead of aborting. Whether a reservation succeeds
//! is for the allocator to decide. [`try_grow`] asks; the other functions take
//! its answer and say exactly what follows from it.

use vstd::prelude::*;
use std::collections::TryReserveError;

verus! {

/// A sequence of `n` zero words.
pub open spec fn zeros(n: int) -> Seq<u32> {
    Seq::new(n as nat, |i: int| 0u32)
}

/// Reserves storage for `additional` more items in `v`: `v` with its contents
/// unchanged, or the allocator's refusal where room was asked for and denied.
pub fn try_grow<T>(v: Vec<T>, additional: usize) -> (r: Result<Vec<T>, TryReserveError>)
    ensures
        r matches Ok(w) ==> w@ == v@,
        additional == 0 ==> r is Ok,
{
    let mut v = v;
    match v.try_reserve(additional) {
        Ok(_) => Ok(v),
        Err(e) => if additional == 0 { Ok(v) } else { Err(e) },
    }
}

/// Appends `src` to a buffer that was to be grown for it: with the storage
/// granted it is the buffer followed by `src`; a refusal is handed on unchanged.
pub fn extend_reserved<T: Copy>(reserved: Result<Vec<T>, TryReserveError>, src: &[T]) -> (r: Result<
    Vec<T>,
    TryReserveError,
>)
    ensures
        match reserved {
            Ok(out) => r matches Ok(v) && v@ == out@ + src@,
            Err(e) => r == Err::<Vec<T>, TryReserveError>(e),
        },
{
    match reserved {
        Err(e) => Err(e),
        Ok(out) => {
            let ghost before = out@;
            let mut v = out;
            let mut i: usize = 0;
            while i < src.len()
                invariant
                    i <= src@.len(),
                    v@ == before + src@.subrange(0, i as int),
                decreases src@.len() - i,
            {
                v.push(src[i]);
                i += 1;
            }
            assert(src@.subrange(0, i as int) == src@);
            Ok(v)
        },
    }
}

/// Appends `extra` zero words to a buffer that was to be grown for them: with
/// the storage granted the result is the buffer followed by the zeros, and a
/// refusal is handed on unchanged.
pub fn zero_extend_reserved(
    reserved: Result<Vec<u32>, TryReserveError>,
    extra: usize,
) -> (r: Result<Vec<u32>, TryReserveError>)
    ensures
        match reserved {
            Ok(out) => r matches Ok(v) && v@ == out@ + zeros(extra as int),
            Err(e) => r == Err::<Vec<u32>, TryReserveError>(e),
        },
{
    match reserved {
        Err(e) => Err(e),
        Ok(out) => {
            let ghost before = out@;
            let mut v = out;
            let mut i: usize = 0;
            while i < extra
                invariant
                    i <= extra,
                    v@ == before + zeros(i as int),
                decreases extra - i,
            {
                v.push(0);
                i += 1;
            }
            Ok(v)
        },
    }
}

/// A copy of `src` in storage of its own, or the allocator's refusal of it.
pub fn try_copy<T: Copy>(src: &[T]) -> (r: Result<Vec<T>, TryReserveError>)
    ensures
        r matches Ok(v) ==> v@ == src@,
        src@.len() == 0 ==> r is Ok,
{
    extend_reserved(try_grow(Vec::new(), src.len()), src)
}

} // verus!
