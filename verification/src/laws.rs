//! What holds of the library as a whole.

use vstd::prelude::*;
use vstd::endian::endianness;
use crate::error::HandleError;
use crate::handle::LinuxFileHandle;
use crate::obtain::{
    finished, full_buffer, initial, next, ActionView, NegotiationView, Phase, SyscallOutcome,
    HEADER_WORDS,
};
use crate::platform::EOVERFLOW;
use crate::sizes::aligned_words;
use crate::words::{
    bytes_to_words, chunk_count, lemma_bytes_of_word, lemma_word_of_bytes, native_bytes,
    padded_chunk, words_to_bytes,
};

verus! {

/// The bytes of a handle hold its words: rebuilding a handle from the bytes
/// of `h` gives the words of `h` back, and so the same bytes again.
pub proof fn law_round_trip(h: LinuxFileHandle)
    ensures
        bytes_to_words(words_to_bytes(h@.words)) == h@.words,
        words_to_bytes(bytes_to_words(words_to_bytes(h@.words))) == words_to_bytes(h@.words),
{
    let words = h@.words;
    let bytes = words_to_bytes(words);
    let back = bytes_to_words(bytes);
    assert(back.len() == words.len());
    assert forall|k: int| 0 <= k < words.len() implies back[k] == words[k] by {
        lemma_word_of_bytes(words[k], endianness());
        assert forall|j: int| 0 <= j < 4 implies padded_chunk(bytes, k)[j] == native_bytes(
            words[k],
        )[j] by {
            assert((4 * k + j) / 4 == k && (4 * k + j) % 4 == j);
        }
        assert(padded_chunk(bytes, k) =~= native_bytes(words[k]));
    }
    assert(back =~= words);
}

/// The words of a handle hold the bytes it was rebuilt from: serializing a
/// handle made from `bytes` gives `bytes` back, followed by as many zero bytes
/// as complete the last group of four.
pub proof fn law_bytes_kept(bytes: Seq<u8>)
    ensures
        ({
            let again = words_to_bytes(bytes_to_words(bytes));
            &&& again.len() == 4 * chunk_count(bytes.len() as int)
            &&& bytes.len() <= again.len() < bytes.len() + 4
            &&& again.subrange(0, bytes.len() as int) == bytes
            &&& forall|i: int| bytes.len() <= i < again.len() ==> again[i] == 0
        }),
{
    let words = bytes_to_words(bytes);
    let again = words_to_bytes(words);
    assert forall|i: int| 0 <= i < again.len() implies again[i] == padded_chunk(bytes, i / 4)[i
        % 4] by {
        lemma_bytes_of_word(padded_chunk(bytes, i / 4), endianness());
    }
    assert forall|i: int| 0 <= i < bytes.len() implies again[i] == bytes[i] by {
        assert(4 * (i / 4) + i % 4 == i);
    }
    assert(again.subrange(0, bytes.len() as int) =~= bytes);
    assert forall|i: int| bytes.len() <= i < again.len() implies again[i] == 0 by {
        assert(4 * (i / 4) + i % 4 == i);
    }
}

/// A sizing call that fails with any error code but `EOVERFLOW` ends the
/// negotiation with that code, and a negotiation that has ended never asks
/// for a system call again.
pub proof fn law_failure_ends(pre: NegotiationView, failed: SyscallOutcome, later: SyscallOutcome)
    requires
        pre.phase == Phase::Probing,
        failed.buffer@.len() == pre.words,
        failed.ret != 0,
        failed.errno != EOVERFLOW,
    ensures
        next(pre, failed) == (finished(pre), ActionView::Fail(HandleError::Os(failed.errno))),
        next(finished(pre), later) == (
            finished(pre),
            ActionView::Fail(HandleError::Protocol),
        ),
{
}

/// A handle that a negotiation ends with has the words of the last buffer,
/// which are the header and the payload that the sizing call reported,
/// rounded up to a whole word: its length in bytes is a positive multiple of
/// four, and nothing is added beyond the rounding.
pub proof fn law_obtained_length(
    path: Seq<u8>,
    flags: i32,
    probe: SyscallOutcome,
    fill: SyscallOutcome,
)
    ensures
        ({
            let (sized, _) = next(initial(path, flags), probe);
            let (_, last) = next(sized, fill);
            last matches ActionView::Done(handle) ==> {
                &&& handle.words == fill.buffer@
                &&& handle.words.len() == HEADER_WORDS + aligned_words(probe.buffer@[0] as int)
                &&& words_to_bytes(handle.words).len() == 4 * handle.words.len()
                &&& words_to_bytes(handle.words).len() == 8 + 4 * ((probe.buffer@[0] + 3) / 4)
                &&& words_to_bytes(handle.words).len() < 8 + probe.buffer@[0] + 4
            }
        }),
{
    let (sized, first) = next(initial(path, flags), probe);
    let (_, last) = next(sized, fill);
    if last is Done {
        assert(sized.phase == Phase::Filling);
        assert(sized.words == full_buffer(probe.buffer@).len());
    }
}

} // verus!
