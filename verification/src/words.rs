//! Handle words and their bytes in the byte order of the machine.
//!
//! A handle is kept as 32-bit words and travels as bytes. Each word is written
//! as the four bytes it occupies in memory, so the byte order is that of the
//! machine the code runs on.

use vstd::prelude::*;
use vstd::endian::{endianness, Endian};
use std::collections::TryReserveError;

verus! {

/// The four bytes of `x`, least significant first.
pub open spec fn little_endian_bytes(x: u32) -> Seq<u8> {
    seq![
        (x as int % 256) as u8,
        (x as int / 256 % 256) as u8,
        (x as int / 65536 % 256) as u8,
        (x as int / 16777216) as u8,
    ]
}

/// The four bytes of `x` as `order` lays them out in memory.
pub open spec fn ordered_bytes(x: u32, order: Endian) -> Seq<u8> {
    match order {
        Endian::Little => little_endian_bytes(x),
        Endian::Big => little_endian_bytes(x).reverse(),
    }
}

/// The word whose bytes, least significant first, are the first four of `b`.
pub open spec fn little_endian_word(b: Seq<u8>) -> u32 {
    (b[0] as int + 256 * b[1] as int + 65536 * b[2] as int + 16777216 * b[3] as int) as u32
}

/// The word that `order` reads from the first four bytes of `b`.
pub open spec fn ordered_word(b: Seq<u8>, order: Endian) -> u32 {
    match order {
        Endian::Little => little_endian_word(b),
        Endian::Big => little_endian_word(b.subrange(0, 4).reverse()),
    }
}

/// The memory representation of `x` on this machine.
pub open spec fn native_bytes(x: u32) -> Seq<u8> {
    ordered_bytes(x, endianness())
}

/// The word that this machine reads from the first four bytes of `b`.
pub open spec fn native_word(b: Seq<u8>) -> u32 {
    ordered_word(b, endianness())
}

/// The bytes of `words`: the memory representation of each word, in order.
pub open spec fn words_to_bytes(words: Seq<u32>) -> Seq<u8> {
    Seq::new(4 * words.len(), |i: int| native_bytes(words[i / 4])[i % 4])
}

/// The `k`-th group of four bytes of `bytes`; where `bytes` ends inside the
/// group, the missing bytes are zero.
pub open spec fn padded_chunk(bytes: Seq<u8>, k: int) -> Seq<u8> {
    Seq::new(4, |j: int| if 4 * k + j < bytes.len() { bytes[4 * k + j] } else { 0u8 })
}

/// The number of four-byte groups that `n` bytes fill or begin.
pub open spec fn chunk_count(n: int) -> int {
    (n + 3) / 4
}

/// The words that `bytes` hold: one for each group of four bytes, the last
/// group padded with zero bytes.
pub open spec fn bytes_to_words(bytes: Seq<u8>) -> Seq<u32> {
    Seq::new(chunk_count(bytes.len() as int) as nat, |k: int| native_word(padded_chunk(bytes, k)))
}

/// Calls `u32::to_ne_bytes`. Trusted: the result is the memory representation
/// of `x`, which is its little-endian form on a little-endian machine and the
/// reverse of that on a big-endian one.
#[verifier::external_body]
pub(crate) fn word_to_native_bytes(x: u32) -> (r: [u8; 4])
    ensures
        r@ == native_bytes(x),
{
    x.to_ne_bytes()
}

/// Calls `u32::from_ne_bytes`. Trusted: the result is the word whose memory
/// representation on this machine is `b`.
#[verifier::external_body]
pub(crate) fn word_from_native_bytes(b: [u8; 4]) -> (r: u32)
    ensures
        r == native_word(b@),
{
    u32::from_ne_bytes(b)
}

/// In either byte order, reading the bytes of a word gives the word back.
pub proof fn lemma_word_of_bytes(x: u32, order: Endian)
    ensures
        ordered_bytes(x, order).len() == 4,
        ordered_word(ordered_bytes(x, order), order) == x,
{
    let le = little_endian_bytes(x);
    assert(le.len() == 4);
    match order {
        Endian::Little => {},
        Endian::Big => {
            assert(le.reverse().subrange(0, 4).reverse() =~= le);
        },
    }
}

/// The base-256 digits of a number composed from four bytes are those bytes.
proof fn lemma_digits(b0: u8, b1: u8, b2: u8, b3: u8)
    ensures
        ({
            let w = b0 as int + 256 * b1 as int + 65536 * b2 as int + 16777216 * b3 as int;
            &&& 0 <= w <= u32::MAX
            &&& w % 256 == b0
            &&& w / 256 % 256 == b1
            &&& w / 65536 % 256 == b2
            &&& w / 16777216 == b3
        }),
{
    let w = b0 as int + 256 * b1 as int + 65536 * b2 as int + 16777216 * b3 as int;
    let h1 = b1 as int + 256 * b2 as int + 65536 * b3 as int;
    let h2 = b2 as int + 256 * b3 as int;
    assert(w == 256 * h1 + b0);
    assert(h1 == 256 * h2 + b1);
    assert(w / 256 == h1 && w % 256 == b0);
    assert(h1 / 256 == h2 && h1 % 256 == b1);
    assert(h2 / 256 == b3 && h2 % 256 == b2);
    assert(w / 65536 == h2) by {
        assert(w == 65536 * h2 + (256 * b1 as int + b0 as int));
    }
    assert(w / 16777216 == b3) by {
        assert(w == 16777216 * b3 as int + (65536 * b2 as int + 256 * b1 as int + b0 as int));
    }
}

/// In either byte order, writing the word read from four bytes gives the
/// bytes back.
pub proof fn lemma_bytes_of_word(b: Seq<u8>, order: Endian)
    requires
        b.len() == 4,
    ensures
        ordered_bytes(ordered_word(b, order), order) == b,
{
    match order {
        Endian::Little => {
            lemma_digits(b[0], b[1], b[2], b[3]);
            assert(little_endian_bytes(little_endian_word(b)) =~= b);
        },
        Endian::Big => {
            let r = b.subrange(0, 4).reverse();
            lemma_digits(r[0], r[1], r[2], r[3]);
            assert(little_endian_bytes(little_endian_word(r)) =~= r);
            assert(r.reverse() =~= b);
        },
    }
}

/// Appends the bytes of `words` to a buffer that was to be grown for them:
/// with the storage granted the result is the buffer followed by the bytes of
/// every word, and a refusal is handed on unchanged.
pub fn encode_reserved(reserved: Result<Vec<u8>, TryReserveError>, words: &[u32]) -> (r: Result<
    Vec<u8>,
    TryReserveError,
>)
    ensures
        match reserved {
            Ok(out) => r matches Ok(v) && v@ == out@ + words_to_bytes(words@),
            Err(e) => r == Err::<Vec<u8>, TryReserveError>(e),
        },
{
    match reserved {
        Err(e) => Err(e),
        Ok(out) => {
            let ghost before = out@;
            let mut v = out;
            let mut i: usize = 0;
            while i < words.len()
                invariant
                    i <= words@.len(),
                    v@ == before + words_to_bytes(words@.subrange(0, i as int)),
                decreases words@.len() - i,
            {
                let b = word_to_native_bytes(words[i]);
                v.push(b[0]);
                v.push(b[1]);
                v.push(b[2]);
                v.push(b[3]);
                i += 1;
                assert(v@ == before + words_to_bytes(words@.subrange(0, i as int)));
            }
            assert(words@.subrange(0, i as int) == words@);
            Ok(v)
        },
    }
}

/// Appends the words held by `bytes` to a buffer that was to be grown for
/// them: with the storage granted the result is the buffer followed by one
/// word for each group of four bytes, and a refusal is handed on unchanged.
pub fn decode_reserved(reserved: Result<Vec<u32>, TryReserveError>, bytes: &[u8]) -> (r: Result<
    Vec<u32>,
    TryReserveError,
>)
    ensures
        match reserved {
            Ok(out) => r matches Ok(v) && v@ == out@ + bytes_to_words(bytes@),
            Err(e) => r == Err::<Vec<u32>, TryReserveError>(e),
        },
{
    match reserved {
        Err(e) => Err(e),
        Ok(out) => {
            let ghost before = out@;
            let len = bytes.len();
            let n = if len % 4 == 0 {
                len / 4
            } else {
                len / 4 + 1
            };
            let mut v = out;
            let mut k: usize = 0;
            while k < n
                invariant
                    len == bytes@.len(),
                    n == chunk_count(len as int),
                    k <= n,
                    v@ == before + bytes_to_words(bytes@).subrange(0, k as int),
                decreases n - k,
            {
                let base = 4 * k;
                let mut arr: [u8; 4] = [0; 4];
                let mut j: usize = 0;
                while j < 4 && j < len - base
                    invariant
                        len == bytes@.len(),
                        base < len,
                        j <= 4,
                        j <= len - base,
                        forall|m: int|
                            0 <= m < 4 ==> arr@[m] == if m < j {
                                bytes@[base + m]
                            } else {
                                0u8
                            },
                    decreases 4 - j,
                {
                    arr[j] = bytes[base + j];
                    j += 1;
                }
                assert(arr@ == padded_chunk(bytes@, k as int));
                v.push(word_from_native_bytes(arr));
                k += 1;
            }
            assert(bytes_to_words(bytes@).subrange(0, k as int) == bytes_to_words(bytes@));
            Ok(v)
        },
    }
}

} // verus!
