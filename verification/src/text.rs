//! Byte strings as the native engine reads and writes them: a run of bytes
//! that ends before the first zero byte, and its decoding as UTF-8.

use vstd::prelude::*;
use vstd::slice::*;
use vstd::string::*;
use vstd::utf8::*;

verus! {

/// No byte of `bytes` is the terminator.
pub open spec fn nul_free(bytes: Seq<u8>) -> bool {
    forall|i: int| 0 <= i < bytes.len() ==> bytes[i] != 0u8
}

/// The number of bytes that stand before the first terminator in `bytes`,
/// or its whole length when it holds none.
pub open spec fn c_len(bytes: Seq<u8>) -> nat
    decreases bytes.len(),
{
    if bytes.len() == 0 || bytes[0] == 0u8 {
        0
    } else {
        1 + c_len(bytes.drop_first())
    }
}

/// What a reader of terminated strings sees of `bytes`: everything before
/// the first terminator.
pub open spec fn until_nul(bytes: Seq<u8>) -> Seq<u8> {
    bytes.subrange(0, c_len(bytes) as int)
}

/// What is read through a string pointer: nothing through the null
/// pointer, else the bytes up to the terminator.
pub open spec fn c_string_at(value: Option<Seq<u8>>) -> Seq<u8> {
    match value {
        Some(bytes) => until_nul(bytes),
        None => Seq::empty(),
    }
}

/// The first `len` bytes of a buffer, or all of it where it is shorter.
pub open spec fn first_bytes(buf: Seq<u8>, len: int) -> Seq<u8> {
    if 0 <= len <= buf.len() {
        buf.subrange(0, len)
    } else {
        buf
    }
}

/// `c_len` stops at the first terminator and nowhere earlier.
pub proof fn lemma_c_len(bytes: Seq<u8>)
    ensures
        c_len(bytes) <= bytes.len(),
        forall|i: int| 0 <= i < c_len(bytes) ==> bytes[i] != 0u8,
        c_len(bytes) < bytes.len() ==> bytes[c_len(bytes) as int] == 0u8,
    decreases bytes.len(),
{
    if bytes.len() == 0 || bytes[0] == 0u8 {
    } else {
        let rest = bytes.drop_first();
        lemma_c_len(rest);
        assert forall|i: int| 0 <= i < c_len(bytes) implies bytes[i] != 0u8 by {
            if i > 0 {
                assert(bytes[i] == rest[i - 1]);
            }
        }
        if c_len(bytes) < bytes.len() {
            assert(bytes[c_len(bytes) as int] == rest[c_len(rest) as int]);
        }
    }
}

/// A position that is free of terminators up to it, and that is the end or
/// a terminator, is `c_len`.
pub proof fn lemma_c_len_unique(bytes: Seq<u8>, n: int)
    requires
        0 <= n <= bytes.len(),
        forall|i: int| 0 <= i < n ==> bytes[i] != 0u8,
        n < bytes.len() ==> bytes[n] == 0u8,
    ensures
        c_len(bytes) == n,
{
    lemma_c_len(bytes);
    let m = c_len(bytes) as int;
    if m < n {
        assert(bytes[m] != 0u8);
    } else if n < m {
        assert(bytes[n] == 0u8);
    }
}

/// Cutting at the first terminator leaves no terminator, and changes
/// nothing where there was none.
pub proof fn lemma_until_nul(bytes: Seq<u8>)
    ensures
        nul_free(until_nul(bytes)),
        nul_free(bytes) <==> until_nul(bytes) == bytes,
        until_nul(until_nul(bytes)) == until_nul(bytes),
{
    lemma_c_len(bytes);
    let cut = until_nul(bytes);
    assert(nul_free(cut));
    if nul_free(bytes) {
        lemma_c_len_unique(bytes, bytes.len() as int);
        assert(cut =~= bytes);
    }
    lemma_c_len_unique(cut, cut.len() as int);
    assert(until_nul(cut) =~= cut);
}

/// The position of the first terminator in `bytes`, or its length.
pub fn find_nul(bytes: &[u8]) -> (n: usize)
    ensures
        n == c_len(bytes@),
{
    let mut i: usize = 0;
    while i < bytes.len() && bytes[i] != 0
        invariant
            i <= bytes.len(),
            forall|k: int| 0 <= k < i ==> bytes@[k] != 0u8,
        decreases bytes.len() - i,
    {
        i += 1;
    }
    proof {
        lemma_c_len_unique(bytes@, i as int);
    }
    i
}

/// Copies `bytes` up to its first terminator.
pub fn copy_until_nul(bytes: &[u8]) -> (out: Vec<u8>)
    ensures
        out@ == until_nul(bytes@),
{
    let n = find_nul(bytes);
    proof {
        lemma_c_len(bytes@);
    }
    slice_to_vec(slice_subrange(bytes, 0, n))
}

/// The size of the buffer that takes a string of `len` bytes and its
/// terminator, not a byte more; `None` where no buffer is that large.
pub fn terminated_len(len: usize) -> (size: Option<usize>)
    ensures
        size == (if len < usize::MAX {
            Some((len + 1) as usize)
        } else {
            None
        }),
{
    len.checked_add(1)
}

/// Copies the first `len` bytes of `buf`, or all of it where it is
/// shorter.
pub fn copy_first(buf: &[u8], len: usize) -> (out: Vec<u8>)
    ensures
        out@ == first_bytes(buf@, len as int),
{
    if len <= buf.len() {
        slice_to_vec(slice_subrange(buf, 0, len))
    } else {
        slice_to_vec(buf)
    }
}

/// The text that `String::from_utf8_lossy` makes of bytes that are not
/// well-formed UTF-8.
pub uninterp spec fn utf8_lossy(bytes: Seq<u8>) -> Seq<char>;

/// The text read out of `bytes`: what they encode where they are
/// well-formed UTF-8, and the standard library's repair of them otherwise.
pub open spec fn decoded(bytes: Seq<u8>) -> Seq<char> {
    if valid_utf8(bytes) {
        decode_utf8(bytes)
    } else {
        utf8_lossy(bytes)
    }
}

/// Decodes `bytes` with `String::from_utf8_lossy`.
///
/// Trusted: on well-formed UTF-8 the result is the text that the bytes
/// encode; on anything else it is a function of the bytes alone, which the
/// standard library defines and this crate only names.
#[verifier::external_body]
fn from_utf8_lossy(bytes: &[u8]) -> (text: String)
    ensures
        text@ == (if valid_utf8(bytes@) {
            decode_utf8(bytes@)
        } else {
            utf8_lossy(bytes@)
        }),
{
    String::from_utf8_lossy(bytes).into_owned()
}

/// Decodes a byte string for display, replacing what is not UTF-8.
pub fn to_string_lossy(bytes: &[u8]) -> (text: String)
    ensures
        text@ == decoded(bytes@),
{
    from_utf8_lossy(bytes)
}

/// The text of a string of the engine: nothing behind the null pointer,
/// else the bytes up to the terminator, decoded.
pub open spec fn text_at(value: Option<Vec<u8>>) -> Seq<char> {
    match value {
        Some(bytes) => decoded(c_string_at(Some(bytes@))),
        None => Seq::empty(),
    }
}

/// Decodes a string of the engine.
pub fn read_text(value: &Option<Vec<u8>>) -> (text: String)
    ensures
        text@ == text_at(*value),
{
    match value {
        Some(bytes) => {
            let cut = copy_until_nul(bytes.as_slice());
            to_string_lossy(cut.as_slice())
        },
        None => String::new(),
    }
}

/// Text that went to bytes and came back is unchanged.
pub proof fn lemma_decoded_of_encoded(chars: Seq<char>)
    ensures
        valid_utf8(encode_utf8(chars)),
        decoded(encode_utf8(chars)) == chars,
{
    encode_utf8_valid_utf8(chars);
    encode_utf8_decode_utf8(chars);
}

} // verus!
