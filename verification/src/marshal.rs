//! Text on its way across the boundary.
//!
//! The host holds text as a run of bytes closed by a zero byte; the engine
//! holds it as a string. A foreign buffer is read up to its first zero byte,
//! and what follows that byte is never looked at.

use vstd::prelude::*;
use vstd::slice::{slice_subrange, slice_to_vec};
use vstd::string::StrSliceExecFns;
use vstd::utf8::{
    decode_utf8, decode_utf8_encode_utf8, encode_utf8, encode_utf8_decode_utf8,
    encode_utf8_valid_utf8, valid_utf8,
};

verus! {

/// Why a text could not cross the boundary.
#[derive(Clone, Copy, Debug, PartialEq, Eq, Structural)]
pub enum EncodingError {
    /// The text holds a zero byte, which would end it early on the other side.
    InteriorNul,
    /// The foreign buffer holds no zero byte, so the text has no end.
    MissingTerminator,
    /// The foreign bytes before the terminator are not UTF-8.
    InvalidUtf8,
}

/// No byte of the run is zero.
pub open spec fn nul_free(bytes: Seq<u8>) -> bool {
    forall|i: int| 0 <= i < bytes.len() ==> bytes[i] != 0u8
}

/// `at` is where the first zero byte of `bytes` stands.
pub open spec fn is_terminator(bytes: Seq<u8>, at: int) -> bool {
    &&& 0 <= at < bytes.len()
    &&& bytes[at] == 0u8
    &&& nul_free(bytes.take(at))
}

/// Where the first zero byte of `bytes` stands, if there is one.
pub open spec fn terminator_of(bytes: Seq<u8>) -> int {
    choose|at: int| is_terminator(bytes, at)
}

/// What a foreign buffer holds: its bytes before the first zero byte, or all
/// of them where there is none.
pub open spec fn content_of(bytes: Seq<u8>) -> Seq<u8> {
    if nul_free(bytes) {
        bytes
    } else {
        bytes.take(terminator_of(bytes))
    }
}

/// The foreign form of a text: its UTF-8 bytes and a closing zero byte.
pub open spec fn foreign_form(text: Seq<char>) -> Result<Seq<u8>, EncodingError> {
    if nul_free(encode_utf8(text)) {
        Ok(encode_utf8(text).push(0u8))
    } else {
        Err(EncodingError::InteriorNul)
    }
}

/// The text that a foreign buffer holds: what its bytes before the first zero
/// byte decode to.
pub open spec fn foreign_text(bytes: Seq<u8>) -> Result<Seq<char>, EncodingError> {
    if nul_free(bytes) {
        Err(EncodingError::MissingTerminator)
    } else if valid_utf8(content_of(bytes)) {
        Ok(decode_utf8(content_of(bytes)))
    } else {
        Err(EncodingError::InvalidUtf8)
    }
}

/// A cursor position as the host's 32-bit signed integer: its low 32 bits.
pub open spec fn c_int_of(position: usize) -> i32 {
    let low = position as int % 0x1_0000_0000;
    if low < 0x8000_0000 {
        low as i32
    } else {
        (low - 0x1_0000_0000) as i32
    }
}

/// An offset that the host gave as a 32-bit signed integer: itself where it
/// is not negative, else counted back from one past the largest offset.
pub open spec fn offset_of(start: i32) -> usize {
    if start >= 0 {
        start as usize
    } else {
        (usize::MAX + 1 + start) as usize
    }
}

/// What lossy decoding makes of a run of bytes: the text itself where the
/// bytes are UTF-8, else a text in which U+FFFD stands for what was not.
pub uninterp spec fn lossy_text(bytes: Seq<u8>) -> Seq<char>;

/// `String::from_utf8`, with its error reduced to `None`: it accepts exactly
/// the UTF-8 byte runs, and the string it gives back decodes those bytes.
#[verifier::external_body]
fn decode_strict(bytes: Vec<u8>) -> (r: Option<String>)
    ensures
        r is Some <==> valid_utf8(bytes@),
        r matches Some(text) ==> text@ == decode_utf8(bytes@),
{
    String::from_utf8(bytes).ok()
}

/// `String::from_utf8_lossy`, made an owned string: it never fails, and on
/// UTF-8 input it gives back the text unchanged.
#[verifier::external_body]
pub(crate) fn decode_lossy(bytes: &[u8]) -> (text: String)
    ensures
        text@ == lossy_text(bytes@),
        valid_utf8(bytes@) ==> text@ == decode_utf8(bytes@),
{
    String::from_utf8_lossy(bytes).into_owned()
}

/// A buffer has at most one first zero byte.
pub proof fn lemma_terminator_unique(bytes: Seq<u8>, a: int, b: int)
    requires
        is_terminator(bytes, a),
        is_terminator(bytes, b),
    ensures
        a == b,
{
    if a < b {
        assert(bytes.take(b)[a] == bytes[a]);
    } else if b < a {
        assert(bytes.take(a)[b] == bytes[b]);
    }
}

/// A terminator excludes a buffer without zero bytes, and fixes `terminator_of`.
pub proof fn lemma_terminator_found(bytes: Seq<u8>, at: int)
    requires
        is_terminator(bytes, at),
    ensures
        !nul_free(bytes),
        terminator_of(bytes) == at,
{
    lemma_terminator_unique(bytes, at, terminator_of(bytes));
}

/// Looks for the first zero byte.
pub fn find_nul(bytes: &[u8]) -> (r: Option<usize>)
    ensures
        r matches Some(at) ==> is_terminator(bytes@, at as int),
        r is None <==> nul_free(bytes@),
{
    let mut i: usize = 0;
    while i < bytes.len()
        invariant
            i <= bytes.len(),
            nul_free(bytes@.take(i as int)),
        decreases bytes.len() - i,
    {
        if bytes[i] == 0 {
            proof {
                lemma_terminator_found(bytes@, i as int);
            }
            return Some(i);
        }
        proof {
            let seen = bytes@.take(i + 1);
            assert forall|j: int| 0 <= j < seen.len() implies seen[j] != 0u8 by {
                if j < i {
                    assert(bytes@.take(i as int)[j] == bytes@[j]);
                }
            }
        }
        i += 1;
    }
    assert(bytes@.take(i as int) =~= bytes@);
    None
}

/// Tells whether the text holds a zero byte.
pub fn has_nul(text: &str) -> (r: bool)
    ensures
        r == !nul_free(encode_utf8(text@)),
{
    find_nul(text.as_bytes()).is_some()
}

/// Brings a text into its foreign form: its bytes, then a zero byte.
/// A text that holds a zero byte has no foreign form.
pub fn to_foreign(text: &str) -> (r: Result<Vec<u8>, EncodingError>)
    ensures
        r matches Ok(bytes) ==> foreign_form(text@) == Ok::<Seq<u8>, EncodingError>(bytes@),
        r matches Err(e) ==> foreign_form(text@) == Err::<Seq<u8>, EncodingError>(e),
{
    if has_nul(text) {
        Err(EncodingError::InteriorNul)
    } else {
        let mut bytes = text.as_bytes_vec();
        bytes.push(0);
        Ok(bytes)
    }
}

/// Reads the text out of a foreign buffer: the bytes before its first zero
/// byte, which must be UTF-8.
pub fn c_chars_to_str(c_chars: &[u8]) -> (r: Result<String, EncodingError>)
    ensures
        r matches Ok(text) ==> foreign_text(c_chars@) == Ok::<Seq<char>, EncodingError>(text@),
        r matches Err(e) ==> foreign_text(c_chars@) == Err::<Seq<char>, EncodingError>(e),
{
    match find_nul(c_chars) {
        None => Err(EncodingError::MissingTerminator),
        Some(at) => {
            proof {
                lemma_terminator_found(c_chars@, at as int);
            }
            let held = slice_to_vec(slice_subrange(c_chars, 0, at));
            assert(held@ =~= c_chars@.take(at as int));
            match decode_strict(held) {
                Some(text) => Ok(text),
                None => Err(EncodingError::InvalidUtf8),
            }
        },
    }
}

/// What a foreign buffer holds: its bytes before the first zero byte, or all
/// of them where there is none.
pub fn content(c_chars: &[u8]) -> (r: &[u8])
    ensures
        r@ == content_of(c_chars@),
{
    match find_nul(c_chars) {
        None => c_chars,
        Some(at) => {
            proof {
                lemma_terminator_found(c_chars@, at as int);
            }
            let r = slice_subrange(c_chars, 0, at);
            assert(r@ =~= c_chars@.take(at as int));
            r
        },
    }
}

/// Reads the text out of a foreign buffer without ever failing: what the
/// buffer holds, decoded lossily.
pub fn c_chars_to_string_lossy(c_chars: &[u8]) -> (text: String)
    ensures
        text@ == lossy_text(content_of(c_chars@)),
        valid_utf8(content_of(c_chars@)) ==> text@ == decode_utf8(content_of(c_chars@)),
{
    decode_lossy(content(c_chars))
}

/// The cursor position as the host's 32-bit signed integer.
pub fn c_int_from(position: usize) -> (r: i32)
    ensures
        r == c_int_of(position),
{
    let low: u64 = (position as u64) % 4294967296;
    if low < 2147483648 {
        low as i32
    } else {
        (low as i64 - 4294967296) as i32
    }
}

/// The offset that the host gave as a 32-bit signed integer.
pub fn offset_from(start: i32) -> (r: usize)
    ensures
        r == offset_of(start),
{
    if start >= 0 {
        start as usize
    } else {
        usize::MAX - ((-(start + 1)) as usize)
    }
}

/// A text without zero bytes comes back unchanged from its foreign form.
pub proof fn lemma_text_round_trip(text: Seq<char>)
    requires
        nul_free(encode_utf8(text)),
    ensures
        foreign_form(text) is Ok,
        foreign_text(foreign_form(text)->Ok_0) == Ok::<Seq<char>, EncodingError>(text),
{
    let held = encode_utf8(text);
    let bytes = held.push(0u8);
    assert(bytes.take(held.len() as int) =~= held);
    lemma_terminator_found(bytes, held.len() as int);
    encode_utf8_valid_utf8(text);
    encode_utf8_decode_utf8(text);
}

/// A foreign buffer that ends with its terminator and holds UTF-8 comes back
/// unchanged when its text is brought into foreign form again.
pub proof fn lemma_foreign_round_trip(bytes: Seq<u8>)
    requires
        is_terminator(bytes, bytes.len() - 1),
        valid_utf8(bytes.take(bytes.len() - 1)),
    ensures
        foreign_text(bytes) is Ok,
        foreign_form(foreign_text(bytes)->Ok_0) == Ok::<Seq<u8>, EncodingError>(bytes),
{
    let held = bytes.take(bytes.len() - 1);
    lemma_terminator_found(bytes, bytes.len() - 1);
    decode_utf8_encode_utf8(held);
    assert(held.push(0u8) =~= bytes);
}

} // verus!
