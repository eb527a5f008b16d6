//! The output-framing algorithm. One "turn" of subprocess output is the raw
//! byte stream up to and including the first occurrence of the terminator
//! byte; the content handed to a caller is the decoded text of that stream
//! minus the trailing prompt region, whose last character is the terminator.

use vstd::prelude::*;
use vstd::string::StrSliceExecFns;

use crate::subprocess_control::ProcInfo;
use crate::types::{RouteError, RouteResponse};

verus! {

/// What `String::from_utf8_lossy` returns for a byte sequence: the decoded
/// text with every invalid sequence replaced by the replacement character.
pub uninterp spec fn lossy_of(b: Seq<u8>) -> Seq<char>;

/// The byte `t` is the last element of `b` and occurs nowhere else: the
/// shape of a read that stopped at the first occurrence of a terminator.
pub open spec fn ends_with_only(b: Seq<u8>, t: u8) -> bool {
    &&& b.len() > 0
    &&& b[b.len() - 1] == t
    &&& forall|i: int| 0 <= i < b.len() - 1 ==> b[i] != t
}

/// The character `c` is the last element of `s` and occurs nowhere else.
pub open spec fn ends_with_only_char(s: Seq<char>, c: char) -> bool {
    &&& s.len() > 0
    &&& s[s.len() - 1] == c
    &&& forall|i: int| 0 <= i < s.len() - 1 ==> s[i] != c
}

/// The decoded text with its trailing `term_len + 1` characters removed.
pub open spec fn frame_of(s: Seq<char>, term_len: nat) -> Seq<char> {
    s.subrange(0, s.len() - (term_len + 1))
}

/// The shape of a buffer returned by a read that stops at the first
/// occurrence of the terminator byte: `t` occurs nowhere but in the last
/// position (a read that hit the end of the stream may not hold it at all).
pub open spec fn read_shape(b: Seq<u8>, t: u8) -> bool {
    forall|i: int| 0 <= i < b.len() - 1 ==> b[i] != t
}

/// One framed turn against the program described by `info`: `out` is the
/// content that framing hands to the caller for the bytes `b`, read up to
/// the program's terminator.
pub open spec fn framed_turn(b: Seq<u8>, info: ProcInfo, out: Seq<char>) -> bool {
    &&& read_shape(b, info.term_byte())
    &&& lossy_of(b).len() > info.term_len
    &&& out == frame_of(lossy_of(b), info.term_len as nat)
}

/// Decodes raw subprocess output, substituting the replacement character for
/// invalid byte sequences, so that untrusted binary-adjacent output never
/// makes decoding fail.
///
/// Relies on `String::from_utf8_lossy`: valid UTF-8 passes through unchanged
/// and each invalid sequence becomes U+FFFD. Every byte of a valid multi-byte
/// sequence is 0x80 or above and U+FFFD is not an ASCII character, so a
/// character below 0x80 in the result stands exactly for the equal input
/// byte, in order; in particular, when an ASCII byte is the last byte of the
/// input and occurs nowhere else, the equal character is the last character
/// of the result and occurs nowhere else.
#[verifier::external_body]
pub(crate) fn lossy_decode(b: &Vec<u8>) -> (r: String)
    ensures
        r@ == lossy_of(b@),
        b@.len() == 0 ==> r@.len() == 0,
        forall|t: u8| t < 128 && ends_with_only(b@, t) ==> ends_with_only_char(r@, t as char),
{
    String::from_utf8_lossy(b).into_owned()
}

/// Removes the trailing prompt region (`term_len + 1` characters, the last
/// of which is the terminator) from one decoded turn of output. A turn
/// shorter than the region it declares is rejected as a framing violation
/// instead of being sliced.
pub fn frame_content(decoded: &String, term_len: usize) -> (r: RouteResponse)
    ensures
        decoded@.len() > term_len ==> (r matches Ok(out) && out@ == frame_of(decoded@, term_len as nat)),
        decoded@.len() <= term_len ==> (r matches Err(e) && e is FramingError),
{
    let n = decoded.as_str().unicode_len();
    if n > term_len {
        Ok(decoded.as_str().substring_char(0, n - term_len - 1).to_owned())
    } else {
        Err(RouteError::FramingError)
    }
}

/// Frames one raw turn of output: decodes the bytes lossily and strips the
/// trailing prompt region. Invalid byte sequences never make a turn fail;
/// only a turn shorter than its prompt region does.
pub fn frame_bytes(raw: &Vec<u8>, term_len: usize) -> (r: RouteResponse)
    ensures
        lossy_of(raw@).len() > term_len ==> (r matches Ok(out) && out@ == frame_of(
            lossy_of(raw@),
            term_len as nat,
        )),
        lossy_of(raw@).len() <= term_len ==> (r matches Err(e) && e is FramingError),
        raw@.len() == 0 ==> (r matches Err(e) && e is FramingError),
        forall|t: u8|
            t < 128 && ends_with_only(raw@, t) ==> ends_with_only_char(
                lossy_of(raw@),
                t as char,
            ),
{
    let decoded = lossy_decode(raw);
    frame_content(&decoded, term_len)
}

/// Framing always strips the whole prompt region and with it the terminator:
/// for every decoded turn that ends in the terminator character and contains
/// it nowhere else, the framed content is exactly `term_len + 1` characters
/// shorter than the decoded text and never contains the terminator.
pub proof fn lemma_frame_strips_terminator(s: Seq<char>, term_len: nat, c: char)
    requires
        s.len() > term_len,
        ends_with_only_char(s, c),
    ensures
        frame_of(s, term_len).len() == s.len() - (term_len + 1),
        !frame_of(s, term_len).contains(c),
{
    let f = frame_of(s, term_len);
    assert forall|i: int| 0 <= i < f.len() implies f[i] != c by {
        assert(f[i] == s[i]);
    }
}

} // verus!
