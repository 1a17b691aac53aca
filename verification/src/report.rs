//! Rendering a captured log for display.
//!
//! Each captured chunk is decoded as strict UTF-8: a valid chunk yields its
//! text, an invalid one yields a fixed non-text marker. Rendering is pure
//! and order-preserving, decode failures are per-chunk and never abort the
//! rest, and the log itself is read through a reference and left untouched.

use vstd::prelude::*;

verus! {

/// What strict UTF-8 decoding makes of a byte sequence: its text when the
/// bytes are valid UTF-8, nothing otherwise. The decoding is a function of
/// the bytes alone; [`decode_utf8`] realizes it.
pub uninterp spec fn utf8_decoded(bytes: Seq<u8>) -> Option<Seq<char>>;

/// The marker text that stands in for a chunk that is not valid UTF-8.
pub open spec fn non_utf8_marker() -> Seq<char> {
    "Received non-UTF-8 data, unable to convert to string"@
}

/// Relies on std's `String::from_utf8`: it succeeds exactly on valid UTF-8
/// input, returns the decoded text, and depends on the bytes alone.
#[verifier::external_body]
fn decode_utf8(buffer: Vec<u8>) -> (r: Option<String>)
    ensures
        match r {
            Some(text) => utf8_decoded(buffer@) == Some(text@),
            None => utf8_decoded(buffer@) is None,
        },
{
    match String::from_utf8(buffer) {
        Ok(text) => Some(text),
        Err(_) => None,
    }
}

/// Decodes one captured chunk: the text it spells when it is valid UTF-8,
/// else the fixed non-text marker — success if and only if the bytes decode.
pub fn convert_buffer_to_string(buffer: Vec<u8>) -> (r: Result<String, String>)
    ensures
        match r {
            Ok(text) => utf8_decoded(buffer@) == Some(text@),
            Err(marker) => utf8_decoded(buffer@) is None && marker@ == non_utf8_marker(),
        },
{
    match decode_utf8(buffer) {
        Some(text) => Ok(text),
        None => Err(String::from_str("Received non-UTF-8 data, unable to convert to string")),
    }
}

/// How one rendered entry must relate to the chunk it came from.
pub open spec fn rendered_chunk(bytes: Seq<u8>, r: Result<String, String>) -> bool {
    match r {
        Ok(text) => utf8_decoded(bytes) == Some(text@),
        Err(marker) => utf8_decoded(bytes) is None && marker@ == non_utf8_marker(),
    }
}

/// Renders a whole captured log, one entry per chunk, in log order. The log
/// is only read: the caller keeps the original bytes untouched, so a chunk
/// that fails to decode is still present in the log even though its entry
/// only marks it as non-text.
pub fn render_log(log: &Vec<Vec<u8>>) -> (out: Vec<Result<String, String>>)
    ensures
        out@.len() == log@.len(),
        forall|i: int| 0 <= i < log@.len() ==> rendered_chunk(log@[i]@, #[trigger] out@[i]),
{
    let mut out: Vec<Result<String, String>> = Vec::new();
    let mut i: usize = 0;
    while i < log.len()
        invariant
            i <= log@.len(),
            out@.len() == i,
            forall|j: int| 0 <= j < i ==> rendered_chunk(log@[j]@, #[trigger] out@[j]),
        decreases log@.len() - i,
    {
        let chunk: Vec<u8> = log[i].clone();
        proof {
            assert(chunk@ =~= log@[i as int]@);
        }
        out.push(convert_buffer_to_string(chunk));
        i = i + 1;
    }
    out
}

} // verus!
