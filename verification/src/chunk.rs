//! Best-effort text handling of raw byte chunks.
//!
//! The wire carries an unframed byte stream: one receive operation may span
//! zero, one, or many intended lines, and a line may span several receives.
//! A logical message is therefore whatever one receive returned, decoded as
//! UTF-8, lossily on the client side, with one trailing newline trimmed if
//! present. The hub never decodes for its peers: it only checks that a chunk
//! decodes strictly, drops the chunk if it does not, and otherwise relays the
//! original bytes unchanged.

use vstd::prelude::*;

verus! {

/// What `String::from_utf8_lossy` yields on the given bytes; it depends on
/// the bytes alone.
pub uninterp spec fn lossy_chars(b: Seq<u8>) -> Seq<char>;

/// Whether the given bytes are valid UTF-8, as `core::str::from_utf8`
/// decides it.
pub uninterp spec fn utf8_valid(b: Seq<u8>) -> bool;

/// The bytes of a chunk with one trailing newline byte (10) removed, if one
/// is present.
pub open spec fn trim_newline(b: Seq<u8>) -> Seq<u8> {
    if b.len() > 0 && b.last() == 10u8 {
        b.drop_last()
    } else {
        b
    }
}

/// The text line a received chunk becomes on the client: lossy UTF-8 decode
/// with one trailing newline trimmed.
pub open spec fn chunk_text(b: Seq<u8>) -> Seq<char> {
    lossy_chars(trim_newline(b))
}

/// Relies on `String::from_utf8_lossy`: its result is a function of the
/// bytes alone, and an empty input yields an empty string.
#[verifier::external_body]
fn lossy_decode(b: &Vec<u8>) -> (r: String)
    ensures
        r@ == lossy_chars(b@),
        b@.len() == 0 ==> r@.len() == 0,
{
    String::from_utf8_lossy(b.as_slice()).into_owned()
}

/// Relies on `core::str::from_utf8`: it returns `Ok` exactly when the bytes
/// are valid UTF-8.
#[verifier::external_body]
fn utf8_check(b: &Vec<u8>) -> (r: bool)
    ensures
        r == utf8_valid(b@),
{
    core::str::from_utf8(b.as_slice()).is_ok()
}

/// A copy of the chunk with one trailing newline byte removed, if present.
pub fn trim_chunk(chunk: &Vec<u8>) -> (r: Vec<u8>)
    ensures
        r@ == trim_newline(chunk@),
{
    let n = chunk.len();
    let keep: usize = if n > 0 && chunk[n - 1] == 10u8 {
        n - 1
    } else {
        n
    };
    proof {
        assert(trim_newline(chunk@) =~= chunk@.take(keep as int));
    }
    let mut out: Vec<u8> = Vec::new();
    let mut i: usize = 0;
    while i < keep
        invariant
            i <= keep,
            keep <= chunk@.len(),
            out@ == chunk@.take(i as int),
        decreases keep - i,
    {
        out.push(chunk[i]);
        proof {
            assert(chunk@.take(i + 1) =~= chunk@.take(i as int).push(chunk@[i as int]));
        }
        i = i + 1;
    }
    out
}

/// The client-side decode of one received chunk: the line it will show.
pub fn message_from_chunk(chunk: &Vec<u8>) -> (m: String)
    ensures
        m@ == chunk_text(chunk@),
{
    let trimmed = trim_chunk(chunk);
    lossy_decode(&trimmed)
}

/// The hub's per-chunk decision: a chunk that decodes as UTF-8 is relayed
/// with its bytes unchanged; one that does not is dropped without
/// disconnecting the sender.
pub fn relay_payload(chunk: Vec<u8>) -> (r: Option<Vec<u8>>)
    ensures
        utf8_valid(chunk@) ==> (r matches Some(p) && p@ == chunk@),
        !utf8_valid(chunk@) ==> r is None,
{
    if utf8_check(&chunk) {
        Some(chunk)
    } else {
        None
    }
}

} // verus!
