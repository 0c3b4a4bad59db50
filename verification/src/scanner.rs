//! Locating the end of the header that leads a buffer.
//!
//! A header is a brace-delimited JSON object and nothing precedes it, so its
//! end is found by looking for its closing brace. The scan is deliberately
//! naive: it takes the first closing brace after the opening one, whatever
//! surrounds it. A closing brace inside a string of the header, or a nested
//! object in the header, therefore cuts the header short. Peers rely on this
//! behaviour, so it is kept; a header must not hold a closing brace other than
//! its last byte.

use vstd::prelude::*;

verus! {

/// The byte `{`.
pub const OPEN_BRACE: u8 = 0x7b;

/// The byte `}`.
pub const CLOSE_BRACE: u8 = 0x7d;

/// `end` is one past the first closing brace that follows the opening brace
/// at the start of `buf`.
pub open spec fn is_header_end(buf: Seq<u8>, end: int) -> bool {
    &&& 2 <= end <= buf.len()
    &&& buf[0] == OPEN_BRACE
    &&& buf[end - 1] == CLOSE_BRACE
    &&& forall|i: int| 1 <= i < end - 1 ==> buf[i] != CLOSE_BRACE
}

/// `buf` holds no whole header: it does not open with a brace, or no closing
/// brace follows the opening one.
pub open spec fn lacks_header_end(buf: Seq<u8>) -> bool {
    ||| buf.len() == 0
    ||| buf[0] != OPEN_BRACE
    ||| forall|i: int| 1 <= i < buf.len() ==> buf[i] != CLOSE_BRACE
}

/// The end of the header that leads `buf`, if `buf` holds a whole one.
pub open spec fn header_end(buf: Seq<u8>) -> Option<int> {
    if exists|end: int| is_header_end(buf, end) {
        Some(choose|end: int| is_header_end(buf, end))
    } else {
        None
    }
}

/// A buffer has at most one header end.
pub proof fn lemma_header_end_unique(buf: Seq<u8>, a: int, b: int)
    requires
        is_header_end(buf, a),
        is_header_end(buf, b),
    ensures
        a == b,
{
    if a < b {
        assert(buf[a - 1] != CLOSE_BRACE);
    } else if b < a {
        assert(buf[b - 1] != CLOSE_BRACE);
    }
}

/// Whoever exhibits a header end has exhibited the header end.
pub proof fn lemma_header_end_is(buf: Seq<u8>, end: int)
    requires
        is_header_end(buf, end),
    ensures
        header_end(buf) == Some(end),
{
    let chosen = choose|e: int| is_header_end(buf, e);
    lemma_header_end_unique(buf, chosen, end);
}

/// Finds the end (exclusive) of the header that leads `buf`.
///
/// Returns `None` when `buf` does not start with an opening brace or holds no
/// closing brace after it: more bytes are needed. The offset returned is never
/// zero, since the two braces themselves are part of the header.
pub fn find_json_delimiter(buf: &[u8]) -> (r: Option<usize>)
    ensures
        match r {
            Some(end) => is_header_end(buf@, end as int),
            None => lacks_header_end(buf@),
        },
        r matches Some(end) ==> header_end(buf@) == Some(end as int),
        r is None ==> header_end(buf@) is None,
{
    if buf.len() == 0 || buf[0] != OPEN_BRACE {
        return None;
    }
    let mut count: usize = 1;
    while count < buf.len()
        invariant
            1 <= count <= buf.len(),
            buf@[0] == OPEN_BRACE,
            forall|i: int| 1 <= i < count ==> buf@[i] != CLOSE_BRACE,
        decreases buf.len() - count,
    {
        let b = buf[count];
        count += 1;
        if b == CLOSE_BRACE {
            proof {
                lemma_header_end_is(buf@, count as int);
            }
            return Some(count);
        }
    }
    proof {
        assert forall|end: int| !is_header_end(buf@, end) by {
            if is_header_end(buf@, end) {
                assert(buf@[end - 1] != CLOSE_BRACE);
            }
        }
    }
    None
}

} // verus!
