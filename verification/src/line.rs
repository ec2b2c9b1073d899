//! Line framing: how a raw byte stream is cut into lines and how the
//! terminator is stripped from a line's content.
//!
//! A line is terminated by a line feed, optionally preceded by a carriage
//! return; neither byte is part of the line's content. A stream that ends
//! without a terminator yields its remaining bytes as one unterminated
//! line.

use vstd::prelude::*;

verus! {

/// The line feed byte that terminates a line.
pub const LINE_FEED: u8 = 10;

/// The carriage return byte that may precede the line feed.
pub const CARRIAGE_RETURN: u8 = 13;

/// A raw consumed line: a line feed may stand only as its last byte.
pub open spec fn line_shaped(raw: Seq<u8>) -> bool {
    forall|i: int| 0 <= i < raw.len() - 1 ==> raw[i] != LINE_FEED
}

/// The content of a raw line: the line itself with one trailing
/// terminator (a line feed, or a carriage return followed by a line feed)
/// removed. Bytes before the terminator are kept as they are.
pub open spec fn strip_terminator(raw: Seq<u8>) -> Seq<u8> {
    if raw.len() >= 2 && raw[raw.len() - 2] == CARRIAGE_RETURN && raw[raw.len() - 1]
        == LINE_FEED {
        raw.take(raw.len() - 2)
    } else if raw.len() >= 1 && raw[raw.len() - 1] == LINE_FEED {
        raw.take(raw.len() - 1)
    } else {
        raw
    }
}

/// A line's returned content never includes a line terminator: stripping
/// any raw line whose only line feed stands at its end yields content free
/// of line feeds.
pub proof fn lemma_line_has_no_terminator(raw: Seq<u8>)
    requires
        line_shaped(raw),
    ensures
        forall|i: int| 0 <= i < strip_terminator(raw).len() ==> strip_terminator(raw)[i]
            != LINE_FEED,
{
}

/// Framing round trip: a payload free of line feeds, framed with either
/// line terminator and then stripped, is recovered exactly. Framing with a
/// bare line feed requires the payload not to end in a carriage return,
/// which would otherwise be taken for part of the terminator.
pub proof fn lemma_line_round_trip(content: Seq<u8>)
    requires
        forall|i: int| 0 <= i < content.len() ==> content[i] != LINE_FEED,
        content.len() == 0 || content[content.len() - 1] != CARRIAGE_RETURN,
    ensures
        strip_terminator(content + seq![LINE_FEED]) == content,
        strip_terminator(content + seq![CARRIAGE_RETURN, LINE_FEED]) == content,
{
    assert(strip_terminator(content + seq![LINE_FEED]) =~= content);
    assert(strip_terminator(content + seq![CARRIAGE_RETURN, LINE_FEED]) =~= content);
}

/// Finds the first line feed in `v` at or after `from`.
pub(crate) fn find_line_feed(v: &Vec<u8>, from: usize) -> (r: Option<usize>)
    requires
        from <= v@.len(),
    ensures
        match r {
            Some(j) => from <= j < v@.len() && v@[j as int] == LINE_FEED && (forall|i: int|
                from <= i < j ==> v@[i] != LINE_FEED),
            None => forall|i: int| from <= i < v@.len() ==> v@[i] != LINE_FEED,
        },
{
    let mut j = from;
    while j < v.len()
        invariant
            from <= j <= v@.len(),
            forall|i: int| from <= i < j ==> v@[i] != LINE_FEED,
        decreases v@.len() - j,
    {
        if v[j] == LINE_FEED {
            return Some(j);
        }
        j = j + 1;
    }
    None
}

/// Strips one trailing line terminator from a raw line, returning the
/// line's content.
pub fn strip_line_terminator(raw: &[u8]) -> (r: Vec<u8>)
    ensures
        r@ == strip_terminator(raw@),
{
    let n = raw.len();
    let keep: usize = if n >= 2 && *vstd::slice::slice_index_get(raw, n - 2) == CARRIAGE_RETURN
        && *vstd::slice::slice_index_get(raw, n - 1) == LINE_FEED {
        n - 2
    } else if n >= 1 && *vstd::slice::slice_index_get(raw, n - 1) == LINE_FEED {
        n - 1
    } else {
        n
    };
    let content = vstd::slice::slice_to_vec(vstd::slice::slice_subrange(raw, 0, keep));
    assert(content@ =~= strip_terminator(raw@));
    content
}

} // verus!
