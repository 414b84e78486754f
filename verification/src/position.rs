//! Source positions: rows and columns of byte offsets, spans, and values that
//! carry the range of text they were built from.

use vstd::prelude::*;
use vstd::string::StringSliceAdditionalSpecFns;
use vstd::utf8::is_char_boundary;
use vstd::utf8::is_continuation_byte;

verus! {

/// A position in the source text: 1-based row and column.
#[derive(Debug, Clone, Copy, PartialEq, Eq, PartialOrd, Ord, Structural)]
pub struct Location {
    /// Line number, starting at 1.
    pub row: usize,
    /// Column number counted in characters, starting at 1.
    pub col: usize,
}

/// The row of the position that follows `prefix`: one more than the number
/// of line feeds in it.
pub open spec fn row_of(prefix: Seq<u8>) -> nat
    decreases prefix.len(),
{
    if prefix.len() == 0 {
        1
    } else if prefix.last() == 0x0Au8 {
        row_of(prefix.drop_last()) + 1
    } else {
        row_of(prefix.drop_last())
    }
}

/// The column of the position that follows `prefix`: one more than the
/// number of characters after its last line feed. A character is counted at
/// its first byte, so continuation bytes add nothing.
pub open spec fn col_of(prefix: Seq<u8>) -> nat
    decreases prefix.len(),
{
    if prefix.len() == 0 {
        1
    } else if prefix.last() == 0x0Au8 {
        1
    } else if is_continuation_byte(prefix.last()) {
        col_of(prefix.drop_last())
    } else {
        col_of(prefix.drop_last()) + 1
    }
}

/// The location of byte offset `pos` in a text with bytes `bytes`.
#[verifier::opaque]
pub open spec fn loc_at(bytes: Seq<u8>, pos: int) -> Location {
    Location { row: row_of(bytes.take(pos)) as usize, col: col_of(bytes.take(pos)) as usize }
}

/// Neither coordinate of a position exceeds the offset by more than one.
pub proof fn lemma_row_col_bounds(prefix: Seq<u8>)
    ensures
        1 <= row_of(prefix) <= prefix.len() + 1,
        1 <= col_of(prefix) <= prefix.len() + 1,
    decreases prefix.len(),
{
    if prefix.len() > 0 {
        lemma_row_col_bounds(prefix.drop_last());
    }
}

/// Positions grow with offsets: a later offset never has an earlier row, and
/// within one row never an earlier column.
pub proof fn lemma_position_monotone(bytes: Seq<u8>, p: int, q: int)
    requires
        0 <= p <= q <= bytes.len(),
    ensures
        row_of(bytes.take(p)) < row_of(bytes.take(q)) || (row_of(bytes.take(p)) == row_of(
            bytes.take(q),
        ) && col_of(bytes.take(p)) <= col_of(bytes.take(q))),
    decreases q - p,
{
    if p < q {
        lemma_position_monotone(bytes, p, q - 1);
        assert(bytes.take(q).drop_last() =~= bytes.take(q - 1));
        lemma_row_col_bounds(bytes.take(q - 1));
    }
}

impl Location {
    /// Row-major order on locations.
    pub open spec fn at_or_before(self, other: Location) -> bool {
        self.row < other.row || (self.row == other.row && self.col <= other.col)
    }

    /// Whether `self` comes at or before `other` in the text.
    pub fn precedes(&self, other: &Location) -> (b: bool)
        ensures
            b == self.at_or_before(*other),
    {
        self.row < other.row || (self.row == other.row && self.col <= other.col)
    }
}

/// In a text short enough for its offsets to be machine integers, locations
/// are ordered as the offsets they stand for.
pub proof fn lemma_loc_at_monotone(bytes: Seq<u8>, p: int, q: int)
    requires
        0 <= p <= q <= bytes.len(),
        bytes.len() < usize::MAX,
    ensures
        loc_at(bytes, p).at_or_before(loc_at(bytes, q)),
{
    reveal(loc_at);
    lemma_position_monotone(bytes, p, q);
    lemma_row_col_bounds(bytes.take(p));
    lemma_row_col_bounds(bytes.take(q));
}

/// Row and column of a byte offset, computed by `pest::Position::new`
/// followed by `pest::Position::line_col`.
///
/// Trusted: `Position::new` yields a position exactly when the offset is in
/// range and on a character boundary. `line_col` then walks the characters
/// before the offset, starting from `(1, 1)`: a line feed (alone or after a
/// carriage return) moves to column 1 of the next row, every other character
/// moves one column to the right.
#[verifier::external_body]
fn line_col(text: &str, pos: usize) -> (rc: Option<(usize, usize)>)
    ensures
        rc is Some <==> is_char_boundary(text.spec_bytes(), pos as int),
        rc matches Some(p) ==> p.0 == row_of(text.spec_bytes().take(pos as int)) && p.1 == col_of(
            text.spec_bytes().take(pos as int),
        ),
{
    match pest::Position::new(text, pos) {
        Some(p) => Some(p.line_col()),
        None => None,
    }
}

/// A range of a source text, from byte offset `start` up to `end`.
#[derive(Debug, Clone, Copy)]
pub struct Span<'i> {
    /// The whole text.
    pub input: &'i str,
    /// Offset of the first byte of the range.
    pub start: usize,
    /// Offset just behind the last byte of the range.
    pub end: usize,
}

impl<'i> Span<'i> {
    /// Whether the span lies in its text and both ends fall between
    /// characters.
    pub open spec fn valid(self) -> bool {
        &&& self.start <= self.end
        &&& is_char_boundary(self.input.spec_bytes(), self.start as int)
        &&& is_char_boundary(self.input.spec_bytes(), self.end as int)
    }

    /// Location of the first byte.
    pub open spec fn start_loc(self) -> Location {
        loc_at(self.input.spec_bytes(), self.start as int)
    }

    /// Location just behind the last byte.
    pub open spec fn end_loc(self) -> Location {
        loc_at(self.input.spec_bytes(), self.end as int)
    }
}

/// A syntax element together with the range of source text it was built
/// from.
#[derive(Debug, PartialEq)]
pub struct Ranged<T> {
    /// The element itself.
    pub body: T,
    /// Where the element starts.
    pub start: Location,
    /// Where the element ends.
    pub end: Location,
}

/// Whether the range of `r` lies in `lo..hi` and does not end before it
/// starts.
pub open spec fn within<V>(r: Ranged<V>, lo: Location, hi: Location) -> bool {
    lo.at_or_before(r.start) && r.start.at_or_before(r.end) && r.end.at_or_before(hi)
}

impl<T> Ranged<T> {
    /// Attaches to `body` the locations of the two ends of `span`. There is
    /// a result exactly for a valid span, and then its start does not come
    /// after its end.
    pub fn wrap(body: T, span: &Span<'_>) -> (r: Option<Ranged<T>>)
        ensures
            r is Some <==> span.valid(),
            r matches Some(v) ==> v.body == body && v.start == span.start_loc() && v.end
                == span.end_loc() && v.start.at_or_before(v.end),
    {
        proof {
            reveal(loc_at);
        }
        if span.start > span.end {
            return None;
        }
        match line_col(span.input, span.start) {
            None => None,
            Some(s) => match line_col(span.input, span.end) {
                None => None,
                Some(e) => {
                    proof {
                        let bytes = span.input.spec_bytes();
                        vstd::utf8::encode_utf8_valid_utf8(span.input@);
                        lemma_boundary_in_range(bytes, span.end as int);
                        lemma_position_monotone(bytes, span.start as int, span.end as int);
                    }
                    Some(
                        Ranged {
                            body,
                            start: Location { row: s.0, col: s.1 },
                            end: Location { row: e.0, col: e.1 },
                        },
                    )
                },
            },
        }
    }
}

/// A character boundary of a well-formed text lies within it.
pub proof fn lemma_boundary_in_range(bytes: Seq<u8>, pos: int)
    requires
        vstd::utf8::valid_utf8(bytes),
        is_char_boundary(bytes, pos),
    ensures
        0 <= pos <= bytes.len(),
    decreases bytes.len(),
{
    if pos != 0 {
        if bytes.len() > 0 {
            let rest = vstd::utf8::pop_first_scalar(bytes);
            let k = vstd::utf8::length_of_first_scalar(bytes);
            assert(is_char_boundary(rest, pos - k));
            lemma_boundary_in_range(rest, pos - k);
        }
    }
}

} // verus!
