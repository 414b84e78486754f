//! Reading the text that a node covers.

use vstd::prelude::*;
use vstd::string::StringSliceAdditionalSpecFns;
use vstd::utf8::decode_utf8;
use vstd::utf8::is_char_boundary;
use vstd::utf8::valid_utf8;
use crate::position::lemma_boundary_in_range;
use crate::tree::Pair;
use crate::tree::Tree;

verus! {

/// Whether `start..end` is a range of the text with bytes `b` whose ends
/// fall between characters.
#[verifier::opaque]
pub open spec fn in_text(b: Seq<u8>, start: int, end: int) -> bool {
    start <= end && is_char_boundary(b, start) && is_char_boundary(b, end)
}

/// The characters that the bytes `start..end` of `b` encode.
#[verifier::opaque]
pub open spec fn text_between(b: Seq<u8>, start: int, end: int) -> Seq<char> {
    decode_utf8(b.subrange(start, end))
}

/// Whether the node covers a range of the text.
pub open spec fn covers(b: Seq<u8>, t: Tree) -> bool {
    in_text(b, t.start, t.end)
}

/// The text that the node covers.
pub open spec fn text_of(b: Seq<u8>, t: Tree) -> Seq<char> {
    text_between(b, t.start, t.end)
}

/// Whether the node covers exactly the bytes `word`.
pub open spec fn spells(b: Seq<u8>, t: Tree, word: Seq<u8>) -> bool {
    0 <= t.start <= t.end <= b.len() && b.subrange(t.start, t.end) == word
}

/// A character boundary of a text is one of every prefix that reaches it.
pub proof fn lemma_boundary_of_prefix(b: Seq<u8>, start: int, end: int)
    requires
        valid_utf8(b),
        in_text(b, start, end),
        valid_utf8(b.subrange(0, end)),
    ensures
        0 <= start <= end <= b.len(),
        is_char_boundary(b.subrange(0, end), start),
{
    reveal(in_text);
    lemma_boundary_in_range(b, start);
    lemma_boundary_in_range(b, end);
    let head = b.subrange(0, end);
    if start < end {
        vstd::utf8::is_char_boundary_iff_not_is_continuation_byte(b, start);
        vstd::utf8::is_char_boundary_iff_not_is_continuation_byte(head, start);
    } else {
        vstd::utf8::is_char_boundary_start_end_of_seq(head);
    }
}

/// The part of `text` from byte `start` up to `end`, where that is a range
/// of the text between characters.
pub fn slice_text<'a>(text: &'a str, start: usize, end: usize) -> (r: Option<&'a str>)
    ensures
        r is Some <==> in_text(text.spec_bytes(), start as int, end as int),
        r matches Some(s) ==> s@ == text_between(text.spec_bytes(), start as int, end as int)
            && s.spec_bytes() == text.spec_bytes().subrange(start as int, end as int),
{
    proof {
        reveal(in_text);
        reveal(text_between);
    }
    if start > end || !text.is_char_boundary(start) || !text.is_char_boundary(end) {
        return None;
    }
    let ghost b = text.spec_bytes();
    let (head, _) = text.split_at(end);
    proof {
        vstd::utf8::encode_utf8_valid_utf8(text@);
        vstd::utf8::encode_utf8_valid_utf8(head@);
        assert(head.spec_bytes() == b.subrange(0, end as int));
        lemma_boundary_of_prefix(b, start as int, end as int);
    }
    let (_, part) = head.split_at(start);
    proof {
        assert(part.spec_bytes() =~= b.subrange(start as int, end as int));
        vstd::utf8::encode_utf8_decode_utf8(part@);
    }
    Some(part)
}

/// Whether the node covers exactly the text `word`.
pub fn node_spells(text: &str, pair: &Pair, word: &str) -> (r: bool)
    ensures
        r == spells(text.spec_bytes(), pair@, word.spec_bytes()),
{
    let bytes = text.as_bytes();
    let w = word.as_bytes();
    if pair.start > pair.end || pair.end > bytes.len() || pair.end - pair.start != w.len() {
        proof {
            crate::tree::lemma_children_view(*pair);
        }
        return false;
    }
    proof {
        crate::tree::lemma_children_view(*pair);
    }
    let mut i: usize = 0;
    while i < w.len()
        invariant
            bytes@ == text.spec_bytes(),
            w@ == word.spec_bytes(),
            pair@.start == pair.start,
            pair@.end == pair.end,
            pair.start <= pair.end <= bytes@.len(),
            pair.end - pair.start == w@.len(),
            i <= w@.len(),
            forall|k: int| 0 <= k < i ==> bytes@[pair.start + k] == w@[k],
        decreases w@.len() - i,
    {
        if bytes[pair.start + i] != w[i] {
            proof {
                let sub = bytes@.subrange(pair.start as int, pair.end as int);
                assert(sub[i as int] == bytes@[pair.start + i]);
            }
            return false;
        }
        i = i + 1;
    }
    proof {
        assert(bytes@.subrange(pair.start as int, pair.end as int) =~= w@);
    }
    true
}

/// Whether a character is white space: the characters with the Unicode
/// property White_Space.
pub open spec fn is_white_space(c: char) -> bool {
    let n = c as u32;
    ||| 0x09 <= n <= 0x0D
    ||| n == 0x20
    ||| n == 0x85
    ||| n == 0xA0
    ||| n == 0x1680
    ||| 0x2000 <= n <= 0x200A
    ||| n == 0x2028
    ||| n == 0x2029
    ||| n == 0x202F
    ||| n == 0x205F
    ||| n == 0x3000
}

/// `s` without the white space at its start.
pub open spec fn trim_start_of(s: Seq<char>) -> Seq<char>
    decreases s.len(),
{
    if s.len() > 0 && is_white_space(s[0]) {
        trim_start_of(s.drop_first())
    } else {
        s
    }
}

/// `s` without the white space at its end.
pub open spec fn trim_end_of(s: Seq<char>) -> Seq<char>
    decreases s.len(),
{
    if s.len() > 0 && is_white_space(s.last()) {
        trim_end_of(s.drop_last())
    } else {
        s
    }
}

/// `str::trim_start` returns the string without its leading white space,
/// where white space is what the Unicode property White_Space says.
pub assume_specification<'a>[ str::trim_start ](s: &'a str) -> (r: &'a str)
    ensures
        r@ == trim_start_of(s@),
;

/// `str::trim_end` returns the string without its trailing white space,
/// where white space is what the Unicode property White_Space says.
pub assume_specification<'a>[ str::trim_end ](s: &'a str) -> (r: &'a str)
    ensures
        r@ == trim_end_of(s@),
;

} // verus!
