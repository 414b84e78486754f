//! Strings between runs of backticks.

use vstd::prelude::*;
use crate::peg::eval;
use crate::peg::fence_find;
use crate::peg::node;
use crate::peg::tick_end;
use crate::peg::ticks_at;
use crate::peg::Outcome;
use crate::peg::Peg;
use crate::peg::Trace;
use crate::error::LowerError;
use crate::lower::literal::string_of;
use crate::rule::Rule;
use crate::text::covers;
use crate::text::text_of;
use crate::text::trim_end_of;
use crate::text::trim_start_of;
use crate::tree::Tree;

verus! {

/// A run of `n` backticks.
pub open spec fn ticks(n: nat) -> Seq<u8> {
    Seq::new(n, |i: int| 0x60u8)
}

/// `body` between two runs of `n` backticks.
pub open spec fn fenced(n: nat, body: Seq<u8>) -> Seq<u8> {
    ticks(n) + body + ticks(n)
}

/// Whether `body` can stand between runs of `n` backticks: it is not empty,
/// neither starts nor ends with a backtick, and holds no run of `n`
/// backticks.
pub open spec fn fits_fence(n: nat, body: Seq<u8>) -> bool {
    &&& n >= 1
    &&& body.len() >= 1
    &&& body[0] != 0x60
    &&& body.last() != 0x60
    &&& forall|k: int| 0 <= k && k + n <= body.len() ==> !ticks_at(body, k, n as int)
}

proof fn lemma_opening_run(pre: Seq<u8>, n: nat, body: Seq<u8>, post: Seq<u8>, k: int)
    requires
        fits_fence(n, body),
        0 <= k <= n,
    ensures
        tick_end(pre + fenced(n, body) + post, pre.len() + k) == pre.len() + n,
    decreases n - k,
{
    let s = pre + fenced(n, body) + post;
    if k < n {
        assert(s[pre.len() + k] == ticks(n)[k]);
        lemma_opening_run(pre, n, body, post, k + 1);
    } else {
        assert(s[(pre.len() + n) as int] == body[0]);
    }
}

proof fn lemma_closing_run(pre: Seq<u8>, n: nat, body: Seq<u8>, post: Seq<u8>, j: int)
    requires
        fits_fence(n, body),
        n <= j <= n + body.len(),
    ensures
        fence_find(pre + fenced(n, body) + post, pre.len() + j, n as int) == pre.len() + n
            + body.len(),
    decreases n + body.len() - j,
{
    let s = pre + fenced(n, body) + post;
    let p = pre.len() as int;
    let last = n + body.len() - 1;
    assert(s.len() == p + 2 * n + body.len() + post.len());
    if j < n + body.len() {
        if j + n > last {
            assert(s[p + last] == body.last());
            assert(!ticks_at(s, p + j, n as int));
        } else {
            let k = j - n;
            assert(!ticks_at(body, k, n as int));
            let bad = choose|i: int| k <= i < k + n && body[i] != 0x60;
            assert(s[p + bad + n] == body[bad]);
            assert(!ticks_at(s, p + j, n as int));
        }
        lemma_closing_run(pre, n, body, post, j + 1);
    } else {
        assert forall|i: int| p + j <= i < p + j + n implies s[i] == 0x60 by {
            assert(s[i] == ticks(n)[i - j - p]);
        }
        assert(ticks_at(s, p + j, n as int));
    }
}

/// For every `n` of at least one: a text that can stand between runs of
/// `n` backticks, put between two such runs, is matched as a whole wherever
/// it stands in a longer text, and the node produced covers exactly the
/// text between the runs. Runs of fewer than `n` backticks in the text end
/// nothing.
pub proof fn lemma_fence_in_context(
    g: Seq<Peg>,
    rule: Rule,
    pre: Seq<u8>,
    n: nat,
    body: Seq<u8>,
    post: Seq<u8>,
    fuel: nat,
    seen: Trace,
)
    requires
        fits_fence(n, body),
    ensures
        eval(g, Peg::Fenced(rule), pre + fenced(n, body) + post, pre.len() as int, fuel, seen) == (
        Outcome::Match {
            end: (pre.len() + 2 * n + body.len()) as int,
            nodes: node(
                rule,
                (pre.len() + n) as int,
                (pre.len() + n + body.len()) as int,
                Seq::empty(),
            ),
            seen,
        }),
{
    lemma_opening_run(pre, n, body, post, 0);
    lemma_closing_run(pre, n, body, post, n as int);
}

/// For every `n` of at least one: a text that can stand between runs of
/// `n` backticks, put between two such runs, is matched as a whole, and the
/// node produced covers exactly the text between the runs.
pub proof fn lemma_fence_symmetry(
    g: Seq<Peg>,
    rule: Rule,
    n: nat,
    body: Seq<u8>,
    fuel: nat,
    seen: Trace,
)
    requires
        fits_fence(n, body),
    ensures
        eval(g, Peg::Fenced(rule), fenced(n, body), 0, fuel, seen) == (Outcome::Match {
            end: fenced(n, body).len() as int,
            nodes: node(rule, n as int, (n + body.len()) as int, Seq::empty()),
            seen,
        }),
{
    let none = Seq::<u8>::empty();
    lemma_fence_in_context(g, rule, none, n, body, none, fuel, seen);
    assert(none + fenced(n, body) + none =~= fenced(n, body));
    assert(fenced(n, body).len() == 2 * n + body.len());
}

/// A string with a marker on both sides lowers to exactly the text between
/// its runs of backticks: nothing is trimmed and nothing unescaped. Without
/// the marker on a side, the white space on that side is dropped and nothing
/// else is changed.
pub proof fn lemma_string_lowers_to_its_text(b: Seq<u8>, t: Tree)
    requires
        t.children.len() >= 1,
    ensures
        t.children.len() == 3 && t.children[0].rule == Rule::string_omit_space_identifier
            && t.children[1].rule == Rule::string_interior && t.children[2].rule
            == Rule::string_omit_space_identifier && covers(b, t.children[1]) ==> string_of(b, t)
            == Ok::<Seq<char>, LowerError>(text_of(b, t.children[1])),
        t.children.len() == 1 && t.children[0].rule == Rule::string_interior && covers(
            b,
            t.children[0],
        ) ==> string_of(b, t) == Ok::<Seq<char>, LowerError>(
            trim_end_of(trim_start_of(text_of(b, t.children[0]))),
        ),
{
}

} // verus!
