//! Parse trees are well formed, locations follow offsets, and an error of
//! matching says where matching failed and what was expected there.

use vstd::prelude::*;
use crate::grammar::grammar;
use crate::parser::parse_spec;
use crate::parser::ParseFailure;
use crate::parser::MAX_DEPTH;
use crate::peg::blank_end;
use crate::peg::cont_end;
use crate::peg::eval;
use crate::peg::fence_find;
use crate::peg::note;
use crate::peg::no_trace;
use crate::peg::repeat;
use crate::peg::tick_end;
use crate::peg::Outcome;
use crate::peg::Peg;
use crate::peg::Trace;
use crate::position::lemma_loc_at_monotone;
use crate::position::loc_at;
use crate::rule::Rule;
use crate::tree::Tree;

verus! {

/// Whether `nodes` are well formed and lie one after another between `lo`
/// and `hi` in a text of `len` bytes.
pub open spec fn nodes_fit(nodes: Seq<Tree>, lo: int, hi: int, len: int) -> bool {
    &&& Tree::ordered(nodes, lo, hi)
    &&& forall|i: int| 0 <= i < nodes.len() ==> (#[trigger] nodes[i]).well_formed(len)
}

proof fn lemma_blank_end_bounds(s: Seq<u8>, pos: int, in_comment: bool)
    requires
        0 <= pos <= s.len(),
    ensures
        pos <= blank_end(s, pos, in_comment) <= s.len(),
    decreases s.len() - pos,
{
    if pos < s.len() {
        lemma_blank_end_bounds(s, pos + 1, true);
        lemma_blank_end_bounds(s, pos + 1, false);
    }
}

proof fn lemma_cont_end_bounds(s: Seq<u8>, pos: int)
    requires
        0 <= pos <= s.len(),
    ensures
        pos <= cont_end(s, pos) <= s.len(),
    decreases s.len() - pos,
{
    if pos < s.len() {
        lemma_cont_end_bounds(s, pos + 1);
    }
}

proof fn lemma_tick_end_bounds(s: Seq<u8>, pos: int)
    requires
        0 <= pos <= s.len(),
    ensures
        pos <= tick_end(s, pos) <= s.len(),
    decreases s.len() - pos,
{
    if pos < s.len() {
        lemma_tick_end_bounds(s, pos + 1);
    }
}

proof fn lemma_fence_find_bounds(s: Seq<u8>, pos: int, n: int)
    requires
        0 <= pos <= s.len(),
    ensures
        fence_find(s, pos, n) >= 0 ==> pos <= fence_find(s, pos, n) && fence_find(s, pos, n) + n
            <= s.len() && n > 0,
    decreases s.len() - pos,
{
    if pos < s.len() {
        lemma_fence_find_bounds(s, pos + 1, n);
    }
}

/// Nodes that fit one range, followed by nodes that fit the next, fit both
/// ranges together.
proof fn lemma_fit_concat(a: Seq<Tree>, b: Seq<Tree>, lo: int, mid: int, hi: int, len: int)
    requires
        nodes_fit(a, lo, mid, len),
        nodes_fit(b, mid, hi, len),
    ensures
        nodes_fit(a + b, lo, hi, len),
{
    let c = a + b;
    assert forall|i: int| 0 <= i < c.len() implies lo <= (#[trigger] c[i]).start && c[i].start
        <= c[i].end && c[i].end <= hi && c[i].well_formed(len) by {
        if i < a.len() {
            assert(c[i] == a[i]);
        } else {
            assert(c[i] == b[i - a.len()]);
        }
    }
    assert forall|i: int, j: int| 0 <= i < j < c.len() implies (#[trigger] c[i]).end <= (
    #[trigger] c[j]).start by {
        if j < a.len() {
            assert(c[i] == a[i] && c[j] == a[j]);
        } else if i < a.len() {
            assert(c[i] == a[i] && c[j] == b[j - a.len()]);
        } else {
            assert(c[i] == b[i - a.len()] && c[j] == b[j - a.len()]);
        }
    }
}

/// What an expression matches lies in the text behind the position where
/// it was evaluated, and the nodes it produces are well formed and lie one
/// after another in what was matched.
pub proof fn lemma_eval_well_formed(
    g: Seq<Peg>,
    e: Peg,
    s: Seq<u8>,
    pos: int,
    fuel: nat,
    seen: Trace,
)
    requires
        0 <= pos <= s.len(),
    ensures
        eval(g, e, s, pos, fuel, seen) matches Outcome::Match { end, nodes, .. } ==> pos <= end
            <= s.len() && nodes_fit(nodes, pos, end, s.len() as int),
    decreases fuel, e, 0nat, 0nat,
{
    let len = s.len() as int;
    match e {
        Peg::Empty => {},
        Peg::Any => {
            if pos < s.len() {
                lemma_cont_end_bounds(s, pos + 1);
            }
        },
        Peg::Lit(t) => {},
        Peg::Range(lo, hi) => {},
        Peg::Skip => {
            lemma_blank_end_bounds(s, pos, false);
        },
        Peg::Then(a, b) => {
            lemma_eval_well_formed(g, *a, s, pos, fuel, seen);
            if let Outcome::Match { end: mid, nodes: first, seen: after } = eval(
                g,
                *a,
                s,
                pos,
                fuel,
                seen,
            ) {
                lemma_eval_well_formed(g, *b, s, mid, fuel, after);
                if let Outcome::Match { end, nodes, .. } = eval(g, *b, s, mid, fuel, after) {
                    lemma_fit_concat(first, nodes, pos, mid, end, len);
                }
            }
        },
        Peg::Or(a, b) => {
            lemma_eval_well_formed(g, *a, s, pos, fuel, seen);
            if let Outcome::Miss { seen: after } = eval(g, *a, s, pos, fuel, seen) {
                lemma_eval_well_formed(g, *b, s, pos, fuel, after);
            }
        },
        Peg::Opt(a) => {
            lemma_eval_well_formed(g, *a, s, pos, fuel, seen);
        },
        Peg::Star(a) => {
            lemma_repeat_well_formed(g, *a, s, pos, fuel, Seq::empty(), pos, seen);
        },
        Peg::Plus(a) => {
            lemma_eval_well_formed(g, *a, s, pos, fuel, seen);
            if let Outcome::Match { end, nodes, seen: after } = eval(g, *a, s, pos, fuel, seen) {
                lemma_repeat_well_formed(g, *a, s, end, fuel, nodes, pos, after);
            }
        },
        Peg::Not(a) => {},
        Peg::Call(r) => {
            if fuel > 0 && r.spec_index() < g.len() {
                let inner = g[r.spec_index() as int];
                lemma_eval_well_formed(g, inner, s, pos, (fuel - 1) as nat, seen);
                if let Outcome::Match { end, nodes, .. } = eval(
                    g,
                    inner,
                    s,
                    pos,
                    (fuel - 1) as nat,
                    seen,
                ) {
                    let t = Tree { rule: r, start: pos, end, children: nodes };
                    assert(t.well_formed(len));
                    assert(crate::peg::node(r, pos, end, nodes)[0] == t);
                }
            }
        },
        Peg::Fork(r, a, b, c) => {
            lemma_eval_well_formed(g, *a, s, pos, fuel, seen);
            if let Outcome::Match { end: mid, nodes: first, seen: after } = eval(
                g,
                *a,
                s,
                pos,
                fuel,
                seen,
            ) {
                lemma_eval_well_formed(g, *b, s, mid, fuel, after);
                match eval(g, *b, s, mid, fuel, after) {
                    Outcome::Match { end, nodes, .. } => {
                        lemma_fit_concat(first, nodes, pos, mid, end, len);
                        let t = Tree { rule: r, start: pos, end, children: first + nodes };
                        assert(t.well_formed(len));
                        assert(crate::peg::node(r, pos, end, first + nodes)[0] == t);
                    },
                    Outcome::Miss { seen: last } => {
                        lemma_eval_well_formed(g, *c, s, mid, fuel, last);
                        if let Outcome::Match { end, nodes, .. } = eval(g, *c, s, mid, fuel, last) {
                            lemma_fit_concat(first, nodes, pos, mid, end, len);
                        }
                    },
                    Outcome::Abort => {},
                }
            }
        },
        Peg::Fenced(r) => {
            lemma_tick_end_bounds(s, pos);
            let open = tick_end(s, pos);
            lemma_fence_find_bounds(s, open, open - pos);
            let close = fence_find(s, open, open - pos);
            if open > pos && close >= 0 {
                let t = Tree { rule: r, start: open, end: close, children: Seq::empty() };
                assert(t.well_formed(len));
                assert(crate::peg::node(r, open, close, Seq::empty())[0] == t);
            }
        },
    }
}

/// What a repetition matches lies in the text, and the nodes it produces,
/// behind those produced before, are well formed and lie one after another.
pub proof fn lemma_repeat_well_formed(
    g: Seq<Peg>,
    e: Peg,
    s: Seq<u8>,
    pos: int,
    fuel: nat,
    acc: Seq<Tree>,
    start: int,
    seen: Trace,
)
    requires
        0 <= start <= pos <= s.len(),
        nodes_fit(acc, start, pos, s.len() as int),
    ensures
        repeat(g, e, s, pos, fuel, acc, seen) matches Outcome::Match { end, nodes, .. } ==> pos
            <= end <= s.len() && nodes_fit(nodes, start, end, s.len() as int),
    decreases fuel, e, 1nat, s.len() - pos,
{
    lemma_eval_well_formed(g, e, s, pos, fuel, seen);
    if let Outcome::Match { end, nodes, seen: after } = eval(g, e, s, pos, fuel, seen) {
        if pos < end <= s.len() {
            lemma_fit_concat(acc, nodes, start, pos, end, s.len() as int);
            lemma_repeat_well_formed(g, e, s, end, fuel, acc + nodes, start, after);
        }
    }
}

/// Whether a trace is one of matching in a text of `len` bytes: its position
/// lies in the text, it names a rule unless nothing failed behind the start,
/// and it names no rule twice.
pub open spec fn trace_ok(seen: Trace, len: int) -> bool {
    &&& 0 <= seen.pos <= len
    &&& seen.pos > 0 ==> seen.rules.len() > 0
    &&& seen.rules.no_duplicates()
}

/// Noting a failure in the text keeps a trace in order, and the trace then
/// names a rule.
proof fn lemma_note_ok(seen: Trace, pos: int, rule: Rule, len: int)
    requires
        trace_ok(seen, len),
        0 <= pos <= len,
    ensures
        trace_ok(note(seen, pos, rule), len),
        note(seen, pos, rule).rules.len() > 0,
{
    if pos == seen.pos && !seen.rules.contains(rule) {
        let after = seen.rules.push(rule);
        assert forall|i: int, j: int| 0 <= i < after.len() && 0 <= j < after.len() && i
            != j implies after[i] != after[j] by {
            if i < seen.rules.len() && j < seen.rules.len() {
            } else if i < seen.rules.len() {
                assert(seen.rules.contains(seen.rules[i]));
            } else {
                assert(seen.rules.contains(seen.rules[j]));
            }
        }
    } else if pos == seen.pos {
        let k = choose|k: int| 0 <= k < seen.rules.len() && seen.rules[k] == rule;
    }
}

/// Evaluating an expression keeps a trace in order.
pub proof fn lemma_eval_trace(g: Seq<Peg>, e: Peg, s: Seq<u8>, pos: int, fuel: nat, seen: Trace)
    requires
        0 <= pos <= s.len(),
        trace_ok(seen, s.len() as int),
    ensures
        match eval(g, e, s, pos, fuel, seen) {
            Outcome::Match { seen: after, .. } => trace_ok(after, s.len() as int),
            Outcome::Miss { seen: after } => trace_ok(after, s.len() as int),
            Outcome::Abort => true,
        },
    decreases fuel, e, 0nat, 0nat,
{
    let len = s.len() as int;
    match e {
        Peg::Then(a, b) => {
            lemma_eval_trace(g, *a, s, pos, fuel, seen);
            lemma_eval_well_formed(g, *a, s, pos, fuel, seen);
            if let Outcome::Match { end: mid, seen: after, .. } = eval(g, *a, s, pos, fuel, seen) {
                lemma_eval_trace(g, *b, s, mid, fuel, after);
            }
        },
        Peg::Or(a, b) => {
            lemma_eval_trace(g, *a, s, pos, fuel, seen);
            if let Outcome::Miss { seen: after } = eval(g, *a, s, pos, fuel, seen) {
                lemma_eval_trace(g, *b, s, pos, fuel, after);
            }
        },
        Peg::Opt(a) => {
            lemma_eval_trace(g, *a, s, pos, fuel, seen);
        },
        Peg::Star(a) => {
            lemma_repeat_trace(g, *a, s, pos, fuel, Seq::empty(), seen);
        },
        Peg::Plus(a) => {
            lemma_eval_trace(g, *a, s, pos, fuel, seen);
            lemma_eval_well_formed(g, *a, s, pos, fuel, seen);
            if let Outcome::Match { end, nodes, seen: after } = eval(g, *a, s, pos, fuel, seen) {
                lemma_repeat_trace(g, *a, s, end, fuel, nodes, after);
            }
        },
        Peg::Call(r) => {
            if fuel > 0 && r.spec_index() < g.len() {
                let inner = g[r.spec_index() as int];
                lemma_eval_trace(g, inner, s, pos, (fuel - 1) as nat, seen);
                if let Outcome::Miss { seen: after } = eval(
                    g,
                    inner,
                    s,
                    pos,
                    (fuel - 1) as nat,
                    seen,
                ) {
                    lemma_note_ok(after, pos, r, len);
                }
            }
        },
        Peg::Fork(r, a, b, c) => {
            lemma_eval_trace(g, *a, s, pos, fuel, seen);
            lemma_eval_well_formed(g, *a, s, pos, fuel, seen);
            if let Outcome::Match { end: mid, seen: after, .. } = eval(g, *a, s, pos, fuel, seen) {
                lemma_eval_trace(g, *b, s, mid, fuel, after);
                if let Outcome::Miss { seen: last } = eval(g, *b, s, mid, fuel, after) {
                    lemma_eval_trace(g, *c, s, mid, fuel, last);
                }
            }
        },
        _ => {},
    }
}

/// Repeating an expression keeps a trace in order.
pub proof fn lemma_repeat_trace(
    g: Seq<Peg>,
    e: Peg,
    s: Seq<u8>,
    pos: int,
    fuel: nat,
    acc: Seq<Tree>,
    seen: Trace,
)
    requires
        0 <= pos <= s.len(),
        trace_ok(seen, s.len() as int),
    ensures
        match repeat(g, e, s, pos, fuel, acc, seen) {
            Outcome::Match { seen: after, .. } => trace_ok(after, s.len() as int),
            Outcome::Miss { seen: after } => trace_ok(after, s.len() as int),
            Outcome::Abort => true,
        },
    decreases fuel, e, 1nat, s.len() - pos,
{
    lemma_eval_trace(g, e, s, pos, fuel, seen);
    if let Outcome::Match { end, nodes, seen: after } = eval(g, e, s, pos, fuel, seen) {
        if pos < end <= s.len() {
            lemma_repeat_trace(g, e, s, end, fuel, acc + nodes, after);
        }
    }
}

/// Where a text does not match, the error says where and what: the position
/// lies in the text, at least one rule is named as expected there, and none
/// is named twice.
pub proof fn lemma_parse_error_is_definite(rule: Rule, bytes: Seq<u8>)
    ensures
        parse_spec(rule, bytes) matches Err(ParseFailure::NoMatch { pos, expected }) ==> 0 <= pos
            <= bytes.len() && expected.len() >= 1 && expected.no_duplicates(),
{
    rule.lemma_at_index();
    let g = grammar();
    let inner = g[rule.spec_index() as int];
    lemma_eval_trace(g, inner, bytes, 0, (MAX_DEPTH - 1) as nat, no_trace());
    if let Outcome::Miss { seen: after } = eval(
        g,
        inner,
        bytes,
        0,
        (MAX_DEPTH - 1) as nat,
        no_trace(),
    ) {
        lemma_note_ok(after, 0, rule, bytes.len() as int);
    }
}

/// The node that a rule matches at the start of a text is well formed: it
/// and all nodes below it cover ranges of the text, and the children of every
/// node lie inside it, one after another.
pub proof fn lemma_parse_well_formed(rule: Rule, bytes: Seq<u8>)
    ensures
        parse_spec(rule, bytes) matches Ok(t) ==> t.well_formed(bytes.len() as int) && t.rule
            == rule && t.start == 0,
{
    lemma_eval_well_formed(grammar(), Peg::Call(rule), bytes, 0, MAX_DEPTH as nat, no_trace());
    rule.lemma_at_index();
}

/// A child of a well-formed node starts and ends inside the node, and the
/// locations of the four ends are in the order of the offsets. This holds
/// of every text short enough for its offsets to be machine integers.
pub proof fn lemma_child_inside_parent(bytes: Seq<u8>, t: Tree, i: int)
    requires
        t.well_formed(bytes.len() as int),
        0 <= i < t.children.len(),
        bytes.len() < usize::MAX,
    ensures
        t.start <= t.children[i].start <= t.children[i].end <= t.end,
        loc_at(bytes, t.start).at_or_before(loc_at(bytes, t.children[i].start)),
        loc_at(bytes, t.children[i].start).at_or_before(loc_at(bytes, t.children[i].end)),
        loc_at(bytes, t.children[i].end).at_or_before(loc_at(bytes, t.end)),
        t.children[i].well_formed(bytes.len() as int),
{
    let c = t.children[i];
    lemma_loc_at_monotone(bytes, t.start, c.start);
    lemma_loc_at_monotone(bytes, c.start, c.end);
    lemma_loc_at_monotone(bytes, c.end, t.end);
}

} // verus!
