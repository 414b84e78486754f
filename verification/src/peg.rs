//! Parsing expressions and what they match.
//!
//! A grammar is a table of parsing expressions, one per rule. `eval` says
//! what an expression matches at a position of a text; `run` computes it.

use vstd::prelude::*;
use vstd::string::StringSliceAdditionalSpecFns;
use vstd::utf8::is_continuation_byte;
use crate::rule::Rule;
use crate::tree::Pair;
use crate::tree::Tree;
use crate::tree::trees;
use crate::tree::lemma_children_view;

verus! {

/// A parsing expression over the bytes of a text.
#[derive(Debug)]
pub enum Peg {
    /// Matches the empty string.
    Empty,
    /// Matches one character, whatever it is.
    Any,
    /// Matches the given text.
    Lit(&'static str),
    /// Matches one byte between the two bounds, both included.
    Range(u8, u8),
    /// Matches blanks, line breaks and comments, as many as there are.
    Skip,
    /// Matches the first expression and then the second.
    Then(Box<Peg>, Box<Peg>),
    /// Matches the first expression or, where that fails, the second.
    Or(Box<Peg>, Box<Peg>),
    /// Matches the expression or nothing.
    Opt(Box<Peg>),
    /// Matches the expression as often as it matches and advances.
    Star(Box<Peg>),
    /// Matches the expression once and then as `Star` does.
    Plus(Box<Peg>),
    /// Matches nothing, and only where the expression does not match.
    Not(Box<Peg>),
    /// Matches what the rule's expression matches, and wraps it in a node.
    Call(Rule),
    /// Matches a run of backticks, the shortest text up to a run of as many
    /// backticks, and that run. The text between becomes a node.
    Fenced(Rule),
    /// Matches the first expression and then the second, and wraps both in
    /// a node of the rule; or, where the second fails, matches the first and
    /// then the third, without a node around them.
    Fork(Rule, Box<Peg>, Box<Peg>, Box<Peg>),
}

/// Where matching got furthest before it failed: the greatest position at
/// which a rule was tried and did not match, and the rules that failed
/// there, each once, in the order in which they failed first.
pub struct Trace {
    pub pos: int,
    pub rules: Seq<Rule>,
}

/// The trace before anything was tried.
pub open spec fn no_trace() -> Trace {
    Trace { pos: 0, rules: Seq::empty() }
}

/// The trace `seen`, after `rule` also failed at `pos`.
pub open spec fn note(seen: Trace, pos: int, rule: Rule) -> Trace {
    if pos > seen.pos {
        Trace { pos, rules: seq![rule] }
    } else if pos == seen.pos && !seen.rules.contains(rule) {
        Trace { pos, rules: seen.rules.push(rule) }
    } else {
        seen
    }
}

/// What evaluating an expression at a position gives.
pub enum Outcome {
    /// The expression matched up to `end` and produced `nodes`.
    Match { end: int, nodes: Seq<Tree>, seen: Trace },
    /// The expression does not match here.
    Miss { seen: Trace },
    /// Rules were nested deeper than allowed.
    Abort,
}

/// Whether a byte is a blank or part of a line break.
pub open spec fn is_blank(b: u8) -> bool {
    b == 0x20 || b == 0x09 || b == 0x0A || b == 0x0D
}

/// Where blanks and comments that start at `pos` end. A comment runs from a
/// percent sign to the end of its line.
pub open spec fn blank_end(s: Seq<u8>, pos: int, in_comment: bool) -> int
    decreases s.len() - pos,
{
    if pos < 0 || pos >= s.len() {
        pos
    } else if in_comment {
        blank_end(s, pos + 1, s[pos] != 0x0A)
    } else if is_blank(s[pos]) {
        blank_end(s, pos + 1, false)
    } else if s[pos] == 0x25 {
        blank_end(s, pos + 1, true)
    } else {
        pos
    }
}

/// Where the continuation bytes that start at `pos` end.
pub open spec fn cont_end(s: Seq<u8>, pos: int) -> int
    decreases s.len() - pos,
{
    if 0 <= pos < s.len() && is_continuation_byte(s[pos]) {
        cont_end(s, pos + 1)
    } else {
        pos
    }
}

/// Whether `t` stands in `s` at `pos`.
pub open spec fn lit_at(s: Seq<u8>, pos: int, t: Seq<u8>) -> bool {
    0 <= pos && pos + t.len() <= s.len() && s.subrange(pos, pos + t.len()) == t
}

/// Where the backticks that start at `pos` end.
pub open spec fn tick_end(s: Seq<u8>, pos: int) -> int
    decreases s.len() - pos,
{
    if 0 <= pos < s.len() && s[pos] == 0x60 {
        tick_end(s, pos + 1)
    } else {
        pos
    }
}

/// Whether `n` backticks stand in `s` at `pos`.
pub open spec fn ticks_at(s: Seq<u8>, pos: int, n: int) -> bool {
    0 <= pos && pos + n <= s.len() && forall|j: int| pos <= j < pos + n ==> s[j] == 0x60
}

/// The first offset from `pos` on at which `n` backticks stand, or -1.
pub open spec fn fence_find(s: Seq<u8>, pos: int, n: int) -> int
    decreases s.len() - pos,
{
    if pos < 0 || pos + n > s.len() || n <= 0 {
        -1
    } else if ticks_at(s, pos, n) {
        pos
    } else {
        fence_find(s, pos + 1, n)
    }
}

/// The node that a rule's match becomes.
pub open spec fn node(rule: Rule, start: int, end: int, children: Seq<Tree>) -> Seq<Tree> {
    seq![Tree { rule, start, end, children }]
}

/// What expression `e` of grammar `g` matches in `s` at `pos`, with rules
/// nested at most `fuel` deep, and the trace after `seen`. What is tried
/// inside a `Not` leaves no trace.
pub open spec fn eval(
    g: Seq<Peg>,
    e: Peg,
    s: Seq<u8>,
    pos: int,
    fuel: nat,
    seen: Trace,
) -> Outcome
    decreases fuel, e, 0nat, 0nat,
{
    match e {
        Peg::Empty => Outcome::Match { end: pos, nodes: Seq::empty(), seen },
        Peg::Any => if 0 <= pos < s.len() {
            Outcome::Match { end: cont_end(s, pos + 1), nodes: Seq::empty(), seen }
        } else {
            Outcome::Miss { seen }
        },
        Peg::Lit(t) => if lit_at(s, pos, t.spec_bytes()) {
            Outcome::Match { end: pos + t.spec_bytes().len(), nodes: Seq::empty(), seen }
        } else {
            Outcome::Miss { seen }
        },
        Peg::Range(lo, hi) => if 0 <= pos < s.len() && lo <= s[pos] <= hi {
            Outcome::Match { end: pos + 1, nodes: Seq::empty(), seen }
        } else {
            Outcome::Miss { seen }
        },
        Peg::Skip => Outcome::Match { end: blank_end(s, pos, false), nodes: Seq::empty(), seen },
        Peg::Then(a, b) => match eval(g, *a, s, pos, fuel, seen) {
            Outcome::Match { end: mid, nodes: first, seen: after } => match eval(
                g,
                *b,
                s,
                mid,
                fuel,
                after,
            ) {
                Outcome::Match { end, nodes, seen: last } => Outcome::Match {
                    end,
                    nodes: first + nodes,
                    seen: last,
                },
                other => other,
            },
            other => other,
        },
        Peg::Or(a, b) => match eval(g, *a, s, pos, fuel, seen) {
            Outcome::Miss { seen: after } => eval(g, *b, s, pos, fuel, after),
            other => other,
        },
        Peg::Opt(a) => match eval(g, *a, s, pos, fuel, seen) {
            Outcome::Miss { seen: after } => Outcome::Match {
                end: pos,
                nodes: Seq::empty(),
                seen: after,
            },
            other => other,
        },
        Peg::Star(a) => repeat(g, *a, s, pos, fuel, Seq::empty(), seen),
        Peg::Plus(a) => match eval(g, *a, s, pos, fuel, seen) {
            Outcome::Match { end, nodes, seen: after } => repeat(g, *a, s, end, fuel, nodes, after),
            other => other,
        },
        Peg::Not(a) => match eval(g, *a, s, pos, fuel, no_trace()) {
            Outcome::Match { .. } => Outcome::Miss { seen },
            Outcome::Miss { .. } => Outcome::Match { end: pos, nodes: Seq::empty(), seen },
            Outcome::Abort => Outcome::Abort,
        },
        Peg::Call(r) => if fuel == 0 || r.spec_index() >= g.len() {
            Outcome::Abort
        } else {
            match eval(g, g[r.spec_index() as int], s, pos, (fuel - 1) as nat, seen) {
                Outcome::Match { end, nodes, seen: after } => Outcome::Match {
                    end,
                    nodes: node(r, pos, end, nodes),
                    seen: after,
                },
                Outcome::Miss { seen: after } => Outcome::Miss { seen: note(after, pos, r) },
                Outcome::Abort => Outcome::Abort,
            }
        },
        Peg::Fenced(r) => {
            let open = tick_end(s, pos);
            let close = fence_find(s, open, open - pos);
            if pos < 0 || open <= pos || close < 0 {
                Outcome::Miss { seen }
            } else {
                Outcome::Match {
                    end: close + (open - pos),
                    nodes: node(r, open, close, Seq::empty()),
                    seen,
                }
            }
        },
        Peg::Fork(r, a, b, c) => match eval(g, *a, s, pos, fuel, seen) {
            Outcome::Match { end: mid, nodes: first, seen: after } => match eval(
                g,
                *b,
                s,
                mid,
                fuel,
                after,
            ) {
                Outcome::Match { end, nodes, seen: last } => Outcome::Match {
                    end,
                    nodes: node(r, pos, end, first + nodes),
                    seen: last,
                },
                Outcome::Miss { seen: last } => match eval(g, *c, s, mid, fuel, last) {
                    Outcome::Match { end, nodes, seen: done } => Outcome::Match {
                        end,
                        nodes: first + nodes,
                        seen: done,
                    },
                    other => other,
                },
                Outcome::Abort => Outcome::Abort,
            },
            other => other,
        },
    }
}

/// What repeating `e` from `pos` on matches, after `acc` was produced. The
/// repetition ends where `e` fails or matches without advancing.
pub open spec fn repeat(
    g: Seq<Peg>,
    e: Peg,
    s: Seq<u8>,
    pos: int,
    fuel: nat,
    acc: Seq<Tree>,
    seen: Trace,
) -> Outcome
    decreases fuel, e, 1nat, s.len() - pos,
{
    match eval(g, e, s, pos, fuel, seen) {
        Outcome::Match { end, nodes, seen: after } => if pos < end <= s.len() {
            repeat(g, e, s, end, fuel, acc + nodes, after)
        } else {
            Outcome::Match { end: pos, nodes: acc, seen: after }
        },
        Outcome::Miss { seen: after } => Outcome::Match { end: pos, nodes: acc, seen: after },
        Outcome::Abort => Outcome::Abort,
    }
}

/// Where matching got furthest before it failed.
#[derive(Debug, PartialEq, Eq)]
pub struct Seen {
    /// The greatest position at which a rule was tried and did not match.
    pub pos: usize,
    /// The rules that failed there.
    pub rules: Vec<Rule>,
}

impl View for Seen {
    type V = Trace;

    open spec fn view(&self) -> Trace {
        Trace { pos: self.pos as int, rules: self.rules@ }
    }
}

impl Seen {
    /// The trace before anything was tried.
    pub fn none() -> (r: Seen)
        ensures
            r@ == no_trace(),
    {
        Seen { pos: 0, rules: Vec::new() }
    }

    /// Whether `rule` is among the rules.
    fn holds(&self, rule: Rule) -> (r: bool)
        ensures
            r == self@.rules.contains(rule),
    {
        let mut i: usize = 0;
        while i < self.rules.len()
            invariant
                i <= self.rules@.len(),
                forall|j: int| 0 <= j < i ==> self.rules@[j] != rule,
            decreases self.rules@.len() - i,
        {
            if self.rules[i] == rule {
                return true;
            }
            i = i + 1;
        }
        false
    }

    /// The trace after `rule` also failed at `pos`.
    pub fn note(self, pos: usize, rule: Rule) -> (r: Seen)
        ensures
            r@ == note(self@, pos as int, rule),
    {
        if pos > self.pos {
            let mut rules = Vec::new();
            rules.push(rule);
            proof {
                assert(rules@ =~= seq![rule]);
            }
            Seen { pos, rules }
        } else if pos == self.pos && !self.holds(rule) {
            let mut seen = self;
            seen.rules.push(rule);
            seen
        } else {
            self
        }
    }
}

/// Result of running an expression.
pub enum Step {
    /// The expression matched up to the offset and produced the nodes.
    Match(usize, Vec<Pair>, Seen),
    /// The expression does not match.
    Miss(Seen),
    /// Rules were nested deeper than allowed.
    Abort,
}

impl Step {
    /// The outcome that the step stands for.
    pub open spec fn outcome(self) -> Outcome {
        match self {
            Step::Match(end, nodes, seen) => Outcome::Match {
                end: end as int,
                nodes: trees(nodes@),
                seen: seen@,
            },
            Step::Miss(seen) => Outcome::Miss { seen: seen@ },
            Step::Abort => Outcome::Abort,
        }
    }

    /// Whether a match ends between `pos` and `len`.
    pub open spec fn within(self, pos: int, len: int) -> bool {
        self matches Step::Match(end, _, _) ==> pos <= end <= len
    }
}

/// The models of two sequences of nodes, one after the other, are the models
/// of their concatenation.
pub proof fn lemma_trees_concat(a: Seq<Pair>, b: Seq<Pair>)
    ensures
        trees(a + b) == trees(a) + trees(b),
{
    assert(trees(a + b) =~= trees(a) + trees(b));
}

fn skip_blanks(text: &[u8], pos: usize) -> (end: usize)
    requires
        pos <= text@.len(),
    ensures
        end == blank_end(text@, pos as int, false),
        pos <= end <= text@.len(),
{
    let mut cur = pos;
    let mut in_comment = false;
    while cur < text.len()
        invariant
            pos <= cur <= text@.len(),
            blank_end(text@, pos as int, false) == blank_end(text@, cur as int, in_comment),
        decreases text@.len() - cur,
    {
        let b = text[cur];
        if in_comment {
            in_comment = b != 0x0A;
        } else if b == 0x20 || b == 0x09 || b == 0x0A || b == 0x0D {
        } else if b == 0x25 {
            in_comment = true;
        } else {
            return cur;
        }
        cur = cur + 1;
    }
    cur
}

fn skip_continuation(text: &[u8], pos: usize) -> (end: usize)
    requires
        pos <= text@.len(),
    ensures
        end == cont_end(text@, pos as int),
        pos <= end <= text@.len(),
{
    let mut cur = pos;
    while cur < text.len() && text[cur] >= 0x80 && text[cur] <= 0xbf
        invariant
            pos <= cur <= text@.len(),
            cont_end(text@, pos as int) == cont_end(text@, cur as int),
        decreases text@.len() - cur,
    {
        cur = cur + 1;
    }
    cur
}

fn skip_ticks(text: &[u8], pos: usize) -> (end: usize)
    requires
        pos <= text@.len(),
    ensures
        end == tick_end(text@, pos as int),
        pos <= end <= text@.len(),
{
    let mut cur = pos;
    while cur < text.len() && text[cur] == 0x60
        invariant
            pos <= cur <= text@.len(),
            tick_end(text@, pos as int) == tick_end(text@, cur as int),
        decreases text@.len() - cur,
    {
        cur = cur + 1;
    }
    cur
}

fn starts_with_at(text: &[u8], pos: usize, t: &[u8]) -> (b: bool)
    requires
        pos <= text@.len(),
    ensures
        b == lit_at(text@, pos as int, t@),
{
    let len = text.len();
    if t.len() > len - pos {
        return false;
    }
    let mut i: usize = 0;
    while i < t.len()
        invariant
            len == text@.len(),
            pos + t@.len() <= text@.len(),
            i <= t@.len(),
            forall|k: int| 0 <= k < i ==> text@[pos + k] == t@[k],
        decreases t@.len() - i,
    {
        if text[pos + i] != t[i] {
            proof {
                let sub = text@.subrange(pos as int, pos + t@.len());
                assert(sub[i as int] == text@[pos + i]);
            }
            return false;
        }
        i = i + 1;
    }
    proof {
        assert(text@.subrange(pos as int, pos + t@.len()) =~= t@);
    }
    true
}

fn has_ticks_at(text: &[u8], pos: usize, n: usize) -> (b: bool)
    requires
        pos + n <= text@.len(),
    ensures
        b == ticks_at(text@, pos as int, n as int),
{
    let len = text.len();
    let mut k: usize = 0;
    while k < n
        invariant
            len == text@.len(),
            pos + n <= text@.len(),
            k <= n,
            forall|j: int| pos <= j < pos + k ==> text@[j] == 0x60,
        decreases n - k,
    {
        if text[pos + k] != 0x60 {
            return false;
        }
        k = k + 1;
    }
    true
}

fn find_fence(text: &[u8], pos: usize, n: usize) -> (at: Option<usize>)
    requires
        pos <= text@.len(),
        n > 0,
    ensures
        at is None ==> fence_find(text@, pos as int, n as int) == -1,
        at matches Some(j) ==> fence_find(text@, pos as int, n as int) == j && pos <= j && j + n
            <= text@.len(),
{
    let mut cur = pos;
    while n <= text.len() - cur
        invariant
            pos <= cur <= text@.len(),
            n > 0,
            fence_find(text@, pos as int, n as int) == fence_find(text@, cur as int, n as int),
        decreases text@.len() - cur,
    {
        if has_ticks_at(text, cur, n) {
            return Some(cur);
        }
        cur = cur + 1;
    }
    None
}

/// An empty list of nodes.
fn no_nodes() -> (v: Vec<Pair>)
    ensures
        v@.len() == 0,
        trees(v@) == Seq::<Tree>::empty(),
{
    let v = Vec::new();
    proof {
        assert(trees(v@) =~= Seq::<Tree>::empty());
    }
    v
}

/// Evaluates expression `e` of the grammar `table` on `text` at `pos`, with
/// rules nested at most `fuel` deep.
pub fn run(table: &Vec<Peg>, e: &Peg, text: &[u8], pos: usize, fuel: usize, seen: Seen) -> (r:
    Step)
    requires
        pos <= text@.len(),
    ensures
        r.outcome() == eval(table@, *e, text@, pos as int, fuel as nat, seen@),
        r.within(pos as int, text@.len() as int),
    decreases fuel, e, 0nat, 0nat,
{
    match e {
        Peg::Empty => Step::Match(pos, no_nodes(), seen),
        Peg::Any => {
            if pos < text.len() {
                Step::Match(skip_continuation(text, pos + 1), no_nodes(), seen)
            } else {
                Step::Miss(seen)
            }
        },
        Peg::Lit(t) => {
            let bytes = t.as_bytes();
            let len = text.len();
            if starts_with_at(text, pos, bytes) {
                Step::Match(pos + bytes.len(), no_nodes(), seen)
            } else {
                Step::Miss(seen)
            }
        },
        Peg::Range(lo, hi) => {
            if pos < text.len() && *lo <= text[pos] && text[pos] <= *hi {
                Step::Match(pos + 1, no_nodes(), seen)
            } else {
                Step::Miss(seen)
            }
        },
        Peg::Skip => Step::Match(skip_blanks(text, pos), no_nodes(), seen),
        Peg::Then(a, b) => {
            match run(table, a, text, pos, fuel, seen) {
                Step::Match(mid, mut first, after) => {
                    match run(table, b, text, mid, fuel, after) {
                        Step::Match(end, mut nodes, last) => {
                            proof {
                                lemma_trees_concat(first@, nodes@);
                            }
                            first.append(&mut nodes);
                            Step::Match(end, first, last)
                        },
                        other => other,
                    }
                },
                other => other,
            }
        },
        Peg::Or(a, b) => {
            match run(table, a, text, pos, fuel, seen) {
                Step::Miss(after) => run(table, b, text, pos, fuel, after),
                other => other,
            }
        },
        Peg::Opt(a) => {
            match run(table, a, text, pos, fuel, seen) {
                Step::Miss(after) => Step::Match(pos, no_nodes(), after),
                other => other,
            }
        },
        Peg::Star(a) => run_repeat(table, a, text, pos, fuel, no_nodes(), seen),
        Peg::Plus(a) => {
            match run(table, a, text, pos, fuel, seen) {
                Step::Match(end, nodes, after) => run_repeat(table, a, text, end, fuel, nodes, after),
                other => other,
            }
        },
        Peg::Not(a) => {
            match run(table, a, text, pos, fuel, Seen::none()) {
                Step::Match(_, _, _) => Step::Miss(seen),
                Step::Miss(_) => Step::Match(pos, no_nodes(), seen),
                Step::Abort => Step::Abort,
            }
        },
        Peg::Call(r) => {
            let i = r.index();
            if fuel == 0 || i >= table.len() {
                return Step::Abort;
            }
            match run(table, &table[i], text, pos, fuel - 1, seen) {
                Step::Match(end, nodes, after) => {
                    let p = Pair { rule: *r, start: pos, end, children: nodes };
                    proof {
                        lemma_children_view(p);
                    }
                    let ghost model = p@;
                    let mut out = Vec::new();
                    out.push(p);
                    proof {
                        assert(trees(out@) =~= seq![model]);
                    }
                    Step::Match(end, out, after)
                },
                Step::Miss(after) => Step::Miss(after.note(pos, *r)),
                Step::Abort => Step::Abort,
            }
        },
        Peg::Fenced(r) => {
            let open = skip_ticks(text, pos);
            if open <= pos {
                return Step::Miss(seen);
            }
            let n = open - pos;
            let len = text.len();
            match find_fence(text, open, n) {
                None => Step::Miss(seen),
                Some(close) => {
                    let p = Pair { rule: *r, start: open, end: close, children: no_nodes() };
                    proof {
                        lemma_children_view(p);
                    }
                    let ghost model = p@;
                    let mut out = Vec::new();
                    out.push(p);
                    proof {
                        assert(trees(out@) =~= seq![model]);
                    }
                    Step::Match(close + n, out, seen)
                },
            }
        },
        Peg::Fork(r, a, b, c) => {
            match run(table, a, text, pos, fuel, seen) {
                Step::Match(mid, mut first, after) => {
                    match run(table, b, text, mid, fuel, after) {
                        Step::Match(end, mut nodes, last) => {
                            proof {
                                lemma_trees_concat(first@, nodes@);
                            }
                            first.append(&mut nodes);
                            let p = Pair { rule: *r, start: pos, end, children: first };
                            proof {
                                lemma_children_view(p);
                            }
                            let ghost model = p@;
                            let mut out = Vec::new();
                            out.push(p);
                            proof {
                                assert(trees(out@) =~= seq![model]);
                            }
                            Step::Match(end, out, last)
                        },
                        Step::Miss(last) => {
                            match run(table, c, text, mid, fuel, last) {
                                Step::Match(end, mut nodes, done) => {
                                    proof {
                                        lemma_trees_concat(first@, nodes@);
                                    }
                                    first.append(&mut nodes);
                                    Step::Match(end, first, done)
                                },
                                other => other,
                            }
                        },
                        Step::Abort => Step::Abort,
                    }
                },
                other => other,
            }
        },
    }
}

/// Repeats expression `e` from `pos` on, after `init` was produced.
fn run_repeat(
    table: &Vec<Peg>,
    e: &Peg,
    text: &[u8],
    pos: usize,
    fuel: usize,
    init: Vec<Pair>,
    seen: Seen,
) -> (r: Step)
    requires
        pos <= text@.len(),
    ensures
        r.outcome() == repeat(table@, *e, text@, pos as int, fuel as nat, trees(init@), seen@),
        r.within(pos as int, text@.len() as int),
    decreases fuel, e, 1nat, text@.len() - pos,
{
    let ghost start = trees(init@);
    let ghost first = seen@;
    let mut cur = pos;
    let mut acc = init;
    let mut trace = seen;
    loop
        invariant
            pos <= cur <= text@.len(),
            start == trees(init@),
            first == seen@,
            repeat(table@, *e, text@, pos as int, fuel as nat, start, first) == repeat(
                table@,
                *e,
                text@,
                cur as int,
                fuel as nat,
                trees(acc@),
                trace@,
            ),
        decreases text@.len() - cur,
    {
        match run(table, e, text, cur, fuel, trace) {
            Step::Match(end, mut nodes, after) => {
                if end > cur {
                    proof {
                        lemma_trees_concat(acc@, nodes@);
                    }
                    acc.append(&mut nodes);
                    cur = end;
                    trace = after;
                } else {
                    return Step::Match(cur, acc, after);
                }
            },
            Step::Miss(after) => {
                return Step::Match(cur, acc, after);
            },
            Step::Abort => {
                return Step::Abort;
            },
        }
    }
}

} // verus!
