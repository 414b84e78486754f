//! String literals, from their text to their value.

use vstd::prelude::*;
use vstd::string::StringSliceAdditionalSpecFns;
use vstd::utf8::encode_scalar;
use vstd::utf8::encode_utf8;
use crate::grammar::grammar;
use crate::grammar::rule_body;
use crate::laws::fences::fenced;
use crate::laws::fences::fits_fence;
use crate::laws::fences::lemma_fence_in_context;
use crate::laws::fences::ticks;
use crate::notation::ahead;
use crate::notation::cat;
use crate::notation::cat3;
use crate::notation::digit;
use crate::notation::hex_digit;
use crate::notation::lit;
use crate::notation::many1;
use crate::notation::opt;
use crate::notation::or;
use crate::notation::rule;
use crate::parser::parse_spec;
use crate::parser::ParseFailure;
use crate::parser::MAX_DEPTH;
use crate::peg::eval;
use crate::peg::lit_at;
use crate::peg::no_trace;
use crate::peg::note;
use crate::peg::ticks_at;
use crate::peg::Outcome;
use crate::peg::Peg;
use crate::peg::Trace;
use crate::rule::Rule;
use crate::tree::Tree;
use crate::ast::literal::LiteralModel;
use crate::error::LowerError;
use crate::lower::literal::literal_of;
use crate::lower::literal::string_of;
use crate::lower::literal::trimmed;
use crate::text::in_text;
use crate::text::is_white_space;
use crate::text::text_between;
use crate::text::trim_end_of;
use crate::text::trim_start_of;

verus! {

/// A run of `n` backtick characters.
pub open spec fn tick_chars(n: nat) -> Seq<char> {
    Seq::new(n, |i: int| '`')
}

/// The marker that keeps the white space on one side of a string, or
/// nothing.
pub open spec fn mark(on: bool) -> Seq<char> {
    if on {
        seq!['#']
    } else {
        Seq::empty()
    }
}

/// `content` with one blank on either side.
pub open spec fn padded(content: Seq<char>) -> Seq<char> {
    seq![' '] + content + seq![' ']
}

/// The text of a string literal: `content` with a blank on either side,
/// between two runs of `n` backticks, with a marker before the first run if
/// `before` says so and one behind the second if `after` says so.
pub open spec fn string_text(n: nat, content: Seq<char>, before: bool, after: bool) -> Seq<char> {
    mark(before) + tick_chars(n) + padded(content) + tick_chars(n) + mark(after)
}

/// Whether `n` backticks stand in `text` from character `k` on.
pub open spec fn run_at(text: Seq<char>, k: int, n: nat) -> bool {
    0 <= k && k + n <= text.len() && forall|j: int| k <= j < k + n ==> text[j] == '`'
}

/// Whether `content` can be read back from between runs of `n` backticks:
/// it neither starts nor ends with white space, and every run of backticks
/// in it is shorter than `n`.
pub open spec fn plain_content(n: nat, content: Seq<char>) -> bool {
    &&& n >= 1
    &&& content.len() > 0 ==> !is_white_space(content[0]) && !is_white_space(content.last())
    &&& forall|k: int| !run_at(content, k, n)
}

/// The encoding of two texts one after another is the encoding of the first
/// followed by that of the second.
pub proof fn lemma_encode_concat(a: Seq<char>, b: Seq<char>)
    ensures
        encode_utf8(a + b) == encode_utf8(a) + encode_utf8(b),
    decreases a.len(),
{
    if a.len() == 0 {
        assert(a + b =~= b);
        assert(encode_utf8(a) + encode_utf8(b) =~= encode_utf8(b));
    } else {
        assert((a + b).drop_first() =~= a.drop_first() + b);
        lemma_encode_concat(a.drop_first(), b);
        assert(encode_utf8(a + b) =~= encode_utf8(a) + encode_utf8(b));
    }
}

/// The byte of a backtick stands in the encoding of no other character.
proof fn lemma_tick_byte(c: char, k: int)
    requires
        0 <= k < encode_scalar(c as u32).len(),
        encode_scalar(c as u32)[k] == 0x60,
    ensures
        c == '`',
        encode_scalar(c as u32).len() == 1,
{
    let s = c as u32;
    vstd::utf8::char_is_scalar(c);
    assert(s <= 0x7F && (s & 0x7F) as u8 == 0x60 ==> s == 0x60) by (bit_vector);
    assert(0xC0u8 | ((s >> 6) & 0x1F) as u8 >= 0x80) by (bit_vector);
    assert(0xE0u8 | ((s >> 12) & 0x0F) as u8 >= 0x80) by (bit_vector);
    assert(0xF0u8 | ((s >> 18) & 0x7) as u8 >= 0x80) by (bit_vector);
    assert(0x80u8 | (s & 0x3F) as u8 >= 0x80) by (bit_vector);
    assert(0x80u8 | ((s >> 6) & 0x3F) as u8 >= 0x80) by (bit_vector);
    assert(0x80u8 | ((s >> 12) & 0x3F) as u8 >= 0x80) by (bit_vector);
    assert(s == 0x60);
    vstd::utf8::char_u32_cast(c, s);
}

/// A text whose encoding starts with `m` backtick bytes starts with `m`
/// backticks.
proof fn lemma_ticks_at_start(c: Seq<char>, m: nat)
    requires
        ticks_at(encode_utf8(c), 0, m as int),
    ensures
        c.len() >= m,
        forall|j: int| 0 <= j < m ==> c[j] == '`',
    decreases m,
{
    if m > 0 {
        let first = encode_scalar(c[0] as u32);
        let rest = c.drop_first();
        assert(c.len() > 0);
        vstd::utf8::char_is_scalar(c[0]);
        assert(encode_utf8(c)[0] == first[0]);
        lemma_tick_byte(c[0], 0);
        assert forall|j: int| 0 <= j < m - 1 implies encode_utf8(rest)[j] == 0x60 by {
            assert(encode_utf8(c)[j + 1] == encode_utf8(rest)[j]);
        }
        lemma_ticks_at_start(rest, (m - 1) as nat);
        assert forall|j: int| 0 <= j < m implies c[j] == '`' by {
            if j > 0 {
                assert(c[j] == rest[j - 1]);
            }
        }
    }
}

/// Where `n` backtick bytes stand in the encoding of a text, `n` backticks
/// stand in the text.
proof fn lemma_ticks_in_text(c: Seq<char>, k: int, n: nat)
    requires
        n >= 1,
        ticks_at(encode_utf8(c), k, n as int),
    ensures
        exists|i: int| run_at(c, i, n),
    decreases c.len(),
{
    let first = encode_scalar(c[0] as u32);
    let rest = c.drop_first();
    assert(c.len() > 0);
    if k >= first.len() {
        assert forall|j: int| k - first.len() <= j < k - first.len() + n implies encode_utf8(
            rest,
        )[j] == 0x60 by {
            assert(encode_utf8(c)[j + first.len()] == encode_utf8(rest)[j]);
        }
        lemma_ticks_in_text(rest, k - first.len(), n);
        let i = choose|i: int| run_at(rest, i, n);
        assert forall|j: int| i + 1 <= j < i + 1 + n implies c[j] == '`' by {
            assert(c[j] == rest[j - 1]);
        }
        assert(run_at(c, i + 1, n));
    } else {
        assert(encode_utf8(c)[k] == first[k]);
        lemma_tick_byte(c[0], k);
        lemma_ticks_at_start(c, n);
        assert(run_at(c, 0, n));
    }
}

/// Content that holds no run of `n` backticks, with a blank on either side,
/// can stand between runs of `n` backticks.
pub proof fn lemma_content_fits(n: nat, content: Seq<char>)
    requires
        plain_content(n, content),
    ensures
        encode_utf8(padded(content)) == seq![0x20u8] + encode_utf8(content) + seq![0x20u8],
        fits_fence(n, encode_utf8(padded(content))),
{
    let blank = seq![' '];
    let inner = encode_utf8(content);
    lemma_encode_concat(blank + content, blank);
    lemma_encode_concat(blank, content);
    assert(vstd::utf8::is_ascii_chars(blank));
    vstd::utf8::is_ascii_chars_encode_utf8(blank);
    assert(encode_utf8(blank) =~= seq![0x20u8]);
    let body = encode_utf8(padded(content));
    assert(body == seq![0x20u8] + inner + seq![0x20u8]);
    assert(body[0] == 0x20);
    assert(body.last() == 0x20);
    assert forall|k: int| 0 <= k && k + n <= body.len() implies !ticks_at(body, k, n as int) by {
        if ticks_at(body, k, n as int) {
            assert(body[0] == 0x20);
            assert(k >= 1);
            assert(body[body.len() - 1] == 0x20);
            assert(k + n <= body.len() - 1);
            assert forall|j: int| k - 1 <= j < k - 1 + n implies inner[j] == 0x60 by {
                assert(body[j + 1] == inner[j]);
            }
            lemma_ticks_in_text(content, k - 1, n);
        }
    }
}

/// The bytes of the marker, or none.
pub open spec fn mark_bytes(on: bool) -> Seq<u8> {
    if on {
        seq![0x23u8]
    } else {
        Seq::empty()
    }
}

/// The node of a marker at byte `at`, or none.
pub open spec fn mark_nodes(on: bool, at: int) -> Seq<Tree> {
    if on {
        seq![
            Tree {
                rule: Rule::string_omit_space_identifier,
                start: at,
                end: at + 1,
                children: Seq::empty(),
            },
        ]
    } else {
        Seq::empty()
    }
}

/// The node of a string literal at the start of a text: `len` bytes between
/// runs of `n` backticks, with the markers that `before` and `after` name.
pub open spec fn string_node(n: nat, len: nat, before: bool, after: bool) -> Tree {
    let open = mark_bytes(before).len() + n;
    let close = open + len;
    Tree {
        rule: Rule::string_const,
        start: 0,
        end: (close + n + mark_bytes(after).len()) as int,
        children: mark_nodes(before, 0) + seq![
            Tree {
                rule: Rule::string_interior,
                start: open as int,
                end: close as int,
                children: Seq::empty(),
            },
        ] + mark_nodes(after, (close + n) as int),
    }
}

/// Whether a text starts as a string literal does: with a marker or a
/// backtick.
spec fn opens_string(s: Seq<u8>) -> bool {
    s.len() >= 1 && (s[0] == 0x23 || s[0] == 0x60)
}

proof fn lemma_words()
    ensures
        "0".spec_bytes() =~= seq![0x30u8],
        ".".spec_bytes() =~= seq![0x2eu8],
        "(".spec_bytes() =~= seq![0x28u8],
        "#".spec_bytes() =~= seq![0x23u8],
        "true".spec_bytes().len() == 4 && "true".spec_bytes()[0] == 0x74,
        "false".spec_bytes().len() == 5 && "false".spec_bytes()[0] == 0x66,
{
    reveal_strlit("0");
    reveal_strlit(".");
    reveal_strlit("(");
    reveal_strlit("#");
    reveal_strlit("true");
    reveal_strlit("false");
    vstd::string::is_ascii_spec_bytes("0");
    vstd::string::is_ascii_spec_bytes(".");
    vstd::string::is_ascii_spec_bytes("(");
    vstd::string::is_ascii_spec_bytes("#");
    vstd::string::is_ascii_spec_bytes("true");
    vstd::string::is_ascii_spec_bytes("false");
}

proof fn lemma_word_misses(g: Seq<Peg>, t: &'static str, s: Seq<u8>, fuel: nat, seen: Trace)
    requires
        t.spec_bytes().len() > 0,
        s.len() > 0,
        s[0] != t.spec_bytes()[0],
    ensures
        eval(g, lit(t), s, 0, fuel, seen) == (Outcome::Miss { seen }),
{
    if lit_at(s, 0, t.spec_bytes()) {
        assert(s.subrange(0, t.spec_bytes().len() as int)[0] == s[0]);
    }
}

proof fn lemma_digits_miss(g: Seq<Peg>, s: Seq<u8>, fuel: nat, seen: Trace)
    requires
        opens_string(s),
    ensures
        eval(g, many1(digit()), s, 0, fuel, seen) == (Outcome::Miss { seen }),
{
    reveal_with_fuel(eval, 2);
}

proof fn lemma_table(r: Rule)
    ensures
        r.spec_index() < grammar().len(),
        grammar()[r.spec_index() as int] == rule_body(r),
{
    r.lemma_at_index();
}

proof fn lemma_float_misses(s: Seq<u8>, fuel: nat, seen: Trace)
    requires
        opens_string(s),
        fuel >= 1,
    ensures
        eval(grammar(), rule(Rule::float_const), s, 0, fuel, seen) == (Outcome::Miss {
            seen: note(seen, 0, Rule::float_const),
        }),
{
    let g = grammar();
    let f = (fuel - 1) as nat;
    lemma_table(Rule::float_const);
    lemma_words();
    lemma_digits_miss(g, s, f, seen);
    lemma_word_misses(g, ".", s, f, seen);
    reveal_with_fuel(eval, 3);
}

proof fn lemma_length_misses(s: Seq<u8>, fuel: nat, seen: Trace)
    requires
        opens_string(s),
        fuel >= 2,
    ensures
        eval(grammar(), rule(Rule::length_const), s, 0, fuel, seen) == (Outcome::Miss {
            seen: note(note(seen, 0, Rule::length_digit), 0, Rule::length_const),
        }),
{
    let g = grammar();
    let f = (fuel - 2) as nat;
    lemma_table(Rule::length_const);
    lemma_table(Rule::length_digit);
    lemma_words();
    lemma_digits_miss(g, s, f, seen);
    lemma_word_misses(g, ".", s, f, seen);
    assert(eval(g, rule(Rule::length_digit), s, 0, (fuel - 1) as nat, seen) == (Outcome::Miss {
        seen: note(seen, 0, Rule::length_digit),
    })) by {
        reveal_with_fuel(eval, 3);
    }
    reveal_with_fuel(eval, 2);
}

proof fn lemma_integer_misses(s: Seq<u8>, fuel: nat, seen: Trace)
    requires
        opens_string(s),
        fuel >= 2,
    ensures
        eval(grammar(), rule(Rule::int_const), s, 0, fuel, seen) == (Outcome::Miss {
            seen: note(
                note(note(seen, 0, Rule::int_hex_const), 0, Rule::int_decimal_const),
                0,
                Rule::int_const,
            ),
        }),
{
    let g = grammar();
    let f = (fuel - 2) as nat;
    let first = note(seen, 0, Rule::int_hex_const);
    lemma_table(Rule::int_const);
    lemma_table(Rule::int_hex_const);
    lemma_table(Rule::int_decimal_const);
    lemma_words();
    lemma_word_misses(g, "0", s, f, seen);
    lemma_digits_miss(g, s, f, first);
    assert(eval(g, rule(Rule::int_hex_const), s, 0, (fuel - 1) as nat, seen) == (Outcome::Miss {
        seen: first,
    })) by {
        reveal_with_fuel(eval, 2);
    }
    assert(eval(g, rule(Rule::int_decimal_const), s, 0, (fuel - 1) as nat, first) == (
    Outcome::Miss { seen: note(first, 0, Rule::int_decimal_const) }));
    reveal_with_fuel(eval, 2);
}

proof fn lemma_bool_misses(s: Seq<u8>, fuel: nat, seen: Trace)
    requires
        opens_string(s),
        fuel >= 1,
    ensures
        eval(grammar(), rule(Rule::bool_const), s, 0, fuel, seen) == (Outcome::Miss {
            seen: note(seen, 0, Rule::bool_const),
        }),
{
    let g = grammar();
    let f = (fuel - 1) as nat;
    lemma_table(Rule::bool_const);
    lemma_words();
    lemma_word_misses(g, "true", s, f, seen);
    lemma_word_misses(g, "false", s, f, seen);
    reveal_with_fuel(eval, 3);
}

proof fn lemma_unit_misses(s: Seq<u8>, fuel: nat, seen: Trace)
    requires
        opens_string(s),
        fuel >= 1,
    ensures
        eval(grammar(), rule(Rule::unit_const), s, 0, fuel, seen) == (Outcome::Miss {
            seen: note(seen, 0, Rule::unit_const),
        }),
{
    let g = grammar();
    let f = (fuel - 1) as nat;
    lemma_table(Rule::unit_const);
    lemma_words();
    lemma_word_misses(g, "(", s, f, seen);
    reveal_with_fuel(eval, 2);
}

proof fn lemma_guard_misses(s: Seq<u8>, fuel: nat, seen: Trace)
    requires
        opens_string(s),
    ensures
        eval(
            grammar(),
            ahead(cat3(lit("0"), or(lit("x"), lit("X")), hex_digit())),
            s,
            0,
            fuel,
            seen,
        ) == (Outcome::Miss { seen }),
{
    lemma_words();
    lemma_word_misses(grammar(), "0", s, fuel, no_trace());
    reveal_with_fuel(eval, 4);
}

/// The bytes of a string literal around `body`.
pub open spec fn string_bytes(n: nat, body: Seq<u8>, before: bool, after: bool) -> Seq<u8> {
    mark_bytes(before) + fenced(n, body) + mark_bytes(after)
}

proof fn lemma_marker(s: Seq<u8>, pos: int, on: bool, fuel: nat, seen: Trace)
    requires
        fuel >= 1,
        0 <= pos <= s.len(),
        on ==> pos < s.len() && s[pos] == 0x23,
        !on ==> pos == s.len() || s[pos] != 0x23,
    ensures
        eval(grammar(), opt(rule(Rule::string_omit_space_identifier)), s, pos, fuel, seen)
            matches Outcome::Match { end, nodes, seen: _ } && end == pos + mark_bytes(on).len()
            && nodes == mark_nodes(on, pos),
{
    let word = "#".spec_bytes();
    lemma_table(Rule::string_omit_space_identifier);
    lemma_words();
    if on {
        assert(s.subrange(pos, pos + 1) =~= word);
    } else if lit_at(s, pos, word) {
        assert(s.subrange(pos, pos + 1)[0] == s[pos]);
    }
    reveal_with_fuel(eval, 3);
}

proof fn lemma_string_matches(
    n: nat,
    body: Seq<u8>,
    before: bool,
    after: bool,
    fuel: nat,
    seen: Trace,
)
    requires
        fits_fence(n, body),
        fuel >= 2,
    ensures
        eval(
            grammar(),
            rule(Rule::string_const),
            string_bytes(n, body, before, after),
            0,
            fuel,
            seen,
        ) matches Outcome::Match { end, nodes, seen: _ } && end == string_bytes(
            n,
            body,
            before,
            after,
        ).len() && nodes == seq![string_node(n, body.len(), before, after)],
{
    let g = grammar();
    let f = (fuel - 1) as nat;
    let s = string_bytes(n, body, before, after);
    let open = mark_bytes(before).len() as int;
    let close = open + 2 * n + body.len();
    let marker = opt(rule(Rule::string_omit_space_identifier));
    let fence = Peg::Fenced(Rule::string_interior);
    lemma_table(Rule::string_const);
    assert(rule_body(Rule::string_const) == cat(marker, cat(fence, marker)));
    assert(s.len() == close + mark_bytes(after).len());
    assert(s[open] == ticks(n)[0]);
    if after {
        assert(s[close] == 0x23);
    }
    lemma_marker(s, 0, before, f, seen);
    let first = eval(g, marker, s, 0, f, seen);
    lemma_fence_in_context(
        g,
        Rule::string_interior,
        mark_bytes(before),
        n,
        body,
        mark_bytes(after),
        f,
        first->Match_seen,
    );
    let second = eval(g, fence, s, open, f, first->Match_seen);
    assert(second->end == close);
    lemma_marker(s, close, after, f, second->Match_seen);
    let third = eval(g, marker, s, close, f, second->Match_seen);
    let rest = eval(g, cat(fence, marker), s, open, f, first->Match_seen);
    assert(rest matches Outcome::Match { end, nodes, seen: _ } && end == third->end && nodes
        == second->nodes + third->nodes);
    let whole = eval(g, cat(marker, cat(fence, marker)), s, 0, f, seen);
    assert(whole matches Outcome::Match { end, nodes, seen: _ } && end == third->end && nodes
        == first->nodes + (second->nodes + third->nodes));
    assert(first->nodes + (second->nodes + third->nodes) =~= string_node(
        n,
        body.len(),
        before,
        after,
    ).children);
}

/// The node of a whole literal that is the string literal described.
pub open spec fn literal_node(n: nat, len: nat, before: bool, after: bool) -> Tree {
    Tree {
        rule: Rule::literal,
        start: 0,
        end: string_node(n, len, before, after).end,
        children: seq![string_node(n, len, before, after)],
    }
}

/// A string literal is recognised as a literal, as a whole, and as a
/// string: no other kind of literal claims a text that starts with a marker
/// or a backtick.
pub proof fn lemma_literal_is_string(n: nat, body: Seq<u8>, before: bool, after: bool)
    requires
        fits_fence(n, body),
    ensures
        parse_spec(Rule::literal, string_bytes(n, body, before, after)) == Ok::<
            Tree,
            ParseFailure,
        >(literal_node(n, body.len(), before, after)),
        literal_node(n, body.len(), before, after).end == string_bytes(
            n,
            body,
            before,
            after,
        ).len(),
{
    let g = grammar();
    let f = (MAX_DEPTH - 1) as nat;
    let s = string_bytes(n, body, before, after);
    let seen = no_trace();
    assert(opens_string(s)) by {
        assert(s[mark_bytes(before).len() as int] == ticks(n)[0]);
    }
    let guard = ahead(cat3(lit("0"), or(lit("x"), lit("X")), hex_digit()));
    let e5 = or(rule(Rule::unit_const), rule(Rule::string_const));
    let e4 = or(rule(Rule::bool_const), e5);
    let e3 = or(rule(Rule::int_const), e4);
    let e2 = or(rule(Rule::float_const), e3);
    let e1 = or(rule(Rule::length_const), e2);
    let e0 = or(cat(guard, rule(Rule::int_const)), e1);
    lemma_table(Rule::literal);
    assert(rule_body(Rule::literal) == e0);
    lemma_guard_misses(s, f, seen);
    assert(eval(g, cat(guard, rule(Rule::int_const)), s, 0, f, seen) == (Outcome::Miss { seen }));
    lemma_length_misses(s, f, seen);
    let s1 = note(note(seen, 0, Rule::length_digit), 0, Rule::length_const);
    lemma_float_misses(s, f, s1);
    let s2 = note(s1, 0, Rule::float_const);
    lemma_integer_misses(s, f, s2);
    let s3 = note(
        note(note(s2, 0, Rule::int_hex_const), 0, Rule::int_decimal_const),
        0,
        Rule::int_const,
    );
    lemma_bool_misses(s, f, s3);
    let s4 = note(s3, 0, Rule::bool_const);
    lemma_unit_misses(s, f, s4);
    let s5 = note(s4, 0, Rule::unit_const);
    lemma_string_matches(n, body, before, after, f, s5);
    let found = eval(g, rule(Rule::string_const), s, 0, f, s5);
    assert(eval(g, e5, s, 0, f, s4) == found);
    assert(eval(g, e4, s, 0, f, s3) == found);
    assert(eval(g, e3, s, 0, f, s2) == found);
    assert(eval(g, e2, s, 0, f, s1) == found);
    assert(eval(g, e1, s, 0, f, seen) == found);
    assert(eval(g, e0, s, 0, f, seen) == found);
    let whole = eval(g, Peg::Call(Rule::literal), s, 0, MAX_DEPTH as nat, seen);
    assert(whole matches Outcome::Match { end, nodes, seen: _ } && nodes == seq![
        literal_node(n, body.len(), before, after),
    ]);
}

proof fn lemma_string_encoding(n: nat, content: Seq<char>, before: bool, after: bool)
    ensures
        encode_utf8(string_text(n, content, before, after)) == string_bytes(
            n,
            encode_utf8(padded(content)),
            before,
            after,
        ),
{
    let run = tick_chars(n);
    let inner = padded(content);
    lemma_encode_concat(mark(before) + run + inner + run, mark(after));
    lemma_encode_concat(mark(before) + run + inner, run);
    lemma_encode_concat(mark(before) + run, inner);
    lemma_encode_concat(mark(before), run);
    vstd::utf8::is_ascii_chars_encode_utf8(mark(before));
    vstd::utf8::is_ascii_chars_encode_utf8(mark(after));
    vstd::utf8::is_ascii_chars_encode_utf8(run);
    assert(encode_utf8(mark(before)) =~= mark_bytes(before));
    assert(encode_utf8(mark(after)) =~= mark_bytes(after));
    assert(encode_utf8(run) =~= ticks(n));
    assert(string_bytes(n, encode_utf8(inner), before, after) =~= encode_utf8(mark(before))
        + encode_utf8(run) + encode_utf8(inner) + encode_utf8(run) + encode_utf8(mark(after)));
}

proof fn lemma_trim_start_blank(s: Seq<char>)
    ensures
        trim_start_of(seq![' '] + s) == trim_start_of(s),
        s.len() == 0 || !is_white_space(s[0]) ==> trim_start_of(s) == s,
{
    assert((seq![' '] + s).drop_first() =~= s);
}

proof fn lemma_trim_end_blank(s: Seq<char>)
    ensures
        trim_end_of(s + seq![' ']) == trim_end_of(s),
        s.len() == 0 || !is_white_space(s.last()) ==> trim_end_of(s) == s,
{
    assert((s + seq![' ']).drop_last() =~= s);
}

/// What is left of padded content when white space is dropped on the sides
/// named: with both sides dropped the content itself, with none the padded
/// content, and in every case a text that is the content once the white
/// space around it is gone.
proof fn lemma_trimmed_padding(content: Seq<char>, start: bool, end: bool)
    requires
        content.len() > 0 ==> !is_white_space(content[0]) && !is_white_space(content.last()),
    ensures
        trim_end_of(trim_start_of(trimmed(padded(content), start, end))) == content,
        start && end ==> trimmed(padded(content), start, end) == content,
        !start && !end ==> trimmed(padded(content), start, end) == padded(content),
{
    let blank = seq![' '];
    let left = blank + content;
    let right = content + blank;
    let both = padded(content);
    assert(both =~= blank + right);
    assert(both =~= left + blank);
    lemma_trim_start_blank(right);
    lemma_trim_start_blank(content);
    lemma_trim_end_blank(left);
    lemma_trim_end_blank(content);
    lemma_trim_end_blank(Seq::<char>::empty());
    lemma_trim_start_blank(Seq::<char>::empty());
    if content.len() == 0 {
        assert(left =~= blank);
        assert(right =~= blank);
        assert(blank =~= blank + Seq::<char>::empty());
        assert(blank =~= Seq::<char>::empty() + blank);
        assert(trim_start_of(blank) == Seq::<char>::empty());
        assert(trim_end_of(blank) == Seq::<char>::empty());
        assert(trim_start_of(both) == Seq::<char>::empty());
        assert(trim_end_of(both) == Seq::<char>::empty());
        assert(content =~= Seq::<char>::empty());
    } else {
        assert(right[0] == content[0]);
        assert(left.last() == content.last());
        assert(trim_start_of(both) == right);
        assert(trim_end_of(both) == left);
        assert(trim_end_of(right) == content);
        assert(trim_start_of(left) == content);
    }
}

/// The bytes between the two runs of backticks lie between characters and
/// encode the padded content.
proof fn lemma_interior_is_content(n: nat, content: Seq<char>, before: bool, after: bool)
    requires
        plain_content(n, content),
    ensures
        ({
            let b = encode_utf8(string_text(n, content, before, after));
            let open = (mark_bytes(before).len() + n) as int;
            let close = open + encode_utf8(padded(content)).len();
            in_text(b, open, close) && text_between(b, open, close) == padded(content)
        }),
{
    let b = encode_utf8(string_text(n, content, before, after));
    let body = encode_utf8(padded(content));
    let open = (mark_bytes(before).len() + n) as int;
    let close = open + body.len();
    lemma_content_fits(n, content);
    lemma_string_encoding(n, content, before, after);
    assert(b == mark_bytes(before) + ticks(n) + body + ticks(n) + mark_bytes(after)) by {
        assert(string_bytes(n, body, before, after) =~= mark_bytes(before) + ticks(n) + body
            + ticks(n) + mark_bytes(after));
    }
    assert(b[open] == body[0]);
    assert(b[close] == ticks(n)[0]);
    assert(in_text(b, open, close)) by {
        reveal(in_text);
        vstd::utf8::encode_utf8_valid_utf8(string_text(n, content, before, after));
        vstd::utf8::is_char_boundary_iff_not_is_continuation_byte(b, open);
        vstd::utf8::is_char_boundary_iff_not_is_continuation_byte(b, close);
    }
    assert(text_between(b, open, close) == padded(content)) by {
        reveal(text_between);
        assert(b.subrange(open, close) =~= body);
        vstd::utf8::encode_utf8_decode_utf8(padded(content));
    }
}

/// The node of a string literal lowers to the text between its runs of
/// backticks, without the white space on the sides that have no marker.
proof fn lemma_string_node_lowers(
    b: Seq<u8>,
    n: nat,
    len: nat,
    inner: Seq<char>,
    before: bool,
    after: bool,
)
    requires
        in_text(
            b,
            (mark_bytes(before).len() + n) as int,
            (mark_bytes(before).len() + n + len) as int,
        ),
        text_between(
            b,
            (mark_bytes(before).len() + n) as int,
            (mark_bytes(before).len() + n + len) as int,
        ) == inner,
    ensures
        literal_of(b, literal_node(n, len, before, after)) == Ok::<LiteralModel, LowerError>(
            LiteralModel::String(trimmed(inner, !before, !after)),
        ),
{
    let whole = string_node(n, len, before, after);
    let at: int = if before {
        1
    } else {
        0
    };
    assert(whole.children.len() == at + 1 + mark_nodes(after, 0).len());
    assert(whole.children[at].rule == Rule::string_interior);
    assert(whole.children[at].start == mark_bytes(before).len() + n);
    assert(whole.children[at].end == mark_bytes(before).len() + n + len);
    assert(after ==> whole.children[at + 1].rule == Rule::string_omit_space_identifier);
    assert(before ==> whole.children[0].rule == Rule::string_omit_space_identifier);
    assert(!before ==> whole.children[0].rule == Rule::string_interior);
    assert(string_of(b, whole) == Ok::<Seq<char>, LowerError>(trimmed(inner, !before, !after)));
}

/// A string literal reads back as its content. For every `n` of at least
/// one and every content that neither starts nor ends with white space and
/// holds no run of `n` backticks: the text made of `n` backticks, a blank,
/// the content, a blank and `n` backticks, with or without a marker on
/// either side, is recognised as a literal as a whole, and the literal
/// lowers to a string. That string is the content where no marker stands,
/// the content with its two blanks where both stand, and in every case the
/// content once the white space around it is removed.
pub proof fn lemma_string_literal_reads_back(
    n: nat,
    content: Seq<char>,
    before: bool,
    after: bool,
)
    requires
        plain_content(n, content),
    ensures
        ({
            let b = encode_utf8(string_text(n, content, before, after));
            let value = trimmed(padded(content), !before, !after);
            &&& parse_spec(Rule::literal, b) matches Ok(t) && t.start == 0 && t.end == b.len()
                && literal_of(b, t) == Ok::<LiteralModel, LowerError>(LiteralModel::String(value))
            &&& trim_end_of(trim_start_of(value)) == content
            &&& !before && !after ==> value == content
            &&& before && after ==> value == padded(content)
        }),
{
    let b = encode_utf8(string_text(n, content, before, after));
    let body = encode_utf8(padded(content));
    lemma_content_fits(n, content);
    lemma_string_encoding(n, content, before, after);
    lemma_literal_is_string(n, body, before, after);
    lemma_trimmed_padding(content, !before, !after);
    lemma_interior_is_content(n, content, before, after);
    lemma_string_node_lowers(b, n, body.len(), padded(content), before, after);
}

} // verus!
