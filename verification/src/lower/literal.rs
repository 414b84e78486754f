//! Lowering of literals: decoding of numbers, lengths and strings.

use vstd::prelude::*;
use vstd::string::StringSliceAdditionalSpecFns;
use crate::ast::literal::Decimal;
use crate::ast::literal::Length;
use crate::ast::literal::LengthModel;
use crate::ast::literal::Literal;
use crate::ast::literal::LiteralModel;
use crate::error::bad_shape;
use crate::error::bad_span;
use crate::error::fails;
use crate::error::fault;
use crate::error::gives;
use crate::error::LowerError;
use crate::error::LowerErrorKind;
use crate::lower::common::at_node;
use crate::lower::common::error_at;
use crate::lower::common::node_text;
use crate::lower::common::ranged_node_text;
use crate::lower::common::ranged_text_of;
use crate::lower::common::shape_error;
use crate::lower::common::wrap_node;
use crate::position::Ranged;
use crate::rule::Rule;
use crate::text::covers;
use crate::text::node_spells;
use crate::text::slice_text;
use crate::text::spells;
use crate::text::text_of;
use crate::text::trim_end_of;
use crate::text::trim_start_of;
use crate::tree::Pair;
use crate::tree::Tree;

verus! {

/// The value of a digit in base `radix`, which is 10 or 16.
pub open spec fn digit_value(b: u8, radix: int) -> Option<int> {
    if 0x30 <= b <= 0x39 {
        Some(b - 0x30)
    } else if radix == 16 && 0x61 <= b <= 0x66 {
        Some(b - 0x61 + 10)
    } else if radix == 16 && 0x41 <= b <= 0x46 {
        Some(b - 0x41 + 10)
    } else {
        None
    }
}

/// The number that the digits `ds` denote in base `radix`, if they are
/// digits and at least one.
pub open spec fn number_value(ds: Seq<u8>, radix: int) -> Option<int>
    decreases ds.len(),
{
    if ds.len() == 0 {
        None
    } else if ds.len() == 1 {
        digit_value(ds[0], radix)
    } else {
        match (number_value(ds.drop_last(), radix), digit_value(ds.last(), radix)) {
            (Some(v), Some(d)) => Some(v * radix + d),
            _ => None,
        }
    }
}

/// The integer of node `t` with digits of value `v`: the value where it
/// fits 32 bits.
pub open spec fn number_result(v: Option<int>, t: Tree) -> Result<i32, LowerError> {
    match v {
        None => Err(bad_shape(t)),
        Some(n) => if n <= i32::MAX {
            Ok(n as i32)
        } else {
            Err(fault(LowerErrorKind::Overflow, t))
        },
    }
}

/// What an integer node lowers to. Its child says whether the digits are
/// decimal, or hexadecimal behind `0x` or `0X`.
pub open spec fn int_of(b: Seq<u8>, t: Tree) -> Result<i32, LowerError> {
    if t.children.len() < 1 {
        Err(bad_shape(t))
    } else {
        let d = t.children[0];
        let s = b.subrange(d.start, d.end);
        if !(0 <= d.start <= d.end <= b.len()) {
            Err(bad_span(d))
        } else if d.rule == Rule::int_decimal_const {
            number_result(number_value(s, 10), d)
        } else if d.rule == Rule::int_hex_const {
            if s.len() >= 2 && s[0] == 0x30 && (s[1] == 0x78 || s[1] == 0x58) {
                number_result(number_value(s.subrange(2, s.len() as int), 16), d)
            } else {
                Err(bad_shape(d))
            }
        } else {
            Err(bad_shape(d))
        }
    }
}

/// What a boolean node lowers to.
pub open spec fn bool_of(b: Seq<u8>, t: Tree) -> Result<bool, LowerError> {
    if spells(b, t, "true".spec_bytes()) {
        Ok(true)
    } else if spells(b, t, "false".spec_bytes()) {
        Ok(false)
    } else {
        Err(bad_shape(t))
    }
}

/// How many of the bytes `s` are decimal points.
pub open spec fn points_in(s: Seq<u8>) -> nat
    decreases s.len(),
{
    if s.len() == 0 {
        0
    } else {
        points_in(s.drop_last()) + if s.last() == 0x2E {
            1nat
        } else {
            0nat
        }
    }
}

/// Whether the bytes `s` are a number with a fraction: digits, with at most
/// one decimal point before, among or behind them.
pub open spec fn is_decimal(s: Seq<u8>) -> bool {
    &&& forall|i: int| 0 <= i < s.len() ==> 0x30 <= #[trigger] s[i] <= 0x39 || s[i] == 0x2E
    &&& points_in(s) <= 1
    &&& points_in(s) < s.len()
}

/// What a node that holds a number with a fraction lowers to: its text.
pub open spec fn decimal_of(b: Seq<u8>, t: Tree) -> Result<Seq<char>, LowerError> {
    if !covers(b, t) {
        Err(bad_span(t))
    } else if !is_decimal(b.subrange(t.start, t.end)) {
        Err(bad_shape(t))
    } else {
        Ok(text_of(b, t))
    }
}

/// What a length node lowers to: the number of its first child and the unit
/// of its second, each with its own range.
pub open spec fn length_of(b: Seq<u8>, t: Tree) -> Result<LengthModel, LowerError> {
    if t.children.len() < 2 {
        Err(bad_shape(t))
    } else {
        match decimal_of(b, t.children[0]) {
            Err(e) => Err(e),
            Ok(value) => match ranged_text_of(b, t.children[1]) {
                Err(e) => Err(e),
                Ok(unit) => Ok(
                    LengthModel {
                        value: crate::lower::common::with_range(b, t.children[0], value),
                        unit,
                    },
                ),
            },
        }
    }
}

/// `s`, without the white space at its start if `start` says so, and
/// without that at its end if `end` says so.
pub open spec fn trimmed(s: Seq<char>, start: bool, end: bool) -> Seq<char> {
    let a = if start {
        trim_start_of(s)
    } else {
        s
    };
    if end {
        trim_end_of(a)
    } else {
        a
    }
}

/// What a string node lowers to: the text between the delimiters. White
/// space at the start is dropped unless a marker child stands before the
/// text, and white space at the end unless one stands behind it.
pub open spec fn string_of(b: Seq<u8>, t: Tree) -> Result<Seq<char>, LowerError> {
    let n = t.children.len();
    let keep_start = n > 0 && t.children[0].rule == Rule::string_omit_space_identifier;
    let at: int = if keep_start {
        1
    } else {
        0
    };
    if n <= at {
        Err(bad_shape(t))
    } else if t.children[at].rule != Rule::string_interior {
        Err(bad_shape(t.children[at]))
    } else if n > at + 1 && t.children[at + 1].rule != Rule::string_omit_space_identifier {
        Err(bad_shape(t.children[at + 1]))
    } else if !covers(b, t.children[at]) {
        Err(bad_span(t.children[at]))
    } else {
        Ok(trimmed(text_of(b, t.children[at]), !keep_start, !(n > at + 1)))
    }
}

/// What a literal node lowers to, by the rule of its child.
pub open spec fn literal_of(b: Seq<u8>, t: Tree) -> Result<LiteralModel, LowerError> {
    if t.children.len() < 1 {
        Err(bad_shape(t))
    } else {
        let c = t.children[0];
        match c.rule {
            Rule::unit_const => Ok(LiteralModel::Unit),
            Rule::bool_const => match bool_of(b, c) {
                Ok(v) => Ok(LiteralModel::Bool(v)),
                Err(e) => Err(e),
            },
            Rule::int_const => match int_of(b, c) {
                Ok(v) => Ok(LiteralModel::Int(v)),
                Err(e) => Err(e),
            },
            Rule::float_const => match decimal_of(b, c) {
                Ok(v) => Ok(LiteralModel::Float(v)),
                Err(e) => Err(e),
            },
            Rule::length_const => match length_of(b, c) {
                Ok(v) => Ok(LiteralModel::Length(v)),
                Err(e) => Err(e),
            },
            Rule::string_const => match string_of(b, c) {
                Ok(v) => Ok(LiteralModel::String(v)),
                Err(e) => Err(e),
            },
            _ => Err(bad_shape(c)),
        }
    }
}

/// The value of the digits `start..end` of `bytes` in base `radix`: `Ok`
/// with the value where it fits 32 bits, `Err(true)` where it does not, and
/// `Err(false)` where the bytes are no digits.
fn decode_number(bytes: &[u8], start: usize, end: usize, radix: u8) -> (r: Result<i32, bool>)
    requires
        start <= end <= bytes@.len(),
        radix == 10 || radix == 16,
    ensures
        match number_value(bytes@.subrange(start as int, end as int), radix as int) {
            None => r == Err::<i32, bool>(false),
            Some(n) => if n <= i32::MAX {
                r == Ok::<i32, bool>(n as i32)
            } else {
                r == Err::<i32, bool>(true)
            },
        },
{
    let ghost ds = bytes@.subrange(start as int, end as int);
    if start == end {
        return Err(false);
    }
    let mut acc: i64 = 0;
    let mut over = false;
    let ghost mut value: int = 0;
    let mut i = start;
    while i < end
        invariant
            start <= i <= end <= bytes@.len(),
            radix == 10 || radix == 16,
            ds == bytes@.subrange(start as int, end as int),
            i > start ==> number_value(ds.take(i - start), radix as int) == Some(value),
            i == start ==> value == 0,
            0 <= value,
            !over ==> value == acc && acc <= i32::MAX,
            over ==> value > i32::MAX,
        decreases end - i,
    {
        let b = bytes[i];
        let d: i64 = if 0x30 <= b && b <= 0x39 {
            (b - 0x30) as i64
        } else if radix == 16 && 0x61 <= b && b <= 0x66 {
            (b - 0x61 + 10) as i64
        } else if radix == 16 && 0x41 <= b && b <= 0x46 {
            (b - 0x41 + 10) as i64
        } else {
            proof {
                lemma_not_a_number(ds, i - start, radix as int);
            }
            return Err(false);
        };
        proof {
            let k = i - start;
            assert(ds.take(k + 1).drop_last() =~= ds.take(k));
            assert(ds.take(k + 1).last() == bytes@[i as int]);
            assert(digit_value(b, radix as int) == Some(d as int));
            assert(value * radix + d >= value) by (nonlinear_arith)
                requires
                    value >= 0,
                    radix >= 10,
                    d >= 0,
            ;
            value = value * radix + d;
        }
        if !over {
            acc = acc * (radix as i64) + d;
            if acc > i32::MAX as i64 {
                over = true;
            }
        }
        i = i + 1;
    }
    proof {
        assert(ds.take(end - start) =~= ds);
    }
    if over {
        Err(true)
    } else {
        Ok(acc as i32)
    }
}

/// Bytes of which one is no digit do not denote a number.
proof fn lemma_not_a_number(ds: Seq<u8>, k: int, radix: int)
    requires
        0 <= k < ds.len(),
        digit_value(ds[k], radix) is None,
    ensures
        number_value(ds, radix) is None,
    decreases ds.len(),
{
    if ds.len() > 1 && k < ds.len() - 1 {
        lemma_not_a_number(ds.drop_last(), k, radix);
    }
}

/// Lowers an integer node.
pub fn lower_int(text: &str, pair: &Pair) -> (r: Result<i32, LowerError>)
    ensures
        r == int_of(text.spec_bytes(), pair@),
{
    if pair.child_count() < 1 {
        return Err(shape_error(pair));
    }
    let d = pair.child(0);
    let bytes = text.as_bytes();
    let _ = d.child_count();
    if d.start > d.end || d.end > bytes.len() {
        return Err(error_at(LowerErrorKind::Span, d));
    }
    let decoded = match d.as_rule() {
        Rule::int_decimal_const => decode_number(bytes, d.start, d.end, 10),
        Rule::int_hex_const => {
            if d.end - d.start >= 2 && bytes[d.start] == 0x30 && (bytes[d.start + 1] == 0x78
                || bytes[d.start + 1] == 0x58) {
                proof {
                    let s = bytes@.subrange(d.start as int, d.end as int);
                    assert(s.subrange(2, s.len() as int) =~= bytes@.subrange(
                        d.start + 2,
                        d.end as int,
                    ));
                }
                decode_number(bytes, d.start + 2, d.end, 16)
            } else {
                Err(false)
            }
        },
        _ => Err(false),
    };
    match decoded {
        Ok(v) => Ok(v),
        Err(true) => Err(error_at(LowerErrorKind::Overflow, d)),
        Err(false) => Err(shape_error(d)),
    }
}

/// Lowers a boolean node.
pub fn lower_bool(text: &str, pair: &Pair) -> (r: Result<bool, LowerError>)
    ensures
        r == bool_of(text.spec_bytes(), pair@),
{
    if node_spells(text, pair, "true") {
        Ok(true)
    } else if node_spells(text, pair, "false") {
        Ok(false)
    } else {
        Err(shape_error(pair))
    }
}

/// Whether the bytes `start..end` are a number with a fraction.
fn check_decimal(bytes: &[u8], start: usize, end: usize) -> (r: bool)
    requires
        start <= end <= bytes@.len(),
    ensures
        r == is_decimal(bytes@.subrange(start as int, end as int)),
{
    let ghost s = bytes@.subrange(start as int, end as int);
    let mut points: usize = 0;
    let mut i = start;
    while i < end
        invariant
            start <= i <= end <= bytes@.len(),
            s == bytes@.subrange(start as int, end as int),
            points == points_in(s.take(i - start)),
            points <= i - start,
            forall|j: int| 0 <= j < i - start ==> 0x30 <= #[trigger] s[j] <= 0x39 || s[j] == 0x2E,
        decreases end - i,
    {
        let b = bytes[i];
        proof {
            let k = i - start;
            assert(s.take(k + 1).drop_last() =~= s.take(k));
            assert(s.take(k + 1).last() == b);
        }
        if b == 0x2E {
            points = points + 1;
        } else if !(0x30 <= b && b <= 0x39) {
            proof {
                assert(s[i - start] == b);
            }
            return false;
        }
        i = i + 1;
    }
    proof {
        assert(s.take(end - start) =~= s);
    }
    points <= 1 && points < end - start
}

/// Lowers a node that holds a number with a fraction.
pub fn lower_decimal(text: &str, pair: &Pair) -> (r: Result<Decimal, LowerError>)
    ensures
        r matches Ok(v) ==> gives(decimal_of(text.spec_bytes(), pair@), v.model()),
        r matches Err(e) ==> fails(decimal_of(text.spec_bytes(), pair@), e),
{
    let _ = pair.child_count();
    match slice_text(text, pair.start, pair.end) {
        None => Err(error_at(LowerErrorKind::Span, pair)),
        Some(s) => {
            proof {
                reveal(crate::text::in_text);
                vstd::utf8::encode_utf8_valid_utf8(text@);
                crate::position::lemma_boundary_in_range(text.spec_bytes(), pair.end as int);
            }
            if check_decimal(text.as_bytes(), pair.start, pair.end) {
                Ok(Decimal { text: s.to_owned() })
            } else {
                Err(shape_error(pair))
            }
        },
    }
}

/// Lowers a length node.
pub fn lower_length(text: &str, pair: &Pair) -> (r: Result<Length, LowerError>)
    ensures
        r matches Ok(v) ==> gives(length_of(text.spec_bytes(), pair@), v.model()),
        r matches Err(e) ==> fails(length_of(text.spec_bytes(), pair@), e),
{
    if pair.child_count() < 2 {
        return Err(shape_error(pair));
    }
    let digits = pair.child(0);
    let value = match lower_decimal(text, digits) {
        Ok(v) => v,
        Err(e) => {
            return Err(e);
        },
    };
    let unit = match ranged_node_text(text, pair.child(1)) {
        Ok(v) => v,
        Err(e) => {
            return Err(e);
        },
    };
    match wrap_node(value, text, digits) {
        Ok(value) => Ok(Length { value, unit }),
        Err(e) => Err(e),
    }
}

/// Lowers a string node.
pub fn lower_string(text: &str, pair: &Pair) -> (r: Result<String, LowerError>)
    ensures
        r matches Ok(v) ==> gives(string_of(text.spec_bytes(), pair@), v@),
        r matches Err(e) ==> fails(string_of(text.spec_bytes(), pair@), e),
{
    let n = pair.child_count();
    let keep_start = n > 0 && pair.child(0).as_rule() == Rule::string_omit_space_identifier;
    let at: usize = if keep_start {
        1
    } else {
        0
    };
    if n <= at {
        return Err(shape_error(pair));
    }
    let term = pair.child(at);
    if term.as_rule() != Rule::string_interior {
        return Err(shape_error(term));
    }
    let keep_end = n > at + 1;
    if keep_end && pair.child(at + 1).as_rule() != Rule::string_omit_space_identifier {
        return Err(shape_error(pair.child(at + 1)));
    }
    let _ = term.child_count();
    match slice_text(text, term.start, term.end) {
        None => Err(error_at(LowerErrorKind::Span, term)),
        Some(whole) => {
            let mut body = whole;
            if !keep_start {
                body = body.trim_start();
            }
            if !keep_end {
                body = body.trim_end();
            }
            Ok(body.to_owned())
        },
    }
}

/// Lowers a literal node.
pub fn lower_literal(text: &str, pair: &Pair) -> (r: Result<Literal, LowerError>)
    ensures
        r matches Ok(v) ==> gives(literal_of(text.spec_bytes(), pair@), v.model()),
        r matches Err(e) ==> fails(literal_of(text.spec_bytes(), pair@), e),
{
    if pair.child_count() < 1 {
        return Err(shape_error(pair));
    }
    let c = pair.child(0);
    match c.as_rule() {
        Rule::unit_const => Ok(Literal::Unit),
        Rule::bool_const => match lower_bool(text, c) {
            Ok(v) => Ok(Literal::Bool(v)),
            Err(e) => Err(e),
        },
        Rule::int_const => match lower_int(text, c) {
            Ok(v) => Ok(Literal::Int(v)),
            Err(e) => Err(e),
        },
        Rule::float_const => match lower_decimal(text, c) {
            Ok(v) => Ok(Literal::Float(v)),
            Err(e) => Err(e),
        },
        Rule::length_const => match lower_length(text, c) {
            Ok(v) => Ok(Literal::Length(v)),
            Err(e) => Err(e),
        },
        Rule::string_const => match lower_string(text, c) {
            Ok(v) => Ok(Literal::String(v)),
            Err(e) => Err(e),
        },
        _ => Err(shape_error(c)),
    }
}

} // verus!
