//! Shorthand for writing parsing expressions.

use vstd::prelude::*;
use crate::peg::Peg;
use crate::rule::Rule;

verus! {

/// The given text.
#[verifier::allow_in_spec]
pub fn lit(t: &'static str) -> Peg
    returns
        Peg::Lit(t),
{
    Peg::Lit(t)
}

/// One byte between `lo` and `hi`.
#[verifier::allow_in_spec]
pub fn span(lo: u8, hi: u8) -> Peg
    returns
        Peg::Range(lo, hi),
{
    Peg::Range(lo, hi)
}

/// `a` followed by `b`.
#[verifier::allow_in_spec]
pub fn cat(a: Peg, b: Peg) -> Peg
    returns
        Peg::Then(Box::new(a), Box::new(b)),
{
    Peg::Then(Box::new(a), Box::new(b))
}

/// `a`, or else `b`.
#[verifier::allow_in_spec]
pub fn or(a: Peg, b: Peg) -> Peg
    returns
        Peg::Or(Box::new(a), Box::new(b)),
{
    Peg::Or(Box::new(a), Box::new(b))
}

/// `a` or nothing.
#[verifier::allow_in_spec]
pub fn opt(a: Peg) -> Peg
    returns
        Peg::Opt(Box::new(a)),
{
    Peg::Opt(Box::new(a))
}

/// `a` as often as it matches.
#[verifier::allow_in_spec]
pub fn many(a: Peg) -> Peg
    returns
        Peg::Star(Box::new(a)),
{
    Peg::Star(Box::new(a))
}

/// `a` once or more.
#[verifier::allow_in_spec]
pub fn many1(a: Peg) -> Peg
    returns
        Peg::Plus(Box::new(a)),
{
    Peg::Plus(Box::new(a))
}

/// Nothing, where `a` does not match.
#[verifier::allow_in_spec]
pub fn not(a: Peg) -> Peg
    returns
        Peg::Not(Box::new(a)),
{
    Peg::Not(Box::new(a))
}

/// Nothing, where `a` matches.
#[verifier::allow_in_spec]
pub fn ahead(a: Peg) -> Peg
    returns
        not(not(a)),
{
    not(not(a))
}

/// The rule `r`, as a node.
#[verifier::allow_in_spec]
pub fn rule(r: Rule) -> Peg
    returns
        Peg::Call(r),
{
    Peg::Call(r)
}

/// `a` and then `b`, both in a node of rule `r`; or `a` and then `c`.
#[verifier::allow_in_spec]
pub fn fork(r: Rule, a: Peg, b: Peg, c: Peg) -> Peg
    returns
        Peg::Fork(r, Box::new(a), Box::new(b), Box::new(c)),
{
    Peg::Fork(r, Box::new(a), Box::new(b), Box::new(c))
}

/// A lower-case letter.
#[verifier::allow_in_spec]
pub fn lower() -> Peg
    returns
        span(0x61, 0x7a),
{
    span(0x61, 0x7a)
}

/// The 3 expressions one after another.
#[verifier::allow_in_spec]
pub fn cat3(a: Peg, b: Peg, c: Peg) -> Peg
    returns
        cat(a, cat(b, c)),
{
    cat(a, cat(b, c))
}

/// The 4 expressions one after another.
#[verifier::allow_in_spec]
pub fn cat4(a: Peg, b: Peg, c: Peg, d: Peg) -> Peg
    returns
        cat(a, cat(b, cat(c, d))),
{
    cat(a, cat(b, cat(c, d)))
}

/// The 5 expressions one after another.
#[verifier::allow_in_spec]
pub fn cat5(a: Peg, b: Peg, c: Peg, d: Peg, e: Peg) -> Peg
    returns
        cat(a, cat(b, cat(c, cat(d, e)))),
{
    cat(a, cat(b, cat(c, cat(d, e))))
}

/// The 6 expressions one after another.
#[verifier::allow_in_spec]
pub fn cat6(a: Peg, b: Peg, c: Peg, d: Peg, e: Peg, f: Peg) -> Peg
    returns
        cat(a, cat(b, cat(c, cat(d, cat(e, f))))),
{
    cat(a, cat(b, cat(c, cat(d, cat(e, f)))))
}

/// The first of the 3 expressions that matches.
#[verifier::allow_in_spec]
pub fn or3(a: Peg, b: Peg, c: Peg) -> Peg
    returns
        or(a, or(b, c)),
{
    or(a, or(b, c))
}

/// The first of the 4 expressions that matches.
#[verifier::allow_in_spec]
pub fn or4(a: Peg, b: Peg, c: Peg, d: Peg) -> Peg
    returns
        or(a, or(b, or(c, d))),
{
    or(a, or(b, or(c, d)))
}

/// The first of the 5 expressions that matches.
#[verifier::allow_in_spec]
pub fn or5(a: Peg, b: Peg, c: Peg, d: Peg, e: Peg) -> Peg
    returns
        or(a, or(b, or(c, or(d, e)))),
{
    or(a, or(b, or(c, or(d, e))))
}

/// The first of the 6 expressions that matches.
#[verifier::allow_in_spec]
pub fn or6(a: Peg, b: Peg, c: Peg, d: Peg, e: Peg, f: Peg) -> Peg
    returns
        or(a, or(b, or(c, or(d, or(e, f))))),
{
    or(a, or(b, or(c, or(d, or(e, f)))))
}

/// An upper-case letter.
#[verifier::allow_in_spec]
pub fn upper() -> Peg
    returns
        span(0x41, 0x5a),
{
    span(0x41, 0x5a)
}

/// A decimal digit.
#[verifier::allow_in_spec]
pub fn digit() -> Peg
    returns
        span(0x30, 0x39),
{
    span(0x30, 0x39)
}

/// A hexadecimal digit.
#[verifier::allow_in_spec]
pub fn hex_digit() -> Peg
    returns
        or3(digit(), span(0x61, 0x66), span(0x41, 0x46)),
{
    or3(digit(), span(0x61, 0x66), span(0x41, 0x46))
}

/// A character that may continue a name: a letter, a digit or a hyphen.
#[verifier::allow_in_spec]
pub fn name_char() -> Peg
    returns
        or4(lower(), upper(), digit(), lit("-")),
{
    or4(lower(), upper(), digit(), lit("-"))
}

/// What may follow the first character of a name.
#[verifier::allow_in_spec]
pub fn name_tail() -> Peg
    returns
        many(name_char()),
{
    many(name_char())
}

/// The end of the text.
#[verifier::allow_in_spec]
pub fn end_of_input() -> Peg
    returns
        not(Peg::Any),
{
    not(Peg::Any)
}

/// A line break.
#[verifier::allow_in_spec]
pub fn newline() -> Peg
    returns
        or(lit("\r\n"), lit("\n")),
{
    or(lit("\r\n"), lit("\n"))
}

/// Spaces and tabs, as many as there are.
#[verifier::allow_in_spec]
pub fn blanks() -> Peg
    returns
        many(or(lit(" "), lit("\t"))),
{
    many(or(lit(" "), lit("\t")))
}

/// A line break or the end of the text.
#[verifier::allow_in_spec]
pub fn line_end() -> Peg
    returns
        or(newline(), end_of_input()),
{
    or(newline(), end_of_input())
}

/// The word `t`, not followed by a character that would continue a name.
#[verifier::allow_in_spec]
pub fn kw(t: &'static str) -> Peg
    returns
        cat(lit(t), not(name_char())),
{
    cat(lit(t), not(name_char()))
}

} // verus!
