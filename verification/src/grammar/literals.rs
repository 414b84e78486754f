//! Literals: unit, booleans, numbers, lengths and strings.

use vstd::prelude::*;
use crate::notation::ahead;
use crate::notation::cat;
use crate::notation::cat3;
use crate::notation::or6;
use crate::notation::digit;
use crate::notation::hex_digit;
use crate::notation::lit;
use crate::notation::lower;
use crate::notation::many;
use crate::notation::many1;
use crate::notation::name_char;
use crate::notation::name_tail;
use crate::notation::not;
use crate::notation::opt;
use crate::notation::or;
use crate::notation::rule;
use crate::peg::Peg;
use crate::rule::Rule;

verus! {

/// `literal = &("0" ("x" / "X") hex_digit) int_const / length_const /
/// float_const / int_const / bool_const / unit_const / string_const`
#[verifier::allow_in_spec]
pub fn literal() -> Peg
    returns
        or6(
            cat(
                ahead(cat3(lit("0"), or(lit("x"), lit("X")), hex_digit())),
                rule(Rule::int_const),
            ),
            rule(Rule::length_const),
            rule(Rule::float_const),
            rule(Rule::int_const),
            rule(Rule::bool_const),
            or(rule(Rule::unit_const), rule(Rule::string_const)),
        ),
{
    or6(
        cat(ahead(cat3(lit("0"), or(lit("x"), lit("X")), hex_digit())), rule(Rule::int_const)),
        rule(Rule::length_const),
        rule(Rule::float_const),
        rule(Rule::int_const),
        rule(Rule::bool_const),
        or(rule(Rule::unit_const), rule(Rule::string_const)),
    )
}

/// `unit_const = "(" _ ")"`
#[verifier::allow_in_spec]
pub fn unit_const() -> Peg
    returns
        cat3(lit("("), Peg::Skip, lit(")")),
{
    cat3(lit("("), Peg::Skip, lit(")"))
}

/// `bool_const = ("true" / "false") !name_char`
#[verifier::allow_in_spec]
pub fn bool_const() -> Peg
    returns
        cat(or(lit("true"), lit("false")), not(name_char())),
{
    cat(or(lit("true"), lit("false")), not(name_char()))
}

/// `int_const = int_hex_const / int_decimal_const`
#[verifier::allow_in_spec]
pub fn int_const() -> Peg
    returns
        or(rule(Rule::int_hex_const), rule(Rule::int_decimal_const)),
{
    or(rule(Rule::int_hex_const), rule(Rule::int_decimal_const))
}

/// `int_hex_const = "0" ("x" / "X") hex_digit+`
#[verifier::allow_in_spec]
pub fn int_hex_const() -> Peg
    returns
        cat3(lit("0"), or(lit("x"), lit("X")), many1(hex_digit())),
{
    cat3(lit("0"), or(lit("x"), lit("X")), many1(hex_digit()))
}

/// `int_decimal_const = digit+`
#[verifier::allow_in_spec]
pub fn int_decimal_const() -> Peg
    returns
        many1(digit()),
{
    many1(digit())
}

/// `float_const = digit+ "." digit* / "." digit+`
#[verifier::allow_in_spec]
pub fn float_const() -> Peg
    returns
        or(cat3(many1(digit()), lit("."), many(digit())), cat(lit("."), many1(digit()))),
{
    or(cat3(many1(digit()), lit("."), many(digit())), cat(lit("."), many1(digit())))
}

/// `length_const = length_digit length_unit`
#[verifier::allow_in_spec]
pub fn length_const() -> Peg
    returns
        cat(rule(Rule::length_digit), rule(Rule::length_unit)),
{
    cat(rule(Rule::length_digit), rule(Rule::length_unit))
}

/// `length_digit = digit+ ("." digit*)? / "." digit+`
#[verifier::allow_in_spec]
pub fn length_digit() -> Peg
    returns
        or(
            cat(many1(digit()), opt(cat(lit("."), many(digit())))),
            cat(lit("."), many1(digit())),
        ),
{
    or(cat(many1(digit()), opt(cat(lit("."), many(digit())))), cat(lit("."), many1(digit())))
}

/// `length_unit = lower name_tail`
#[verifier::allow_in_spec]
pub fn length_unit() -> Peg
    returns
        cat(lower(), name_tail()),
{
    cat(lower(), name_tail())
}

/// `string_const = string_omit_space_identifier? fenced(string_interior)
/// string_omit_space_identifier?`
#[verifier::allow_in_spec]
pub fn string_const() -> Peg
    returns
        cat3(
            opt(rule(Rule::string_omit_space_identifier)),
            Peg::Fenced(Rule::string_interior),
            opt(rule(Rule::string_omit_space_identifier)),
        ),
{
    cat3(
        opt(rule(Rule::string_omit_space_identifier)),
        Peg::Fenced(Rule::string_interior),
        opt(rule(Rule::string_omit_space_identifier)),
    )
}

/// The text of a string between its two runs of backticks. Nodes of this rule
/// are made where a string is matched, by `fenced`; the rule itself matches
/// nothing.
#[verifier::allow_in_spec]
pub fn string_interior() -> Peg
    returns
        Peg::Empty,
{
    Peg::Empty
}

/// `string_omit_space_identifier = "#"`
#[verifier::allow_in_spec]
pub fn string_omit_space_identifier() -> Peg
    returns
        lit("#"),
{
    lit("#")
}

} // verus!
