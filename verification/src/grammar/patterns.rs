//! Patterns.

use vstd::prelude::*;
use crate::notation::cat;
use crate::notation::cat3;
use crate::notation::cat4;
use crate::notation::cat5;
use crate::notation::cat6;
use crate::notation::or4;
use crate::notation::or6;
use crate::notation::kw;
use crate::notation::lit;
use crate::notation::many;
use crate::notation::many1;
use crate::notation::name_char;
use crate::notation::not;
use crate::notation::opt;
use crate::notation::or;
use crate::notation::rule;
use crate::grammar::shared::simple_pattern;
use crate::peg::Peg;
use crate::rule::Rule;

verus! {

/// `match_ptn = pat_as / pat_cons / pat_variant / pattern`
#[verifier::allow_in_spec]
pub fn match_ptn() -> Peg
    returns
        or4(
            rule(Rule::pat_as),
            rule(Rule::pat_cons),
            rule(Rule::pat_variant),
            rule(Rule::pattern),
        ),
{
    or4(rule(Rule::pat_as), rule(Rule::pat_cons), rule(Rule::pat_variant), rule(Rule::pattern))
}

/// `pat_as = (pat_cons / simple_pattern) _ kw("as") _ var`
#[verifier::allow_in_spec]
pub fn pat_as() -> Peg
    returns
        cat5(
            or(rule(Rule::pat_cons), simple_pattern()),
            Peg::Skip,
            kw("as"),
            Peg::Skip,
            rule(Rule::var),
        ),
{
    cat5(
        or(rule(Rule::pat_cons), simple_pattern()),
        Peg::Skip,
        kw("as"),
        Peg::Skip,
        rule(Rule::var),
    )
}

/// `pat_cons = simple_pattern _ "::" _ (pat_cons / simple_pattern)`
#[verifier::allow_in_spec]
pub fn pat_cons() -> Peg
    returns
        cat5(
            simple_pattern(),
            Peg::Skip,
            lit("::"),
            Peg::Skip,
            or(rule(Rule::pat_cons), simple_pattern()),
        ),
{
    cat5(
        simple_pattern(),
        Peg::Skip,
        lit("::"),
        Peg::Skip,
        or(rule(Rule::pat_cons), simple_pattern()),
    )
}

/// `pat_variant = variant_name (_ pattern)?`
#[verifier::allow_in_spec]
pub fn pat_variant() -> Peg
    returns
        cat(rule(Rule::variant_name), opt(cat(Peg::Skip, rule(Rule::pattern)))),
{
    cat(rule(Rule::variant_name), opt(cat(Peg::Skip, rule(Rule::pattern))))
}

/// `pattern = pat_list / pat_tuple / "(" _ match_ptn _ ")" / pat_wildcard /
/// literal / var`
#[verifier::allow_in_spec]
pub fn pattern() -> Peg
    returns
        or6(
            rule(Rule::pat_list),
            rule(Rule::pat_tuple),
            cat5(lit("("), Peg::Skip, rule(Rule::match_ptn), Peg::Skip, lit(")")),
            rule(Rule::pat_wildcard),
            rule(Rule::literal),
            rule(Rule::var),
        ),
{
    or6(
        rule(Rule::pat_list),
        rule(Rule::pat_tuple),
        cat5(lit("("), Peg::Skip, rule(Rule::match_ptn), Peg::Skip, lit(")")),
        rule(Rule::pat_wildcard),
        rule(Rule::literal),
        rule(Rule::var),
    )
}

/// `pat_list = "[" _ ((match_ptn (_ ";" _ match_ptn)* (_ ";")?) _)? "]"`
#[verifier::allow_in_spec]
pub fn pat_list() -> Peg
    returns
        cat4(
            lit("["),
            Peg::Skip,
            opt(
                cat(
                    cat3(
                        rule(Rule::match_ptn),
                        many(cat4(Peg::Skip, lit(";"), Peg::Skip, rule(Rule::match_ptn))),
                        opt(cat(Peg::Skip, lit(";"))),
                    ),
                    Peg::Skip,
                ),
            ),
            lit("]"),
        ),
{
    cat4(
        lit("["),
        Peg::Skip,
        opt(
            cat(
                cat3(
                    rule(Rule::match_ptn),
                    many(cat4(Peg::Skip, lit(";"), Peg::Skip, rule(Rule::match_ptn))),
                    opt(cat(Peg::Skip, lit(";"))),
                ),
                Peg::Skip,
            ),
        ),
        lit("]"),
    )
}

/// `pat_tuple = "(" _ match_ptn (_ "," _ match_ptn)+ _ ")"`
#[verifier::allow_in_spec]
pub fn pat_tuple() -> Peg
    returns
        cat6(
            lit("("),
            Peg::Skip,
            rule(Rule::match_ptn),
            many1(cat4(Peg::Skip, lit(","), Peg::Skip, rule(Rule::match_ptn))),
            Peg::Skip,
            lit(")"),
        ),
{
    cat6(
        lit("("),
        Peg::Skip,
        rule(Rule::match_ptn),
        many1(cat4(Peg::Skip, lit(","), Peg::Skip, rule(Rule::match_ptn))),
        Peg::Skip,
        lit(")"),
    )
}

/// `pat_wildcard = "_" !name_char`
#[verifier::allow_in_spec]
pub fn pat_wildcard() -> Peg
    returns
        cat(lit("_"), not(name_char())),
{
    cat(lit("_"), not(name_char()))
}

} // verus!
