//! Type expressions.

use vstd::prelude::*;
use crate::notation::cat;
use crate::notation::cat3;
use crate::notation::cat4;
use crate::notation::cat5;
use crate::notation::cat6;
use crate::notation::or3;
use crate::notation::or6;
use crate::notation::kw;
use crate::notation::lit;
use crate::notation::lower;
use crate::notation::many;
use crate::notation::many1;
use crate::notation::name_tail;
use crate::notation::opt;
use crate::notation::or;
use crate::notation::rule;
use crate::notation::upper;
use crate::grammar::shared::type_atom;
use crate::peg::Peg;
use crate::rule::Rule;

verus! {

/// `type_expr = (type_prod / type_unary) (_ ("?->" / "->") _ type_expr)?`
#[verifier::allow_in_spec]
pub fn type_expr() -> Peg
    returns
        cat(
            or(rule(Rule::type_prod), rule(Rule::type_unary)),
            opt(cat4(Peg::Skip, or(lit("?->"), lit("->")), Peg::Skip, rule(Rule::type_expr))),
        ),
{
    cat(
        or(rule(Rule::type_prod), rule(Rule::type_unary)),
        opt(cat4(Peg::Skip, or(lit("?->"), lit("->")), Peg::Skip, rule(Rule::type_expr))),
    )
}

/// `type_prod = type_unary (_ "*" _ type_unary)+`
#[verifier::allow_in_spec]
pub fn type_prod() -> Peg
    returns
        cat(
            rule(Rule::type_unary),
            many1(cat4(Peg::Skip, lit("*"), Peg::Skip, rule(Rule::type_unary))),
        ),
{
    cat(
        rule(Rule::type_unary),
        many1(cat4(Peg::Skip, lit("*"), Peg::Skip, rule(Rule::type_unary))),
    )
}

/// `type_unary = type_list _ (kw("inline-cmd") / kw("block-cmd") /
/// kw("math-cmd")) / type_record / type_application / "(" _ type_expr _ ")" /
/// type_param / type_ident`
#[verifier::allow_in_spec]
pub fn type_unary() -> Peg
    returns
        or6(
            cat3(
                rule(Rule::type_list),
                Peg::Skip,
                or3(kw("inline-cmd"), kw("block-cmd"), kw("math-cmd")),
            ),
            rule(Rule::type_record),
            rule(Rule::type_application),
            cat5(lit("("), Peg::Skip, rule(Rule::type_expr), Peg::Skip, lit(")")),
            rule(Rule::type_param),
            rule(Rule::type_ident),
        ),
{
    or6(
        cat3(
            rule(Rule::type_list),
            Peg::Skip,
            or3(kw("inline-cmd"), kw("block-cmd"), kw("math-cmd")),
        ),
        rule(Rule::type_record),
        rule(Rule::type_application),
        cat5(lit("("), Peg::Skip, rule(Rule::type_expr), Peg::Skip, lit(")")),
        rule(Rule::type_param),
        rule(Rule::type_ident),
    )
}

/// `type_application = type_atom (_ type_atom)+`
#[verifier::allow_in_spec]
pub fn type_application() -> Peg
    returns
        cat(type_atom(), many1(cat(Peg::Skip, type_atom()))),
{
    cat(type_atom(), many1(cat(Peg::Skip, type_atom())))
}

/// `type_list = "[" _ ((type_expr (_ ";" _ type_expr)* (_ ";")?) _)? "]"`
#[verifier::allow_in_spec]
pub fn type_list() -> Peg
    returns
        cat4(
            lit("["),
            Peg::Skip,
            opt(
                cat(
                    cat3(
                        rule(Rule::type_expr),
                        many(cat4(Peg::Skip, lit(";"), Peg::Skip, rule(Rule::type_expr))),
                        opt(cat(Peg::Skip, lit(";"))),
                    ),
                    Peg::Skip,
                ),
            ),
            lit("]"),
        ),
{
    cat4(
        lit("["),
        Peg::Skip,
        opt(
            cat(
                cat3(
                    rule(Rule::type_expr),
                    many(cat4(Peg::Skip, lit(";"), Peg::Skip, rule(Rule::type_expr))),
                    opt(cat(Peg::Skip, lit(";"))),
                ),
                Peg::Skip,
            ),
        ),
        lit("]"),
    )
}

/// `type_record = "(" _ "|" _ ((type_record_unit (_ ";" _ type_record_unit)*
/// (_ ";")?) _)? "|" _ ")"`
#[verifier::allow_in_spec]
pub fn type_record() -> Peg
    returns
        cat6(
            lit("("),
            Peg::Skip,
            lit("|"),
            Peg::Skip,
            opt(
                cat(
                    cat3(
                        rule(Rule::type_record_unit),
                        many(cat4(Peg::Skip, lit(";"), Peg::Skip, rule(Rule::type_record_unit))),
                        opt(cat(Peg::Skip, lit(";"))),
                    ),
                    Peg::Skip,
                ),
            ),
            cat3(lit("|"), Peg::Skip, lit(")")),
        ),
{
    cat6(
        lit("("),
        Peg::Skip,
        lit("|"),
        Peg::Skip,
        opt(
            cat(
                cat3(
                    rule(Rule::type_record_unit),
                    many(cat4(Peg::Skip, lit(";"), Peg::Skip, rule(Rule::type_record_unit))),
                    opt(cat(Peg::Skip, lit(";"))),
                ),
                Peg::Skip,
            ),
        ),
        cat3(lit("|"), Peg::Skip, lit(")")),
    )
}

/// `type_record_unit = var_ptn _ ":" _ type_expr`
#[verifier::allow_in_spec]
pub fn type_record_unit() -> Peg
    returns
        cat5(rule(Rule::var_ptn), Peg::Skip, lit(":"), Peg::Skip, rule(Rule::type_expr)),
{
    cat5(rule(Rule::var_ptn), Peg::Skip, lit(":"), Peg::Skip, rule(Rule::type_expr))
}

/// `type_ident = upper name_tail "." lower name_tail / var`
#[verifier::allow_in_spec]
pub fn type_ident() -> Peg
    returns
        or(cat5(upper(), name_tail(), lit("."), lower(), name_tail()), rule(Rule::var)),
{
    or(cat5(upper(), name_tail(), lit("."), lower(), name_tail()), rule(Rule::var))
}

/// `type_param = "'" var_ptn`
#[verifier::allow_in_spec]
pub fn type_param() -> Peg
    returns
        cat(lit("'"), rule(Rule::var_ptn)),
{
    cat(lit("'"), rule(Rule::var_ptn))
}

/// `constraint = kw("constraint") _ type_param _ "::" _ type_record`
#[verifier::allow_in_spec]
pub fn constraint() -> Peg
    returns
        cat6(
            kw("constraint"),
            Peg::Skip,
            rule(Rule::type_param),
            Peg::Skip,
            lit("::"),
            cat(Peg::Skip, rule(Rule::type_record)),
        ),
{
    cat6(
        kw("constraint"),
        Peg::Skip,
        rule(Rule::type_param),
        Peg::Skip,
        lit("::"),
        cat(Peg::Skip, rule(Rule::type_record)),
    )
}

} // verus!
