//! Declarations: the bindings of the preamble and of `let ... in`.

use vstd::prelude::*;
use crate::notation::cat;
use crate::notation::cat3;
use crate::notation::cat4;
use crate::notation::cat6;
use crate::notation::or5;
use crate::notation::kw;
use crate::notation::lit;
use crate::notation::many;
use crate::notation::opt;
use crate::notation::or;
use crate::notation::rule;
use crate::grammar::shared::statement;
use crate::peg::Peg;
use crate::rule::Rule;

verus! {

/// `preamble = statement (_ statement)*`
#[verifier::allow_in_spec]
pub fn preamble() -> Peg
    returns
        cat(statement(), many(cat(Peg::Skip, statement()))),
{
    cat(statement(), many(cat(Peg::Skip, statement())))
}

/// `let_stmt = kw("let") _ pattern (_ stmt_argument)? _ "=" _ expr`
#[verifier::allow_in_spec]
pub fn let_stmt() -> Peg
    returns
        cat6(
            kw("let"),
            Peg::Skip,
            rule(Rule::pattern),
            opt(cat(Peg::Skip, rule(Rule::stmt_argument))),
            Peg::Skip,
            cat3(lit("="), Peg::Skip, rule(Rule::expr)),
        ),
{
    cat6(
        kw("let"),
        Peg::Skip,
        rule(Rule::pattern),
        opt(cat(Peg::Skip, rule(Rule::stmt_argument))),
        Peg::Skip,
        cat3(lit("="), Peg::Skip, rule(Rule::expr)),
    )
}

/// `let_inline_stmt = kw("let-inline") _ (var _ inline_cmd_name (_ arg)* /
/// inline_cmd_name (_ pattern)*) _ "=" _ expr`
#[verifier::allow_in_spec]
pub fn let_inline_stmt() -> Peg
    returns
        cat6(
            kw("let-inline"),
            Peg::Skip,
            or(
                cat4(
                    rule(Rule::var),
                    Peg::Skip,
                    rule(Rule::inline_cmd_name),
                    many(cat(Peg::Skip, rule(Rule::arg))),
                ),
                cat(rule(Rule::inline_cmd_name), many(cat(Peg::Skip, rule(Rule::pattern)))),
            ),
            Peg::Skip,
            lit("="),
            cat(Peg::Skip, rule(Rule::expr)),
        ),
{
    cat6(
        kw("let-inline"),
        Peg::Skip,
        or(
            cat4(
                rule(Rule::var),
                Peg::Skip,
                rule(Rule::inline_cmd_name),
                many(cat(Peg::Skip, rule(Rule::arg))),
            ),
            cat(rule(Rule::inline_cmd_name), many(cat(Peg::Skip, rule(Rule::pattern)))),
        ),
        Peg::Skip,
        lit("="),
        cat(Peg::Skip, rule(Rule::expr)),
    )
}

/// `let_block_stmt = kw("let-block") _ (var _ block_cmd_name (_ arg)* /
/// block_cmd_name (_ pattern)*) _ "=" _ expr`
#[verifier::allow_in_spec]
pub fn let_block_stmt() -> Peg
    returns
        cat6(
            kw("let-block"),
            Peg::Skip,
            or(
                cat4(
                    rule(Rule::var),
                    Peg::Skip,
                    rule(Rule::block_cmd_name),
                    many(cat(Peg::Skip, rule(Rule::arg))),
                ),
                cat(rule(Rule::block_cmd_name), many(cat(Peg::Skip, rule(Rule::pattern)))),
            ),
            Peg::Skip,
            lit("="),
            cat(Peg::Skip, rule(Rule::expr)),
        ),
{
    cat6(
        kw("let-block"),
        Peg::Skip,
        or(
            cat4(
                rule(Rule::var),
                Peg::Skip,
                rule(Rule::block_cmd_name),
                many(cat(Peg::Skip, rule(Rule::arg))),
            ),
            cat(rule(Rule::block_cmd_name), many(cat(Peg::Skip, rule(Rule::pattern)))),
        ),
        Peg::Skip,
        lit("="),
        cat(Peg::Skip, rule(Rule::expr)),
    )
}

/// `let_math_stmt = kw("let-math") _ math_cmd_name (_ arg)* _ "=" _ expr`
#[verifier::allow_in_spec]
pub fn let_math_stmt() -> Peg
    returns
        cat6(
            kw("let-math"),
            Peg::Skip,
            rule(Rule::math_cmd_name),
            many(cat(Peg::Skip, rule(Rule::arg))),
            Peg::Skip,
            cat3(lit("="), Peg::Skip, rule(Rule::expr)),
        ),
{
    cat6(
        kw("let-math"),
        Peg::Skip,
        rule(Rule::math_cmd_name),
        many(cat(Peg::Skip, rule(Rule::arg))),
        Peg::Skip,
        cat3(lit("="), Peg::Skip, rule(Rule::expr)),
    )
}

/// `let_mutable_stmt = kw("let-mutable") _ var _ "<-" _ expr`
#[verifier::allow_in_spec]
pub fn let_mutable_stmt() -> Peg
    returns
        cat6(
            kw("let-mutable"),
            Peg::Skip,
            rule(Rule::var),
            Peg::Skip,
            lit("<-"),
            cat(Peg::Skip, rule(Rule::expr)),
        ),
{
    cat6(
        kw("let-mutable"),
        Peg::Skip,
        rule(Rule::var),
        Peg::Skip,
        lit("<-"),
        cat(Peg::Skip, rule(Rule::expr)),
    )
}

/// `stmt_argument = ("|" _)? arg (_ arg)*`
#[verifier::allow_in_spec]
pub fn stmt_argument() -> Peg
    returns
        cat3(
            opt(cat(lit("|"), Peg::Skip)),
            rule(Rule::arg),
            many(cat(Peg::Skip, rule(Rule::arg))),
        ),
{
    cat3(opt(cat(lit("|"), Peg::Skip)), rule(Rule::arg), many(cat(Peg::Skip, rule(Rule::arg))))
}

/// `arg = pattern / "?:" _ var_ptn`
#[verifier::allow_in_spec]
pub fn arg() -> Peg
    returns
        or(rule(Rule::pattern), cat3(lit("?:"), Peg::Skip, rule(Rule::var_ptn))),
{
    or(rule(Rule::pattern), cat3(lit("?:"), Peg::Skip, rule(Rule::var_ptn)))
}

/// `bind_stmt = (let_stmt / let_inline_stmt / let_block_stmt / let_math_stmt
/// / let_mutable_stmt) _ kw("in")`
#[verifier::allow_in_spec]
pub fn bind_stmt() -> Peg
    returns
        cat3(
            or5(
                rule(Rule::let_stmt),
                rule(Rule::let_inline_stmt),
                rule(Rule::let_block_stmt),
                rule(Rule::let_math_stmt),
                rule(Rule::let_mutable_stmt),
            ),
            Peg::Skip,
            kw("in"),
        ),
{
    cat3(
        or5(
            rule(Rule::let_stmt),
            rule(Rule::let_inline_stmt),
            rule(Rule::let_block_stmt),
            rule(Rule::let_math_stmt),
            rule(Rule::let_mutable_stmt),
        ),
        Peg::Skip,
        kw("in"),
    )
}

} // verus!
