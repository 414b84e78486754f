//! Expressions.

use vstd::prelude::*;
use crate::notation::fork;
use crate::notation::cat;
use crate::notation::cat3;
use crate::notation::cat4;
use crate::notation::cat5;
use crate::notation::cat6;
use crate::notation::or3;
use crate::notation::or4;
use crate::notation::or5;
use crate::notation::or6;
use crate::notation::kw;
use crate::notation::lit;
use crate::notation::lower;
use crate::notation::many;
use crate::notation::many1;
use crate::notation::name_tail;
use crate::notation::not;
use crate::notation::opt;
use crate::notation::or;
use crate::notation::rule;
use crate::notation::upper;
use crate::grammar::shared::op_char;
use crate::grammar::shared::operand;
use crate::grammar::shared::unary_or_member;
use crate::peg::Peg;
use crate::rule::Rule;

verus! {

/// `expr = match_expr / bind_stmt _ expr / ctrl_while / ctrl_if /
/// fork(dyadic_expr: operand, _ bin_operator _ expr, ())`
#[verifier::allow_in_spec]
pub fn expr() -> Peg
    returns
        or5(
            rule(Rule::match_expr),
            cat3(rule(Rule::bind_stmt), Peg::Skip, rule(Rule::expr)),
            rule(Rule::ctrl_while),
            rule(Rule::ctrl_if),
            fork(
                Rule::dyadic_expr,
                operand(),
                cat4(Peg::Skip, rule(Rule::bin_operator), Peg::Skip, rule(Rule::expr)),
                Peg::Empty,
            ),
        ),
{
    or5(
        rule(Rule::match_expr),
        cat3(rule(Rule::bind_stmt), Peg::Skip, rule(Rule::expr)),
        rule(Rule::ctrl_while),
        rule(Rule::ctrl_if),
        fork(
            Rule::dyadic_expr,
            operand(),
            cat4(Peg::Skip, rule(Rule::bin_operator), Peg::Skip, rule(Rule::expr)),
            Peg::Empty,
        ),
    )
}

/// `match_expr = kw("match") _ expr _ kw("with") _ ("|" _)? match_arm (_ "|"
/// _ match_arm)*`
#[verifier::allow_in_spec]
pub fn match_expr() -> Peg
    returns
        cat6(
            kw("match"),
            Peg::Skip,
            rule(Rule::expr),
            Peg::Skip,
            kw("with"),
            cat4(
                Peg::Skip,
                opt(cat(lit("|"), Peg::Skip)),
                rule(Rule::match_arm),
                many(cat4(Peg::Skip, lit("|"), Peg::Skip, rule(Rule::match_arm))),
            ),
        ),
{
    cat6(
        kw("match"),
        Peg::Skip,
        rule(Rule::expr),
        Peg::Skip,
        kw("with"),
        cat4(
            Peg::Skip,
            opt(cat(lit("|"), Peg::Skip)),
            rule(Rule::match_arm),
            many(cat4(Peg::Skip, lit("|"), Peg::Skip, rule(Rule::match_arm))),
        ),
    )
}

/// `match_arm = match_ptn (_ match_guard)? _ "->" _ expr`
#[verifier::allow_in_spec]
pub fn match_arm() -> Peg
    returns
        cat6(
            rule(Rule::match_ptn),
            opt(cat(Peg::Skip, rule(Rule::match_guard))),
            Peg::Skip,
            lit("->"),
            Peg::Skip,
            rule(Rule::expr),
        ),
{
    cat6(
        rule(Rule::match_ptn),
        opt(cat(Peg::Skip, rule(Rule::match_guard))),
        Peg::Skip,
        lit("->"),
        Peg::Skip,
        rule(Rule::expr),
    )
}

/// `match_guard = kw("when") _ expr`
#[verifier::allow_in_spec]
pub fn match_guard() -> Peg
    returns
        cat3(kw("when"), Peg::Skip, rule(Rule::expr)),
{
    cat3(kw("when"), Peg::Skip, rule(Rule::expr))
}

/// `ctrl_while = kw("while") _ expr _ kw("do") _ expr`
#[verifier::allow_in_spec]
pub fn ctrl_while() -> Peg
    returns
        cat6(
            kw("while"),
            Peg::Skip,
            rule(Rule::expr),
            Peg::Skip,
            kw("do"),
            cat(Peg::Skip, rule(Rule::expr)),
        ),
{
    cat6(
        kw("while"),
        Peg::Skip,
        rule(Rule::expr),
        Peg::Skip,
        kw("do"),
        cat(Peg::Skip, rule(Rule::expr)),
    )
}

/// `ctrl_if = kw("if") _ expr _ kw("then") _ expr _ kw("else") _ expr`
#[verifier::allow_in_spec]
pub fn ctrl_if() -> Peg
    returns
        cat6(
            kw("if"),
            Peg::Skip,
            rule(Rule::expr),
            Peg::Skip,
            kw("then"),
            cat6(
                Peg::Skip,
                rule(Rule::expr),
                Peg::Skip,
                kw("else"),
                Peg::Skip,
                rule(Rule::expr),
            ),
        ),
{
    cat6(
        kw("if"),
        Peg::Skip,
        rule(Rule::expr),
        Peg::Skip,
        kw("then"),
        cat6(Peg::Skip, rule(Rule::expr), Peg::Skip, kw("else"), Peg::Skip, rule(Rule::expr)),
    )
}

/// `dyadic_expr = operand _ bin_operator _ expr`
#[verifier::allow_in_spec]
pub fn dyadic_expr() -> Peg
    returns
        cat5(operand(), Peg::Skip, rule(Rule::bin_operator), Peg::Skip, rule(Rule::expr)),
{
    cat5(operand(), Peg::Skip, rule(Rule::bin_operator), Peg::Skip, rule(Rule::expr))
}

/// `unary_operator_expr = unary_operator _ (application / unary_or_member)`
#[verifier::allow_in_spec]
pub fn unary_operator_expr() -> Peg
    returns
        cat3(
            rule(Rule::unary_operator),
            Peg::Skip,
            or(rule(Rule::application), unary_or_member()),
        ),
{
    cat3(rule(Rule::unary_operator), Peg::Skip, or(rule(Rule::application), unary_or_member()))
}

/// `unary_operator = "-" / kw("not")`
#[verifier::allow_in_spec]
pub fn unary_operator() -> Peg
    returns
        or(lit("-"), kw("not")),
{
    or(lit("-"), kw("not"))
}

/// `variant_constructor = variant_name !"." (_ unary)?`
#[verifier::allow_in_spec]
pub fn variant_constructor() -> Peg
    returns
        cat3(rule(Rule::variant_name), not(lit(".")), opt(cat(Peg::Skip, rule(Rule::unary)))),
{
    cat3(rule(Rule::variant_name), not(lit(".")), opt(cat(Peg::Skip, rule(Rule::unary))))
}

/// `application = (modvar / var) (_ (app_opt_arg / app_opt_omit / unary /
/// variant_name !"."))+ / kw("command") _ inline_cmd_name`
#[verifier::allow_in_spec]
pub fn application() -> Peg
    returns
        or(
            cat(
                or(rule(Rule::modvar), rule(Rule::var)),
                many1(
                    cat(
                        Peg::Skip,
                        or4(
                            rule(Rule::app_opt_arg),
                            rule(Rule::app_opt_omit),
                            rule(Rule::unary),
                            cat(rule(Rule::variant_name), not(lit("."))),
                        ),
                    ),
                ),
            ),
            cat3(kw("command"), Peg::Skip, rule(Rule::inline_cmd_name)),
        ),
{
    or(
        cat(
            or(rule(Rule::modvar), rule(Rule::var)),
            many1(
                cat(
                    Peg::Skip,
                    or4(
                        rule(Rule::app_opt_arg),
                        rule(Rule::app_opt_omit),
                        rule(Rule::unary),
                        cat(rule(Rule::variant_name), not(lit("."))),
                    ),
                ),
            ),
        ),
        cat3(kw("command"), Peg::Skip, rule(Rule::inline_cmd_name)),
    )
}

/// `app_opt_arg = "?:" _ unary`
#[verifier::allow_in_spec]
pub fn app_opt_arg() -> Peg
    returns
        cat3(lit("?:"), Peg::Skip, rule(Rule::unary)),
{
    cat3(lit("?:"), Peg::Skip, rule(Rule::unary))
}

/// `app_opt_omit = "?*"`
#[verifier::allow_in_spec]
pub fn app_opt_omit() -> Peg
    returns
        lit("?*"),
{
    lit("?*")
}

/// `record_member = unary _ "#" _ var`
#[verifier::allow_in_spec]
pub fn record_member() -> Peg
    returns
        cat5(rule(Rule::unary), Peg::Skip, lit("#"), Peg::Skip, rule(Rule::var)),
{
    cat5(rule(Rule::unary), Peg::Skip, lit("#"), Peg::Skip, rule(Rule::var))
}

/// `unary = block_text / horizontal_text / math_text / record / list /
/// fork(tuple: "(" _ expr, (_ "," _ expr)+ _ ")", _ ")") / "(" _ bin_operator
/// _ ")" / literal / expr_with_mod / modvar / var`
#[verifier::allow_in_spec]
pub fn unary() -> Peg
    returns
        or6(
            rule(Rule::block_text),
            rule(Rule::horizontal_text),
            rule(Rule::math_text),
            rule(Rule::record),
            rule(Rule::list),
            or6(
                fork(
                    Rule::tuple,
                    cat3(lit("("), Peg::Skip, rule(Rule::expr)),
                    cat3(
                        many1(cat4(Peg::Skip, lit(","), Peg::Skip, rule(Rule::expr))),
                        Peg::Skip,
                        lit(")"),
                    ),
                    cat(Peg::Skip, lit(")")),
                ),
                cat5(lit("("), Peg::Skip, rule(Rule::bin_operator), Peg::Skip, lit(")")),
                rule(Rule::literal),
                rule(Rule::expr_with_mod),
                rule(Rule::modvar),
                rule(Rule::var),
            ),
        ),
{
    or6(
        rule(Rule::block_text),
        rule(Rule::horizontal_text),
        rule(Rule::math_text),
        rule(Rule::record),
        rule(Rule::list),
        or6(
            fork(
                Rule::tuple,
                cat3(lit("("), Peg::Skip, rule(Rule::expr)),
                cat3(
                    many1(cat4(Peg::Skip, lit(","), Peg::Skip, rule(Rule::expr))),
                    Peg::Skip,
                    lit(")"),
                ),
                cat(Peg::Skip, lit(")")),
            ),
            cat5(lit("("), Peg::Skip, rule(Rule::bin_operator), Peg::Skip, lit(")")),
            rule(Rule::literal),
            rule(Rule::expr_with_mod),
            rule(Rule::modvar),
            rule(Rule::var),
        ),
    )
}

/// `expr_with_mod = module_name ".(" _ expr _ ")"`
#[verifier::allow_in_spec]
pub fn expr_with_mod() -> Peg
    returns
        cat6(
            rule(Rule::module_name),
            lit(".("),
            Peg::Skip,
            rule(Rule::expr),
            Peg::Skip,
            lit(")"),
        ),
{
    cat6(rule(Rule::module_name), lit(".("), Peg::Skip, rule(Rule::expr), Peg::Skip, lit(")"))
}

/// `modvar = module_name "." var_ptn`
#[verifier::allow_in_spec]
pub fn modvar() -> Peg
    returns
        cat3(rule(Rule::module_name), lit("."), rule(Rule::var_ptn)),
{
    cat3(rule(Rule::module_name), lit("."), rule(Rule::var_ptn))
}

/// `var = !reserved_word var_ptn`
#[verifier::allow_in_spec]
pub fn var() -> Peg
    returns
        cat(not(rule(Rule::reserved_word)), rule(Rule::var_ptn)),
{
    cat(not(rule(Rule::reserved_word)), rule(Rule::var_ptn))
}

/// `var_ptn = lower name_tail`
#[verifier::allow_in_spec]
pub fn var_ptn() -> Peg
    returns
        cat(lower(), name_tail()),
{
    cat(lower(), name_tail())
}

/// `module_name = upper name_tail`
#[verifier::allow_in_spec]
pub fn module_name() -> Peg
    returns
        cat(upper(), name_tail()),
{
    cat(upper(), name_tail())
}

/// `variant_name = upper name_tail`
#[verifier::allow_in_spec]
pub fn variant_name() -> Peg
    returns
        cat(upper(), name_tail()),
{
    cat(upper(), name_tail())
}

/// `reserved_word = kw("constraint") / kw("inline-cmd") / kw("block-cmd") /
/// kw("math-cmd") / kw("let-mutable") / kw("let-inline") / kw("let-block") /
/// kw("let-math") / kw("let-rec") / kw("controls") / kw("command") /
/// kw("before") / kw("module") / kw("direct") / kw("struct") / kw("cycle") /
/// kw("match") / kw("while") / kw("false") / kw("else") / kw("open") /
/// kw("then") / kw("true") / kw("type") / kw("when") / kw("with") / kw("and")
/// / kw("end") / kw("fun") / kw("let") / kw("mod") / kw("not") / kw("sig") /
/// kw("val") / kw("as") / kw("do") / kw("if") / kw("in") / kw("of")`
#[verifier::allow_in_spec]
pub fn reserved_word() -> Peg
    returns
        or6(
            kw("constraint"),
            kw("inline-cmd"),
            kw("block-cmd"),
            kw("math-cmd"),
            kw("let-mutable"),
            or6(
                kw("let-inline"),
                kw("let-block"),
                kw("let-math"),
                kw("let-rec"),
                kw("controls"),
                or6(
                    kw("command"),
                    kw("before"),
                    kw("module"),
                    kw("direct"),
                    kw("struct"),
                    or6(
                        kw("cycle"),
                        kw("match"),
                        kw("while"),
                        kw("false"),
                        kw("else"),
                        or6(
                            kw("open"),
                            kw("then"),
                            kw("true"),
                            kw("type"),
                            kw("when"),
                            or6(
                                kw("with"),
                                kw("and"),
                                kw("end"),
                                kw("fun"),
                                kw("let"),
                                or6(
                                    kw("mod"),
                                    kw("not"),
                                    kw("sig"),
                                    kw("val"),
                                    kw("as"),
                                    or4(kw("do"), kw("if"), kw("in"), kw("of")),
                                ),
                            ),
                        ),
                    ),
                ),
            ),
        ),
{
    or6(
        kw("constraint"),
        kw("inline-cmd"),
        kw("block-cmd"),
        kw("math-cmd"),
        kw("let-mutable"),
        or6(
            kw("let-inline"),
            kw("let-block"),
            kw("let-math"),
            kw("let-rec"),
            kw("controls"),
            or6(
                kw("command"),
                kw("before"),
                kw("module"),
                kw("direct"),
                kw("struct"),
                or6(
                    kw("cycle"),
                    kw("match"),
                    kw("while"),
                    kw("false"),
                    kw("else"),
                    or6(
                        kw("open"),
                        kw("then"),
                        kw("true"),
                        kw("type"),
                        kw("when"),
                        or6(
                            kw("with"),
                            kw("and"),
                            kw("end"),
                            kw("fun"),
                            kw("let"),
                            or6(
                                kw("mod"),
                                kw("not"),
                                kw("sig"),
                                kw("val"),
                                kw("as"),
                                or4(kw("do"), kw("if"), kw("in"), kw("of")),
                            ),
                        ),
                    ),
                ),
            ),
        ),
    )
}

/// `bin_operator = !(("->" / "<-") !op_char) ("::" / ("+" / "-" / "*" / "/" /
/// "^" / "&" / "<" / ">") op_char* / ("=" / "|") op_char+)`
#[verifier::allow_in_spec]
pub fn bin_operator() -> Peg
    returns
        cat(
            not(cat(or(lit("->"), lit("<-")), not(op_char()))),
            or3(
                lit("::"),
                cat(
                    or6(
                        lit("+"),
                        lit("-"),
                        lit("*"),
                        lit("/"),
                        lit("^"),
                        or3(lit("&"), lit("<"), lit(">")),
                    ),
                    many(op_char()),
                ),
                cat(or(lit("="), lit("|")), many1(op_char())),
            ),
        ),
{
    cat(
        not(cat(or(lit("->"), lit("<-")), not(op_char()))),
        or3(
            lit("::"),
            cat(
                or6(
                    lit("+"),
                    lit("-"),
                    lit("*"),
                    lit("/"),
                    lit("^"),
                    or3(lit("&"), lit("<"), lit(">")),
                ),
                many(op_char()),
            ),
            cat(or(lit("="), lit("|")), many1(op_char())),
        ),
    )
}

/// `record = "(|" _ (unary _ kw("with") _ record_inner _ / record_inner _)?
/// "|)"`
#[verifier::allow_in_spec]
pub fn record() -> Peg
    returns
        cat4(
            lit("(|"),
            Peg::Skip,
            opt(
                or(
                    cat6(
                        rule(Rule::unary),
                        Peg::Skip,
                        kw("with"),
                        Peg::Skip,
                        rule(Rule::record_inner),
                        Peg::Skip,
                    ),
                    cat(rule(Rule::record_inner), Peg::Skip),
                ),
            ),
            lit("|)"),
        ),
{
    cat4(
        lit("(|"),
        Peg::Skip,
        opt(
            or(
                cat6(
                    rule(Rule::unary),
                    Peg::Skip,
                    kw("with"),
                    Peg::Skip,
                    rule(Rule::record_inner),
                    Peg::Skip,
                ),
                cat(rule(Rule::record_inner), Peg::Skip),
            ),
        ),
        lit("|)"),
    )
}

/// `record_inner = record_unit (_ ";" _ record_unit)* (_ ";")?`
#[verifier::allow_in_spec]
pub fn record_inner() -> Peg
    returns
        cat3(
            rule(Rule::record_unit),
            many(cat4(Peg::Skip, lit(";"), Peg::Skip, rule(Rule::record_unit))),
            opt(cat(Peg::Skip, lit(";"))),
        ),
{
    cat3(
        rule(Rule::record_unit),
        many(cat4(Peg::Skip, lit(";"), Peg::Skip, rule(Rule::record_unit))),
        opt(cat(Peg::Skip, lit(";"))),
    )
}

/// `record_unit = var_ptn _ "=" _ expr`
#[verifier::allow_in_spec]
pub fn record_unit() -> Peg
    returns
        cat5(rule(Rule::var_ptn), Peg::Skip, lit("="), Peg::Skip, rule(Rule::expr)),
{
    cat5(rule(Rule::var_ptn), Peg::Skip, lit("="), Peg::Skip, rule(Rule::expr))
}

/// `list = "[" _ ((expr (_ ";" _ expr)* (_ ";")?) _)? "]"`
#[verifier::allow_in_spec]
pub fn list() -> Peg
    returns
        cat4(
            lit("["),
            Peg::Skip,
            opt(
                cat(
                    cat3(
                        rule(Rule::expr),
                        many(cat4(Peg::Skip, lit(";"), Peg::Skip, rule(Rule::expr))),
                        opt(cat(Peg::Skip, lit(";"))),
                    ),
                    Peg::Skip,
                ),
            ),
            lit("]"),
        ),
{
    cat4(
        lit("["),
        Peg::Skip,
        opt(
            cat(
                cat3(
                    rule(Rule::expr),
                    many(cat4(Peg::Skip, lit(";"), Peg::Skip, rule(Rule::expr))),
                    opt(cat(Peg::Skip, lit(";"))),
                ),
                Peg::Skip,
            ),
        ),
        lit("]"),
    )
}

/// `tuple = "(" _ expr (_ "," _ expr)+ _ ")"`
#[verifier::allow_in_spec]
pub fn tuple() -> Peg
    returns
        cat6(
            lit("("),
            Peg::Skip,
            rule(Rule::expr),
            many1(cat4(Peg::Skip, lit(","), Peg::Skip, rule(Rule::expr))),
            Peg::Skip,
            lit(")"),
        ),
{
    cat6(
        lit("("),
        Peg::Skip,
        rule(Rule::expr),
        many1(cat4(Peg::Skip, lit(","), Peg::Skip, rule(Rule::expr))),
        Peg::Skip,
        lit(")"),
    )
}

/// `block_text = "'<" _ vertical_mode _ ">"`
#[verifier::allow_in_spec]
pub fn block_text() -> Peg
    returns
        cat5(lit("'<"), Peg::Skip, rule(Rule::vertical_mode), Peg::Skip, lit(">")),
{
    cat5(lit("'<"), Peg::Skip, rule(Rule::vertical_mode), Peg::Skip, lit(">"))
}

/// `horizontal_text = "{" horizontal_mode "}"`
#[verifier::allow_in_spec]
pub fn horizontal_text() -> Peg
    returns
        cat3(lit("{"), rule(Rule::horizontal_mode), lit("}")),
{
    cat3(lit("{"), rule(Rule::horizontal_mode), lit("}"))
}

/// `math_text = "${" _ math_mode _ "}"`
#[verifier::allow_in_spec]
pub fn math_text() -> Peg
    returns
        cat5(lit("${"), Peg::Skip, rule(Rule::math_mode), Peg::Skip, lit("}")),
{
    cat5(lit("${"), Peg::Skip, rule(Rule::math_mode), Peg::Skip, lit("}"))
}

} // verus!
