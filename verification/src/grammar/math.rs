//! Math text.

use vstd::prelude::*;
use crate::notation::cat;
use crate::notation::cat3;
use crate::notation::cat4;
use crate::notation::cat5;
use crate::notation::or3;
use crate::notation::or4;
use crate::notation::or6;
use crate::notation::digit;
use crate::notation::lit;
use crate::notation::lower;
use crate::notation::many;
use crate::notation::many1;
use crate::notation::opt;
use crate::notation::or;
use crate::notation::rule;
use crate::notation::upper;
use crate::grammar::shared::command_name;
use crate::peg::Peg;
use crate::rule::Rule;

verus! {

/// `math_mode = math_list / math_single`
#[verifier::allow_in_spec]
pub fn math_mode() -> Peg
    returns
        or(rule(Rule::math_list), rule(Rule::math_single)),
{
    or(rule(Rule::math_list), rule(Rule::math_single))
}

/// `math_single = (math_token (_ math_token)*)?`
#[verifier::allow_in_spec]
pub fn math_single() -> Peg
    returns
        opt(cat(rule(Rule::math_token), many(cat(Peg::Skip, rule(Rule::math_token))))),
{
    opt(cat(rule(Rule::math_token), many(cat(Peg::Skip, rule(Rule::math_token)))))
}

/// `math_list = "|" (_ math_single _ "|")+`
#[verifier::allow_in_spec]
pub fn math_list() -> Peg
    returns
        cat(lit("|"), many1(cat4(Peg::Skip, rule(Rule::math_single), Peg::Skip, lit("|")))),
{
    cat(lit("|"), many1(cat4(Peg::Skip, rule(Rule::math_single), Peg::Skip, lit("|"))))
}

/// `math_token = math_unary (math_sup math_sub? / math_sub math_sup?)?`
#[verifier::allow_in_spec]
pub fn math_token() -> Peg
    returns
        cat(
            rule(Rule::math_unary),
            opt(
                or(
                    cat(rule(Rule::math_sup), opt(rule(Rule::math_sub))),
                    cat(rule(Rule::math_sub), opt(rule(Rule::math_sup))),
                ),
            ),
        ),
{
    cat(
        rule(Rule::math_unary),
        opt(
            or(
                cat(rule(Rule::math_sup), opt(rule(Rule::math_sub))),
                cat(rule(Rule::math_sub), opt(rule(Rule::math_sup))),
            ),
        ),
    )
}

/// `math_sup = "^" _ math_group`
#[verifier::allow_in_spec]
pub fn math_sup() -> Peg
    returns
        cat3(lit("^"), Peg::Skip, rule(Rule::math_group)),
{
    cat3(lit("^"), Peg::Skip, rule(Rule::math_group))
}

/// `math_sub = "_" _ math_group`
#[verifier::allow_in_spec]
pub fn math_sub() -> Peg
    returns
        cat3(lit("_"), Peg::Skip, rule(Rule::math_group)),
{
    cat3(lit("_"), Peg::Skip, rule(Rule::math_group))
}

/// `math_group = "{" _ math_single _ "}" / math_unary`
#[verifier::allow_in_spec]
pub fn math_group() -> Peg
    returns
        or(
            cat5(lit("{"), Peg::Skip, rule(Rule::math_single), Peg::Skip, lit("}")),
            rule(Rule::math_unary),
        ),
{
    or(
        cat5(lit("{"), Peg::Skip, rule(Rule::math_single), Peg::Skip, lit("}")),
        rule(Rule::math_unary),
    )
}

/// `math_unary = math_cmd / math_escaped_char / math_char / math_symbol`
#[verifier::allow_in_spec]
pub fn math_unary() -> Peg
    returns
        or4(
            rule(Rule::math_cmd),
            rule(Rule::math_escaped_char),
            rule(Rule::math_char),
            rule(Rule::math_symbol),
        ),
{
    or4(
        rule(Rule::math_cmd),
        rule(Rule::math_escaped_char),
        rule(Rule::math_char),
        rule(Rule::math_symbol),
    )
}

/// `math_escaped_char = "\\" math_special_char`
#[verifier::allow_in_spec]
pub fn math_escaped_char() -> Peg
    returns
        cat(lit("\\"), rule(Rule::math_special_char)),
{
    cat(lit("\\"), rule(Rule::math_special_char))
}

/// `math_special_char = "\\" / "{" / "}" / "|" / "^" / "_" / "$" / "#" / ";"
/// / "%" / "!" / "@" / " "`
#[verifier::allow_in_spec]
pub fn math_special_char() -> Peg
    returns
        or6(
            lit("\\"),
            lit("{"),
            lit("}"),
            lit("|"),
            lit("^"),
            or6(
                lit("_"),
                lit("$"),
                lit("#"),
                lit(";"),
                lit("%"),
                or3(lit("!"), lit("@"), lit(" ")),
            ),
        ),
{
    or6(
        lit("\\"),
        lit("{"),
        lit("}"),
        lit("|"),
        lit("^"),
        or6(lit("_"), lit("$"), lit("#"), lit(";"), lit("%"), or3(lit("!"), lit("@"), lit(" "))),
    )
}

/// `math_char = lower / upper / digit`
#[verifier::allow_in_spec]
pub fn math_char() -> Peg
    returns
        or3(lower(), upper(), digit()),
{
    or3(lower(), upper(), digit())
}

/// `math_cmd = math_cmd_name (_ math_cmd_expr_option)* (_
/// math_cmd_expr_arg)*`
#[verifier::allow_in_spec]
pub fn math_cmd() -> Peg
    returns
        cat3(
            rule(Rule::math_cmd_name),
            many(cat(Peg::Skip, rule(Rule::math_cmd_expr_option))),
            many(cat(Peg::Skip, rule(Rule::math_cmd_expr_arg))),
        ),
{
    cat3(
        rule(Rule::math_cmd_name),
        many(cat(Peg::Skip, rule(Rule::math_cmd_expr_option))),
        many(cat(Peg::Skip, rule(Rule::math_cmd_expr_arg))),
    )
}

/// `math_cmd_name = "\\" command_name`
#[verifier::allow_in_spec]
pub fn math_cmd_name() -> Peg
    returns
        cat(lit("\\"), command_name()),
{
    cat(lit("\\"), command_name())
}

/// `math_cmd_expr_arg = "{" _ math_mode _ "}" / "!{" horizontal_mode "}" /
/// "!<" _ vertical_mode _ ">" / "!" cmd_expr_arg`
#[verifier::allow_in_spec]
pub fn math_cmd_expr_arg() -> Peg
    returns
        or4(
            cat5(lit("{"), Peg::Skip, rule(Rule::math_mode), Peg::Skip, lit("}")),
            cat3(lit("!{"), rule(Rule::horizontal_mode), lit("}")),
            cat5(lit("!<"), Peg::Skip, rule(Rule::vertical_mode), Peg::Skip, lit(">")),
            cat(lit("!"), rule(Rule::cmd_expr_arg)),
        ),
{
    or4(
        cat5(lit("{"), Peg::Skip, rule(Rule::math_mode), Peg::Skip, lit("}")),
        cat3(lit("!{"), rule(Rule::horizontal_mode), lit("}")),
        cat5(lit("!<"), Peg::Skip, rule(Rule::vertical_mode), Peg::Skip, lit(">")),
        cat(lit("!"), rule(Rule::cmd_expr_arg)),
    )
}

/// `math_cmd_expr_option = "?:" _ math_cmd_expr_arg`
#[verifier::allow_in_spec]
pub fn math_cmd_expr_option() -> Peg
    returns
        cat3(lit("?:"), Peg::Skip, rule(Rule::math_cmd_expr_arg)),
{
    cat3(lit("?:"), Peg::Skip, rule(Rule::math_cmd_expr_arg))
}

/// `math_symbol = ("+" / "-" / "*" / "/" / ":" / "=" / "<" / ">" / "~" / "'"
/// / "." / "," / "?")+`
#[verifier::allow_in_spec]
pub fn math_symbol() -> Peg
    returns
        many1(
            or6(
                lit("+"),
                lit("-"),
                lit("*"),
                lit("/"),
                lit(":"),
                or6(
                    lit("="),
                    lit("<"),
                    lit(">"),
                    lit("~"),
                    lit("'"),
                    or3(lit("."), lit(","), lit("?")),
                ),
            ),
        ),
{
    many1(
        or6(
            lit("+"),
            lit("-"),
            lit("*"),
            lit("/"),
            lit(":"),
            or6(
                lit("="),
                lit("<"),
                lit(">"),
                lit("~"),
                lit("'"),
                or3(lit("."), lit(","), lit("?")),
            ),
        ),
    )
}

} // verus!
