//! Inline text: runs of text and commands, lists and bullet lists.

use vstd::prelude::*;
use crate::notation::cat;
use crate::notation::cat3;
use crate::notation::cat4;
use crate::notation::or3;
use crate::notation::or6;
use crate::notation::lit;
use crate::notation::many;
use crate::notation::many1;
use crate::notation::not;
use crate::notation::or;
use crate::notation::rule;
use crate::grammar::shared::command_name;
use crate::grammar::shared::command_tail;
use crate::grammar::shared::embedding;
use crate::peg::Peg;
use crate::rule::Rule;

verus! {

/// `horizontal_mode = _ horizontal_list _ / _ horizontal_bullet_list /
/// horizontal_single`
#[verifier::allow_in_spec]
pub fn horizontal_mode() -> Peg
    returns
        or3(
            cat3(Peg::Skip, rule(Rule::horizontal_list), Peg::Skip),
            cat(Peg::Skip, rule(Rule::horizontal_bullet_list)),
            rule(Rule::horizontal_single),
        ),
{
    or3(
        cat3(Peg::Skip, rule(Rule::horizontal_list), Peg::Skip),
        cat(Peg::Skip, rule(Rule::horizontal_bullet_list)),
        rule(Rule::horizontal_single),
    )
}

/// `horizontal_single = (horizontal_token / "%" (!"\n" ANY)*)*`
#[verifier::allow_in_spec]
pub fn horizontal_single() -> Peg
    returns
        many(
            or(rule(Rule::horizontal_token), cat(lit("%"), many(cat(not(lit("\n")), Peg::Any)))),
        ),
{
    many(or(rule(Rule::horizontal_token), cat(lit("%"), many(cat(not(lit("\n")), Peg::Any)))))
}

/// `horizontal_list = "|" (horizontal_single "|")+`
#[verifier::allow_in_spec]
pub fn horizontal_list() -> Peg
    returns
        cat(lit("|"), many1(cat(rule(Rule::horizontal_single), lit("|")))),
{
    cat(lit("|"), many1(cat(rule(Rule::horizontal_single), lit("|"))))
}

/// `horizontal_bullet_list = horizontal_bullet+`
#[verifier::allow_in_spec]
pub fn horizontal_bullet_list() -> Peg
    returns
        many1(rule(Rule::horizontal_bullet)),
{
    many1(rule(Rule::horizontal_bullet))
}

/// `horizontal_bullet = horizontal_bullet_star horizontal_single`
#[verifier::allow_in_spec]
pub fn horizontal_bullet() -> Peg
    returns
        cat(rule(Rule::horizontal_bullet_star), rule(Rule::horizontal_single)),
{
    cat(rule(Rule::horizontal_bullet_star), rule(Rule::horizontal_single))
}

/// `horizontal_bullet_star = "*"+`
#[verifier::allow_in_spec]
pub fn horizontal_bullet_star() -> Peg
    returns
        many1(lit("*")),
{
    many1(lit("*"))
}

/// `horizontal_token = inline_cmd / horizontal_text_embedding / math_text /
/// string_const / horizontal_escaped_char / regular_text`
#[verifier::allow_in_spec]
pub fn horizontal_token() -> Peg
    returns
        or6(
            rule(Rule::inline_cmd),
            rule(Rule::horizontal_text_embedding),
            rule(Rule::math_text),
            rule(Rule::string_const),
            rule(Rule::horizontal_escaped_char),
            rule(Rule::regular_text),
        ),
{
    or6(
        rule(Rule::inline_cmd),
        rule(Rule::horizontal_text_embedding),
        rule(Rule::math_text),
        rule(Rule::string_const),
        rule(Rule::horizontal_escaped_char),
        rule(Rule::regular_text),
    )
}

/// `regular_text = (!horizontal_special_char ANY)+`
#[verifier::allow_in_spec]
pub fn regular_text() -> Peg
    returns
        many1(cat(not(rule(Rule::horizontal_special_char)), Peg::Any)),
{
    many1(cat(not(rule(Rule::horizontal_special_char)), Peg::Any))
}

/// `horizontal_escaped_char = "\\" horizontal_special_char`
#[verifier::allow_in_spec]
pub fn horizontal_escaped_char() -> Peg
    returns
        cat(lit("\\"), rule(Rule::horizontal_special_char)),
{
    cat(lit("\\"), rule(Rule::horizontal_special_char))
}

/// `horizontal_special_char = "@" / "`" / "\\" / "{" / "}" / "|" / "*" / "$"
/// / "#" / ";" / "%"`
#[verifier::allow_in_spec]
pub fn horizontal_special_char() -> Peg
    returns
        or6(
            lit("@"),
            lit("`"),
            lit("\\"),
            lit("{"),
            lit("}"),
            or6(lit("|"), lit("*"), lit("$"), lit("#"), lit(";"), lit("%")),
        ),
{
    or6(
        lit("@"),
        lit("`"),
        lit("\\"),
        lit("{"),
        lit("}"),
        or6(lit("|"), lit("*"), lit("$"), lit("#"), lit(";"), lit("%")),
    )
}

/// `inline_cmd = inline_cmd_name command_tail`
#[verifier::allow_in_spec]
pub fn inline_cmd() -> Peg
    returns
        cat(rule(Rule::inline_cmd_name), command_tail()),
{
    cat(rule(Rule::inline_cmd_name), command_tail())
}

/// `inline_cmd_name = "\\" command_name`
#[verifier::allow_in_spec]
pub fn inline_cmd_name() -> Peg
    returns
        cat(lit("\\"), command_name()),
{
    cat(lit("\\"), command_name())
}

/// `horizontal_text_embedding = "#" (modvar / var_ptn) _ ";"`
#[verifier::allow_in_spec]
pub fn horizontal_text_embedding() -> Peg
    returns
        cat4(lit("#"), or(rule(Rule::modvar), rule(Rule::var_ptn)), Peg::Skip, lit(";")),
{
    cat4(lit("#"), or(rule(Rule::modvar), rule(Rule::var_ptn)), Peg::Skip, lit(";"))
}

} // verus!
