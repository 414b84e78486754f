//! Block text: commands and embeddings.

use vstd::prelude::*;
use crate::notation::ahead;
use crate::notation::cat;
use crate::notation::cat3;
use crate::notation::cat4;
use crate::notation::cat5;
use crate::notation::lit;
use crate::notation::many;
use crate::notation::opt;
use crate::notation::or;
use crate::notation::rule;
use crate::grammar::shared::command_name;
use crate::grammar::shared::command_tail;
use crate::grammar::shared::embedding;
use crate::peg::Peg;
use crate::rule::Rule;

verus! {

/// `vertical_mode = (vertical_element (_ vertical_element)*)?`
#[verifier::allow_in_spec]
pub fn vertical_mode() -> Peg
    returns
        opt(
            cat(
                rule(Rule::vertical_element),
                many(cat(Peg::Skip, rule(Rule::vertical_element))),
            ),
        ),
{
    opt(cat(rule(Rule::vertical_element), many(cat(Peg::Skip, rule(Rule::vertical_element)))))
}

/// `vertical_element = block_cmd / block_text_embedding`
#[verifier::allow_in_spec]
pub fn vertical_element() -> Peg
    returns
        or(rule(Rule::block_cmd), rule(Rule::block_text_embedding)),
{
    or(rule(Rule::block_cmd), rule(Rule::block_text_embedding))
}

/// `block_cmd = block_cmd_name command_tail`
#[verifier::allow_in_spec]
pub fn block_cmd() -> Peg
    returns
        cat(rule(Rule::block_cmd_name), command_tail()),
{
    cat(rule(Rule::block_cmd_name), command_tail())
}

/// `block_cmd_name = "+" command_name`
#[verifier::allow_in_spec]
pub fn block_cmd_name() -> Peg
    returns
        cat(lit("+"), command_name()),
{
    cat(lit("+"), command_name())
}

/// `block_text_embedding = "#" (modvar / var_ptn) _ ";"`
#[verifier::allow_in_spec]
pub fn block_text_embedding() -> Peg
    returns
        cat4(lit("#"), or(rule(Rule::modvar), rule(Rule::var_ptn)), Peg::Skip, lit(";")),
{
    cat4(lit("#"), or(rule(Rule::modvar), rule(Rule::var_ptn)), Peg::Skip, lit(";"))
}

/// `cmd_expr_arg = &("(" / "[") unary`
#[verifier::allow_in_spec]
pub fn cmd_expr_arg() -> Peg
    returns
        cat(ahead(or(lit("("), lit("["))), rule(Rule::unary)),
{
    cat(ahead(or(lit("("), lit("["))), rule(Rule::unary))
}

/// `cmd_expr_option = "?:" _ cmd_expr_arg / "?*"`
#[verifier::allow_in_spec]
pub fn cmd_expr_option() -> Peg
    returns
        or(cat3(lit("?:"), Peg::Skip, rule(Rule::cmd_expr_arg)), lit("?*")),
{
    or(cat3(lit("?:"), Peg::Skip, rule(Rule::cmd_expr_arg)), lit("?*"))
}

/// `cmd_text_arg = "<" _ vertical_mode _ ">" / "{" horizontal_mode "}"`
#[verifier::allow_in_spec]
pub fn cmd_text_arg() -> Peg
    returns
        or(
            cat5(lit("<"), Peg::Skip, rule(Rule::vertical_mode), Peg::Skip, lit(">")),
            cat3(lit("{"), rule(Rule::horizontal_mode), lit("}")),
        ),
{
    or(
        cat5(lit("<"), Peg::Skip, rule(Rule::vertical_mode), Peg::Skip, lit(">")),
        cat3(lit("{"), rule(Rule::horizontal_mode), lit("}")),
    )
}

} // verus!
