//! Modules and their signatures.

use vstd::prelude::*;
use crate::notation::cat;
use crate::notation::cat3;
use crate::notation::cat4;
use crate::notation::cat5;
use crate::notation::cat6;
use crate::notation::or4;
use crate::notation::kw;
use crate::notation::lit;
use crate::notation::many;
use crate::notation::opt;
use crate::notation::or;
use crate::notation::rule;
use crate::grammar::shared::signature_item;
use crate::grammar::shared::signature_tail;
use crate::peg::Peg;
use crate::rule::Rule;

verus! {

/// `module_stmt = kw("module") _ module_name _ (":" _ sig_stmt _)? "=" _
/// struct_stmt`
#[verifier::allow_in_spec]
pub fn module_stmt() -> Peg
    returns
        cat6(
            kw("module"),
            Peg::Skip,
            rule(Rule::module_name),
            Peg::Skip,
            opt(cat4(lit(":"), Peg::Skip, rule(Rule::sig_stmt), Peg::Skip)),
            cat3(lit("="), Peg::Skip, rule(Rule::struct_stmt)),
        ),
{
    cat6(
        kw("module"),
        Peg::Skip,
        rule(Rule::module_name),
        Peg::Skip,
        opt(cat4(lit(":"), Peg::Skip, rule(Rule::sig_stmt), Peg::Skip)),
        cat3(lit("="), Peg::Skip, rule(Rule::struct_stmt)),
    )
}

/// `sig_stmt = kw("sig") _ sig_inner _ kw("end")`
#[verifier::allow_in_spec]
pub fn sig_stmt() -> Peg
    returns
        cat5(kw("sig"), Peg::Skip, rule(Rule::sig_inner), Peg::Skip, kw("end")),
{
    cat5(kw("sig"), Peg::Skip, rule(Rule::sig_inner), Peg::Skip, kw("end"))
}

/// `struct_stmt = kw("struct") _ (preamble _)? kw("end")`
#[verifier::allow_in_spec]
pub fn struct_stmt() -> Peg
    returns
        cat4(kw("struct"), Peg::Skip, opt(cat(rule(Rule::preamble), Peg::Skip)), kw("end")),
{
    cat4(kw("struct"), Peg::Skip, opt(cat(rule(Rule::preamble), Peg::Skip)), kw("end"))
}

/// `sig_inner = (signature_item (_ signature_item)*)?`
#[verifier::allow_in_spec]
pub fn sig_inner() -> Peg
    returns
        opt(cat(signature_item(), many(cat(Peg::Skip, signature_item())))),
{
    opt(cat(signature_item(), many(cat(Peg::Skip, signature_item()))))
}

/// `sig_type_stmt = kw("type") (_ type_param)* _ var (_ constraint)*`
#[verifier::allow_in_spec]
pub fn sig_type_stmt() -> Peg
    returns
        cat5(
            kw("type"),
            many(cat(Peg::Skip, rule(Rule::type_param))),
            Peg::Skip,
            rule(Rule::var),
            many(cat(Peg::Skip, rule(Rule::constraint))),
        ),
{
    cat5(
        kw("type"),
        many(cat(Peg::Skip, rule(Rule::type_param))),
        Peg::Skip,
        rule(Rule::var),
        many(cat(Peg::Skip, rule(Rule::constraint))),
    )
}

/// `sig_val_stmt = kw("val") _ (var / "(" _ bin_operator _ ")" /
/// inline_cmd_name / block_cmd_name) signature_tail`
#[verifier::allow_in_spec]
pub fn sig_val_stmt() -> Peg
    returns
        cat4(
            kw("val"),
            Peg::Skip,
            or4(
                rule(Rule::var),
                cat5(lit("("), Peg::Skip, rule(Rule::bin_operator), Peg::Skip, lit(")")),
                rule(Rule::inline_cmd_name),
                rule(Rule::block_cmd_name),
            ),
            signature_tail(),
        ),
{
    cat4(
        kw("val"),
        Peg::Skip,
        or4(
            rule(Rule::var),
            cat5(lit("("), Peg::Skip, rule(Rule::bin_operator), Peg::Skip, lit(")")),
            rule(Rule::inline_cmd_name),
            rule(Rule::block_cmd_name),
        ),
        signature_tail(),
    )
}

/// `sig_direct_stmt = kw("direct") _ (inline_cmd_name / block_cmd_name)
/// signature_tail`
#[verifier::allow_in_spec]
pub fn sig_direct_stmt() -> Peg
    returns
        cat4(
            kw("direct"),
            Peg::Skip,
            or(rule(Rule::inline_cmd_name), rule(Rule::block_cmd_name)),
            signature_tail(),
        ),
{
    cat4(
        kw("direct"),
        Peg::Skip,
        or(rule(Rule::inline_cmd_name), rule(Rule::block_cmd_name)),
        signature_tail(),
    )
}

} // verus!
