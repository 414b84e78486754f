//! Parts that several rules of the grammar share.

use vstd::prelude::*;
use crate::notation::fork;
use crate::notation::cat;
use crate::notation::cat3;
use crate::notation::cat4;
use crate::notation::cat5;
use crate::notation::or3;
use crate::notation::or4;
use crate::notation::or6;
use crate::notation::lit;
use crate::notation::lower;
use crate::notation::many;
use crate::notation::many1;
use crate::notation::name_tail;
use crate::notation::opt;
use crate::notation::or;
use crate::notation::rule;
use crate::notation::upper;
use crate::peg::Peg;
use crate::rule::Rule;

verus! {

/// A character that may continue an operator.
///
/// `"+" / "-" / "*" / "/" / "^" / "&" / "|" / "!" / ":" / "=" / "<" / ">" /
/// "~" / "'" / "." / "?"`
#[verifier::allow_in_spec]
pub fn op_char() -> Peg
    returns
        or6(
            lit("+"),
            lit("-"),
            lit("*"),
            lit("/"),
            lit("^"),
            or6(
                lit("&"),
                lit("|"),
                lit("!"),
                lit(":"),
                lit("="),
                or6(lit("<"), lit(">"), lit("~"), lit("'"), lit("."), lit("?")),
            ),
        ),
{
    or6(
        lit("+"),
        lit("-"),
        lit("*"),
        lit("/"),
        lit("^"),
        or6(
            lit("&"),
            lit("|"),
            lit("!"),
            lit(":"),
            lit("="),
            or6(lit("<"), lit(">"), lit("~"), lit("'"), lit("."), lit("?")),
        ),
    )
}

/// The name of a command behind its sigil: an optional module prefix and a
/// lower-case name.
///
/// `(upper name_tail ".")? lower name_tail`
#[verifier::allow_in_spec]
pub fn command_name() -> Peg
    returns
        cat3(opt(cat3(upper(), name_tail(), lit("."))), lower(), name_tail()),
{
    cat3(opt(cat3(upper(), name_tail(), lit("."))), lower(), name_tail())
}

/// A declaration of the preamble.
///
/// `let_stmt / let_inline_stmt / let_block_stmt / let_math_stmt /
/// let_mutable_stmt / module_stmt`
#[verifier::allow_in_spec]
pub fn statement() -> Peg
    returns
        or6(
            rule(Rule::let_stmt),
            rule(Rule::let_inline_stmt),
            rule(Rule::let_block_stmt),
            rule(Rule::let_math_stmt),
            rule(Rule::let_mutable_stmt),
            rule(Rule::module_stmt),
        ),
{
    or6(
        rule(Rule::let_stmt),
        rule(Rule::let_inline_stmt),
        rule(Rule::let_block_stmt),
        rule(Rule::let_math_stmt),
        rule(Rule::let_mutable_stmt),
        rule(Rule::module_stmt),
    )
}

/// A `unary`, or the member of a record that a `unary` denotes.
///
/// `fork(record_member: unary, _ "#" _ var, ())`
#[verifier::allow_in_spec]
pub fn unary_or_member() -> Peg
    returns
        fork(
            Rule::record_member,
            rule(Rule::unary),
            cat4(Peg::Skip, lit("#"), Peg::Skip, rule(Rule::var)),
            Peg::Empty,
        ),
{
    fork(
        Rule::record_member,
        rule(Rule::unary),
        cat4(Peg::Skip, lit("#"), Peg::Skip, rule(Rule::var)),
        Peg::Empty,
    )
}

/// An expression that can stand beside a binary operator.
///
/// `unary_operator_expr / variant_constructor / application /
/// unary_or_member`
#[verifier::allow_in_spec]
pub fn operand() -> Peg
    returns
        or4(
            rule(Rule::unary_operator_expr),
            rule(Rule::variant_constructor),
            rule(Rule::application),
            unary_or_member(),
        ),
{
    or4(
        rule(Rule::unary_operator_expr),
        rule(Rule::variant_constructor),
        rule(Rule::application),
        unary_or_member(),
    )
}

/// The arguments of a command: options, expression arguments, and then a
/// semicolon or text arguments.
///
/// `(_ cmd_expr_option)* (_ cmd_expr_arg)* (_ ";" / (_ cmd_text_arg)+)`
#[verifier::allow_in_spec]
pub fn command_tail() -> Peg
    returns
        cat3(
            many(cat(Peg::Skip, rule(Rule::cmd_expr_option))),
            many(cat(Peg::Skip, rule(Rule::cmd_expr_arg))),
            or(cat(Peg::Skip, lit(";")), many1(cat(Peg::Skip, rule(Rule::cmd_text_arg)))),
        ),
{
    cat3(
        many(cat(Peg::Skip, rule(Rule::cmd_expr_option))),
        many(cat(Peg::Skip, rule(Rule::cmd_expr_arg))),
        or(cat(Peg::Skip, lit(";")), many1(cat(Peg::Skip, rule(Rule::cmd_text_arg)))),
    )
}

/// A variable whose content is inserted into the text.
///
/// `"#" (modvar / var_ptn) _ ";"`
#[verifier::allow_in_spec]
pub fn embedding() -> Peg
    returns
        cat4(lit("#"), or(rule(Rule::modvar), rule(Rule::var_ptn)), Peg::Skip, lit(";")),
{
    cat4(lit("#"), or(rule(Rule::modvar), rule(Rule::var_ptn)), Peg::Skip, lit(";"))
}

/// The type of a declared name and its constraints.
///
/// `_ ":" _ type_expr (_ constraint)*`
#[verifier::allow_in_spec]
pub fn signature_tail() -> Peg
    returns
        cat5(
            Peg::Skip,
            lit(":"),
            Peg::Skip,
            rule(Rule::type_expr),
            many(cat(Peg::Skip, rule(Rule::constraint))),
        ),
{
    cat5(
        Peg::Skip,
        lit(":"),
        Peg::Skip,
        rule(Rule::type_expr),
        many(cat(Peg::Skip, rule(Rule::constraint))),
    )
}

/// A type that can be applied or be an argument.
///
/// `type_param / type_ident / "(" _ type_expr _ ")"`
#[verifier::allow_in_spec]
pub fn type_atom() -> Peg
    returns
        or3(
            rule(Rule::type_param),
            rule(Rule::type_ident),
            cat5(lit("("), Peg::Skip, rule(Rule::type_expr), Peg::Skip, lit(")")),
        ),
{
    or3(
        rule(Rule::type_param),
        rule(Rule::type_ident),
        cat5(lit("("), Peg::Skip, rule(Rule::type_expr), Peg::Skip, lit(")")),
    )
}

/// A pattern without `as` or `::` at its top.
///
/// `pat_variant / pattern`
#[verifier::allow_in_spec]
pub fn simple_pattern() -> Peg
    returns
        or(rule(Rule::pat_variant), rule(Rule::pattern)),
{
    or(rule(Rule::pat_variant), rule(Rule::pattern))
}

/// One declaration of a signature.
///
/// `sig_type_stmt / sig_val_stmt / sig_direct_stmt`
#[verifier::allow_in_spec]
pub fn signature_item() -> Peg
    returns
        or3(rule(Rule::sig_type_stmt), rule(Rule::sig_val_stmt), rule(Rule::sig_direct_stmt)),
{
    or3(rule(Rule::sig_type_stmt), rule(Rule::sig_val_stmt), rule(Rule::sig_direct_stmt))
}

} // verus!
