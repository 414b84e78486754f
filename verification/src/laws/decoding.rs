//! Decoding of literals, and what lowers to a tuple or to a record.

use vstd::prelude::*;
use crate::ast::expr::ExprModel;
use crate::ast::expr::RecordModel;
use crate::ast::expr::UnaryModel;
use crate::ast::literal::Literal;
use crate::error::bad_shape;
use crate::error::collect;
use crate::error::first_error;
use crate::error::LowerError;
use crate::lower::expr::expr_of;
use crate::lower::expr::expr_with_mod_of;
use crate::lower::expr::record_of;
use crate::lower::expr::text_of_mode;
use crate::lower::expr::tuple_of;
use crate::lower::expr::unary_of;
use crate::lower::lists::expr_results;
use crate::lower::literal::literal_of;
use crate::node::Error;
use crate::node::Grammar;
use crate::parser::parse_spec;
use crate::rule::Rule;
use crate::tree::Tree;

verus! {

/// Whether `r` is what reading a literal from the text with bytes `b`
/// gives: what `Literal::parse` promises of its result.
pub open spec fn literal_read(b: Seq<u8>, r: Result<Literal, Error>) -> bool {
    match parse_spec(Rule::literal, b) {
        Err(f) => r matches Err(Error::Syntax(e)) && e.model() == f,
        Ok(t) => match r {
            Ok(v) => Literal::lowers_to(b, t, Ok(v)),
            Err(Error::Lower(e)) => Literal::lowers_to(b, t, Err(e)),
            Err(Error::Syntax(_)) => false,
        },
    }
}

/// Decoding the same literal text twice gives the same: two results of
/// reading a literal from one text are two values with one model, or twice
/// the same error.
pub proof fn lemma_decoding_twice(b: Seq<u8>, first: Result<Literal, Error>, second: Result<
    Literal,
    Error,
>)
    requires
        literal_read(b, first),
        literal_read(b, second),
    ensures
        match (first, second) {
            (Ok(v), Ok(w)) => v.model() == w.model(),
            (Err(Error::Syntax(e)), Err(Error::Syntax(f))) => e.model() == f.model(),
            (Err(Error::Lower(e)), Err(Error::Lower(f))) => e == f,
            _ => false,
        },
{
}

/// All values of results without an error are as many as the results.
proof fn lemma_collect_len<V>(rs: Seq<Result<V, LowerError>>)
    ensures
        collect(rs) matches Ok(vs) ==> vs.len() == rs.len(),
{
}

/// Only two or more items lower to a tuple. Where a `unary` node lowers to
/// a tuple, its child is of rule `tuple` and has at least two children, and
/// the tuple has as many items. So an expression in parentheses and empty
/// parentheses, which come as children of other rules, lower to no tuple.
pub proof fn lemma_tuple_minimal(b: Seq<u8>, t: Tree)
    ensures
        unary_of(b, t) matches Ok(UnaryModel::Tuple(items)) ==> t.children.len() >= 1
            && t.children[0].rule == Rule::tuple && t.children[0].children.len() >= 2
            && items.len() == t.children[0].children.len(),
        t.children.len() >= 1 && t.children[0].rule == Rule::tuple && t.children[0].children.len()
            < 2 ==> unary_of(b, t) is Err,
{
    reveal(unary_of);
    reveal(tuple_of);
    reveal(text_of_mode);
    reveal(expr_with_mod_of);
    reveal(expr_results);
    if t.children.len() >= 1 {
        let c = t.children[0];
        lemma_collect_len(expr_results(b, c, 0, c.children.len() as int));
    }
}

/// A record that names the record which gives its other fields has at
/// least one field written out.
pub proof fn lemma_record_with_default_has_fields(b: Seq<u8>, t: Tree)
    ensures
        record_of(b, t) matches Ok(RecordModel::MapWithDefault { map, .. }) ==> map.len() >= 1,
{
    reveal(record_of);
}

/// Whether a rule is one of those that the child of an `expr` node may
/// have.
pub open spec fn dispatches(rule: Rule) -> bool {
    ||| rule == Rule::match_expr
    ||| rule == Rule::bind_stmt
    ||| rule == Rule::ctrl_while
    ||| rule == Rule::ctrl_if
    ||| rule == Rule::dyadic_expr
    ||| rule == Rule::unary_operator_expr
    ||| rule == Rule::variant_constructor
    ||| rule == Rule::application
    ||| rule == Rule::record_member
    ||| rule == Rule::unary
}

/// An `expr` node lowers by the rule of its first child, which is one of
/// ten; with a first child of any other rule, also of rule `expr` itself, the
/// node does not lower, and the child is named as the node at fault.
pub proof fn lemma_expr_dispatch(b: Seq<u8>, t: Tree)
    requires
        t.rule == Rule::expr,
        t.children.len() >= 1,
        !dispatches(t.children[0].rule),
    ensures
        expr_of(b, t) == Err::<ExprModel, LowerError>(bad_shape(t.children[0])),
{
    reveal_with_fuel(expr_of, 2);
}

} // verus!
