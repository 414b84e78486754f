//! Lowering of expressions.

use vstd::prelude::*;
use vstd::string::StringSliceAdditionalSpecFns;
use crate::ast::expr::app_arg_models;
use crate::ast::expr::arm_models;
use crate::ast::expr::expr_models;
use crate::ast::expr::record_unit_models;
use crate::ast::expr::AppArg;
use crate::ast::expr::AppArgModel;
use crate::ast::expr::Application;
use crate::ast::expr::ApplicationModel;
use crate::ast::expr::Expr;
use crate::ast::expr::ExprModel;
use crate::ast::expr::List;
use crate::ast::expr::MatchArm;
use crate::ast::expr::MatchArmModel;
use crate::ast::expr::Record;
use crate::ast::expr::RecordModel;
use crate::ast::expr::RecordUnit;
use crate::ast::expr::RecordUnitModel;
use crate::ast::expr::Tuple;
use crate::ast::expr::Unary;
use crate::ast::expr::UnaryModel;
use crate::ast::literal::ranged;
use crate::ast::pattern::Variant;
use crate::error::bad_shape;
use crate::error::collect;
use crate::error::fails;
use crate::error::gives;
use crate::error::LowerError;
use crate::lower::common::at_node;
use crate::lower::common::into_variable;
use crate::lower::common::into_variant;
use crate::lower::common::lower_qualified;
use crate::lower::common::name_of;
use crate::lower::common::node_text;
use crate::lower::common::qualified_of;
use crate::lower::common::ranged_node_text;
use crate::lower::common::ranged_text_of;
use crate::lower::common::shape_error;
use crate::lower::common::wrap_node;
use crate::lower::content::horizontal_of;
use crate::lower::content::lower_horizontal;
use crate::lower::content::lower_vertical;
use crate::lower::content::vertical_of;
use crate::lower::lists::app_arg_results;
use crate::lower::lists::arm_results;
use crate::lower::lists::expr_results;
use crate::lower::lists::lower_app_args;
use crate::lower::lists::lower_arms;
use crate::lower::lists::lower_exprs;
use crate::lower::lists::lower_record_units;
use crate::lower::lists::record_unit_results;
use crate::lower::literal::literal_of;
use crate::lower::math::lower_math_mode;
use crate::lower::math::math_mode_of;
use crate::lower::literal::lower_literal;
use crate::lower::pattern::lower_ranged_pattern;
use crate::lower::pattern::ranged_pattern_of;
use crate::lower::statement::lower_ranged_statement;
use crate::lower::statement::ranged_statement_of;
use crate::position::Ranged;
use crate::rule::Rule;
use crate::tree::Pair;
use crate::tree::Tree;

verus! {

/// What `declaration in expression` lowers to. The node's first child holds
/// the declaration, the second is the expression.
#[verifier::opaque]
pub open spec fn let_in_of(b: Seq<u8>, t: Tree) -> Result<ExprModel, LowerError>
    decreases t, 1nat,
{
    if t.children.len() < 2 {
        Err(bad_shape(t))
    } else if t.children[0].children.len() < 1 {
        Err(bad_shape(t.children[0]))
    } else {
        match ranged_statement_of(b, t.children[0].children[0]) {
            Err(e) => Err(e),
            Ok(bind) => match ranged_expr_of(b, t.children[1]) {
                Err(e) => Err(e),
                Ok(body) => Ok(ExprModel::BindStmt { bind: Box::new(bind), body: Box::new(body) }),
            },
        }
    }
}

/// What a `match` lowers to: the expression of its first child and the arms
/// of the others.
#[verifier::opaque]
pub open spec fn match_of(b: Seq<u8>, t: Tree) -> Result<ExprModel, LowerError>
    decreases t, 1nat,
{
    if t.children.len() < 2 {
        Err(bad_shape(t))
    } else {
        match ranged_expr_of(b, t.children[0]) {
            Err(e) => Err(e),
            Ok(expr) => match collect(arm_results(b, t, 1, t.children.len() as int)) {
                Err(e) => Err(e),
                Ok(arms) => Ok(ExprModel::Match { expr: Box::new(expr), arms }),
            },
        }
    }
}

/// What an arm of a `match` lowers to: a pattern, a condition if the second
/// child is one, and the expression of the last child.
#[verifier::opaque]
pub open spec fn arm_of(b: Seq<u8>, t: Tree) -> Result<MatchArmModel, LowerError>
    decreases t, 1nat,
{
    if t.children.len() < 2 {
        Err(bad_shape(t))
    } else {
        match ranged_pattern_of(b, t.children[0]) {
            Err(e) => Err(e),
            Ok(ptn) => if t.children[1].rule == Rule::match_guard {
                if t.children.len() < 3 {
                    Err(bad_shape(t))
                } else if t.children[1].children.len() < 1 {
                    Err(bad_shape(t.children[1]))
                } else {
                    match ranged_expr_of(b, t.children[1].children[0]) {
                        Err(e) => Err(e),
                        Ok(when) => match ranged_expr_of(b, t.children[2]) {
                            Err(e) => Err(e),
                            Ok(body) => Ok(MatchArmModel { ptn, when: Some(when), body }),
                        },
                    }
                }
            } else {
                match ranged_expr_of(b, t.children[1]) {
                    Err(e) => Err(e),
                    Ok(body) => Ok(MatchArmModel { ptn, when: None, body }),
                }
            },
        }
    }
}

/// What an arm of a `match` lowers to, with the node's range.
#[verifier::opaque]
pub open spec fn ranged_arm_of(b: Seq<u8>, t: Tree) -> Result<Ranged<MatchArmModel>, LowerError>
    decreases t, 2nat,
{
    match arm_of(b, t) {
        Ok(v) => at_node(b, t, v),
        Err(e) => Err(e),
    }
}

/// What a `while` lowers to.
#[verifier::opaque]
pub open spec fn while_of(b: Seq<u8>, t: Tree) -> Result<ExprModel, LowerError>
    decreases t, 1nat,
{
    if t.children.len() < 2 {
        Err(bad_shape(t))
    } else {
        match ranged_expr_of(b, t.children[0]) {
            Err(e) => Err(e),
            Ok(condition) => match ranged_expr_of(b, t.children[1]) {
                Err(e) => Err(e),
                Ok(body) => Ok(
                    ExprModel::CtrlFlowWhile {
                        condition: Box::new(condition),
                        body: Box::new(body),
                    },
                ),
            },
        }
    }
}

/// What an `if` lowers to.
#[verifier::opaque]
pub open spec fn if_of(b: Seq<u8>, t: Tree) -> Result<ExprModel, LowerError>
    decreases t, 1nat,
{
    if t.children.len() < 3 {
        Err(bad_shape(t))
    } else {
        match ranged_expr_of(b, t.children[0]) {
            Err(e) => Err(e),
            Ok(condition) => match ranged_expr_of(b, t.children[1]) {
                Err(e) => Err(e),
                Ok(expr_true) => match ranged_expr_of(b, t.children[2]) {
                    Err(e) => Err(e),
                    Ok(expr_false) => Ok(
                        ExprModel::CtrlFlowIf {
                            condition: Box::new(condition),
                            expr_true: Box::new(expr_true),
                            expr_false: Box::new(expr_false),
                        },
                    ),
                },
            },
        }
    }
}

/// What two operands with an operator between them lower to.
#[verifier::opaque]
pub open spec fn dyadic_of(b: Seq<u8>, t: Tree) -> Result<ExprModel, LowerError>
    decreases t, 1nat,
{
    if t.children.len() < 3 {
        Err(bad_shape(t))
    } else {
        match ranged_expr_of(b, t.children[0]) {
            Err(e) => Err(e),
            Ok(lhs) => match ranged_text_of(b, t.children[1]) {
                Err(e) => Err(e),
                Ok(binop) => match ranged_expr_of(b, t.children[2]) {
                    Err(e) => Err(e),
                    Ok(rhs) => Ok(
                        ExprModel::Dyadic { lhs: Box::new(lhs), rhs: Box::new(rhs), binop },
                    ),
                },
            },
        }
    }
}

/// What an operand behind a unary operator lowers to.
#[verifier::opaque]
pub open spec fn unary_operator_of(b: Seq<u8>, t: Tree) -> Result<ExprModel, LowerError>
    decreases t, 1nat,
{
    if t.children.len() < 2 {
        Err(bad_shape(t))
    } else {
        match ranged_text_of(b, t.children[0]) {
            Err(e) => Err(e),
            Ok(unaryop) => match ranged_expr_of(b, t.children[1]) {
                Err(e) => Err(e),
                Ok(rhs) => Ok(ExprModel::UnaryOperatorExpr { rhs: Box::new(rhs), unaryop }),
            },
        }
    }
}

/// What a variant with or without an argument lowers to.
#[verifier::opaque]
pub open spec fn variant_of(b: Seq<u8>, t: Tree) -> Result<ExprModel, LowerError>
    decreases t, 1nat,
{
    if t.children.len() < 1 {
        Err(bad_shape(t))
    } else {
        match ranged_text_of(b, t.children[0]) {
            Err(e) => Err(e),
            Ok(variant) => if t.children.len() < 2 {
                Ok(ExprModel::VariantConstructor { variant, args: None })
            } else {
                match ranged_unary_of(b, t.children[1]) {
                    Err(e) => Err(e),
                    Ok(u) => Ok(
                        ExprModel::VariantConstructor { variant, args: Some(Box::new(u)) },
                    ),
                }
            },
        }
    }
}

/// What `record # member` lowers to.
#[verifier::opaque]
pub open spec fn member_of(b: Seq<u8>, t: Tree) -> Result<ExprModel, LowerError>
    decreases t, 1nat,
{
    if t.children.len() < 2 {
        Err(bad_shape(t))
    } else {
        match ranged_unary_of(b, t.children[0]) {
            Err(e) => Err(e),
            Ok(record) => match ranged_text_of(b, t.children[1]) {
                Err(e) => Err(e),
                Ok(member) => Ok(ExprModel::RecordMember { record: Box::new(record), member }),
            },
        }
    }
}

/// What an argument of an application lowers to, by the node's rule.
#[verifier::opaque]
pub open spec fn app_arg_of(b: Seq<u8>, t: Tree) -> Result<AppArgModel, LowerError>
    decreases t, 2nat,
{
    match t.rule {
        Rule::unary => match unary_of(b, t) {
            Ok(u) => Ok(AppArgModel::Unary(u)),
            Err(e) => Err(e),
        },
        Rule::variant_name => match name_of(b, t) {
            Ok(v) => Ok(AppArgModel::Variant(v)),
            Err(e) => Err(e),
        },
        Rule::app_opt_arg => if t.children.len() < 1 {
            Err(bad_shape(t))
        } else {
            match unary_of(b, t.children[0]) {
                Ok(u) => Ok(AppArgModel::Optional(u)),
                Err(e) => Err(e),
            }
        },
        Rule::app_opt_omit => Ok(AppArgModel::Omitted),
        _ => Err(bad_shape(t)),
    }
}

/// What an argument of an application lowers to, with the node's range.
#[verifier::opaque]
pub open spec fn ranged_app_arg_of(b: Seq<u8>, t: Tree) -> Result<Ranged<AppArgModel>, LowerError>
    decreases t, 3nat,
{
    match app_arg_of(b, t) {
        Ok(v) => at_node(b, t, v),
        Err(e) => Err(e),
    }
}

/// What an application lowers to: the name of a command, if that is the
/// first child, and else the function of the first child with the arguments
/// of the others.
#[verifier::opaque]
pub open spec fn application_of(b: Seq<u8>, t: Tree) -> Result<ApplicationModel, LowerError>
    decreases t, 1nat,
{
    if t.children.len() < 1 {
        Err(bad_shape(t))
    } else if t.children[0].rule == Rule::inline_cmd_name {
        match ranged_text_of(b, t.children[0]) {
            Ok(name) => Ok(ApplicationModel::Command(name)),
            Err(e) => Err(e),
        }
    } else if t.children[0].rule != Rule::modvar && t.children[0].rule != Rule::var {
        Err(bad_shape(t.children[0]))
    } else {
        match qualified_of(b, t.children[0]) {
            Err(e) => Err(e),
            Ok(head) => match collect(app_arg_results(b, t, 1, t.children.len() as int)) {
                Err(e) => Err(e),
                Ok(args) => Ok(ApplicationModel::General { modname: head.0, var: head.1, args }),
            },
        }
    }
}

/// What a field of a record lowers to.
#[verifier::opaque]
pub open spec fn record_unit_of(b: Seq<u8>, t: Tree) -> Result<RecordUnitModel, LowerError>
    decreases t, 1nat,
{
    if t.children.len() < 2 {
        Err(bad_shape(t))
    } else {
        match ranged_text_of(b, t.children[0]) {
            Err(e) => Err(e),
            Ok(key) => match ranged_expr_of(b, t.children[1]) {
                Err(e) => Err(e),
                Ok(val) => Ok(RecordUnitModel { key, val }),
            },
        }
    }
}

/// What a record lowers to. Without children it has no fields. Where the
/// first child is a `unary`, that is the record which gives the fields not
/// written out, and the second child holds the fields, at least one. Else the
/// first child holds the fields.
#[verifier::opaque]
pub open spec fn record_of(b: Seq<u8>, t: Tree) -> Result<RecordModel, LowerError>
    decreases t, 1nat,
{
    if t.children.len() == 0 {
        Ok(RecordModel::Mapping(Seq::empty()))
    } else if t.children[0].rule == Rule::unary {
        if t.children.len() < 2 {
            Err(bad_shape(t))
        } else {
            match ranged_unary_of(b, t.children[0]) {
                Err(e) => Err(e),
                Ok(default) => match collect(
                    record_unit_results(
                        b,
                        t.children[1],
                        0,
                        t.children[1].children.len() as int,
                    ),
                ) {
                    Err(e) => Err(e),
                    Ok(map) => if map.len() == 0 {
                        Err(bad_shape(t.children[1]))
                    } else {
                        Ok(RecordModel::MapWithDefault { map, default: Box::new(default) })
                    },
                },
            }
        }
    } else if t.children[0].rule == Rule::record_inner {
        match collect(
            record_unit_results(b, t.children[0], 0, t.children[0].children.len() as int),
        ) {
            Err(e) => Err(e),
            Ok(map) => Ok(RecordModel::Mapping(map)),
        }
    } else {
        Err(bad_shape(t.children[0]))
    }
}

/// What a tuple lowers to: its items, which are two or more.
#[verifier::opaque]
pub open spec fn tuple_of(b: Seq<u8>, t: Tree) -> Result<Seq<Ranged<ExprModel>>, LowerError>
    decreases t, 1nat,
{
    if t.children.len() < 2 {
        Err(bad_shape(t))
    } else {
        collect(expr_results(b, t, 0, t.children.len() as int))
    }
}

/// What a list lowers to: its items.
#[verifier::opaque]
pub open spec fn list_of(b: Seq<u8>, t: Tree) -> Result<Seq<Ranged<ExprModel>>, LowerError>
    decreases t, 1nat,
{
    collect(expr_results(b, t, 0, t.children.len() as int))
}

/// What an expression in parentheses behind the name of a module lowers to.
#[verifier::opaque]
pub open spec fn expr_with_mod_of(b: Seq<u8>, t: Tree) -> Result<UnaryModel, LowerError>
    decreases t, 1nat,
{
    if t.children.len() < 2 {
        Err(bad_shape(t))
    } else {
        match ranged_text_of(b, t.children[0]) {
            Err(e) => Err(e),
            Ok(module) => match ranged_expr_of(b, t.children[1]) {
                Err(e) => Err(e),
                Ok(expr) => Ok(UnaryModel::Expr { modname: Some(module), expr: Box::new(expr) }),
            },
        }
    }
}

/// What text in brackets lowers to: the text of the node's child, by the
/// node's rule block text, inline text or math text.
#[verifier::opaque]
pub open spec fn text_of_mode(b: Seq<u8>, t: Tree) -> Result<UnaryModel, LowerError>
    decreases t, 1nat,
{
    if t.children.len() < 1 {
        Err(bad_shape(t))
    } else if t.rule == Rule::block_text {
        match vertical_of(b, t.children[0]) {
            Ok(v) => Ok(UnaryModel::BlockText(v)),
            Err(e) => Err(e),
        }
    } else if t.rule == Rule::horizontal_text {
        match horizontal_of(b, t.children[0]) {
            Ok(v) => Ok(UnaryModel::HorizontalText(v)),
            Err(e) => Err(e),
        }
    } else {
        match math_mode_of(b, t.children[0]) {
            Ok(v) => Ok(UnaryModel::MathText(v)),
            Err(e) => Err(e),
        }
    }
}

/// What a `unary` node lowers to, by the rule of its child.
#[verifier::opaque]
pub open spec fn unary_of(b: Seq<u8>, t: Tree) -> Result<UnaryModel, LowerError>
    decreases t, 1nat,
{
    if t.children.len() < 1 {
        Err(bad_shape(t))
    } else {
        let c = t.children[0];
        match c.rule {
            Rule::block_text | Rule::horizontal_text | Rule::math_text => text_of_mode(b, c),
            Rule::record => match record_of(b, c) {
                Ok(v) => Ok(UnaryModel::Record(v)),
                Err(e) => Err(e),
            },
            Rule::list => match list_of(b, c) {
                Ok(v) => Ok(UnaryModel::List(v)),
                Err(e) => Err(e),
            },
            Rule::tuple => match tuple_of(b, c) {
                Ok(v) => Ok(UnaryModel::Tuple(v)),
                Err(e) => Err(e),
            },
            Rule::bin_operator => match name_of(b, c) {
                Ok(v) => Ok(UnaryModel::BinOperator(v)),
                Err(e) => Err(e),
            },
            Rule::literal => match literal_of(b, c) {
                Ok(v) => Ok(UnaryModel::Literal(v)),
                Err(e) => Err(e),
            },
            Rule::expr => match ranged_expr_of(b, c) {
                Ok(v) => Ok(UnaryModel::Expr { modname: None, expr: Box::new(v) }),
                Err(e) => Err(e),
            },
            Rule::expr_with_mod => expr_with_mod_of(b, c),
            Rule::modvar | Rule::var => match qualified_of(b, c) {
                Ok(v) => Ok(UnaryModel::Variable { modname: v.0, var: v.1 }),
                Err(e) => Err(e),
            },
            _ => Err(bad_shape(c)),
        }
    }
}

/// What a `unary` node lowers to, with the node's range.
#[verifier::opaque]
pub open spec fn ranged_unary_of(b: Seq<u8>, t: Tree) -> Result<Ranged<UnaryModel>, LowerError>
    decreases t, 2nat,
{
    match unary_of(b, t) {
        Ok(v) => at_node(b, t, v),
        Err(e) => Err(e),
    }
}

/// What an expression node lowers to. A node of rule `expr` holds either a
/// declaration and the expression it binds in, or one child that is the
/// expression and is itself of another rule than `expr`. Every other node
/// lowers by its rule.
#[verifier::opaque]
pub open spec fn expr_of(b: Seq<u8>, t: Tree) -> Result<ExprModel, LowerError>
    decreases t, 3nat,
{
    match t.rule {
        Rule::expr => if t.children.len() < 1 {
            Err(bad_shape(t))
        } else if t.children[0].rule == Rule::bind_stmt {
            let_in_of(b, t)
        } else if t.children[0].rule == Rule::expr {
            Err(bad_shape(t.children[0]))
        } else {
            expr_of(b, t.children[0])
        },
        Rule::match_expr => match_of(b, t),
        Rule::ctrl_while => while_of(b, t),
        Rule::ctrl_if => if_of(b, t),
        Rule::dyadic_expr => dyadic_of(b, t),
        Rule::unary_operator_expr => unary_operator_of(b, t),
        Rule::variant_constructor => variant_of(b, t),
        Rule::record_member => member_of(b, t),
        Rule::application => match application_of(b, t) {
            Err(e) => Err(e),
            Ok(a) => match at_node(b, t, a) {
                Err(e) => Err(e),
                Ok(r) => Ok(ExprModel::Application(r)),
            },
        },
        Rule::unary => match ranged_unary_of(b, t) {
            Err(e) => Err(e),
            Ok(r) => Ok(ExprModel::Unary(r)),
        },
        _ => Err(bad_shape(t)),
    }
}

/// What an expression node lowers to, with the node's range.
#[verifier::opaque]
pub open spec fn ranged_expr_of(b: Seq<u8>, t: Tree) -> Result<Ranged<ExprModel>, LowerError>
    decreases t, 4nat,
{
    match expr_of(b, t) {
        Ok(v) => at_node(b, t, v),
        Err(e) => Err(e),
    }
}

/// Lowers `declaration in expression`.
#[verifier::spinoff_prover]
fn lower_let_in(text: &str, pair: &Pair) -> (r: Result<Expr, LowerError>)
    ensures
        r matches Ok(v) ==> gives(let_in_of(text.spec_bytes(), pair@), v.model()),
        r matches Err(e) ==> fails(let_in_of(text.spec_bytes(), pair@), e),
    decreases pair@, 1nat,
{
    proof {
        reveal(let_in_of);
    }
    if pair.child_count() < 2 {
        return Err(shape_error(pair));
    }
    let holder = pair.child(0);
    if holder.child_count() < 1 {
        return Err(shape_error(holder));
    }
    let bind = match lower_ranged_statement(text, holder.child(0)) {
        Ok(v) => v,
        Err(e) => {
            return Err(e);
        },
    };
    match lower_ranged_expr(text, pair.child(1)) {
        Ok(body) => Ok(Expr::BindStmt { bind: Box::new(bind), body: Box::new(body) }),
        Err(e) => Err(e),
    }
}

/// Lowers a `match`.
#[verifier::spinoff_prover]
fn lower_match(text: &str, pair: &Pair) -> (r: Result<Expr, LowerError>)
    ensures
        r matches Ok(v) ==> gives(match_of(text.spec_bytes(), pair@), v.model()),
        r matches Err(e) ==> fails(match_of(text.spec_bytes(), pair@), e),
    decreases pair@, 1nat,
{
    proof {
        reveal(match_of);
    }
    let n = pair.child_count();
    if n < 2 {
        return Err(shape_error(pair));
    }
    let expr = match lower_ranged_expr(text, pair.child(0)) {
        Ok(v) => v,
        Err(e) => {
            return Err(e);
        },
    };
    match lower_arms(text, pair, 1, n) {
        Ok(arms) => {
            proof {
                assert(Expr::Match { expr: Box::new(expr), arms }.model()->Match_arms =~= arm_models(
                    arms@,
                ));
            }
            Ok(Expr::Match { expr: Box::new(expr), arms })
        },
        Err(e) => Err(e),
    }
}

/// Lowers an arm of a `match`.
#[verifier::spinoff_prover]
pub fn lower_arm(text: &str, pair: &Pair) -> (r: Result<MatchArm, LowerError>)
    ensures
        r matches Ok(v) ==> gives(arm_of(text.spec_bytes(), pair@), v.model()),
        r matches Err(e) ==> fails(arm_of(text.spec_bytes(), pair@), e),
    decreases pair@, 1nat,
{
    proof {
        reveal(arm_of);
    }
    let n = pair.child_count();
    if n < 2 {
        return Err(shape_error(pair));
    }
    let ptn = match lower_ranged_pattern(text, pair.child(0)) {
        Ok(v) => v,
        Err(e) => {
            return Err(e);
        },
    };
    let second = pair.child(1);
    if second.as_rule() == Rule::match_guard {
        if n < 3 {
            return Err(shape_error(pair));
        }
        if second.child_count() < 1 {
            return Err(shape_error(second));
        }
        let when = match lower_ranged_expr(text, second.child(0)) {
            Ok(v) => v,
            Err(e) => {
                return Err(e);
            },
        };
        match lower_ranged_expr(text, pair.child(2)) {
            Ok(body) => Ok(MatchArm { ptn, when: Some(when), body }),
            Err(e) => Err(e),
        }
    } else {
        match lower_ranged_expr(text, second) {
            Ok(body) => Ok(MatchArm { ptn, when: None, body }),
            Err(e) => Err(e),
        }
    }
}

/// Lowers an arm of a `match` and attaches its range.
#[verifier::spinoff_prover]
pub fn lower_ranged_arm(text: &str, pair: &Pair) -> (r: Result<Ranged<MatchArm>, LowerError>)
    ensures
        r matches Ok(v) ==> gives(
            ranged_arm_of(text.spec_bytes(), pair@),
            ranged(v, v.body.model()),
        ),
        r matches Err(e) ==> fails(ranged_arm_of(text.spec_bytes(), pair@), e),
    decreases pair@, 2nat,
{
    proof {
        reveal(ranged_arm_of);
    }
    match lower_arm(text, pair) {
        Ok(v) => wrap_node(v, text, pair),
        Err(e) => Err(e),
    }
}

/// Lowers a `while`.
#[verifier::spinoff_prover]
fn lower_while(text: &str, pair: &Pair) -> (r: Result<Expr, LowerError>)
    ensures
        r matches Ok(v) ==> gives(while_of(text.spec_bytes(), pair@), v.model()),
        r matches Err(e) ==> fails(while_of(text.spec_bytes(), pair@), e),
    decreases pair@, 1nat,
{
    proof {
        reveal(while_of);
    }
    if pair.child_count() < 2 {
        return Err(shape_error(pair));
    }
    let condition = match lower_ranged_expr(text, pair.child(0)) {
        Ok(v) => v,
        Err(e) => {
            return Err(e);
        },
    };
    match lower_ranged_expr(text, pair.child(1)) {
        Ok(body) => Ok(
            Expr::CtrlFlowWhile { condition: Box::new(condition), body: Box::new(body) },
        ),
        Err(e) => Err(e),
    }
}

/// Lowers an `if`.
#[verifier::spinoff_prover]
fn lower_if(text: &str, pair: &Pair) -> (r: Result<Expr, LowerError>)
    ensures
        r matches Ok(v) ==> gives(if_of(text.spec_bytes(), pair@), v.model()),
        r matches Err(e) ==> fails(if_of(text.spec_bytes(), pair@), e),
    decreases pair@, 1nat,
{
    proof {
        reveal(if_of);
    }
    if pair.child_count() < 3 {
        return Err(shape_error(pair));
    }
    let condition = match lower_ranged_expr(text, pair.child(0)) {
        Ok(v) => v,
        Err(e) => {
            return Err(e);
        },
    };
    let expr_true = match lower_ranged_expr(text, pair.child(1)) {
        Ok(v) => v,
        Err(e) => {
            return Err(e);
        },
    };
    match lower_ranged_expr(text, pair.child(2)) {
        Ok(expr_false) => Ok(
            Expr::CtrlFlowIf {
                condition: Box::new(condition),
                expr_true: Box::new(expr_true),
                expr_false: Box::new(expr_false),
            },
        ),
        Err(e) => Err(e),
    }
}

/// Lowers two operands with an operator between them.
#[verifier::spinoff_prover]
fn lower_dyadic(text: &str, pair: &Pair) -> (r: Result<Expr, LowerError>)
    ensures
        r matches Ok(v) ==> gives(dyadic_of(text.spec_bytes(), pair@), v.model()),
        r matches Err(e) ==> fails(dyadic_of(text.spec_bytes(), pair@), e),
    decreases pair@, 1nat,
{
    proof {
        reveal(dyadic_of);
    }
    if pair.child_count() < 3 {
        return Err(shape_error(pair));
    }
    let lhs = match lower_ranged_expr(text, pair.child(0)) {
        Ok(v) => v,
        Err(e) => {
            return Err(e);
        },
    };
    let binop = match ranged_node_text(text, pair.child(1)) {
        Ok(v) => v,
        Err(e) => {
            return Err(e);
        },
    };
    match lower_ranged_expr(text, pair.child(2)) {
        Ok(rhs) => Ok(Expr::Dyadic { lhs: Box::new(lhs), rhs: Box::new(rhs), binop }),
        Err(e) => Err(e),
    }
}

/// Lowers an operand behind a unary operator.
#[verifier::spinoff_prover]
fn lower_unary_operator(text: &str, pair: &Pair) -> (r: Result<Expr, LowerError>)
    ensures
        r matches Ok(v) ==> gives(unary_operator_of(text.spec_bytes(), pair@), v.model()),
        r matches Err(e) ==> fails(unary_operator_of(text.spec_bytes(), pair@), e),
    decreases pair@, 1nat,
{
    proof {
        reveal(unary_operator_of);
    }
    if pair.child_count() < 2 {
        return Err(shape_error(pair));
    }
    let unaryop = match ranged_node_text(text, pair.child(0)) {
        Ok(v) => v,
        Err(e) => {
            return Err(e);
        },
    };
    match lower_ranged_expr(text, pair.child(1)) {
        Ok(rhs) => Ok(Expr::UnaryOperatorExpr { rhs: Box::new(rhs), unaryop }),
        Err(e) => Err(e),
    }
}

/// Lowers a variant with or without an argument.
#[verifier::spinoff_prover]
fn lower_variant_constructor(text: &str, pair: &Pair) -> (r: Result<Expr, LowerError>)
    ensures
        r matches Ok(v) ==> gives(variant_of(text.spec_bytes(), pair@), v.model()),
        r matches Err(e) ==> fails(variant_of(text.spec_bytes(), pair@), e),
    decreases pair@, 1nat,
{
    proof {
        reveal(variant_of);
    }
    let n = pair.child_count();
    if n < 1 {
        return Err(shape_error(pair));
    }
    let variant = match ranged_node_text(text, pair.child(0)) {
        Ok(v) => into_variant(v),
        Err(e) => {
            return Err(e);
        },
    };
    if n < 2 {
        Ok(Expr::VariantConstructor { variant, args: None })
    } else {
        match lower_ranged_unary(text, pair.child(1)) {
            Ok(u) => Ok(Expr::VariantConstructor { variant, args: Some(Box::new(u)) }),
            Err(e) => Err(e),
        }
    }
}

/// Lowers `record # member`.
#[verifier::spinoff_prover]
fn lower_member(text: &str, pair: &Pair) -> (r: Result<Expr, LowerError>)
    ensures
        r matches Ok(v) ==> gives(member_of(text.spec_bytes(), pair@), v.model()),
        r matches Err(e) ==> fails(member_of(text.spec_bytes(), pair@), e),
    decreases pair@, 1nat,
{
    proof {
        reveal(member_of);
    }
    if pair.child_count() < 2 {
        return Err(shape_error(pair));
    }
    let record = match lower_ranged_unary(text, pair.child(0)) {
        Ok(v) => v,
        Err(e) => {
            return Err(e);
        },
    };
    match ranged_node_text(text, pair.child(1)) {
        Ok(member) => Ok(
            Expr::RecordMember { record: Box::new(record), member: into_variable(member) },
        ),
        Err(e) => Err(e),
    }
}

/// Lowers an argument of an application.
#[verifier::spinoff_prover]
pub fn lower_app_arg(text: &str, pair: &Pair) -> (r: Result<AppArg, LowerError>)
    ensures
        r matches Ok(v) ==> gives(app_arg_of(text.spec_bytes(), pair@), v.model()),
        r matches Err(e) ==> fails(app_arg_of(text.spec_bytes(), pair@), e),
    decreases pair@, 2nat,
{
    proof {
        reveal(app_arg_of);
    }
    match pair.as_rule() {
        Rule::unary => match lower_unary(text, pair) {
            Ok(u) => Ok(AppArg::Unary(u)),
            Err(e) => Err(e),
        },
        Rule::variant_name => match node_text(text, pair) {
            Ok(name) => Ok(AppArg::Variant(Variant { name })),
            Err(e) => Err(e),
        },
        Rule::app_opt_arg => {
            if pair.child_count() < 1 {
                return Err(shape_error(pair));
            }
            match lower_unary(text, pair.child(0)) {
                Ok(u) => Ok(AppArg::Optional(u)),
                Err(e) => Err(e),
            }
        },
        Rule::app_opt_omit => Ok(AppArg::Omitted),
        _ => Err(shape_error(pair)),
    }
}

/// Lowers an argument of an application and attaches its range.
#[verifier::spinoff_prover]
pub fn lower_ranged_app_arg(text: &str, pair: &Pair) -> (r: Result<Ranged<AppArg>, LowerError>)
    ensures
        r matches Ok(v) ==> gives(
            ranged_app_arg_of(text.spec_bytes(), pair@),
            ranged(v, v.body.model()),
        ),
        r matches Err(e) ==> fails(ranged_app_arg_of(text.spec_bytes(), pair@), e),
    decreases pair@, 3nat,
{
    proof {
        reveal(ranged_app_arg_of);
    }
    match lower_app_arg(text, pair) {
        Ok(v) => wrap_node(v, text, pair),
        Err(e) => Err(e),
    }
}

/// Lowers an application.
#[verifier::spinoff_prover]
pub fn lower_application(text: &str, pair: &Pair) -> (r: Result<Application, LowerError>)
    ensures
        r matches Ok(v) ==> gives(application_of(text.spec_bytes(), pair@), v.model()),
        r matches Err(e) ==> fails(application_of(text.spec_bytes(), pair@), e),
    decreases pair@, 1nat,
{
    proof {
        reveal(application_of);
    }
    let n = pair.child_count();
    if n < 1 {
        return Err(shape_error(pair));
    }
    let first = pair.child(0);
    if first.as_rule() == Rule::inline_cmd_name {
        return match ranged_node_text(text, first) {
            Ok(name) => Ok(Application::Command(name)),
            Err(e) => Err(e),
        };
    }
    if first.as_rule() != Rule::modvar && first.as_rule() != Rule::var {
        return Err(shape_error(first));
    }
    let head = match lower_qualified(text, first) {
        Ok(v) => v,
        Err(e) => {
            return Err(e);
        },
    };
    match lower_app_args(text, pair, 1, n) {
        Ok(args) => {
            let (modname, var) = head;
            let var = into_variable(var);
            proof {
                assert(Application::General { modname, var, args }.model()->General_args
                    =~= app_arg_models(args@));
            }
            Ok(Application::General { modname, var, args })
        },
        Err(e) => Err(e),
    }
}

/// Lowers a field of a record.
#[verifier::spinoff_prover]
pub fn lower_record_unit(text: &str, pair: &Pair) -> (r: Result<RecordUnit, LowerError>)
    ensures
        r matches Ok(v) ==> gives(record_unit_of(text.spec_bytes(), pair@), v.model()),
        r matches Err(e) ==> fails(record_unit_of(text.spec_bytes(), pair@), e),
    decreases pair@, 1nat,
{
    proof {
        reveal(record_unit_of);
    }
    if pair.child_count() < 2 {
        return Err(shape_error(pair));
    }
    let key = match ranged_node_text(text, pair.child(0)) {
        Ok(v) => v,
        Err(e) => {
            return Err(e);
        },
    };
    match lower_ranged_expr(text, pair.child(1)) {
        Ok(val) => Ok(RecordUnit { key, val }),
        Err(e) => Err(e),
    }
}

/// Lowers a record.
#[verifier::spinoff_prover]
pub fn lower_record(text: &str, pair: &Pair) -> (r: Result<Record, LowerError>)
    ensures
        r matches Ok(v) ==> gives(record_of(text.spec_bytes(), pair@), v.model()),
        r matches Err(e) ==> fails(record_of(text.spec_bytes(), pair@), e),
    decreases pair@, 1nat,
{
    proof {
        reveal(record_of);
    }
    let n = pair.child_count();
    if n == 0 {
        let map: Vec<RecordUnit> = Vec::new();
        proof {
            assert(Record::Mapping(map).model()->Mapping_0 =~= Seq::<RecordUnitModel>::empty());
        }
        return Ok(Record::Mapping(map));
    }
    let first = pair.child(0);
    if first.as_rule() == Rule::unary {
        if n < 2 {
            return Err(shape_error(pair));
        }
        let default = match lower_ranged_unary(text, first) {
            Ok(v) => v,
            Err(e) => {
                return Err(e);
            },
        };
        let inner = pair.child(1);
        match lower_record_units(text, inner, 0, inner.child_count()) {
            Ok(map) => {
                if map.len() == 0 {
                    return Err(shape_error(inner));
                }
                proof {
                    assert(Record::MapWithDefault {
                        map,
                        default: Box::new(default),
                    }.model()->MapWithDefault_map =~= record_unit_models(map@));
                }
                Ok(Record::MapWithDefault { map, default: Box::new(default) })
            },
            Err(e) => Err(e),
        }
    } else if first.as_rule() == Rule::record_inner {
        match lower_record_units(text, first, 0, first.child_count()) {
            Ok(map) => {
                proof {
                    assert(Record::Mapping(map).model()->Mapping_0 =~= record_unit_models(map@));
                }
                Ok(Record::Mapping(map))
            },
            Err(e) => Err(e),
        }
    } else {
        Err(shape_error(first))
    }
}

/// Lowers a tuple.
#[verifier::spinoff_prover]
pub fn lower_tuple(text: &str, pair: &Pair) -> (r: Result<Tuple, LowerError>)
    ensures
        r matches Ok(v) ==> gives(tuple_of(text.spec_bytes(), pair@), v.model()),
        r matches Err(e) ==> fails(tuple_of(text.spec_bytes(), pair@), e),
    decreases pair@, 1nat,
{
    proof {
        reveal(tuple_of);
    }
    let n = pair.child_count();
    if n < 2 {
        return Err(shape_error(pair));
    }
    match lower_exprs(text, pair, 0, n) {
        Ok(items) => {
            proof {
                assert(Tuple(items).model() =~= expr_models(items@));
            }
            Ok(Tuple(items))
        },
        Err(e) => Err(e),
    }
}

/// Lowers a list.
#[verifier::spinoff_prover]
pub fn lower_list(text: &str, pair: &Pair) -> (r: Result<List, LowerError>)
    ensures
        r matches Ok(v) ==> gives(list_of(text.spec_bytes(), pair@), v.model()),
        r matches Err(e) ==> fails(list_of(text.spec_bytes(), pair@), e),
    decreases pair@, 1nat,
{
    proof {
        reveal(list_of);
    }
    match lower_exprs(text, pair, 0, pair.child_count()) {
        Ok(items) => {
            proof {
                assert(List(items).model() =~= expr_models(items@));
            }
            Ok(List(items))
        },
        Err(e) => Err(e),
    }
}

/// Lowers an expression in parentheses behind the name of a module.
#[verifier::spinoff_prover]
fn lower_expr_with_mod(text: &str, pair: &Pair) -> (r: Result<Unary, LowerError>)
    ensures
        r matches Ok(v) ==> gives(expr_with_mod_of(text.spec_bytes(), pair@), v.model()),
        r matches Err(e) ==> fails(expr_with_mod_of(text.spec_bytes(), pair@), e),
    decreases pair@, 1nat,
{
    proof {
        reveal(expr_with_mod_of);
    }
    if pair.child_count() < 2 {
        return Err(shape_error(pair));
    }
    let module = match ranged_node_text(text, pair.child(0)) {
        Ok(v) => v,
        Err(e) => {
            return Err(e);
        },
    };
    match lower_ranged_expr(text, pair.child(1)) {
        Ok(expr) => Ok(Unary::Expr { modname: Some(module), expr: Box::new(expr) }),
        Err(e) => Err(e),
    }
}

/// Lowers text in brackets.
#[verifier::spinoff_prover]
fn lower_text_of_mode(text: &str, pair: &Pair) -> (r: Result<Unary, LowerError>)
    ensures
        r matches Ok(v) ==> gives(text_of_mode(text.spec_bytes(), pair@), v.model()),
        r matches Err(e) ==> fails(text_of_mode(text.spec_bytes(), pair@), e),
    decreases pair@, 1nat,
{
    proof {
        reveal(text_of_mode);
    }
    if pair.child_count() < 1 {
        return Err(shape_error(pair));
    }
    if pair.as_rule() == Rule::block_text {
        match lower_vertical(text, pair.child(0)) {
            Ok(v) => Ok(Unary::BlockText(v)),
            Err(e) => Err(e),
        }
    } else if pair.as_rule() == Rule::horizontal_text {
        match lower_horizontal(text, pair.child(0)) {
            Ok(v) => Ok(Unary::HorizontalText(v)),
            Err(e) => Err(e),
        }
    } else {
        match lower_math_mode(text, pair.child(0)) {
            Ok(v) => Ok(Unary::MathText(v)),
            Err(e) => Err(e),
        }
    }
}

/// Lowers a `unary` node.
#[verifier::spinoff_prover]
pub fn lower_unary(text: &str, pair: &Pair) -> (r: Result<Unary, LowerError>)
    ensures
        r matches Ok(v) ==> gives(unary_of(text.spec_bytes(), pair@), v.model()),
        r matches Err(e) ==> fails(unary_of(text.spec_bytes(), pair@), e),
    decreases pair@, 1nat,
{
    proof {
        reveal(unary_of);
    }
    if pair.child_count() < 1 {
        return Err(shape_error(pair));
    }
    let c = pair.child(0);
    match c.as_rule() {
        Rule::block_text | Rule::horizontal_text | Rule::math_text => lower_text_of_mode(text, c),
        Rule::record => match lower_record(text, c) {
            Ok(v) => Ok(Unary::Record(v)),
            Err(e) => Err(e),
        },
        Rule::list => match lower_list(text, c) {
            Ok(v) => Ok(Unary::List(v)),
            Err(e) => Err(e),
        },
        Rule::tuple => match lower_tuple(text, c) {
            Ok(v) => Ok(Unary::Tuple(v)),
            Err(e) => Err(e),
        },
        Rule::bin_operator => match node_text(text, c) {
            Ok(v) => Ok(Unary::BinOperator(v)),
            Err(e) => Err(e),
        },
        Rule::literal => match lower_literal(text, c) {
            Ok(v) => Ok(Unary::Literal(v)),
            Err(e) => Err(e),
        },
        Rule::expr => match lower_ranged_expr(text, c) {
            Ok(v) => Ok(Unary::Expr { modname: None, expr: Box::new(v) }),
            Err(e) => Err(e),
        },
        Rule::expr_with_mod => lower_expr_with_mod(text, c),
        Rule::modvar | Rule::var => match lower_qualified(text, c) {
            Ok(v) => {
                let (modname, var) = v;
                Ok(Unary::Variable { modname, var: into_variable(var) })
            },
            Err(e) => Err(e),
        },
        _ => Err(shape_error(c)),
    }
}

/// Lowers a `unary` node and attaches its range.
#[verifier::spinoff_prover]
pub fn lower_ranged_unary(text: &str, pair: &Pair) -> (r: Result<Ranged<Unary>, LowerError>)
    ensures
        r matches Ok(v) ==> gives(
            ranged_unary_of(text.spec_bytes(), pair@),
            ranged(v, v.body.model()),
        ),
        r matches Err(e) ==> fails(ranged_unary_of(text.spec_bytes(), pair@), e),
    decreases pair@, 2nat,
{
    proof {
        reveal(ranged_unary_of);
    }
    match lower_unary(text, pair) {
        Ok(v) => wrap_node(v, text, pair),
        Err(e) => Err(e),
    }
}

/// Lowers an expression node.
#[verifier::spinoff_prover]
pub fn lower_expr(text: &str, pair: &Pair) -> (r: Result<Expr, LowerError>)
    ensures
        r matches Ok(v) ==> gives(expr_of(text.spec_bytes(), pair@), v.model()),
        r matches Err(e) ==> fails(expr_of(text.spec_bytes(), pair@), e),
    decreases pair@, 3nat,
{
    proof {
        reveal(expr_of);
    }
    match pair.as_rule() {
        Rule::expr => {
            if pair.child_count() < 1 {
                Err(shape_error(pair))
            } else if pair.child(0).as_rule() == Rule::bind_stmt {
                lower_let_in(text, pair)
            } else if pair.child(0).as_rule() == Rule::expr {
                Err(shape_error(pair.child(0)))
            } else {
                lower_expr(text, pair.child(0))
            }
        },
        Rule::match_expr => lower_match(text, pair),
        Rule::ctrl_while => lower_while(text, pair),
        Rule::ctrl_if => lower_if(text, pair),
        Rule::dyadic_expr => lower_dyadic(text, pair),
        Rule::unary_operator_expr => lower_unary_operator(text, pair),
        Rule::variant_constructor => lower_variant_constructor(text, pair),
        Rule::record_member => lower_member(text, pair),
        Rule::application => match lower_application(text, pair) {
            Err(e) => Err(e),
            Ok(a) => match wrap_node(a, text, pair) {
                Err(e) => Err(e),
                Ok(r) => Ok(Expr::Application(r)),
            },
        },
        Rule::unary => match lower_ranged_unary(text, pair) {
            Err(e) => Err(e),
            Ok(r) => Ok(Expr::Unary(r)),
        },
        _ => Err(shape_error(pair)),
    }
}

/// Lowers an expression node and attaches its range.
#[verifier::spinoff_prover]
pub fn lower_ranged_expr(text: &str, pair: &Pair) -> (r: Result<Ranged<Expr>, LowerError>)
    ensures
        r matches Ok(v) ==> gives(
            ranged_expr_of(text.spec_bytes(), pair@),
            ranged(v, v.body.model()),
        ),
        r matches Err(e) ==> fails(ranged_expr_of(text.spec_bytes(), pair@), e),
    decreases pair@, 4nat,
{
    proof {
        reveal(ranged_expr_of);
    }
    match lower_expr(text, pair) {
        Ok(v) => wrap_node(v, text, pair),
        Err(e) => Err(e),
    }
}

} // verus!
