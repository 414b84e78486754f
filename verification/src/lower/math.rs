//! Lowering of math text.

use vstd::prelude::*;
use vstd::string::StringSliceAdditionalSpecFns;
use crate::ast::content::math_arg_models;
use crate::ast::content::math_single_models;
use crate::ast::content::math_token_models;
use crate::ast::content::Math;
use crate::ast::content::MathArg;
use crate::ast::content::MathArgModel;
use crate::ast::content::MathGroup;
use crate::ast::content::MathGroupModel;
use crate::ast::content::MathModel;
use crate::ast::content::MathSingle;
use crate::ast::content::MathToken;
use crate::ast::content::MathTokenModel;
use crate::ast::content::MathUnary;
use crate::ast::content::MathUnaryModel;
use crate::ast::literal::ranged;
use crate::ast::literal::ranged_text;
use crate::error::bad_shape;
use crate::error::collect;
use crate::error::fails;
use crate::error::gives;
use crate::error::LowerError;
use crate::lower::common::at_node;
use crate::lower::common::name_of;
use crate::lower::common::node_text;
use crate::lower::common::ranged_node_text;
use crate::lower::common::ranged_text_of;
use crate::lower::common::shape_error;
use crate::lower::common::wrap_node;
use crate::lower::content::horizontal_of;
use crate::lower::content::lower_horizontal;
use crate::lower::content::lower_vertical;
use crate::lower::content::vertical_of;
use crate::lower::expr::lower_unary;
use crate::lower::expr::unary_of;
use crate::lower::lists::lower_math_args;
use crate::lower::lists::lower_math_options;
use crate::lower::lists::lower_math_singles;
use crate::lower::lists::lower_math_tokens;
use crate::lower::lists::math_arg_results;
use crate::lower::lists::math_option_results;
use crate::lower::lists::math_single_results;
use crate::lower::lists::math_token_results;
use crate::position::Ranged;
use crate::rule::Rule;
use crate::tree::Pair;
use crate::tree::Tree;

verus! {

/// The position behind the optional arguments that stand at `from` and
/// after it among the children of a math command.
#[verifier::opaque]
pub open spec fn math_options_end(t: Tree, from: int) -> int
    decreases t.children.len() - from,
{
    if 0 <= from < t.children.len() && t.children[from].rule == Rule::math_cmd_expr_option {
        math_options_end(t, from + 1)
    } else {
        from
    }
}

/// What an argument of a math command lowers to, by the rule of its child:
/// math text, inline text, block text or an expression.
#[verifier::opaque]
pub open spec fn math_arg_of(b: Seq<u8>, t: Tree) -> Result<MathArgModel, LowerError>
    decreases t, 2nat,
{
    if t.children.len() < 1 {
        Err(bad_shape(t))
    } else {
        let c = t.children[0];
        match c.rule {
            Rule::math_mode => match math_mode_of(b, c) {
                Ok(v) => Ok(MathArgModel::Math(v)),
                Err(e) => Err(e),
            },
            Rule::horizontal_mode => match horizontal_of(b, c) {
                Ok(v) => Ok(MathArgModel::Horizontal(v)),
                Err(e) => Err(e),
            },
            Rule::vertical_mode => match vertical_of(b, c) {
                Ok(v) => Ok(MathArgModel::Vertical(v)),
                Err(e) => Err(e),
            },
            Rule::cmd_expr_arg => if c.children.len() < 1 {
                Err(bad_shape(c))
            } else {
                match unary_of(b, c.children[0]) {
                    Ok(v) => Ok(MathArgModel::Expr(v)),
                    Err(e) => Err(e),
                }
            },
            _ => Err(bad_shape(c)),
        }
    }
}

/// What an argument of a math command lowers to, with the node's range.
#[verifier::opaque]
pub open spec fn ranged_math_arg_of(b: Seq<u8>, t: Tree) -> Result<Ranged<MathArgModel>, LowerError>
    decreases t, 3nat,
{
    match math_arg_of(b, t) {
        Ok(v) => at_node(b, t, v),
        Err(e) => Err(e),
    }
}

/// What an optional argument of a math command lowers to: the argument of
/// its child, with the range of the whole.
#[verifier::opaque]
pub open spec fn ranged_math_option_of(b: Seq<u8>, t: Tree) -> Result<
    Ranged<MathArgModel>,
    LowerError,
>
    decreases t, 3nat,
{
    if t.children.len() < 1 {
        Err(bad_shape(t))
    } else {
        match math_arg_of(b, t.children[0]) {
            Ok(v) => at_node(b, t, v),
            Err(e) => Err(e),
        }
    }
}

/// What a math command lowers to: the name of its first child, the
/// arguments, and the optional arguments, which stand first among the other
/// children.
#[verifier::opaque]
pub open spec fn math_cmd_of(b: Seq<u8>, t: Tree) -> Result<
    (Ranged<Seq<char>>, Seq<Ranged<MathArgModel>>, Seq<Ranged<MathArgModel>>),
    LowerError,
>
    decreases t, 1nat,
{
    if t.children.len() < 1 {
        Err(bad_shape(t))
    } else {
        match ranged_text_of(b, t.children[0]) {
            Err(e) => Err(e),
            Ok(name) => match collect(math_option_results(b, t, 1, math_options_end(t, 1))) {
                Err(e) => Err(e),
                Ok(opts) => match collect(
                    math_arg_results(b, t, math_options_end(t, 1), t.children.len() as int),
                ) {
                    Err(e) => Err(e),
                    Ok(args) => Ok((name, args, opts)),
                },
            },
        }
    }
}

/// What a single element of math text lowers to, by the rule of its child.
#[verifier::opaque]
pub open spec fn math_unary_of(b: Seq<u8>, t: Tree) -> Result<MathUnaryModel, LowerError>
    decreases t, 2nat,
{
    if t.children.len() < 1 {
        Err(bad_shape(t))
    } else {
        let c = t.children[0];
        match c.rule {
            Rule::math_cmd => match math_cmd_of(b, c) {
                Ok(v) => Ok(MathUnaryModel::Cmd { name: v.0, args: v.1, opts: v.2 }),
                Err(e) => Err(e),
            },
            Rule::math_escaped_char => if c.children.len() < 1 {
                Err(bad_shape(c))
            } else {
                match name_of(b, c.children[0]) {
                    Ok(v) => Ok(MathUnaryModel::SpecialChar(v)),
                    Err(e) => Err(e),
                }
            },
            Rule::math_char => match name_of(b, c) {
                Ok(v) => Ok(MathUnaryModel::Char(v)),
                Err(e) => Err(e),
            },
            Rule::math_symbol => match name_of(b, c) {
                Ok(v) => Ok(MathUnaryModel::Symbol(v)),
                Err(e) => Err(e),
            },
            _ => Err(bad_shape(c)),
        }
    }
}

/// What a single element of math text lowers to, with the node's range.
#[verifier::opaque]
pub open spec fn ranged_math_unary_of(b: Seq<u8>, t: Tree) -> Result<
    Ranged<MathUnaryModel>,
    LowerError,
>
    decreases t, 3nat,
{
    match math_unary_of(b, t) {
        Ok(v) => at_node(b, t, v),
        Err(e) => Err(e),
    }
}

/// What stands above or below an element lowers to, by the rule of the
/// node's child: a run of math text or one element.
#[verifier::opaque]
pub open spec fn math_group_of(b: Seq<u8>, t: Tree) -> Result<MathGroupModel, LowerError>
    decreases t, 1nat,
{
    if t.children.len() < 1 {
        Err(bad_shape(t))
    } else if t.children[0].rule == Rule::math_single {
        match math_single_of(b, t.children[0]) {
            Ok(v) => Ok(MathGroupModel::Single(v)),
            Err(e) => Err(e),
        }
    } else if t.children[0].rule == Rule::math_unary {
        match math_unary_of(b, t.children[0]) {
            Ok(v) => Ok(MathGroupModel::Unary(v)),
            Err(e) => Err(e),
        }
    } else {
        Err(bad_shape(t.children[0]))
    }
}

/// What stands above or below an element lowers to, with the node's
/// range.
#[verifier::opaque]
pub open spec fn ranged_math_group_of(b: Seq<u8>, t: Tree) -> Result<
    Ranged<MathGroupModel>,
    LowerError,
>
    decreases t, 2nat,
{
    match math_group_of(b, t) {
        Ok(v) => at_node(b, t, v),
        Err(e) => Err(e),
    }
}

/// Where among the children of an element of math text the child of rule
/// `rule` stands, which is the second or the third child, or 0 if there is
/// none.
pub open spec fn script_at(t: Tree, rule: Rule) -> int {
    if t.children.len() > 1 && t.children[1].rule == rule {
        1
    } else if t.children.len() > 2 && t.children[2].rule == rule {
        2
    } else {
        0
    }
}

/// What stands above an element, if `rule` is that of a superscript, or
/// below it, if it is that of a subscript: what the child of that rule holds,
/// if there is such a child.
#[verifier::opaque]
pub open spec fn script_of(b: Seq<u8>, t: Tree, rule: Rule) -> Result<
    Option<Ranged<MathGroupModel>>,
    LowerError,
>
    decreases t, 1nat,
{
    if script_at(t, rule) == 0 {
        Ok(None)
    } else if t.children[script_at(t, rule)].children.len() < 1 {
        Err(bad_shape(t.children[script_at(t, rule)]))
    } else {
        match ranged_math_group_of(b, t.children[script_at(t, rule)].children[0]) {
            Ok(v) => Ok(Some(v)),
            Err(e) => Err(e),
        }
    }
}

/// What an element of math text lowers to: the element of its first child,
/// with what stands above and below it.
#[verifier::opaque]
pub open spec fn math_token_of(b: Seq<u8>, t: Tree) -> Result<MathTokenModel, LowerError>
    decreases t, 2nat,
{
    if t.children.len() < 1 {
        Err(bad_shape(t))
    } else {
        match ranged_math_unary_of(b, t.children[0]) {
            Err(e) => Err(e),
            Ok(base) => match script_of(b, t, Rule::math_sup) {
                Err(e) => Err(e),
                Ok(sup) => match script_of(b, t, Rule::math_sub) {
                    Err(e) => Err(e),
                    Ok(sub) => Ok(MathTokenModel { base, sup, sub }),
                },
            },
        }
    }
}

/// What an element of math text lowers to, with the node's range.
#[verifier::opaque]
pub open spec fn ranged_math_token_of(b: Seq<u8>, t: Tree) -> Result<
    Ranged<MathTokenModel>,
    LowerError,
>
    decreases t, 3nat,
{
    match math_token_of(b, t) {
        Ok(v) => at_node(b, t, v),
        Err(e) => Err(e),
    }
}

/// What a run of math text lowers to: the elements of its children.
#[verifier::opaque]
pub open spec fn math_single_of(b: Seq<u8>, t: Tree) -> Result<
    Seq<Ranged<MathTokenModel>>,
    LowerError,
>
    decreases t, 1nat,
{
    collect(math_token_results(b, t, 0, t.children.len() as int))
}

/// What a run of math text lowers to, with the node's range.
#[verifier::opaque]
pub open spec fn ranged_math_single_of(b: Seq<u8>, t: Tree) -> Result<
    Ranged<Seq<Ranged<MathTokenModel>>>,
    LowerError,
>
    decreases t, 2nat,
{
    match math_single_of(b, t) {
        Ok(v) => at_node(b, t, v),
        Err(e) => Err(e),
    }
}

/// What math text lowers to, by the rule of its child: one run, or the
/// runs of a list.
#[verifier::opaque]
pub open spec fn math_mode_of(b: Seq<u8>, t: Tree) -> Result<MathModel, LowerError>
    decreases t, 1nat,
{
    if t.children.len() < 1 {
        Err(bad_shape(t))
    } else if t.children[0].rule == Rule::math_single {
        match math_single_of(b, t.children[0]) {
            Ok(v) => Ok(MathModel::Single(v)),
            Err(e) => Err(e),
        }
    } else if t.children[0].rule == Rule::math_list {
        match collect(
            math_single_results(b, t.children[0], 0, t.children[0].children.len() as int),
        ) {
            Ok(v) => Ok(MathModel::List(v)),
            Err(e) => Err(e),
        }
    } else {
        Err(bad_shape(t.children[0]))
    }
}

/// What math text in its brackets lowers to: the math text of the node's
/// child.
#[verifier::opaque]
pub open spec fn math_of(b: Seq<u8>, t: Tree) -> Result<MathModel, LowerError>
    decreases t, 2nat,
{
    if t.children.len() < 1 {
        Err(bad_shape(t))
    } else {
        math_mode_of(b, t.children[0])
    }
}

/// Finds the position behind the optional arguments at `from` and after.
#[verifier::spinoff_prover]
fn find_math_options_end(pair: &Pair, from: usize) -> (k: usize)
    requires
        from <= pair@.children.len(),
    ensures
        k == math_options_end(pair@, from as int),
        from <= k <= pair@.children.len(),
{
    let n = pair.child_count();
    let mut k = from;
    while k < n && pair.child(k).as_rule() == Rule::math_cmd_expr_option
        invariant
            n == pair@.children.len(),
            from <= k <= n,
            math_options_end(pair@, from as int) == math_options_end(pair@, k as int),
        decreases n - k,
    {
        proof {
            reveal(math_options_end);
        }
        k = k + 1;
    }
    proof {
        reveal(math_options_end);
    }
    k
}

/// Lowers an argument of a math command.
#[verifier::spinoff_prover]
pub fn lower_math_arg(text: &str, pair: &Pair) -> (r: Result<MathArg, LowerError>)
    ensures
        r matches Ok(v) ==> gives(math_arg_of(text.spec_bytes(), pair@), v.model()),
        r matches Err(e) ==> fails(math_arg_of(text.spec_bytes(), pair@), e),
    decreases pair@, 2nat,
{
    proof {
        reveal(math_arg_of);
    }
    if pair.child_count() < 1 {
        return Err(shape_error(pair));
    }
    let c = pair.child(0);
    match c.as_rule() {
        Rule::math_mode => match lower_math_mode(text, c) {
            Ok(v) => Ok(MathArg::Math(v)),
            Err(e) => Err(e),
        },
        Rule::horizontal_mode => match lower_horizontal(text, c) {
            Ok(v) => Ok(MathArg::Horizontal(v)),
            Err(e) => Err(e),
        },
        Rule::vertical_mode => match lower_vertical(text, c) {
            Ok(v) => Ok(MathArg::Vertical(v)),
            Err(e) => Err(e),
        },
        Rule::cmd_expr_arg => {
            if c.child_count() < 1 {
                return Err(shape_error(c));
            }
            match lower_unary(text, c.child(0)) {
                Ok(v) => Ok(MathArg::Expr(v)),
                Err(e) => Err(e),
            }
        },
        _ => Err(shape_error(c)),
    }
}

/// Lowers an argument of a math command and attaches its range.
#[verifier::spinoff_prover]
pub fn lower_ranged_math_arg(text: &str, pair: &Pair) -> (r: Result<Ranged<MathArg>, LowerError>)
    ensures
        r matches Ok(v) ==> gives(
            ranged_math_arg_of(text.spec_bytes(), pair@),
            ranged(v, v.body.model()),
        ),
        r matches Err(e) ==> fails(ranged_math_arg_of(text.spec_bytes(), pair@), e),
    decreases pair@, 3nat,
{
    proof {
        reveal(ranged_math_arg_of);
    }
    match lower_math_arg(text, pair) {
        Ok(v) => wrap_node(v, text, pair),
        Err(e) => Err(e),
    }
}

/// Lowers an optional argument of a math command and attaches its range.
#[verifier::spinoff_prover]
pub fn lower_ranged_math_option(text: &str, pair: &Pair) -> (r: Result<
    Ranged<MathArg>,
    LowerError,
>)
    ensures
        r matches Ok(v) ==> gives(
            ranged_math_option_of(text.spec_bytes(), pair@),
            ranged(v, v.body.model()),
        ),
        r matches Err(e) ==> fails(ranged_math_option_of(text.spec_bytes(), pair@), e),
    decreases pair@, 3nat,
{
    proof {
        reveal(ranged_math_option_of);
    }
    if pair.child_count() < 1 {
        return Err(shape_error(pair));
    }
    match lower_math_arg(text, pair.child(0)) {
        Ok(v) => wrap_node(v, text, pair),
        Err(e) => Err(e),
    }
}

/// Lowers a math command: its name, its arguments and its optional
/// arguments.
#[verifier::spinoff_prover]
fn lower_math_cmd(text: &str, pair: &Pair) -> (r: Result<
    (Ranged<String>, Vec<Ranged<MathArg>>, Vec<Ranged<MathArg>>),
    LowerError,
>)
    ensures
        r matches Ok(v) ==> gives(
            math_cmd_of(text.spec_bytes(), pair@),
            (ranged_text(v.0), math_arg_models(v.1@), math_arg_models(v.2@)),
        ),
        r matches Err(e) ==> fails(math_cmd_of(text.spec_bytes(), pair@), e),
    decreases pair@, 1nat,
{
    proof {
        reveal(math_cmd_of);
    }
    let n = pair.child_count();
    if n < 1 {
        return Err(shape_error(pair));
    }
    let name = match ranged_node_text(text, pair.child(0)) {
        Ok(v) => v,
        Err(e) => {
            return Err(e);
        },
    };
    let k = find_math_options_end(pair, 1);
    let opts = match lower_math_options(text, pair, 1, k) {
        Ok(v) => v,
        Err(e) => {
            return Err(e);
        },
    };
    match lower_math_args(text, pair, k, n) {
        Ok(args) => Ok((name, args, opts)),
        Err(e) => Err(e),
    }
}

/// Lowers a single element of math text.
#[verifier::spinoff_prover]
pub fn lower_math_unary(text: &str, pair: &Pair) -> (r: Result<MathUnary, LowerError>)
    ensures
        r matches Ok(v) ==> gives(math_unary_of(text.spec_bytes(), pair@), v.model()),
        r matches Err(e) ==> fails(math_unary_of(text.spec_bytes(), pair@), e),
    decreases pair@, 2nat,
{
    proof {
        reveal(math_unary_of);
    }
    if pair.child_count() < 1 {
        return Err(shape_error(pair));
    }
    let c = pair.child(0);
    match c.as_rule() {
        Rule::math_cmd => match lower_math_cmd(text, c) {
            Ok(v) => {
                let (name, args, opts) = v;
                proof {
                    let m = MathUnary::Cmd { name, args, opts }.model();
                    assert(m->Cmd_args =~= math_arg_models(args@));
                    assert(m->Cmd_opts =~= math_arg_models(opts@));
                }
                Ok(MathUnary::Cmd { name, args, opts })
            },
            Err(e) => Err(e),
        },
        Rule::math_escaped_char => {
            if c.child_count() < 1 {
                return Err(shape_error(c));
            }
            match node_text(text, c.child(0)) {
                Ok(v) => Ok(MathUnary::SpecialChar(v)),
                Err(e) => Err(e),
            }
        },
        Rule::math_char => match node_text(text, c) {
            Ok(v) => Ok(MathUnary::Char(v)),
            Err(e) => Err(e),
        },
        Rule::math_symbol => match node_text(text, c) {
            Ok(v) => Ok(MathUnary::Symbol(v)),
            Err(e) => Err(e),
        },
        _ => Err(shape_error(c)),
    }
}

/// Lowers a single element of math text and attaches its range.
#[verifier::spinoff_prover]
pub fn lower_ranged_math_unary(text: &str, pair: &Pair) -> (r: Result<
    Ranged<MathUnary>,
    LowerError,
>)
    ensures
        r matches Ok(v) ==> gives(
            ranged_math_unary_of(text.spec_bytes(), pair@),
            ranged(v, v.body.model()),
        ),
        r matches Err(e) ==> fails(ranged_math_unary_of(text.spec_bytes(), pair@), e),
    decreases pair@, 3nat,
{
    proof {
        reveal(ranged_math_unary_of);
    }
    match lower_math_unary(text, pair) {
        Ok(v) => wrap_node(v, text, pair),
        Err(e) => Err(e),
    }
}

/// Lowers what stands above or below an element.
#[verifier::spinoff_prover]
pub fn lower_math_group(text: &str, pair: &Pair) -> (r: Result<MathGroup, LowerError>)
    ensures
        r matches Ok(v) ==> gives(math_group_of(text.spec_bytes(), pair@), v.model()),
        r matches Err(e) ==> fails(math_group_of(text.spec_bytes(), pair@), e),
    decreases pair@, 1nat,
{
    proof {
        reveal(math_group_of);
    }
    if pair.child_count() < 1 {
        return Err(shape_error(pair));
    }
    let c = pair.child(0);
    if c.as_rule() == Rule::math_single {
        match lower_math_single(text, c) {
            Ok(v) => Ok(MathGroup::Single(v)),
            Err(e) => Err(e),
        }
    } else if c.as_rule() == Rule::math_unary {
        match lower_math_unary(text, c) {
            Ok(v) => Ok(MathGroup::Unary(v)),
            Err(e) => Err(e),
        }
    } else {
        Err(shape_error(c))
    }
}

/// Lowers what stands above or below an element and attaches its range.
#[verifier::spinoff_prover]
pub fn lower_ranged_math_group(text: &str, pair: &Pair) -> (r: Result<
    Ranged<MathGroup>,
    LowerError,
>)
    ensures
        r matches Ok(v) ==> gives(
            ranged_math_group_of(text.spec_bytes(), pair@),
            ranged(v, v.body.model()),
        ),
        r matches Err(e) ==> fails(ranged_math_group_of(text.spec_bytes(), pair@), e),
    decreases pair@, 2nat,
{
    proof {
        reveal(ranged_math_group_of);
    }
    match lower_math_group(text, pair) {
        Ok(v) => wrap_node(v, text, pair),
        Err(e) => Err(e),
    }
}

/// Lowers what stands above or below an element, if a child of rule `rule`
/// says so.
#[verifier::spinoff_prover]
fn lower_script(text: &str, pair: &Pair, rule: Rule) -> (r: Result<
    Option<Ranged<MathGroup>>,
    LowerError,
>)
    ensures
        r matches Ok(v) ==> gives(
            script_of(text.spec_bytes(), pair@, rule),
            match v {
                Some(g) => Some(ranged(g, g.body.model())),
                None => None,
            },
        ),
        r matches Err(e) ==> fails(script_of(text.spec_bytes(), pair@, rule), e),
    decreases pair@, 1nat,
{
    proof {
        reveal(script_of);
    }
    let n = pair.child_count();
    let at: usize = if n > 1 && pair.child(1).as_rule() == rule {
        1
    } else if n > 2 && pair.child(2).as_rule() == rule {
        2
    } else {
        0
    };
    if at == 0 {
        return Ok(None);
    }
    let holder = pair.child(at);
    if holder.child_count() < 1 {
        return Err(shape_error(holder));
    }
    match lower_ranged_math_group(text, holder.child(0)) {
        Ok(v) => Ok(Some(v)),
        Err(e) => Err(e),
    }
}

/// Lowers an element of math text.
#[verifier::spinoff_prover]
pub fn lower_math_token(text: &str, pair: &Pair) -> (r: Result<MathToken, LowerError>)
    ensures
        r matches Ok(v) ==> gives(math_token_of(text.spec_bytes(), pair@), v.model()),
        r matches Err(e) ==> fails(math_token_of(text.spec_bytes(), pair@), e),
    decreases pair@, 2nat,
{
    proof {
        reveal(math_token_of);
    }
    if pair.child_count() < 1 {
        return Err(shape_error(pair));
    }
    let base = match lower_ranged_math_unary(text, pair.child(0)) {
        Ok(v) => v,
        Err(e) => {
            return Err(e);
        },
    };
    let sup = match lower_script(text, pair, Rule::math_sup) {
        Ok(v) => v,
        Err(e) => {
            return Err(e);
        },
    };
    match lower_script(text, pair, Rule::math_sub) {
        Ok(sub) => Ok(MathToken { base, sup, sub }),
        Err(e) => Err(e),
    }
}

/// Lowers an element of math text and attaches its range.
#[verifier::spinoff_prover]
pub fn lower_ranged_math_token(text: &str, pair: &Pair) -> (r: Result<
    Ranged<MathToken>,
    LowerError,
>)
    ensures
        r matches Ok(v) ==> gives(
            ranged_math_token_of(text.spec_bytes(), pair@),
            ranged(v, v.body.model()),
        ),
        r matches Err(e) ==> fails(ranged_math_token_of(text.spec_bytes(), pair@), e),
    decreases pair@, 3nat,
{
    proof {
        reveal(ranged_math_token_of);
    }
    match lower_math_token(text, pair) {
        Ok(v) => wrap_node(v, text, pair),
        Err(e) => Err(e),
    }
}

/// Lowers a run of math text.
#[verifier::spinoff_prover]
pub fn lower_math_single(text: &str, pair: &Pair) -> (r: Result<MathSingle, LowerError>)
    ensures
        r matches Ok(v) ==> gives(math_single_of(text.spec_bytes(), pair@), v.model()),
        r matches Err(e) ==> fails(math_single_of(text.spec_bytes(), pair@), e),
    decreases pair@, 1nat,
{
    proof {
        reveal(math_single_of);
    }
    match lower_math_tokens(text, pair, 0, pair.child_count()) {
        Ok(items) => {
            proof {
                assert(MathSingle(items).model() =~= math_token_models(items@));
            }
            Ok(MathSingle(items))
        },
        Err(e) => Err(e),
    }
}

/// Lowers a run of math text and attaches its range.
#[verifier::spinoff_prover]
pub fn lower_ranged_math_single(text: &str, pair: &Pair) -> (r: Result<
    Ranged<MathSingle>,
    LowerError,
>)
    ensures
        r matches Ok(v) ==> gives(
            ranged_math_single_of(text.spec_bytes(), pair@),
            ranged(v, v.body.model()),
        ),
        r matches Err(e) ==> fails(ranged_math_single_of(text.spec_bytes(), pair@), e),
    decreases pair@, 2nat,
{
    proof {
        reveal(ranged_math_single_of);
    }
    match lower_math_single(text, pair) {
        Ok(v) => wrap_node(v, text, pair),
        Err(e) => Err(e),
    }
}

/// Lowers math text.
#[verifier::spinoff_prover]
pub fn lower_math_mode(text: &str, pair: &Pair) -> (r: Result<Math, LowerError>)
    ensures
        r matches Ok(v) ==> gives(math_mode_of(text.spec_bytes(), pair@), v.model()),
        r matches Err(e) ==> fails(math_mode_of(text.spec_bytes(), pair@), e),
    decreases pair@, 1nat,
{
    proof {
        reveal(math_mode_of);
    }
    if pair.child_count() < 1 {
        return Err(shape_error(pair));
    }
    let c = pair.child(0);
    if c.as_rule() == Rule::math_single {
        match lower_math_single(text, c) {
            Ok(v) => Ok(Math::Single(v)),
            Err(e) => Err(e),
        }
    } else if c.as_rule() == Rule::math_list {
        match lower_math_singles(text, c, 0, c.child_count()) {
            Ok(items) => {
                proof {
                    assert(Math::List(items).model()->List_0 =~= math_single_models(items@));
                }
                Ok(Math::List(items))
            },
            Err(e) => Err(e),
        }
    } else {
        Err(shape_error(c))
    }
}

/// Lowers math text in its brackets.
#[verifier::spinoff_prover]
pub fn lower_math(text: &str, pair: &Pair) -> (r: Result<Math, LowerError>)
    ensures
        r matches Ok(v) ==> gives(math_of(text.spec_bytes(), pair@), v.model()),
        r matches Err(e) ==> fails(math_of(text.spec_bytes(), pair@), e),
    decreases pair@, 2nat,
{
    proof {
        reveal(math_of);
    }
    if pair.child_count() < 1 {
        return Err(shape_error(pair));
    }
    lower_math_mode(text, pair.child(0))
}

} // verus!
