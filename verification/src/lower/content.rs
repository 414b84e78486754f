//! Lowering of block text, inline text and math text.

use vstd::prelude::*;
use vstd::string::StringSliceAdditionalSpecFns;
use crate::ast::content::bullet_models;
use crate::ast::content::element_models;
use crate::ast::content::single_models;
use crate::ast::content::token_models;
use crate::ast::content::Horizontal;
use crate::ast::content::HorizontalBullet;
use crate::ast::content::HorizontalBulletModel;
use crate::ast::content::HorizontalModel;
use crate::ast::content::HorizontalSingle;
use crate::ast::content::HorizontalToken;
use crate::ast::content::HorizontalTokenModel;
use crate::ast::content::Vertical;
use crate::ast::content::VerticalElement;
use crate::ast::content::VerticalElementModel;
use crate::ast::expr::expr_models;
use crate::ast::expr::option_models;
use crate::ast::expr::Expr;
use crate::ast::expr::ExprModel;
use crate::ast::expr::Unary;
use crate::ast::expr::UnaryModel;
use crate::ast::literal::ranged;
use crate::ast::literal::ranged_text;
use crate::ast::literal::Literal;
use crate::ast::literal::LiteralModel;
use crate::error::bad_shape;
use crate::error::bad_span;
use crate::error::collect;
use crate::error::fails;
use crate::error::fault;
use crate::error::gives;
use crate::error::LowerError;
use crate::error::LowerErrorKind;
use crate::lower::common::at_node;
use crate::lower::common::error_at;
use crate::lower::common::lower_qualified;
use crate::lower::common::name_of;
use crate::lower::common::node_text;
use crate::lower::common::optional_text;
use crate::lower::common::qualified_of;
use crate::lower::common::ranged_node_text;
use crate::lower::common::ranged_text_of;
use crate::lower::common::shape_error;
use crate::lower::common::wrap_node;
use crate::lower::expr::lower_ranged_unary;
use crate::lower::expr::ranged_unary_of;
use crate::lower::lists::bullet_results;
use crate::lower::lists::cmd_arg_results;
use crate::lower::lists::element_results;
use crate::lower::lists::lower_bullets;
use crate::lower::lists::lower_cmd_args;
use crate::lower::lists::lower_elements;
use crate::lower::lists::lower_options;
use crate::lower::lists::lower_singles;
use crate::lower::lists::lower_tokens;
use crate::lower::lists::option_results;
use crate::lower::lists::single_results;
use crate::lower::lists::token_results;
use crate::lower::literal::lower_string;
use crate::lower::math::lower_math;
use crate::lower::math::math_of;
use crate::lower::literal::string_of;
use crate::position::Ranged;
use crate::rule::Rule;
use crate::tree::Pair;
use crate::tree::Tree;

verus! {

/// What a variable to insert lowers to: the name of the node's child, with
/// the module before it if there is one.
#[verifier::opaque]
pub open spec fn embedding_of(b: Seq<u8>, t: Tree) -> Result<
    (Option<Ranged<Seq<char>>>, Ranged<Seq<char>>),
    LowerError,
> {
    if t.children.len() < 1 {
        Err(bad_shape(t))
    } else {
        qualified_of(b, t.children[0])
    }
}

/// The position behind the optional arguments that stand at `from` and
/// after it among the children of `t`.
#[verifier::opaque]
pub open spec fn options_end(t: Tree, from: int) -> int
    decreases t.children.len() - from,
{
    if 0 <= from < t.children.len() && t.children[from].rule == Rule::cmd_expr_option {
        options_end(t, from + 1)
    } else {
        from
    }
}

/// What an optional argument of a command lowers to: nothing where it is
/// left out, and else the argument of its child.
#[verifier::opaque]
pub open spec fn option_of(b: Seq<u8>, t: Tree) -> Result<Option<ExprModel>, LowerError>
    decreases t, 1nat,
{
    if t.children.len() < 1 {
        Ok(None)
    } else {
        match cmd_arg_of(b, t.children[0]) {
            Ok(v) => Ok(Some(v)),
            Err(e) => Err(e),
        }
    }
}

/// What an optional argument of a command lowers to, with the node's range.
#[verifier::opaque]
pub open spec fn ranged_option_of(b: Seq<u8>, t: Tree) -> Result<
    Ranged<Option<ExprModel>>,
    LowerError,
>
    decreases t, 2nat,
{
    match option_of(b, t) {
        Ok(v) => at_node(b, t, v),
        Err(e) => Err(e),
    }
}

/// What an argument of a command lowers to: the expression of its child, or
/// the text of its child as an expression with the argument's range.
#[verifier::opaque]
pub open spec fn cmd_arg_of(b: Seq<u8>, t: Tree) -> Result<ExprModel, LowerError>
    decreases t, 2nat,
{
    if t.rule != Rule::cmd_expr_arg && t.rule != Rule::cmd_text_arg {
        Err(bad_shape(t))
    } else if t.children.len() < 1 {
        Err(bad_shape(t))
    } else if t.rule == Rule::cmd_expr_arg {
        match ranged_unary_of(b, t.children[0]) {
            Ok(u) => Ok(ExprModel::Unary(u)),
            Err(e) => Err(e),
        }
    } else if t.children[0].rule == Rule::vertical_mode {
        match vertical_of(b, t.children[0]) {
            Err(e) => Err(e),
            Ok(v) => match at_node(b, t, UnaryModel::BlockText(v)) {
                Ok(u) => Ok(ExprModel::Unary(u)),
                Err(e) => Err(e),
            },
        }
    } else if t.children[0].rule == Rule::horizontal_mode {
        match horizontal_of(b, t.children[0]) {
            Err(e) => Err(e),
            Ok(v) => match at_node(b, t, UnaryModel::HorizontalText(v)) {
                Ok(u) => Ok(ExprModel::Unary(u)),
                Err(e) => Err(e),
            },
        }
    } else {
        Err(bad_shape(t.children[0]))
    }
}

/// What an argument of a command lowers to, with the node's range.
#[verifier::opaque]
pub open spec fn ranged_cmd_arg_of(b: Seq<u8>, t: Tree) -> Result<Ranged<ExprModel>, LowerError>
    decreases t, 3nat,
{
    match cmd_arg_of(b, t) {
        Ok(v) => at_node(b, t, v),
        Err(e) => Err(e),
    }
}

/// What a command lowers to: the name of its first child, the arguments,
/// and the optional arguments, which stand first among the other children.
#[verifier::opaque]
pub open spec fn command_of(b: Seq<u8>, t: Tree) -> Result<
    (Ranged<Seq<char>>, Seq<Ranged<ExprModel>>, Seq<Ranged<Option<ExprModel>>>),
    LowerError,
>
    decreases t, 1nat,
{
    if t.children.len() < 1 {
        Err(bad_shape(t))
    } else {
        match ranged_text_of(b, t.children[0]) {
            Err(e) => Err(e),
            Ok(name) => match collect(option_results(b, t, 1, options_end(t, 1))) {
                Err(e) => Err(e),
                Ok(opts) => match collect(
                    cmd_arg_results(b, t, options_end(t, 1), t.children.len() as int),
                ) {
                    Err(e) => Err(e),
                    Ok(args) => Ok((name, args, opts)),
                },
            },
        }
    }
}

/// What an element of block text lowers to, by the rule of its child.
#[verifier::opaque]
pub open spec fn element_of(b: Seq<u8>, t: Tree) -> Result<VerticalElementModel, LowerError>
    decreases t, 2nat,
{
    if t.children.len() < 1 {
        Err(bad_shape(t))
    } else if t.children[0].rule == Rule::block_cmd {
        match command_of(b, t.children[0]) {
            Ok(c) => Ok(VerticalElementModel::BlockCmd { name: c.0, args: c.1, opts: c.2 }),
            Err(e) => Err(e),
        }
    } else if t.children[0].rule == Rule::block_text_embedding {
        match embedding_of(b, t.children[0]) {
            Ok(v) => Ok(VerticalElementModel::BlockTextEmbedding { mod_name: v.0, name: v.1 }),
            Err(e) => Err(e),
        }
    } else {
        Err(bad_shape(t.children[0]))
    }
}

/// What an element of block text lowers to, with the node's range.
#[verifier::opaque]
pub open spec fn ranged_element_of(b: Seq<u8>, t: Tree) -> Result<
    Ranged<VerticalElementModel>,
    LowerError,
>
    decreases t, 3nat,
{
    match element_of(b, t) {
        Ok(v) => at_node(b, t, v),
        Err(e) => Err(e),
    }
}

/// What block text lowers to: the elements of its children.
#[verifier::opaque]
pub open spec fn vertical_of(b: Seq<u8>, t: Tree) -> Result<
    Seq<Ranged<VerticalElementModel>>,
    LowerError,
>
    decreases t, 1nat,
{
    collect(element_results(b, t, 0, t.children.len() as int))
}

/// What an element of inline text lowers to, by the rule of its child.
#[verifier::opaque]
pub open spec fn token_of(b: Seq<u8>, t: Tree) -> Result<HorizontalTokenModel, LowerError>
    decreases t, 2nat,
{
    if t.children.len() < 1 {
        Err(bad_shape(t))
    } else {
        let c = t.children[0];
        match c.rule {
            Rule::regular_text => match ranged_text_of(b, c) {
                Ok(v) => Ok(HorizontalTokenModel::Text(v)),
                Err(e) => Err(e),
            },
            Rule::horizontal_escaped_char => if c.children.len() < 1 {
                Err(bad_shape(c))
            } else {
                match ranged_text_of(b, c.children[0]) {
                    Ok(v) => Ok(HorizontalTokenModel::SpecialChar(v)),
                    Err(e) => Err(e),
                }
            },
            Rule::horizontal_text_embedding => match embedding_of(b, c) {
                Ok(v) => Ok(
                    HorizontalTokenModel::HorizontalTextEmbedding { mod_name: v.0, name: v.1 },
                ),
                Err(e) => Err(e),
            },
            Rule::inline_cmd => match command_of(b, c) {
                Ok(v) => Ok(HorizontalTokenModel::InlineCmd { name: v.0, args: v.1, opts: v.2 }),
                Err(e) => Err(e),
            },
            Rule::math_text => match math_of(b, c) {
                Err(e) => Err(e),
                Ok(m) => match at_node(b, c, m) {
                    Ok(v) => Ok(HorizontalTokenModel::Math(v)),
                    Err(e) => Err(e),
                },
            },
            Rule::string_const => match string_of(b, c) {
                Err(e) => Err(e),
                Ok(s) => match at_node(b, c, LiteralModel::String(s)) {
                    Ok(v) => Ok(HorizontalTokenModel::StringLiteral(v)),
                    Err(e) => Err(e),
                },
            },
            _ => Err(bad_shape(c)),
        }
    }
}

/// What an element of inline text lowers to, with the node's range.
#[verifier::opaque]
pub open spec fn ranged_token_of(b: Seq<u8>, t: Tree) -> Result<
    Ranged<HorizontalTokenModel>,
    LowerError,
>
    decreases t, 3nat,
{
    match token_of(b, t) {
        Ok(v) => at_node(b, t, v),
        Err(e) => Err(e),
    }
}

/// What a run of inline text lowers to: the elements of its children.
#[verifier::opaque]
pub open spec fn single_of(b: Seq<u8>, t: Tree) -> Result<
    Seq<Ranged<HorizontalTokenModel>>,
    LowerError,
>
    decreases t, 1nat,
{
    collect(token_results(b, t, 0, t.children.len() as int))
}

/// What a run of inline text lowers to, with the node's range.
#[verifier::opaque]
pub open spec fn ranged_single_of(b: Seq<u8>, t: Tree) -> Result<
    Ranged<Seq<Ranged<HorizontalTokenModel>>>,
    LowerError,
>
    decreases t, 2nat,
{
    match single_of(b, t) {
        Ok(v) => at_node(b, t, v),
        Err(e) => Err(e),
    }
}

/// What an item of a bullet list lowers to: the number of asterisks of its
/// first child and the text of its second.
#[verifier::opaque]
pub open spec fn bullet_of(b: Seq<u8>, t: Tree) -> Result<HorizontalBulletModel, LowerError>
    decreases t, 1nat,
{
    if t.children.len() < 2 {
        Err(bad_shape(t))
    } else if t.children[0].end < t.children[0].start {
        Err(bad_span(t.children[0]))
    } else if t.children[0].end - t.children[0].start > u32::MAX {
        Err(fault(LowerErrorKind::Overflow, t.children[0]))
    } else {
        match ranged_single_of(b, t.children[1]) {
            Ok(body) => Ok(
                HorizontalBulletModel {
                    indent: (t.children[0].end - t.children[0].start) as u32,
                    body,
                },
            ),
            Err(e) => Err(e),
        }
    }
}

/// What an item of a bullet list lowers to, with the node's range.
#[verifier::opaque]
pub open spec fn ranged_bullet_of(b: Seq<u8>, t: Tree) -> Result<
    Ranged<HorizontalBulletModel>,
    LowerError,
>
    decreases t, 2nat,
{
    match bullet_of(b, t) {
        Ok(v) => at_node(b, t, v),
        Err(e) => Err(e),
    }
}

/// What inline text lowers to, by the rule of its child: one run, the runs
/// of a list, or the items of a bullet list.
#[verifier::opaque]
pub open spec fn horizontal_of(b: Seq<u8>, t: Tree) -> Result<HorizontalModel, LowerError>
    decreases t, 1nat,
{
    if t.children.len() < 1 {
        Err(bad_shape(t))
    } else {
        let c = t.children[0];
        match c.rule {
            Rule::horizontal_single => match single_of(b, c) {
                Ok(v) => Ok(HorizontalModel::Single(v)),
                Err(e) => Err(e),
            },
            Rule::horizontal_list => match collect(
                single_results(b, c, 0, c.children.len() as int),
            ) {
                Ok(v) => Ok(HorizontalModel::List(v)),
                Err(e) => Err(e),
            },
            Rule::horizontal_bullet_list => match collect(
                bullet_results(b, c, 0, c.children.len() as int),
            ) {
                Ok(v) => Ok(HorizontalModel::BulletList(v)),
                Err(e) => Err(e),
            },
            _ => Err(bad_shape(c)),
        }
    }
}

/// Lowers a variable to insert.
#[verifier::spinoff_prover]
pub fn lower_embedding(text: &str, pair: &Pair) -> (r: Result<
    (Option<Ranged<String>>, Ranged<String>),
    LowerError,
>)
    ensures
        r matches Ok(v) ==> gives(
            embedding_of(text.spec_bytes(), pair@),
            (optional_text(v.0), ranged_text(v.1)),
        ),
        r matches Err(e) ==> fails(embedding_of(text.spec_bytes(), pair@), e),
{
    proof {
        reveal(embedding_of);
    }
    if pair.child_count() < 1 {
        return Err(shape_error(pair));
    }
    lower_qualified(text, pair.child(0))
}

/// Finds the position behind the optional arguments at `from` and after.
#[verifier::spinoff_prover]
pub fn find_options_end(pair: &Pair, from: usize) -> (k: usize)
    requires
        from <= pair@.children.len(),
    ensures
        k == options_end(pair@, from as int),
        from <= k <= pair@.children.len(),
{
    let n = pair.child_count();
    let mut k = from;
    while k < n && pair.child(k).as_rule() == Rule::cmd_expr_option
        invariant
            n == pair@.children.len(),
            from <= k <= n,
            options_end(pair@, from as int) == options_end(pair@, k as int),
        decreases n - k,
    {
        proof {
            reveal(options_end);
        }
        k = k + 1;
    }
    proof {
        reveal(options_end);
    }
    k
}

/// Lowers an optional argument of a command.
#[verifier::spinoff_prover]
pub fn lower_option(text: &str, pair: &Pair) -> (r: Result<Option<Expr>, LowerError>)
    ensures
        r matches Ok(v) ==> gives(
            option_of(text.spec_bytes(), pair@),
            match v {
                Some(x) => Some(x.model()),
                None => None,
            },
        ),
        r matches Err(e) ==> fails(option_of(text.spec_bytes(), pair@), e),
    decreases pair@, 1nat,
{
    proof {
        reveal(option_of);
    }
    if pair.child_count() < 1 {
        return Ok(None);
    }
    match lower_cmd_arg(text, pair.child(0)) {
        Ok(v) => Ok(Some(v)),
        Err(e) => Err(e),
    }
}

/// Lowers an optional argument of a command and attaches its range.
#[verifier::spinoff_prover]
pub fn lower_ranged_option(text: &str, pair: &Pair) -> (r: Result<
    Ranged<Option<Expr>>,
    LowerError,
>)
    ensures
        r matches Ok(v) ==> gives(
            ranged_option_of(text.spec_bytes(), pair@),
            ranged(
                v,
                match v.body {
                    Some(x) => Some(x.model()),
                    None => None,
                },
            ),
        ),
        r matches Err(e) ==> fails(ranged_option_of(text.spec_bytes(), pair@), e),
    decreases pair@, 2nat,
{
    proof {
        reveal(ranged_option_of);
    }
    match lower_option(text, pair) {
        Ok(v) => wrap_node(v, text, pair),
        Err(e) => Err(e),
    }
}

/// Lowers an argument of a command.
#[verifier::spinoff_prover]
pub fn lower_cmd_arg(text: &str, pair: &Pair) -> (r: Result<Expr, LowerError>)
    ensures
        r matches Ok(v) ==> gives(cmd_arg_of(text.spec_bytes(), pair@), v.model()),
        r matches Err(e) ==> fails(cmd_arg_of(text.spec_bytes(), pair@), e),
    decreases pair@, 2nat,
{
    proof {
        reveal(cmd_arg_of);
    }
    let rule = pair.as_rule();
    if rule != Rule::cmd_expr_arg && rule != Rule::cmd_text_arg {
        return Err(shape_error(pair));
    }
    if pair.child_count() < 1 {
        return Err(shape_error(pair));
    }
    let c = pair.child(0);
    if rule == Rule::cmd_expr_arg {
        return match lower_ranged_unary(text, c) {
            Ok(u) => Ok(Expr::Unary(u)),
            Err(e) => Err(e),
        };
    }
    let unary = if c.as_rule() == Rule::vertical_mode {
        match lower_vertical(text, c) {
            Ok(v) => Unary::BlockText(v),
            Err(e) => {
                return Err(e);
            },
        }
    } else if c.as_rule() == Rule::horizontal_mode {
        match lower_horizontal(text, c) {
            Ok(v) => Unary::HorizontalText(v),
            Err(e) => {
                return Err(e);
            },
        }
    } else {
        return Err(shape_error(c));
    };
    let ghost inner = unary.model();
    assert(inner is BlockText || inner is HorizontalText);
    match wrap_node(unary, text, pair) {
        Ok(u) => Ok(Expr::Unary(u)),
        Err(e) => Err(e),
    }
}

/// Lowers an argument of a command and attaches its range.
#[verifier::spinoff_prover]
pub fn lower_ranged_cmd_arg(text: &str, pair: &Pair) -> (r: Result<Ranged<Expr>, LowerError>)
    ensures
        r matches Ok(v) ==> gives(
            ranged_cmd_arg_of(text.spec_bytes(), pair@),
            ranged(v, v.body.model()),
        ),
        r matches Err(e) ==> fails(ranged_cmd_arg_of(text.spec_bytes(), pair@), e),
    decreases pair@, 3nat,
{
    proof {
        reveal(ranged_cmd_arg_of);
    }
    match lower_cmd_arg(text, pair) {
        Ok(v) => wrap_node(v, text, pair),
        Err(e) => Err(e),
    }
}

/// Lowers a command: its name, its arguments and its optional arguments.
#[verifier::spinoff_prover]
pub fn lower_command(text: &str, pair: &Pair) -> (r: Result<
    (Ranged<String>, Vec<Ranged<Expr>>, Vec<Ranged<Option<Expr>>>),
    LowerError,
>)
    ensures
        r matches Ok(v) ==> gives(
            command_of(text.spec_bytes(), pair@),
            (ranged_text(v.0), expr_models(v.1@), option_models(v.2@)),
        ),
        r matches Err(e) ==> fails(command_of(text.spec_bytes(), pair@), e),
    decreases pair@, 1nat,
{
    proof {
        reveal(command_of);
    }
    let n = pair.child_count();
    if n < 1 {
        return Err(shape_error(pair));
    }
    let name = match ranged_node_text(text, pair.child(0)) {
        Ok(v) => v,
        Err(e) => {
            return Err(e);
        },
    };
    let k = find_options_end(pair, 1);
    let opts = match lower_options(text, pair, 1, k) {
        Ok(v) => v,
        Err(e) => {
            return Err(e);
        },
    };
    match lower_cmd_args(text, pair, k, n) {
        Ok(args) => Ok((name, args, opts)),
        Err(e) => Err(e),
    }
}

/// Lowers an element of block text.
#[verifier::spinoff_prover]
pub fn lower_element(text: &str, pair: &Pair) -> (r: Result<VerticalElement, LowerError>)
    ensures
        r matches Ok(v) ==> gives(element_of(text.spec_bytes(), pair@), v.model()),
        r matches Err(e) ==> fails(element_of(text.spec_bytes(), pair@), e),
    decreases pair@, 2nat,
{
    proof {
        reveal(element_of);
    }
    if pair.child_count() < 1 {
        return Err(shape_error(pair));
    }
    let c = pair.child(0);
    if c.as_rule() == Rule::block_cmd {
        match lower_command(text, c) {
            Ok(v) => {
                let (name, args, opts) = v;
                proof {
                    let m = VerticalElement::BlockCmd { name, args, opts }.model();
                    assert(m->BlockCmd_args =~= expr_models(args@));
                    assert(m->BlockCmd_opts =~= option_models(opts@));
                }
                Ok(VerticalElement::BlockCmd { name, args, opts })
            },
            Err(e) => Err(e),
        }
    } else if c.as_rule() == Rule::block_text_embedding {
        match lower_embedding(text, c) {
            Ok(v) => {
                let (mod_name, name) = v;
                Ok(VerticalElement::BlockTextEmbedding { mod_name, name })
            },
            Err(e) => Err(e),
        }
    } else {
        Err(shape_error(c))
    }
}

/// Lowers an element of block text and attaches its range.
#[verifier::spinoff_prover]
pub fn lower_ranged_element(text: &str, pair: &Pair) -> (r: Result<
    Ranged<VerticalElement>,
    LowerError,
>)
    ensures
        r matches Ok(v) ==> gives(
            ranged_element_of(text.spec_bytes(), pair@),
            ranged(v, v.body.model()),
        ),
        r matches Err(e) ==> fails(ranged_element_of(text.spec_bytes(), pair@), e),
    decreases pair@, 3nat,
{
    proof {
        reveal(ranged_element_of);
    }
    match lower_element(text, pair) {
        Ok(v) => wrap_node(v, text, pair),
        Err(e) => Err(e),
    }
}

/// Lowers block text.
#[verifier::spinoff_prover]
pub fn lower_vertical(text: &str, pair: &Pair) -> (r: Result<Vertical, LowerError>)
    ensures
        r matches Ok(v) ==> gives(vertical_of(text.spec_bytes(), pair@), v.model()),
        r matches Err(e) ==> fails(vertical_of(text.spec_bytes(), pair@), e),
    decreases pair@, 1nat,
{
    proof {
        reveal(vertical_of);
    }
    match lower_elements(text, pair, 0, pair.child_count()) {
        Ok(items) => {
            proof {
                assert(Vertical(items).model() =~= element_models(items@));
            }
            Ok(Vertical(items))
        },
        Err(e) => Err(e),
    }
}

/// Lowers an element of inline text.
#[verifier::spinoff_prover]
pub fn lower_token(text: &str, pair: &Pair) -> (r: Result<HorizontalToken, LowerError>)
    ensures
        r matches Ok(v) ==> gives(token_of(text.spec_bytes(), pair@), v.model()),
        r matches Err(e) ==> fails(token_of(text.spec_bytes(), pair@), e),
    decreases pair@, 2nat,
{
    proof {
        reveal(token_of);
    }
    if pair.child_count() < 1 {
        return Err(shape_error(pair));
    }
    let c = pair.child(0);
    match c.as_rule() {
        Rule::regular_text => match ranged_node_text(text, c) {
            Ok(v) => Ok(HorizontalToken::Text(v)),
            Err(e) => Err(e),
        },
        Rule::horizontal_escaped_char => {
            if c.child_count() < 1 {
                return Err(shape_error(c));
            }
            match ranged_node_text(text, c.child(0)) {
                Ok(v) => Ok(HorizontalToken::SpecialChar(v)),
                Err(e) => Err(e),
            }
        },
        Rule::horizontal_text_embedding => match lower_embedding(text, c) {
            Ok(v) => {
                let (mod_name, name) = v;
                Ok(HorizontalToken::HorizontalTextEmbedding { mod_name, name })
            },
            Err(e) => Err(e),
        },
        Rule::inline_cmd => match lower_command(text, c) {
            Ok(v) => {
                let (name, args, opts) = v;
                proof {
                    let m = HorizontalToken::InlineCmd { name, args, opts }.model();
                    assert(m->InlineCmd_args =~= expr_models(args@));
                    assert(m->InlineCmd_opts =~= option_models(opts@));
                }
                Ok(HorizontalToken::InlineCmd { name, args, opts })
            },
            Err(e) => Err(e),
        },
        Rule::math_text => match lower_math(text, c) {
            Err(e) => Err(e),
            Ok(m) => match wrap_node(m, text, c) {
                Ok(v) => Ok(HorizontalToken::Math(v)),
                Err(e) => Err(e),
            },
        },
        Rule::string_const => match lower_string(text, c) {
            Err(e) => Err(e),
            Ok(s) => match wrap_node(Literal::String(s), text, c) {
                Ok(v) => Ok(HorizontalToken::StringLiteral(v)),
                Err(e) => Err(e),
            },
        },
        _ => Err(shape_error(c)),
    }
}

/// Lowers an element of inline text and attaches its range.
#[verifier::spinoff_prover]
pub fn lower_ranged_token(text: &str, pair: &Pair) -> (r: Result<
    Ranged<HorizontalToken>,
    LowerError,
>)
    ensures
        r matches Ok(v) ==> gives(
            ranged_token_of(text.spec_bytes(), pair@),
            ranged(v, v.body.model()),
        ),
        r matches Err(e) ==> fails(ranged_token_of(text.spec_bytes(), pair@), e),
    decreases pair@, 3nat,
{
    proof {
        reveal(ranged_token_of);
    }
    match lower_token(text, pair) {
        Ok(v) => wrap_node(v, text, pair),
        Err(e) => Err(e),
    }
}

/// Lowers a run of inline text.
#[verifier::spinoff_prover]
pub fn lower_single(text: &str, pair: &Pair) -> (r: Result<HorizontalSingle, LowerError>)
    ensures
        r matches Ok(v) ==> gives(single_of(text.spec_bytes(), pair@), v.model()),
        r matches Err(e) ==> fails(single_of(text.spec_bytes(), pair@), e),
    decreases pair@, 1nat,
{
    proof {
        reveal(single_of);
    }
    match lower_tokens(text, pair, 0, pair.child_count()) {
        Ok(items) => {
            proof {
                assert(HorizontalSingle(items).model() =~= token_models(items@));
            }
            Ok(HorizontalSingle(items))
        },
        Err(e) => Err(e),
    }
}

/// Lowers a run of inline text and attaches its range.
#[verifier::spinoff_prover]
pub fn lower_ranged_single(text: &str, pair: &Pair) -> (r: Result<
    Ranged<HorizontalSingle>,
    LowerError,
>)
    ensures
        r matches Ok(v) ==> gives(
            ranged_single_of(text.spec_bytes(), pair@),
            ranged(v, v.body.model()),
        ),
        r matches Err(e) ==> fails(ranged_single_of(text.spec_bytes(), pair@), e),
    decreases pair@, 2nat,
{
    proof {
        reveal(ranged_single_of);
    }
    match lower_single(text, pair) {
        Ok(v) => wrap_node(v, text, pair),
        Err(e) => Err(e),
    }
}

/// Lowers an item of a bullet list.
#[verifier::spinoff_prover]
pub fn lower_bullet(text: &str, pair: &Pair) -> (r: Result<HorizontalBullet, LowerError>)
    ensures
        r matches Ok(v) ==> gives(bullet_of(text.spec_bytes(), pair@), v.model()),
        r matches Err(e) ==> fails(bullet_of(text.spec_bytes(), pair@), e),
    decreases pair@, 1nat,
{
    proof {
        reveal(bullet_of);
    }
    if pair.child_count() < 2 {
        return Err(shape_error(pair));
    }
    let star = pair.child(0);
    let _ = star.child_count();
    if star.end < star.start {
        return Err(error_at(LowerErrorKind::Span, star));
    }
    let width = star.end - star.start;
    if width > 0xffff_ffff {
        return Err(error_at(LowerErrorKind::Overflow, star));
    }
    match lower_ranged_single(text, pair.child(1)) {
        Ok(body) => Ok(HorizontalBullet { indent: width as u32, body }),
        Err(e) => Err(e),
    }
}

/// Lowers an item of a bullet list and attaches its range.
#[verifier::spinoff_prover]
pub fn lower_ranged_bullet(text: &str, pair: &Pair) -> (r: Result<
    Ranged<HorizontalBullet>,
    LowerError,
>)
    ensures
        r matches Ok(v) ==> gives(
            ranged_bullet_of(text.spec_bytes(), pair@),
            ranged(v, v.body.model()),
        ),
        r matches Err(e) ==> fails(ranged_bullet_of(text.spec_bytes(), pair@), e),
    decreases pair@, 2nat,
{
    proof {
        reveal(ranged_bullet_of);
    }
    match lower_bullet(text, pair) {
        Ok(v) => wrap_node(v, text, pair),
        Err(e) => Err(e),
    }
}

/// Lowers inline text.
#[verifier::spinoff_prover]
pub fn lower_horizontal(text: &str, pair: &Pair) -> (r: Result<Horizontal, LowerError>)
    ensures
        r matches Ok(v) ==> gives(horizontal_of(text.spec_bytes(), pair@), v.model()),
        r matches Err(e) ==> fails(horizontal_of(text.spec_bytes(), pair@), e),
    decreases pair@, 1nat,
{
    proof {
        reveal(horizontal_of);
    }
    if pair.child_count() < 1 {
        return Err(shape_error(pair));
    }
    let c = pair.child(0);
    match c.as_rule() {
        Rule::horizontal_single => match lower_single(text, c) {
            Ok(v) => Ok(Horizontal::Single(v)),
            Err(e) => Err(e),
        },
        Rule::horizontal_list => match lower_singles(text, c, 0, c.child_count()) {
            Ok(items) => {
                proof {
                    assert(Horizontal::List(items).model()->List_0 =~= single_models(items@));
                }
                Ok(Horizontal::List(items))
            },
            Err(e) => Err(e),
        },
        Rule::horizontal_bullet_list => match lower_bullets(text, c, 0, c.child_count()) {
            Ok(items) => {
                proof {
                    assert(Horizontal::BulletList(items).model()->BulletList_0 =~= bullet_models(
                        items@,
                    ));
                }
                Ok(Horizontal::BulletList(items))
            },
            Err(e) => Err(e),
        },
        _ => Err(shape_error(c)),
    }
}

} // verus!
