//! The ranges in a syntax tree are nested: what was lowered from a
//! well-formed parse tree has every part inside the part that holds it.
//!
//! For every kind of node there is a lemma. It speaks of a node `t` of a
//! well-formed tree that lies in the bytes `a..z` of the text, and says that
//! the ranges of what the node lowers to lie in the locations of `a` and `z`,
//! one inside another down to the innermost part.

use vstd::prelude::*;
use crate::ast::content::HorizontalBulletModel;
use crate::ast::content::MathArgModel;
use crate::ast::content::MathGroupModel;
use crate::ast::content::MathModel;
use crate::ast::content::MathTokenModel;
use crate::ast::content::MathUnaryModel;
use crate::ast::content::HorizontalModel;
use crate::ast::content::HorizontalTokenModel;
use crate::ast::content::VerticalElementModel;
use crate::ast::expr::AppArgModel;
use crate::ast::expr::ApplicationModel;
use crate::ast::expr::ExprModel;
use crate::ast::expr::MatchArmModel;
use crate::ast::expr::RecordModel;
use crate::ast::expr::RecordUnitModel;
use crate::ast::expr::UnaryModel;
use crate::ast::header::HeaderModel;
use crate::ast::header::ProgramModel;
use crate::ast::literal::LiteralModel;
use crate::ast::pattern::PatternModel;
use crate::ast::statement::ArgumentModel;
use crate::ast::statement::StatementModel;
use crate::error::collect;
use crate::error::first_error;
use crate::error::LowerError;
use crate::laws::trees::lemma_parse_well_formed;
use crate::lower::common::at_node;
use crate::lower::common::qualified_of;
use crate::lower::common::ranged_text_of;
use crate::lower::content::bullet_of;
use crate::lower::content::cmd_arg_of;
use crate::lower::content::command_of;
use crate::lower::content::element_of;
use crate::lower::content::embedding_of;
use crate::lower::content::horizontal_of;
use crate::lower::content::option_of;
use crate::lower::content::options_end;
use crate::lower::content::ranged_bullet_of;
use crate::lower::content::ranged_cmd_arg_of;
use crate::lower::content::ranged_element_of;
use crate::lower::content::ranged_option_of;
use crate::lower::content::ranged_single_of;
use crate::lower::content::ranged_token_of;
use crate::lower::content::single_of;
use crate::lower::content::token_of;
use crate::lower::content::vertical_of;
use crate::lower::expr::app_arg_of;
use crate::lower::expr::application_of;
use crate::lower::expr::arm_of;
use crate::lower::expr::dyadic_of;
use crate::lower::expr::expr_of;
use crate::lower::expr::expr_with_mod_of;
use crate::lower::expr::if_of;
use crate::lower::expr::let_in_of;
use crate::lower::expr::list_of;
use crate::lower::expr::match_of;
use crate::lower::expr::member_of;
use crate::lower::expr::ranged_app_arg_of;
use crate::lower::expr::ranged_arm_of;
use crate::lower::expr::ranged_expr_of;
use crate::lower::expr::ranged_unary_of;
use crate::lower::expr::record_of;
use crate::lower::expr::record_unit_of;
use crate::lower::expr::text_of_mode;
use crate::lower::expr::tuple_of;
use crate::lower::expr::unary_of;
use crate::lower::expr::unary_operator_of;
use crate::lower::expr::variant_of;
use crate::lower::expr::while_of;
use crate::lower::header::body_at;
use crate::lower::header::has_preamble;
use crate::lower::header::header_of;
use crate::lower::header::headers_at;
use crate::lower::header::program_of;
use crate::lower::header::ranged_header_of;
use crate::lower::lists::app_arg_results;
use crate::lower::lists::argument_results;
use crate::lower::lists::arm_results;
use crate::lower::lists::bullet_results;
use crate::lower::lists::cmd_arg_results;
use crate::lower::lists::element_results;
use crate::lower::lists::expr_results;
use crate::lower::lists::header_results;
use crate::lower::lists::math_arg_results;
use crate::lower::lists::math_option_results;
use crate::lower::lists::math_single_results;
use crate::lower::lists::math_token_results;
use crate::lower::lists::option_results;
use crate::lower::lists::pattern_results;
use crate::lower::lists::record_unit_results;
use crate::lower::lists::single_results;
use crate::lower::lists::statement_results;
use crate::lower::lists::token_results;
use crate::lower::literal::length_of;
use crate::lower::literal::literal_of;
use crate::lower::math::math_arg_of;
use crate::lower::math::math_cmd_of;
use crate::lower::math::math_group_of;
use crate::lower::math::math_mode_of;
use crate::lower::math::math_of;
use crate::lower::math::math_options_end;
use crate::lower::math::math_single_of;
use crate::lower::math::math_token_of;
use crate::lower::math::math_unary_of;
use crate::lower::math::ranged_math_arg_of;
use crate::lower::math::ranged_math_group_of;
use crate::lower::math::ranged_math_option_of;
use crate::lower::math::ranged_math_single_of;
use crate::lower::math::ranged_math_token_of;
use crate::lower::math::ranged_math_unary_of;
use crate::lower::math::script_at;
use crate::lower::math::script_of;
use crate::lower::pattern::pat_as_of;
use crate::lower::pattern::pat_cons_of;
use crate::lower::pattern::pat_variant_of;
use crate::lower::pattern::pattern_of;
use crate::lower::pattern::ranged_pattern_of;
use crate::lower::statement::argument_of;
use crate::lower::statement::command_at;
use crate::lower::statement::let_command_of;
use crate::lower::statement::let_mutable_of;
use crate::lower::statement::let_of;
use crate::lower::statement::module_of;
use crate::lower::statement::preamble_of;
use crate::lower::statement::ranged_argument_of;
use crate::lower::statement::ranged_statement_of;
use crate::lower::statement::statement_of;
use crate::parser::parse_spec;
use crate::position::lemma_loc_at_monotone;
use crate::position::loc_at;
use crate::position::within;
use crate::position::Location;
use crate::position::Ranged;
use crate::rule::Rule;
use crate::tree::Tree;

verus! {

/// Whether `t` is a node of a well-formed tree over the text with bytes
/// `b` that lies in the bytes `a..z`.
pub open spec fn scope(b: Seq<u8>, t: Tree, a: int, z: int) -> bool {
    &&& t.well_formed(b.len() as int)
    &&& 0 <= a <= t.start
    &&& t.end <= z <= b.len()
    &&& b.len() < usize::MAX
}

/// Whether the range of node `t` lies in the locations of `a` and `z`.
pub open spec fn spans(b: Seq<u8>, t: Tree, a: int, z: int) -> bool {
    &&& loc_at(b, a).at_or_before(loc_at(b, t.start))
    &&& loc_at(b, t.start).at_or_before(loc_at(b, t.end))
    &&& loc_at(b, t.end).at_or_before(loc_at(b, z))
}

/// A node in scope spans its scope.
pub proof fn lemma_spans(b: Seq<u8>, t: Tree, a: int, z: int)
    requires
        scope(b, t, a, z),
    ensures
        spans(b, t, a, z),
{
    lemma_loc_at_monotone(b, a, t.start);
    lemma_loc_at_monotone(b, t.start, t.end);
    lemma_loc_at_monotone(b, t.end, z);
}

/// The children of a node in scope are in the same scope, each in its own,
/// and in that of the node.
pub proof fn lemma_child_scope(b: Seq<u8>, t: Tree, a: int, z: int, i: int)
    requires
        scope(b, t, a, z),
        0 <= i < t.children.len(),
    ensures
        scope(b, t.children[i], a, z),
        scope(b, t.children[i], t.children[i].start, t.children[i].end),
        scope(b, t.children[i], t.start, t.end),
        spans(b, t.children[i], a, z),
        spans(b, t.children[i], t.start, t.end),
{
    lemma_spans(b, t.children[i], a, z);
    lemma_spans(b, t.children[i], t.start, t.end);
}

/// Where no result is an error, every result is a value, and the values
/// collected are those of the results.
pub proof fn lemma_collected<V>(rs: Seq<Result<V, LowerError>>, i: int)
    requires
        collect(rs) is Ok,
        0 <= i < rs.len(),
    ensures
        rs[i] == Ok::<V, LowerError>(collect(rs)->Ok_0[i]),
        collect(rs)->Ok_0.len() == rs.len(),
    decreases i,
{
    if i > 0 {
        let rest = rs.drop_first();
        assert(rest[i - 1] == rs[i]);
        lemma_collected(rest, i - 1);
    }
}

/// Whether the ranges in an optional argument lie in `lo..hi`.
pub open spec fn option_nested(o: Option<ExprModel>, lo: Location, hi: Location) -> bool {
    match o {
        Some(e) => e.nested(lo, hi),
        None => true,
    }
}

/// Whether the range of a name that may be missing lies in `lo..hi`.
pub open spec fn optional_within(o: Option<Ranged<Seq<char>>>, lo: Location, hi: Location) -> bool {
    match o {
        Some(r) => within(r, lo, hi),
        None => true,
    }
}

/// Whether the ranges in the fields of a record lie in `lo..hi`.
pub open spec fn all_record_unit(vs: Seq<RecordUnitModel>, lo: Location, hi: Location) -> bool {
    forall|i: int| 0 <= i < vs.len() ==> (#[trigger] vs[i]).nested(lo, hi)
}

/// Whether the range of a pattern lies in `lo..hi`, and the ranges of its
/// parts in its own.
pub open spec fn ok_pattern(r: Ranged<PatternModel>, lo: Location, hi: Location) -> bool {
    within(r, lo, hi) && r.body.nested(r.start, r.end)
}

/// Whether that holds of every one of `vs`.
pub open spec fn all_pattern(vs: Seq<Ranged<PatternModel>>, lo: Location, hi: Location) -> bool {
    forall|i: int| 0 <= i < vs.len() ==> within(#[trigger] vs[i], lo, hi)
        && vs[i].body.nested(vs[i].start, vs[i].end)
}

/// Whether the range of a expression lies in `lo..hi`, and the ranges of its
/// parts in its own.
pub open spec fn ok_expr(r: Ranged<ExprModel>, lo: Location, hi: Location) -> bool {
    within(r, lo, hi) && r.body.nested(r.start, r.end)
}

/// Whether that holds of every one of `vs`.
pub open spec fn all_expr(vs: Seq<Ranged<ExprModel>>, lo: Location, hi: Location) -> bool {
    forall|i: int| 0 <= i < vs.len() ==> within(#[trigger] vs[i], lo, hi)
        && vs[i].body.nested(vs[i].start, vs[i].end)
}

/// Whether the range of a arm of a `match` lies in `lo..hi`, and the ranges of its
/// parts in its own.
pub open spec fn ok_arm(r: Ranged<MatchArmModel>, lo: Location, hi: Location) -> bool {
    within(r, lo, hi) && r.body.nested(r.start, r.end)
}

/// Whether that holds of every one of `vs`.
pub open spec fn all_arm(vs: Seq<Ranged<MatchArmModel>>, lo: Location, hi: Location) -> bool {
    forall|i: int| 0 <= i < vs.len() ==> within(#[trigger] vs[i], lo, hi)
        && vs[i].body.nested(vs[i].start, vs[i].end)
}

/// Whether the range of a argument of an application lies in `lo..hi`, and the ranges of its
/// parts in its own.
pub open spec fn ok_app_arg(r: Ranged<AppArgModel>, lo: Location, hi: Location) -> bool {
    within(r, lo, hi) && r.body.nested(r.start, r.end)
}

/// Whether that holds of every one of `vs`.
pub open spec fn all_app_arg(vs: Seq<Ranged<AppArgModel>>, lo: Location, hi: Location) -> bool {
    forall|i: int| 0 <= i < vs.len() ==> within(#[trigger] vs[i], lo, hi)
        && vs[i].body.nested(vs[i].start, vs[i].end)
}

/// Whether the range of a `unary` lies in `lo..hi`, and the ranges of its
/// parts in its own.
pub open spec fn ok_unary(r: Ranged<UnaryModel>, lo: Location, hi: Location) -> bool {
    within(r, lo, hi) && r.body.nested(r.start, r.end)
}

/// Whether that holds of every one of `vs`.
pub open spec fn all_unary(vs: Seq<Ranged<UnaryModel>>, lo: Location, hi: Location) -> bool {
    forall|i: int| 0 <= i < vs.len() ==> within(#[trigger] vs[i], lo, hi)
        && vs[i].body.nested(vs[i].start, vs[i].end)
}

/// Whether the range of a declaration lies in `lo..hi`, and the ranges of its
/// parts in its own.
pub open spec fn ok_statement(r: Ranged<StatementModel>, lo: Location, hi: Location) -> bool {
    within(r, lo, hi) && r.body.nested(r.start, r.end)
}

/// Whether that holds of every one of `vs`.
pub open spec fn all_statement(vs: Seq<Ranged<StatementModel>>, lo: Location,
    hi: Location) -> bool {
    forall|i: int| 0 <= i < vs.len() ==> within(#[trigger] vs[i], lo, hi)
        && vs[i].body.nested(vs[i].start, vs[i].end)
}

/// Whether the range of a parameter lies in `lo..hi`, and the ranges of its
/// parts in its own.
pub open spec fn ok_argument(r: Ranged<ArgumentModel>, lo: Location, hi: Location) -> bool {
    within(r, lo, hi) && r.body.nested(r.start, r.end)
}

/// Whether that holds of every one of `vs`.
pub open spec fn all_argument(vs: Seq<Ranged<ArgumentModel>>, lo: Location, hi: Location) -> bool {
    forall|i: int| 0 <= i < vs.len() ==> within(#[trigger] vs[i], lo, hi)
        && vs[i].body.nested(vs[i].start, vs[i].end)
}

/// Whether the range of a header line lies in `lo..hi`, and the ranges of its
/// parts in its own.
pub open spec fn ok_header(r: Ranged<HeaderModel>, lo: Location, hi: Location) -> bool {
    within(r, lo, hi) && r.body.nested(r.start, r.end)
}

/// Whether that holds of every one of `vs`.
pub open spec fn all_header(vs: Seq<Ranged<HeaderModel>>, lo: Location, hi: Location) -> bool {
    forall|i: int| 0 <= i < vs.len() ==> within(#[trigger] vs[i], lo, hi)
        && vs[i].body.nested(vs[i].start, vs[i].end)
}

/// Whether the range of a element of block text lies in `lo..hi`, and the ranges of its
/// parts in its own.
pub open spec fn ok_element(r: Ranged<VerticalElementModel>, lo: Location, hi: Location) -> bool {
    within(r, lo, hi) && r.body.nested(r.start, r.end)
}

/// Whether that holds of every one of `vs`.
pub open spec fn all_element(vs: Seq<Ranged<VerticalElementModel>>, lo: Location,
    hi: Location) -> bool {
    forall|i: int| 0 <= i < vs.len() ==> within(#[trigger] vs[i], lo, hi)
        && vs[i].body.nested(vs[i].start, vs[i].end)
}

/// Whether the range of a element of inline text lies in `lo..hi`, and the ranges of its
/// parts in its own.
pub open spec fn ok_token(r: Ranged<HorizontalTokenModel>, lo: Location, hi: Location) -> bool {
    within(r, lo, hi) && r.body.nested(r.start, r.end)
}

/// Whether that holds of every one of `vs`.
pub open spec fn all_token(vs: Seq<Ranged<HorizontalTokenModel>>, lo: Location,
    hi: Location) -> bool {
    forall|i: int| 0 <= i < vs.len() ==> within(#[trigger] vs[i], lo, hi)
        && vs[i].body.nested(vs[i].start, vs[i].end)
}

/// Whether the range of a item of a bullet list lies in `lo..hi`, and the ranges of its
/// parts in its own.
pub open spec fn ok_bullet(r: Ranged<HorizontalBulletModel>, lo: Location, hi: Location) -> bool {
    within(r, lo, hi) && r.body.nested(r.start, r.end)
}

/// Whether that holds of every one of `vs`.
pub open spec fn all_bullet(vs: Seq<Ranged<HorizontalBulletModel>>, lo: Location,
    hi: Location) -> bool {
    forall|i: int| 0 <= i < vs.len() ==> within(#[trigger] vs[i], lo, hi)
        && vs[i].body.nested(vs[i].start, vs[i].end)
}

/// Whether the range of a run of inline text lies in `lo..hi`, and the ranges of its
/// parts in its own.
pub open spec fn ok_single(r: Ranged<Seq<Ranged<HorizontalTokenModel>>>, lo: Location,
    hi: Location) -> bool {
    within(r, lo, hi) && all_token(r.body, r.start, r.end)
}

/// Whether that holds of every one of `vs`.
pub open spec fn all_single(vs: Seq<Ranged<Seq<Ranged<HorizontalTokenModel>>>>, lo: Location,
    hi: Location) -> bool {
    forall|i: int| 0 <= i < vs.len() ==> within(#[trigger] vs[i], lo, hi)
        && all_token(vs[i].body, vs[i].start, vs[i].end)
}

/// Whether the range of a optional argument of a command lies in `lo..hi`, and the ranges of its
/// parts in its own.
pub open spec fn ok_option(r: Ranged<Option<ExprModel>>, lo: Location, hi: Location) -> bool {
    within(r, lo, hi) && option_nested(r.body, r.start, r.end)
}

/// Whether that holds of every one of `vs`.
pub open spec fn all_option(vs: Seq<Ranged<Option<ExprModel>>>, lo: Location,
    hi: Location) -> bool {
    forall|i: int| 0 <= i < vs.len() ==> within(#[trigger] vs[i], lo, hi)
        && option_nested(vs[i].body, vs[i].start, vs[i].end)
}

/// Whether the range of a element of math text lies in `lo..hi`, and the ranges of its
/// parts in its own.
pub open spec fn ok_math_token(r: Ranged<MathTokenModel>, lo: Location, hi: Location) -> bool {
    within(r, lo, hi) && r.body.nested(r.start, r.end)
}

/// Whether that holds of every one of `vs`.
pub open spec fn all_math_token(vs: Seq<Ranged<MathTokenModel>>, lo: Location,
    hi: Location) -> bool {
    forall|i: int| 0 <= i < vs.len() ==> within(#[trigger] vs[i], lo, hi)
        && vs[i].body.nested(vs[i].start, vs[i].end)
}

/// Whether the range of a argument of a math command lies in `lo..hi`, and the ranges of its
/// parts in its own.
pub open spec fn ok_math_arg(r: Ranged<MathArgModel>, lo: Location, hi: Location) -> bool {
    within(r, lo, hi) && r.body.nested(r.start, r.end)
}

/// Whether that holds of every one of `vs`.
pub open spec fn all_math_arg(vs: Seq<Ranged<MathArgModel>>, lo: Location, hi: Location) -> bool {
    forall|i: int| 0 <= i < vs.len() ==> within(#[trigger] vs[i], lo, hi)
        && vs[i].body.nested(vs[i].start, vs[i].end)
}

/// Whether the range of a single element of math text lies in `lo..hi`, and the ranges of its
/// parts in its own.
pub open spec fn ok_math_unary(r: Ranged<MathUnaryModel>, lo: Location, hi: Location) -> bool {
    within(r, lo, hi) && r.body.nested(r.start, r.end)
}

/// Whether that holds of every one of `vs`.
pub open spec fn all_math_unary(vs: Seq<Ranged<MathUnaryModel>>, lo: Location,
    hi: Location) -> bool {
    forall|i: int| 0 <= i < vs.len() ==> within(#[trigger] vs[i], lo, hi)
        && vs[i].body.nested(vs[i].start, vs[i].end)
}

/// Whether the range of a group of math text lies in `lo..hi`, and the ranges of its
/// parts in its own.
pub open spec fn ok_math_group(r: Ranged<MathGroupModel>, lo: Location, hi: Location) -> bool {
    within(r, lo, hi) && r.body.nested(r.start, r.end)
}

/// Whether that holds of every one of `vs`.
pub open spec fn all_math_group(vs: Seq<Ranged<MathGroupModel>>, lo: Location,
    hi: Location) -> bool {
    forall|i: int| 0 <= i < vs.len() ==> within(#[trigger] vs[i], lo, hi)
        && vs[i].body.nested(vs[i].start, vs[i].end)
}

/// Whether the range of a run of math text lies in `lo..hi`, and the ranges of its
/// parts in its own.
pub open spec fn ok_math_single(r: Ranged<Seq<Ranged<MathTokenModel>>>, lo: Location,
    hi: Location) -> bool {
    within(r, lo, hi) && all_math_token(r.body, r.start, r.end)
}

/// Whether that holds of every one of `vs`.
pub open spec fn all_math_single(vs: Seq<Ranged<Seq<Ranged<MathTokenModel>>>>, lo: Location,
    hi: Location) -> bool {
    forall|i: int| 0 <= i < vs.len() ==> within(#[trigger] vs[i], lo, hi)
        && all_math_token(vs[i].body, vs[i].start, vs[i].end)
}

/// The range of the text of a node in scope lies in the scope.
pub proof fn lemma_text(b: Seq<u8>, t: Tree, a: int, z: int)
    requires
        scope(b, t, a, z),
    ensures
        ranged_text_of(b, t) matches Ok(m) ==> within(m, loc_at(b, a), loc_at(b, z)),
        forall|v: int| (#[trigger] at_node(b, t, v)) matches Ok(m)
            ==> within(m, loc_at(b, a), loc_at(b, z)),
{
    lemma_spans(b, t, a, z);
}

/// The ranges of a name and of the module before it lie in the scope.
pub proof fn lemma_qualified(b: Seq<u8>, t: Tree, a: int, z: int)
    requires
        scope(b, t, a, z),
    ensures
        qualified_of(b, t) matches Ok(m) ==> optional_within(m.0, loc_at(b, a), loc_at(b, z))
            && within(m.1, loc_at(b, a), loc_at(b, z)),
{
    lemma_text(b, t, a, z);
    if t.children.len() > 1 {
        lemma_child_scope(b, t, a, z, 0);
        lemma_child_scope(b, t, a, z, 1);
        lemma_text(b, t.children[0], a, z);
        lemma_text(b, t.children[1], a, z);
    }
}

/// The ranges in a length lie in the scope of its node.
pub proof fn lemma_length(b: Seq<u8>, t: Tree, a: int, z: int)
    requires
        scope(b, t, a, z),
    ensures
        length_of(b, t) matches Ok(m) ==> m.nested(loc_at(b, a), loc_at(b, z)),
{
    if t.children.len() > 1 {
        lemma_child_scope(b, t, a, z, 0);
        lemma_child_scope(b, t, a, z, 1);
        lemma_text(b, t.children[1], a, z);
    }
}

/// The ranges in a literal lie in the scope of its node.
pub proof fn lemma_literal(b: Seq<u8>, t: Tree, a: int, z: int)
    requires
        scope(b, t, a, z),
    ensures
        literal_of(b, t) matches Ok(m) ==> m.nested(loc_at(b, a), loc_at(b, z)),
{
    if t.children.len() > 0 {
        lemma_child_scope(b, t, a, z, 0);
        let c = t.children[0];
        if c.children.len() > 1 {
            lemma_child_scope(b, c, a, z, 0);
            lemma_child_scope(b, c, a, z, 1);
            lemma_text(b, c.children[1], a, z);
        }
    }
}

/// Where the children `from..to` of a node lower to patterns, the ranges of
/// these lie in the scope of the node, and the ranges of their parts in their
/// own.
#[verifier::spinoff_prover]
pub proof fn lemma_pattern_results(b: Seq<u8>, t: Tree, from: int, to: int, a: int, z: int)
    requires
        scope(b, t, a, z),
        0 <= from <= to <= t.children.len(),
    ensures
        collect(pattern_results(b, t, from, to)) matches Ok(m)
            ==> all_pattern(m, loc_at(b, a), loc_at(b, z)),
    decreases t, 0nat,
{
    reveal(pattern_results);
    let rs = pattern_results(b, t, from, to);
    if collect(rs) is Ok {
        let m = collect(rs)->Ok_0;
        assert forall|i: int| 0 <= i < m.len() implies ok_pattern(#[trigger] m[i], loc_at(b, a),
            loc_at(b, z)) by {
            lemma_collected(rs, 0);
            lemma_collected(rs, i);
            lemma_child_scope(b, t, a, z, from + i);
            lemma_ranged_pattern(b, t.children[from + i], a, z);
        }
    }
}

/// The ranges of what a variant pattern lowers to lie in the scope of its
/// node.
#[verifier::spinoff_prover]
pub proof fn lemma_pat_variant(b: Seq<u8>, t: Tree, a: int, z: int)
    requires
        scope(b, t, a, z),
    ensures
        pat_variant_of(b, t) matches Ok(m) ==> m.nested(loc_at(b, a), loc_at(b, z)),
    decreases t, 0nat,
{
    reveal(pat_variant_of);
    if t.children.len() > 0 {
        lemma_child_scope(b, t, a, z, 0);
        lemma_text(b, t.children[0], a, z);
    }
    if t.children.len() > 1 {
        lemma_child_scope(b, t, a, z, 1);
        lemma_ranged_pattern(b, t.children[1], a, z);
    }
}

/// The ranges of what a `head :: tail` pattern lowers to lie in the scope of
/// its node.
#[verifier::spinoff_prover]
pub proof fn lemma_pat_cons(b: Seq<u8>, t: Tree, a: int, z: int)
    requires
        scope(b, t, a, z),
    ensures
        pat_cons_of(b, t) matches Ok(m) ==> m.nested(loc_at(b, a), loc_at(b, z)),
    decreases t, 0nat,
{
    reveal(pat_cons_of);
    if t.children.len() > 0 {
        lemma_child_scope(b, t, a, z, 0);
        lemma_ranged_pattern(b, t.children[0], a, z);
    }
    if t.children.len() > 1 {
        lemma_child_scope(b, t, a, z, 1);
        lemma_ranged_pattern(b, t.children[1], a, z);
    }
}

/// The ranges of what a `pattern as variable` pattern lowers to lie in the
/// scope of its node.
#[verifier::spinoff_prover]
pub proof fn lemma_pat_as(b: Seq<u8>, t: Tree, a: int, z: int)
    requires
        scope(b, t, a, z),
    ensures
        pat_as_of(b, t) matches Ok(m) ==> m.nested(loc_at(b, a), loc_at(b, z)),
    decreases t, 0nat,
{
    reveal(pat_as_of);
    if t.children.len() > 0 {
        lemma_child_scope(b, t, a, z, 0);
        lemma_ranged_pattern(b, t.children[0], a, z);
    }
    if t.children.len() > 1 {
        lemma_child_scope(b, t, a, z, 1);
        lemma_text(b, t.children[1], a, z);
    }
}

/// The ranges of what a pattern lowers to lie in the scope of its node.
#[verifier::spinoff_prover]
pub proof fn lemma_pattern(b: Seq<u8>, t: Tree, a: int, z: int)
    requires
        scope(b, t, a, z),
    ensures
        pattern_of(b, t) matches Ok(m) ==> m.nested(loc_at(b, a), loc_at(b, z)),
    decreases t, 1nat,
{
    reveal(pattern_of);
    if t.rule == Rule::match_ptn || t.rule == Rule::pattern {
        if t.children.len() > 0 {
            lemma_child_scope(b, t, a, z, 0);
            lemma_pattern(b, t.children[0], a, z);
        }
    } else {
        lemma_literal(b, t, a, z);
        lemma_pattern_results(b, t, 0, t.children.len() as int, a, z);
        lemma_pat_variant(b, t, a, z);
        lemma_pat_cons(b, t, a, z);
        lemma_pat_as(b, t, a, z);
    }
}

/// Where a node lowers to a pattern, the range of that lies in the scope of
/// the node, and the ranges of its parts in its own.
#[verifier::spinoff_prover]
pub proof fn lemma_ranged_pattern(b: Seq<u8>, t: Tree, a: int, z: int)
    requires
        scope(b, t, a, z),
    ensures
        ranged_pattern_of(b, t) matches Ok(m) ==> ok_pattern(m, loc_at(b, a), loc_at(b, z)),
    decreases t, 2nat,
{
    reveal(ranged_pattern_of);
    lemma_spans(b, t, a, z);
    lemma_pattern(b, t, t.start, t.end);
}

/// Where the children `from..to` of a node lower to expressions, the ranges
/// of these lie in the scope of the node, and the ranges of their parts in
/// their own.
#[verifier::spinoff_prover]
pub proof fn lemma_expr_results(b: Seq<u8>, t: Tree, from: int, to: int, a: int, z: int)
    requires
        scope(b, t, a, z),
        0 <= from <= to <= t.children.len(),
    ensures
        collect(expr_results(b, t, from, to)) matches Ok(m)
            ==> all_expr(m, loc_at(b, a), loc_at(b, z)),
    decreases t, 0nat,
{
    reveal(expr_results);
    let rs = expr_results(b, t, from, to);
    if collect(rs) is Ok {
        let m = collect(rs)->Ok_0;
        assert forall|i: int| 0 <= i < m.len() implies ok_expr(#[trigger] m[i], loc_at(b, a),
            loc_at(b, z)) by {
            lemma_collected(rs, 0);
            lemma_collected(rs, i);
            lemma_child_scope(b, t, a, z, from + i);
            lemma_ranged_expr(b, t.children[from + i], a, z);
        }
    }
}

/// Where the children `from..to` of a node lower to arms of a `match`, the
/// ranges of these lie in the scope of the node, and the ranges of their
/// parts in their own.
#[verifier::spinoff_prover]
pub proof fn lemma_arm_results(b: Seq<u8>, t: Tree, from: int, to: int, a: int, z: int)
    requires
        scope(b, t, a, z),
        0 <= from <= to <= t.children.len(),
    ensures
        collect(arm_results(b, t, from, to)) matches Ok(m)
            ==> all_arm(m, loc_at(b, a), loc_at(b, z)),
    decreases t, 0nat,
{
    reveal(arm_results);
    let rs = arm_results(b, t, from, to);
    if collect(rs) is Ok {
        let m = collect(rs)->Ok_0;
        assert forall|i: int| 0 <= i < m.len() implies ok_arm(#[trigger] m[i], loc_at(b, a),
            loc_at(b, z)) by {
            lemma_collected(rs, 0);
            lemma_collected(rs, i);
            lemma_child_scope(b, t, a, z, from + i);
            lemma_ranged_arm(b, t.children[from + i], a, z);
        }
    }
}

/// Where the children `from..to` of a node lower to arguments of an
/// application, the ranges of these lie in the scope of the node, and the
/// ranges of their parts in their own.
#[verifier::spinoff_prover]
pub proof fn lemma_app_arg_results(b: Seq<u8>, t: Tree, from: int, to: int, a: int, z: int)
    requires
        scope(b, t, a, z),
        0 <= from <= to <= t.children.len(),
    ensures
        collect(app_arg_results(b, t, from, to)) matches Ok(m)
            ==> all_app_arg(m, loc_at(b, a), loc_at(b, z)),
    decreases t, 0nat,
{
    reveal(app_arg_results);
    let rs = app_arg_results(b, t, from, to);
    if collect(rs) is Ok {
        let m = collect(rs)->Ok_0;
        assert forall|i: int| 0 <= i < m.len() implies ok_app_arg(#[trigger] m[i], loc_at(b, a),
            loc_at(b, z)) by {
            lemma_collected(rs, 0);
            lemma_collected(rs, i);
            lemma_child_scope(b, t, a, z, from + i);
            lemma_ranged_app_arg(b, t.children[from + i], a, z);
        }
    }
}

/// Where the children `from..to` of a node lower to fields of a record, the
/// ranges of these lie in the scope of the node, and the ranges of their
/// parts in their own.
#[verifier::spinoff_prover]
pub proof fn lemma_record_unit_results(b: Seq<u8>, t: Tree, from: int, to: int, a: int, z: int)
    requires
        scope(b, t, a, z),
        0 <= from <= to <= t.children.len(),
    ensures
        collect(record_unit_results(b, t, from, to)) matches Ok(m)
            ==> all_record_unit(m, loc_at(b, a), loc_at(b, z)),
    decreases t, 0nat,
{
    reveal(record_unit_results);
    let rs = record_unit_results(b, t, from, to);
    if collect(rs) is Ok {
        let m = collect(rs)->Ok_0;
        assert forall|i: int| 0 <= i < m.len() implies (#[trigger] m[i]).nested(loc_at(b, a),
            loc_at(b, z)) by {
            lemma_collected(rs, 0);
            lemma_collected(rs, i);
            lemma_child_scope(b, t, a, z, from + i);
            lemma_record_unit(b, t.children[from + i], a, z);
        }
    }
}

/// Where the children `from..to` of a node lower to declarations, the ranges
/// of these lie in the scope of the node, and the ranges of their parts in
/// their own.
#[verifier::spinoff_prover]
pub proof fn lemma_statement_results(b: Seq<u8>, t: Tree, from: int, to: int, a: int, z: int)
    requires
        scope(b, t, a, z),
        0 <= from <= to <= t.children.len(),
    ensures
        collect(statement_results(b, t, from, to)) matches Ok(m)
            ==> all_statement(m, loc_at(b, a), loc_at(b, z)),
    decreases t, 0nat,
{
    reveal(statement_results);
    let rs = statement_results(b, t, from, to);
    if collect(rs) is Ok {
        let m = collect(rs)->Ok_0;
        assert forall|i: int| 0 <= i < m.len() implies ok_statement(#[trigger] m[i], loc_at(b,
            a), loc_at(b, z)) by {
            lemma_collected(rs, 0);
            lemma_collected(rs, i);
            lemma_child_scope(b, t, a, z, from + i);
            lemma_ranged_statement(b, t.children[from + i], a, z);
        }
    }
}

/// Where the children `from..to` of a node lower to parameters, the ranges of
/// these lie in the scope of the node, and the ranges of their parts in their
/// own.
#[verifier::spinoff_prover]
pub proof fn lemma_argument_results(b: Seq<u8>, t: Tree, from: int, to: int, a: int, z: int)
    requires
        scope(b, t, a, z),
        0 <= from <= to <= t.children.len(),
    ensures
        collect(argument_results(b, t, from, to)) matches Ok(m)
            ==> all_argument(m, loc_at(b, a), loc_at(b, z)),
    decreases t, 0nat,
{
    reveal(argument_results);
    let rs = argument_results(b, t, from, to);
    if collect(rs) is Ok {
        let m = collect(rs)->Ok_0;
        assert forall|i: int| 0 <= i < m.len() implies ok_argument(#[trigger] m[i], loc_at(b, a),
            loc_at(b, z)) by {
            lemma_collected(rs, 0);
            lemma_collected(rs, i);
            lemma_child_scope(b, t, a, z, from + i);
            lemma_ranged_argument(b, t.children[from + i], a, z);
        }
    }
}

/// Where the children `from..to` of a node lower to elements of block text,
/// the ranges of these lie in the scope of the node, and the ranges of their
/// parts in their own.
#[verifier::spinoff_prover]
pub proof fn lemma_element_results(b: Seq<u8>, t: Tree, from: int, to: int, a: int, z: int)
    requires
        scope(b, t, a, z),
        0 <= from <= to <= t.children.len(),
    ensures
        collect(element_results(b, t, from, to)) matches Ok(m)
            ==> all_element(m, loc_at(b, a), loc_at(b, z)),
    decreases t, 0nat,
{
    reveal(element_results);
    let rs = element_results(b, t, from, to);
    if collect(rs) is Ok {
        let m = collect(rs)->Ok_0;
        assert forall|i: int| 0 <= i < m.len() implies ok_element(#[trigger] m[i], loc_at(b, a),
            loc_at(b, z)) by {
            lemma_collected(rs, 0);
            lemma_collected(rs, i);
            lemma_child_scope(b, t, a, z, from + i);
            lemma_ranged_element(b, t.children[from + i], a, z);
        }
    }
}

/// Where the children `from..to` of a node lower to elements of inline text,
/// the ranges of these lie in the scope of the node, and the ranges of their
/// parts in their own.
#[verifier::spinoff_prover]
pub proof fn lemma_token_results(b: Seq<u8>, t: Tree, from: int, to: int, a: int, z: int)
    requires
        scope(b, t, a, z),
        0 <= from <= to <= t.children.len(),
    ensures
        collect(token_results(b, t, from, to)) matches Ok(m)
            ==> all_token(m, loc_at(b, a), loc_at(b, z)),
    decreases t, 0nat,
{
    reveal(token_results);
    let rs = token_results(b, t, from, to);
    if collect(rs) is Ok {
        let m = collect(rs)->Ok_0;
        assert forall|i: int| 0 <= i < m.len() implies ok_token(#[trigger] m[i], loc_at(b, a),
            loc_at(b, z)) by {
            lemma_collected(rs, 0);
            lemma_collected(rs, i);
            lemma_child_scope(b, t, a, z, from + i);
            lemma_ranged_token(b, t.children[from + i], a, z);
        }
    }
}

/// Where the children `from..to` of a node lower to runs of inline text, the
/// ranges of these lie in the scope of the node, and the ranges of their
/// parts in their own.
#[verifier::spinoff_prover]
pub proof fn lemma_single_results(b: Seq<u8>, t: Tree, from: int, to: int, a: int, z: int)
    requires
        scope(b, t, a, z),
        0 <= from <= to <= t.children.len(),
    ensures
        collect(single_results(b, t, from, to)) matches Ok(m)
            ==> all_single(m, loc_at(b, a), loc_at(b, z)),
    decreases t, 0nat,
{
    reveal(single_results);
    let rs = single_results(b, t, from, to);
    if collect(rs) is Ok {
        let m = collect(rs)->Ok_0;
        assert forall|i: int| 0 <= i < m.len() implies ok_single(#[trigger] m[i], loc_at(b, a),
            loc_at(b, z)) by {
            lemma_collected(rs, 0);
            lemma_collected(rs, i);
            lemma_child_scope(b, t, a, z, from + i);
            lemma_ranged_single(b, t.children[from + i], a, z);
        }
    }
}

/// Where the children `from..to` of a node lower to items of a bullet list,
/// the ranges of these lie in the scope of the node, and the ranges of their
/// parts in their own.
#[verifier::spinoff_prover]
pub proof fn lemma_bullet_results(b: Seq<u8>, t: Tree, from: int, to: int, a: int, z: int)
    requires
        scope(b, t, a, z),
        0 <= from <= to <= t.children.len(),
    ensures
        collect(bullet_results(b, t, from, to)) matches Ok(m)
            ==> all_bullet(m, loc_at(b, a), loc_at(b, z)),
    decreases t, 0nat,
{
    reveal(bullet_results);
    let rs = bullet_results(b, t, from, to);
    if collect(rs) is Ok {
        let m = collect(rs)->Ok_0;
        assert forall|i: int| 0 <= i < m.len() implies ok_bullet(#[trigger] m[i], loc_at(b, a),
            loc_at(b, z)) by {
            lemma_collected(rs, 0);
            lemma_collected(rs, i);
            lemma_child_scope(b, t, a, z, from + i);
            lemma_ranged_bullet(b, t.children[from + i], a, z);
        }
    }
}

/// Where the children `from..to` of a node lower to optional arguments of a
/// command, the ranges of these lie in the scope of the node, and the ranges
/// of their parts in their own.
#[verifier::spinoff_prover]
pub proof fn lemma_option_results(b: Seq<u8>, t: Tree, from: int, to: int, a: int, z: int)
    requires
        scope(b, t, a, z),
        0 <= from <= to <= t.children.len(),
    ensures
        collect(option_results(b, t, from, to)) matches Ok(m)
            ==> all_option(m, loc_at(b, a), loc_at(b, z)),
    decreases t, 0nat,
{
    reveal(option_results);
    let rs = option_results(b, t, from, to);
    if collect(rs) is Ok {
        let m = collect(rs)->Ok_0;
        assert forall|i: int| 0 <= i < m.len() implies ok_option(#[trigger] m[i], loc_at(b, a),
            loc_at(b, z)) by {
            lemma_collected(rs, 0);
            lemma_collected(rs, i);
            lemma_child_scope(b, t, a, z, from + i);
            lemma_ranged_option(b, t.children[from + i], a, z);
        }
    }
}

/// Where the children `from..to` of a node lower to arguments of a command,
/// the ranges of these lie in the scope of the node, and the ranges of their
/// parts in their own.
#[verifier::spinoff_prover]
pub proof fn lemma_cmd_arg_results(b: Seq<u8>, t: Tree, from: int, to: int, a: int, z: int)
    requires
        scope(b, t, a, z),
        0 <= from <= to <= t.children.len(),
    ensures
        collect(cmd_arg_results(b, t, from, to)) matches Ok(m)
            ==> all_expr(m, loc_at(b, a), loc_at(b, z)),
    decreases t, 0nat,
{
    reveal(cmd_arg_results);
    let rs = cmd_arg_results(b, t, from, to);
    if collect(rs) is Ok {
        let m = collect(rs)->Ok_0;
        assert forall|i: int| 0 <= i < m.len() implies ok_expr(#[trigger] m[i], loc_at(b, a),
            loc_at(b, z)) by {
            lemma_collected(rs, 0);
            lemma_collected(rs, i);
            lemma_child_scope(b, t, a, z, from + i);
            lemma_ranged_cmd_arg(b, t.children[from + i], a, z);
        }
    }
}

/// Where the children `from..to` of a node lower to header lines, the ranges
/// of these lie in the scope of the node, and the ranges of their parts in
/// their own.
#[verifier::spinoff_prover]
pub proof fn lemma_header_results(b: Seq<u8>, t: Tree, from: int, to: int, a: int, z: int)
    requires
        scope(b, t, a, z),
        0 <= from <= to <= t.children.len(),
    ensures
        collect(header_results(b, t, from, to)) matches Ok(m)
            ==> all_header(m, loc_at(b, a), loc_at(b, z)),
    decreases t, 0nat,
{
    reveal(header_results);
    let rs = header_results(b, t, from, to);
    if collect(rs) is Ok {
        let m = collect(rs)->Ok_0;
        assert forall|i: int| 0 <= i < m.len() implies ok_header(#[trigger] m[i], loc_at(b, a),
            loc_at(b, z)) by {
            lemma_collected(rs, 0);
            lemma_collected(rs, i);
            lemma_child_scope(b, t, a, z, from + i);
            lemma_ranged_header(b, t.children[from + i], a, z);
        }
    }
}

/// Where the children `from..to` of a node lower to elements of math text,
/// the ranges of these lie in the scope of the node, and the ranges of their
/// parts in their own.
#[verifier::spinoff_prover]
pub proof fn lemma_math_token_results(b: Seq<u8>, t: Tree, from: int, to: int, a: int, z: int)
    requires
        scope(b, t, a, z),
        0 <= from <= to <= t.children.len(),
    ensures
        collect(math_token_results(b, t, from, to)) matches Ok(m)
            ==> all_math_token(m, loc_at(b, a), loc_at(b, z)),
    decreases t, 0nat,
{
    reveal(math_token_results);
    let rs = math_token_results(b, t, from, to);
    if collect(rs) is Ok {
        let m = collect(rs)->Ok_0;
        assert forall|i: int| 0 <= i < m.len() implies ok_math_token(#[trigger] m[i], loc_at(b,
            a), loc_at(b, z)) by {
            lemma_collected(rs, 0);
            lemma_collected(rs, i);
            lemma_child_scope(b, t, a, z, from + i);
            lemma_ranged_math_token(b, t.children[from + i], a, z);
        }
    }
}

/// Where the children `from..to` of a node lower to runs of math text, the
/// ranges of these lie in the scope of the node, and the ranges of their
/// parts in their own.
#[verifier::spinoff_prover]
pub proof fn lemma_math_single_results(b: Seq<u8>, t: Tree, from: int, to: int, a: int, z: int)
    requires
        scope(b, t, a, z),
        0 <= from <= to <= t.children.len(),
    ensures
        collect(math_single_results(b, t, from, to)) matches Ok(m)
            ==> all_math_single(m, loc_at(b, a), loc_at(b, z)),
    decreases t, 0nat,
{
    reveal(math_single_results);
    let rs = math_single_results(b, t, from, to);
    if collect(rs) is Ok {
        let m = collect(rs)->Ok_0;
        assert forall|i: int| 0 <= i < m.len() implies ok_math_single(#[trigger] m[i], loc_at(b,
            a), loc_at(b, z)) by {
            lemma_collected(rs, 0);
            lemma_collected(rs, i);
            lemma_child_scope(b, t, a, z, from + i);
            lemma_ranged_math_single(b, t.children[from + i], a, z);
        }
    }
}

/// Where the children `from..to` of a node lower to arguments of a math
/// command, the ranges of these lie in the scope of the node, and the ranges
/// of their parts in their own.
#[verifier::spinoff_prover]
pub proof fn lemma_math_arg_results(b: Seq<u8>, t: Tree, from: int, to: int, a: int, z: int)
    requires
        scope(b, t, a, z),
        0 <= from <= to <= t.children.len(),
    ensures
        collect(math_arg_results(b, t, from, to)) matches Ok(m)
            ==> all_math_arg(m, loc_at(b, a), loc_at(b, z)),
    decreases t, 0nat,
{
    reveal(math_arg_results);
    let rs = math_arg_results(b, t, from, to);
    if collect(rs) is Ok {
        let m = collect(rs)->Ok_0;
        assert forall|i: int| 0 <= i < m.len() implies ok_math_arg(#[trigger] m[i], loc_at(b, a),
            loc_at(b, z)) by {
            lemma_collected(rs, 0);
            lemma_collected(rs, i);
            lemma_child_scope(b, t, a, z, from + i);
            lemma_ranged_math_arg(b, t.children[from + i], a, z);
        }
    }
}

/// Where the children `from..to` of a node lower to optional arguments of a
/// math command, the ranges of these lie in the scope of the node, and the
/// ranges of their parts in their own.
#[verifier::spinoff_prover]
pub proof fn lemma_math_option_results(b: Seq<u8>, t: Tree, from: int, to: int, a: int, z: int)
    requires
        scope(b, t, a, z),
        0 <= from <= to <= t.children.len(),
    ensures
        collect(math_option_results(b, t, from, to)) matches Ok(m)
            ==> all_math_arg(m, loc_at(b, a), loc_at(b, z)),
    decreases t, 0nat,
{
    reveal(math_option_results);
    let rs = math_option_results(b, t, from, to);
    if collect(rs) is Ok {
        let m = collect(rs)->Ok_0;
        assert forall|i: int| 0 <= i < m.len() implies ok_math_arg(#[trigger] m[i], loc_at(b, a),
            loc_at(b, z)) by {
            lemma_collected(rs, 0);
            lemma_collected(rs, i);
            lemma_child_scope(b, t, a, z, from + i);
            lemma_ranged_math_option(b, t.children[from + i], a, z);
        }
    }
}

/// The ranges of what `declaration in expression` lowers to lie in the scope
/// of its node.
#[verifier::spinoff_prover]
pub proof fn lemma_let_in(b: Seq<u8>, t: Tree, a: int, z: int)
    requires
        scope(b, t, a, z),
    ensures
        let_in_of(b, t) matches Ok(m) ==> m.nested(loc_at(b, a), loc_at(b, z)),
    decreases t, 1nat,
{
    reveal(let_in_of);
    if t.children.len() > 1 && t.children[0].children.len() > 0 {
        lemma_child_scope(b, t, a, z, 0);
        lemma_child_scope(b, t.children[0], a, z, 0);
        lemma_ranged_statement(b, t.children[0].children[0], a, z);
        lemma_child_scope(b, t, a, z, 1);
        lemma_ranged_expr(b, t.children[1], a, z);
    }
}

/// The ranges of what a `match` lowers to lie in the scope of its node.
#[verifier::spinoff_prover]
pub proof fn lemma_match(b: Seq<u8>, t: Tree, a: int, z: int)
    requires
        scope(b, t, a, z),
    ensures
        match_of(b, t) matches Ok(m) ==> m.nested(loc_at(b, a), loc_at(b, z)),
    decreases t, 1nat,
{
    reveal(match_of);
    if t.children.len() > 0 {
        lemma_child_scope(b, t, a, z, 0);
        lemma_ranged_expr(b, t.children[0], a, z);
    }
    if t.children.len() > 1 {
        lemma_arm_results(b, t, 1, t.children.len() as int, a, z);
    }
}

/// The ranges of what an arm of a `match` lowers to lie in the scope of its
/// node.
#[verifier::spinoff_prover]
pub proof fn lemma_arm(b: Seq<u8>, t: Tree, a: int, z: int)
    requires
        scope(b, t, a, z),
    ensures
        arm_of(b, t) matches Ok(m) ==> m.nested(loc_at(b, a), loc_at(b, z)),
    decreases t, 1nat,
{
    reveal(arm_of);
    if t.children.len() > 0 {
        lemma_child_scope(b, t, a, z, 0);
        lemma_ranged_pattern(b, t.children[0], a, z);
    }
    if t.children.len() > 1 {
        lemma_child_scope(b, t, a, z, 1);
        lemma_ranged_expr(b, t.children[1], a, z);
    }
    if t.children.len() > 2 {
        lemma_child_scope(b, t, a, z, 2);
        lemma_ranged_expr(b, t.children[2], a, z);
    }
    if t.children.len() > 1 && t.children[1].children.len() > 0 {
        lemma_child_scope(b, t.children[1], a, z, 0);
        lemma_ranged_expr(b, t.children[1].children[0], a, z);
    }
}

/// Where a node lowers to an arm of a `match`, the range of that lies in the
/// scope of the node, and the ranges of its parts in its own.
#[verifier::spinoff_prover]
pub proof fn lemma_ranged_arm(b: Seq<u8>, t: Tree, a: int, z: int)
    requires
        scope(b, t, a, z),
    ensures
        ranged_arm_of(b, t) matches Ok(m) ==> ok_arm(m, loc_at(b, a), loc_at(b, z)),
    decreases t, 2nat,
{
    reveal(ranged_arm_of);
    lemma_spans(b, t, a, z);
    lemma_arm(b, t, t.start, t.end);
}

/// The ranges of what a `while` lowers to lie in the scope of its node.
#[verifier::spinoff_prover]
pub proof fn lemma_while(b: Seq<u8>, t: Tree, a: int, z: int)
    requires
        scope(b, t, a, z),
    ensures
        while_of(b, t) matches Ok(m) ==> m.nested(loc_at(b, a), loc_at(b, z)),
    decreases t, 1nat,
{
    reveal(while_of);
    if t.children.len() > 0 {
        lemma_child_scope(b, t, a, z, 0);
        lemma_ranged_expr(b, t.children[0], a, z);
    }
    if t.children.len() > 1 {
        lemma_child_scope(b, t, a, z, 1);
        lemma_ranged_expr(b, t.children[1], a, z);
    }
}

/// The ranges of what an `if` lowers to lie in the scope of its node.
#[verifier::spinoff_prover]
pub proof fn lemma_if(b: Seq<u8>, t: Tree, a: int, z: int)
    requires
        scope(b, t, a, z),
    ensures
        if_of(b, t) matches Ok(m) ==> m.nested(loc_at(b, a), loc_at(b, z)),
    decreases t, 1nat,
{
    reveal(if_of);
    if t.children.len() > 0 {
        lemma_child_scope(b, t, a, z, 0);
        lemma_ranged_expr(b, t.children[0], a, z);
    }
    if t.children.len() > 1 {
        lemma_child_scope(b, t, a, z, 1);
        lemma_ranged_expr(b, t.children[1], a, z);
    }
    if t.children.len() > 2 {
        lemma_child_scope(b, t, a, z, 2);
        lemma_ranged_expr(b, t.children[2], a, z);
    }
}

/// The ranges of what an operator between two operands lowers to lie in the
/// scope of its node.
#[verifier::spinoff_prover]
pub proof fn lemma_dyadic(b: Seq<u8>, t: Tree, a: int, z: int)
    requires
        scope(b, t, a, z),
    ensures
        dyadic_of(b, t) matches Ok(m) ==> m.nested(loc_at(b, a), loc_at(b, z)),
    decreases t, 1nat,
{
    reveal(dyadic_of);
    if t.children.len() > 0 {
        lemma_child_scope(b, t, a, z, 0);
        lemma_ranged_expr(b, t.children[0], a, z);
    }
    if t.children.len() > 1 {
        lemma_child_scope(b, t, a, z, 1);
        lemma_text(b, t.children[1], a, z);
    }
    if t.children.len() > 2 {
        lemma_child_scope(b, t, a, z, 2);
        lemma_ranged_expr(b, t.children[2], a, z);
    }
}

/// The ranges of what an operand behind a unary operator lowers to lie in the
/// scope of its node.
#[verifier::spinoff_prover]
pub proof fn lemma_unary_operator(b: Seq<u8>, t: Tree, a: int, z: int)
    requires
        scope(b, t, a, z),
    ensures
        unary_operator_of(b, t) matches Ok(m) ==> m.nested(loc_at(b, a), loc_at(b, z)),
    decreases t, 1nat,
{
    reveal(unary_operator_of);
    if t.children.len() > 0 {
        lemma_child_scope(b, t, a, z, 0);
        lemma_text(b, t.children[0], a, z);
    }
    if t.children.len() > 1 {
        lemma_child_scope(b, t, a, z, 1);
        lemma_ranged_expr(b, t.children[1], a, z);
    }
}

/// The ranges of what a variant lowers to lie in the scope of its node.
#[verifier::spinoff_prover]
pub proof fn lemma_variant(b: Seq<u8>, t: Tree, a: int, z: int)
    requires
        scope(b, t, a, z),
    ensures
        variant_of(b, t) matches Ok(m) ==> m.nested(loc_at(b, a), loc_at(b, z)),
    decreases t, 1nat,
{
    reveal(variant_of);
    if t.children.len() > 0 {
        lemma_child_scope(b, t, a, z, 0);
        lemma_text(b, t.children[0], a, z);
    }
    if t.children.len() > 1 {
        lemma_child_scope(b, t, a, z, 1);
        lemma_ranged_unary(b, t.children[1], a, z);
    }
}

/// The ranges of what `record # member` lowers to lie in the scope of its
/// node.
#[verifier::spinoff_prover]
pub proof fn lemma_member(b: Seq<u8>, t: Tree, a: int, z: int)
    requires
        scope(b, t, a, z),
    ensures
        member_of(b, t) matches Ok(m) ==> m.nested(loc_at(b, a), loc_at(b, z)),
    decreases t, 1nat,
{
    reveal(member_of);
    if t.children.len() > 0 {
        lemma_child_scope(b, t, a, z, 0);
        lemma_ranged_unary(b, t.children[0], a, z);
    }
    if t.children.len() > 1 {
        lemma_child_scope(b, t, a, z, 1);
        lemma_text(b, t.children[1], a, z);
    }
}

/// The ranges of what an argument of an application lowers to lie in the
/// scope of its node.
#[verifier::spinoff_prover]
pub proof fn lemma_app_arg(b: Seq<u8>, t: Tree, a: int, z: int)
    requires
        scope(b, t, a, z),
    ensures
        app_arg_of(b, t) matches Ok(m) ==> m.nested(loc_at(b, a), loc_at(b, z)),
    decreases t, 2nat,
{
    reveal(app_arg_of);
    lemma_unary(b, t, a, z);
    if t.children.len() > 0 {
        lemma_child_scope(b, t, a, z, 0);
        lemma_unary(b, t.children[0], a, z);
    }
}

/// Where a node lowers to an argument of an application, the range of that
/// lies in the scope of the node, and the ranges of its parts in its own.
#[verifier::spinoff_prover]
pub proof fn lemma_ranged_app_arg(b: Seq<u8>, t: Tree, a: int, z: int)
    requires
        scope(b, t, a, z),
    ensures
        ranged_app_arg_of(b, t) matches Ok(m) ==> ok_app_arg(m, loc_at(b, a), loc_at(b, z)),
    decreases t, 3nat,
{
    reveal(ranged_app_arg_of);
    lemma_spans(b, t, a, z);
    lemma_app_arg(b, t, t.start, t.end);
}

/// The ranges of what an application lowers to lie in the scope of its node.
#[verifier::spinoff_prover]
pub proof fn lemma_application(b: Seq<u8>, t: Tree, a: int, z: int)
    requires
        scope(b, t, a, z),
    ensures
        application_of(b, t) matches Ok(m) ==> m.nested(loc_at(b, a), loc_at(b, z)),
    decreases t, 1nat,
{
    reveal(application_of);
    if t.children.len() > 0 {
        lemma_child_scope(b, t, a, z, 0);
        lemma_text(b, t.children[0], a, z);
        lemma_qualified(b, t.children[0], a, z);
    }
    if t.children.len() > 0 {
        lemma_app_arg_results(b, t, 1, t.children.len() as int, a, z);
    }
}

/// The ranges of what a field of a record lowers to lie in the scope of its
/// node.
#[verifier::spinoff_prover]
pub proof fn lemma_record_unit(b: Seq<u8>, t: Tree, a: int, z: int)
    requires
        scope(b, t, a, z),
    ensures
        record_unit_of(b, t) matches Ok(m) ==> m.nested(loc_at(b, a), loc_at(b, z)),
    decreases t, 1nat,
{
    reveal(record_unit_of);
    if t.children.len() > 0 {
        lemma_child_scope(b, t, a, z, 0);
        lemma_text(b, t.children[0], a, z);
    }
    if t.children.len() > 1 {
        lemma_child_scope(b, t, a, z, 1);
        lemma_ranged_expr(b, t.children[1], a, z);
    }
}

/// The ranges of what a record lowers to lie in the scope of its node.
#[verifier::spinoff_prover]
pub proof fn lemma_record(b: Seq<u8>, t: Tree, a: int, z: int)
    requires
        scope(b, t, a, z),
    ensures
        record_of(b, t) matches Ok(m) ==> m.nested(loc_at(b, a), loc_at(b, z)),
    decreases t, 1nat,
{
    reveal(record_of);
    if t.children.len() > 0 {
        lemma_child_scope(b, t, a, z, 0);
        let c = t.children[0];
        lemma_ranged_unary(b, c, a, z);
        lemma_record_unit_results(b, c, 0, c.children.len() as int, a, z);
    }
    if t.children.len() > 1 {
        lemma_child_scope(b, t, a, z, 1);
        let c = t.children[1];
        lemma_record_unit_results(b, c, 0, c.children.len() as int, a, z);
    }
}

/// The ranges of what a tuple lowers to lie in the scope of its node.
#[verifier::spinoff_prover]
pub proof fn lemma_tuple(b: Seq<u8>, t: Tree, a: int, z: int)
    requires
        scope(b, t, a, z),
    ensures
        tuple_of(b, t) matches Ok(m) ==> all_expr(m, loc_at(b, a), loc_at(b, z)),
    decreases t, 1nat,
{
    reveal(tuple_of);
    lemma_expr_results(b, t, 0, t.children.len() as int, a, z);
}

/// The ranges of what a list lowers to lie in the scope of its node.
#[verifier::spinoff_prover]
pub proof fn lemma_list(b: Seq<u8>, t: Tree, a: int, z: int)
    requires
        scope(b, t, a, z),
    ensures
        list_of(b, t) matches Ok(m) ==> all_expr(m, loc_at(b, a), loc_at(b, z)),
    decreases t, 1nat,
{
    reveal(list_of);
    lemma_expr_results(b, t, 0, t.children.len() as int, a, z);
}

/// The ranges of what an expression behind the name of a module lowers to lie
/// in the scope of its node.
#[verifier::spinoff_prover]
pub proof fn lemma_expr_with_mod(b: Seq<u8>, t: Tree, a: int, z: int)
    requires
        scope(b, t, a, z),
    ensures
        expr_with_mod_of(b, t) matches Ok(m) ==> m.nested(loc_at(b, a), loc_at(b, z)),
    decreases t, 1nat,
{
    reveal(expr_with_mod_of);
    if t.children.len() > 0 {
        lemma_child_scope(b, t, a, z, 0);
        lemma_text(b, t.children[0], a, z);
    }
    if t.children.len() > 1 {
        lemma_child_scope(b, t, a, z, 1);
        lemma_ranged_expr(b, t.children[1], a, z);
    }
}

/// The ranges of what text in brackets lowers to lie in the scope of its
/// node.
#[verifier::spinoff_prover]
pub proof fn lemma_text_of_mode(b: Seq<u8>, t: Tree, a: int, z: int)
    requires
        scope(b, t, a, z),
    ensures
        text_of_mode(b, t) matches Ok(m) ==> m.nested(loc_at(b, a), loc_at(b, z)),
    decreases t, 1nat,
{
    reveal(text_of_mode);
    if t.children.len() > 0 {
        lemma_child_scope(b, t, a, z, 0);
        lemma_vertical(b, t.children[0], a, z);
        lemma_horizontal(b, t.children[0], a, z);
        lemma_math_mode(b, t.children[0], a, z);
    }
}

/// The ranges of what a `unary` node lowers to lie in the scope of its node.
#[verifier::spinoff_prover]
pub proof fn lemma_unary(b: Seq<u8>, t: Tree, a: int, z: int)
    requires
        scope(b, t, a, z),
    ensures
        unary_of(b, t) matches Ok(m) ==> m.nested(loc_at(b, a), loc_at(b, z)),
    decreases t, 1nat,
{
    reveal(unary_of);
    if t.children.len() > 0 {
        lemma_child_scope(b, t, a, z, 0);
        let c = t.children[0];
        lemma_text_of_mode(b, c, a, z);
        lemma_record(b, c, a, z);
        lemma_list(b, c, a, z);
        lemma_tuple(b, c, a, z);
        lemma_literal(b, c, a, z);
        lemma_ranged_expr(b, c, a, z);
        lemma_expr_with_mod(b, c, a, z);
        lemma_qualified(b, c, a, z);
    }
}

/// Where a node lowers to a `unary`, the range of that lies in the scope of
/// the node, and the ranges of its parts in its own.
#[verifier::spinoff_prover]
pub proof fn lemma_ranged_unary(b: Seq<u8>, t: Tree, a: int, z: int)
    requires
        scope(b, t, a, z),
    ensures
        ranged_unary_of(b, t) matches Ok(m) ==> ok_unary(m, loc_at(b, a), loc_at(b, z)),
    decreases t, 2nat,
{
    reveal(ranged_unary_of);
    lemma_spans(b, t, a, z);
    lemma_unary(b, t, t.start, t.end);
}

/// The ranges of what an expression lowers to lie in the scope of its node.
#[verifier::spinoff_prover]
pub proof fn lemma_expr(b: Seq<u8>, t: Tree, a: int, z: int)
    requires
        scope(b, t, a, z),
    ensures
        expr_of(b, t) matches Ok(m) ==> m.nested(loc_at(b, a), loc_at(b, z)),
    decreases t, 3nat,
{
    reveal(expr_of);
    if t.rule == Rule::expr {
        if t.children.len() > 0 {
            if t.children[0].rule == Rule::bind_stmt {
                lemma_let_in(b, t, a, z);
            } else if t.children[0].rule != Rule::expr {
                lemma_child_scope(b, t, a, z, 0);
                lemma_expr(b, t.children[0], a, z);
            }
        }
    } else {
        lemma_match(b, t, a, z);
        lemma_while(b, t, a, z);
        lemma_if(b, t, a, z);
        lemma_dyadic(b, t, a, z);
        lemma_unary_operator(b, t, a, z);
        lemma_variant(b, t, a, z);
        lemma_member(b, t, a, z);
        lemma_application(b, t, t.start, t.end);
        lemma_ranged_unary(b, t, a, z);
        lemma_spans(b, t, a, z);
    }
}

/// Where a node lowers to an expression, the range of that lies in the scope
/// of the node, and the ranges of its parts in its own.
#[verifier::spinoff_prover]
pub proof fn lemma_ranged_expr(b: Seq<u8>, t: Tree, a: int, z: int)
    requires
        scope(b, t, a, z),
    ensures
        ranged_expr_of(b, t) matches Ok(m) ==> ok_expr(m, loc_at(b, a), loc_at(b, z)),
    decreases t, 4nat,
{
    reveal(ranged_expr_of);
    lemma_spans(b, t, a, z);
    lemma_expr(b, t, t.start, t.end);
}

/// The optional arguments of a command end among its children.
proof fn lemma_options_end(t: Tree, from: int)
    requires
        0 <= from <= t.children.len(),
    ensures
        from <= options_end(t, from) <= t.children.len(),
    decreases t.children.len() - from,
{
    reveal(options_end);
    if from < t.children.len() {
        lemma_options_end(t, from + 1);
    }
}

/// The ranges of a variable to insert lie in the scope of its node.
pub proof fn lemma_embedding(b: Seq<u8>, t: Tree, a: int, z: int)
    requires
        scope(b, t, a, z),
    ensures
        embedding_of(b, t) matches Ok(m) ==> optional_within(m.0, loc_at(b, a), loc_at(b, z))
            && within(m.1, loc_at(b, a), loc_at(b, z)),
{
    reveal(embedding_of);
    if t.children.len() > 0 {
        lemma_child_scope(b, t, a, z, 0);
        lemma_qualified(b, t.children[0], a, z);
    }
}

/// The ranges of what an optional argument of a command lowers to lie in the
/// scope of its node.
#[verifier::spinoff_prover]
pub proof fn lemma_option(b: Seq<u8>, t: Tree, a: int, z: int)
    requires
        scope(b, t, a, z),
    ensures
        option_of(b, t) matches Ok(m) ==> option_nested(m, loc_at(b, a), loc_at(b, z)),
    decreases t, 1nat,
{
    reveal(option_of);
    if t.children.len() > 0 {
        lemma_child_scope(b, t, a, z, 0);
        lemma_cmd_arg(b, t.children[0], a, z);
    }
}

/// Where a node lowers to an optional argument of a command, the range of
/// that lies in the scope of the node, and the ranges of its parts in its
/// own.
#[verifier::spinoff_prover]
pub proof fn lemma_ranged_option(b: Seq<u8>, t: Tree, a: int, z: int)
    requires
        scope(b, t, a, z),
    ensures
        ranged_option_of(b, t) matches Ok(m) ==> ok_option(m, loc_at(b, a), loc_at(b, z)),
    decreases t, 2nat,
{
    reveal(ranged_option_of);
    lemma_spans(b, t, a, z);
    lemma_option(b, t, t.start, t.end);
}

/// The ranges of what an argument of a command lowers to lie in the scope of
/// its node.
#[verifier::spinoff_prover]
pub proof fn lemma_cmd_arg(b: Seq<u8>, t: Tree, a: int, z: int)
    requires
        scope(b, t, a, z),
    ensures
        cmd_arg_of(b, t) matches Ok(m) ==> m.nested(loc_at(b, a), loc_at(b, z)),
    decreases t, 2nat,
{
    reveal(cmd_arg_of);
    lemma_spans(b, t, a, z);
    if t.children.len() > 0 {
        lemma_child_scope(b, t, a, z, 0);
        lemma_child_scope(b, t, t.start, t.end, 0);
        let c = t.children[0];
        lemma_ranged_unary(b, c, a, z);
        lemma_vertical(b, c, t.start, t.end);
        lemma_horizontal(b, c, t.start, t.end);
        if let Ok(v) = vertical_of(b, c) {
            assert(UnaryModel::BlockText(v).nested(loc_at(b, t.start), loc_at(b, t.end)));
        }
        if let Ok(v) = horizontal_of(b, c) {
            assert(UnaryModel::HorizontalText(v).nested(loc_at(b, t.start), loc_at(b, t.end)));
        }
    }
}

/// Where a node lowers to an argument of a command, the range of that lies in
/// the scope of the node, and the ranges of its parts in its own.
#[verifier::spinoff_prover]
pub proof fn lemma_ranged_cmd_arg(b: Seq<u8>, t: Tree, a: int, z: int)
    requires
        scope(b, t, a, z),
    ensures
        ranged_cmd_arg_of(b, t) matches Ok(m) ==> ok_expr(m, loc_at(b, a), loc_at(b, z)),
    decreases t, 3nat,
{
    reveal(ranged_cmd_arg_of);
    lemma_spans(b, t, a, z);
    lemma_cmd_arg(b, t, t.start, t.end);
}

/// The ranges of what a command lowers to lie in the scope of its node.
#[verifier::spinoff_prover]
pub proof fn lemma_command(b: Seq<u8>, t: Tree, a: int, z: int)
    requires
        scope(b, t, a, z),
    ensures
        command_of(b, t) matches Ok(m) ==> within(m.0, loc_at(b, a), loc_at(b, z))
            && all_expr(m.1, loc_at(b, a), loc_at(b, z))
            && all_option(m.2, loc_at(b, a), loc_at(b, z)),
    decreases t, 1nat,
{
    reveal(command_of);
    if t.children.len() > 0 {
        lemma_child_scope(b, t, a, z, 0);
        lemma_text(b, t.children[0], a, z);
        lemma_options_end(t, 1);
        lemma_option_results(b, t, 1, options_end(t, 1), a, z);
        lemma_cmd_arg_results(b, t, options_end(t, 1), t.children.len() as int, a, z);
    }
}

/// The ranges of what an element of block text lowers to lie in the scope of
/// its node.
#[verifier::spinoff_prover]
pub proof fn lemma_element(b: Seq<u8>, t: Tree, a: int, z: int)
    requires
        scope(b, t, a, z),
    ensures
        element_of(b, t) matches Ok(m) ==> m.nested(loc_at(b, a), loc_at(b, z)),
    decreases t, 2nat,
{
    reveal(element_of);
    if t.children.len() > 0 {
        lemma_child_scope(b, t, a, z, 0);
        lemma_command(b, t.children[0], a, z);
        lemma_embedding(b, t.children[0], a, z);
    }
}

/// Where a node lowers to an element of block text, the range of that lies in
/// the scope of the node, and the ranges of its parts in its own.
#[verifier::spinoff_prover]
pub proof fn lemma_ranged_element(b: Seq<u8>, t: Tree, a: int, z: int)
    requires
        scope(b, t, a, z),
    ensures
        ranged_element_of(b, t) matches Ok(m) ==> ok_element(m, loc_at(b, a), loc_at(b, z)),
    decreases t, 3nat,
{
    reveal(ranged_element_of);
    lemma_spans(b, t, a, z);
    lemma_element(b, t, t.start, t.end);
}

/// The ranges of what block text lowers to lie in the scope of its node.
#[verifier::spinoff_prover]
pub proof fn lemma_vertical(b: Seq<u8>, t: Tree, a: int, z: int)
    requires
        scope(b, t, a, z),
    ensures
        vertical_of(b, t) matches Ok(m) ==> all_element(m, loc_at(b, a), loc_at(b, z)),
    decreases t, 1nat,
{
    reveal(vertical_of);
    lemma_element_results(b, t, 0, t.children.len() as int, a, z);
}

/// The ranges of what an element of inline text lowers to lie in the scope of
/// its node.
#[verifier::spinoff_prover]
pub proof fn lemma_token(b: Seq<u8>, t: Tree, a: int, z: int)
    requires
        scope(b, t, a, z),
    ensures
        token_of(b, t) matches Ok(m) ==> m.nested(loc_at(b, a), loc_at(b, z)),
    decreases t, 2nat,
{
    reveal(token_of);
    if t.children.len() > 0 {
        lemma_child_scope(b, t, a, z, 0);
        let c = t.children[0];
        lemma_text(b, c, a, z);
        lemma_embedding(b, c, a, z);
        lemma_command(b, c, a, z);
        lemma_math(b, c, c.start, c.end);
        if c.children.len() > 0 {
            lemma_child_scope(b, c, a, z, 0);
            lemma_text(b, c.children[0], a, z);
        }
    }
}

/// Where a node lowers to an element of inline text, the range of that lies
/// in the scope of the node, and the ranges of its parts in its own.
#[verifier::spinoff_prover]
pub proof fn lemma_ranged_token(b: Seq<u8>, t: Tree, a: int, z: int)
    requires
        scope(b, t, a, z),
    ensures
        ranged_token_of(b, t) matches Ok(m) ==> ok_token(m, loc_at(b, a), loc_at(b, z)),
    decreases t, 3nat,
{
    reveal(ranged_token_of);
    lemma_spans(b, t, a, z);
    lemma_token(b, t, t.start, t.end);
}

/// The ranges of what a run of inline text lowers to lie in the scope of its
/// node.
#[verifier::spinoff_prover]
pub proof fn lemma_single(b: Seq<u8>, t: Tree, a: int, z: int)
    requires
        scope(b, t, a, z),
    ensures
        single_of(b, t) matches Ok(m) ==> all_token(m, loc_at(b, a), loc_at(b, z)),
    decreases t, 1nat,
{
    reveal(single_of);
    lemma_token_results(b, t, 0, t.children.len() as int, a, z);
}

/// Where a node lowers to a run of inline text, the range of that lies in the
/// scope of the node, and the ranges of its parts in its own.
#[verifier::spinoff_prover]
pub proof fn lemma_ranged_single(b: Seq<u8>, t: Tree, a: int, z: int)
    requires
        scope(b, t, a, z),
    ensures
        ranged_single_of(b, t) matches Ok(m) ==> ok_single(m, loc_at(b, a), loc_at(b, z)),
    decreases t, 2nat,
{
    reveal(ranged_single_of);
    lemma_spans(b, t, a, z);
    lemma_single(b, t, t.start, t.end);
}

/// The ranges of what an item of a bullet list lowers to lie in the scope of
/// its node.
#[verifier::spinoff_prover]
pub proof fn lemma_bullet(b: Seq<u8>, t: Tree, a: int, z: int)
    requires
        scope(b, t, a, z),
    ensures
        bullet_of(b, t) matches Ok(m) ==> m.nested(loc_at(b, a), loc_at(b, z)),
    decreases t, 1nat,
{
    reveal(bullet_of);
    if t.children.len() > 1 {
        lemma_child_scope(b, t, a, z, 1);
        lemma_ranged_single(b, t.children[1], a, z);
    }
}

/// Where a node lowers to an item of a bullet list, the range of that lies in
/// the scope of the node, and the ranges of its parts in its own.
#[verifier::spinoff_prover]
pub proof fn lemma_ranged_bullet(b: Seq<u8>, t: Tree, a: int, z: int)
    requires
        scope(b, t, a, z),
    ensures
        ranged_bullet_of(b, t) matches Ok(m) ==> ok_bullet(m, loc_at(b, a), loc_at(b, z)),
    decreases t, 2nat,
{
    reveal(ranged_bullet_of);
    lemma_spans(b, t, a, z);
    lemma_bullet(b, t, t.start, t.end);
}

/// The ranges of what inline text lowers to lie in the scope of its node.
#[verifier::spinoff_prover]
pub proof fn lemma_horizontal(b: Seq<u8>, t: Tree, a: int, z: int)
    requires
        scope(b, t, a, z),
    ensures
        horizontal_of(b, t) matches Ok(m) ==> m.nested(loc_at(b, a), loc_at(b, z)),
    decreases t, 1nat,
{
    reveal(horizontal_of);
    if t.children.len() > 0 {
        lemma_child_scope(b, t, a, z, 0);
        let c = t.children[0];
        lemma_single(b, c, a, z);
        lemma_single_results(b, c, 0, c.children.len() as int, a, z);
        lemma_bullet_results(b, c, 0, c.children.len() as int, a, z);
    }
}

/// The optional arguments of a math command end among its children.
proof fn lemma_math_options_end(t: Tree, from: int)
    requires
        0 <= from <= t.children.len(),
    ensures
        from <= math_options_end(t, from) <= t.children.len(),
    decreases t.children.len() - from,
{
    reveal(math_options_end);
    if from < t.children.len() {
        lemma_math_options_end(t, from + 1);
    }
}

/// The range of what an optional argument of a math command lowers to lies
/// in the scope of its node, and the ranges of its parts in its own.
#[verifier::spinoff_prover]
pub proof fn lemma_ranged_math_option(b: Seq<u8>, t: Tree, a: int, z: int)
    requires
        scope(b, t, a, z),
    ensures
        ranged_math_option_of(b, t) matches Ok(m) ==> ok_math_arg(m, loc_at(b, a), loc_at(b, z)),
    decreases t, 3nat,
{
    reveal(ranged_math_option_of);
    lemma_spans(b, t, a, z);
    if t.children.len() > 0 {
        lemma_child_scope(b, t, t.start, t.end, 0);
        lemma_math_arg(b, t.children[0], t.start, t.end);
    }
}

/// The ranges of what stands above or below an element of math text lie in
/// the scope of the element's node.
#[verifier::spinoff_prover]
pub proof fn lemma_script(b: Seq<u8>, t: Tree, rule: Rule, a: int, z: int)
    requires
        scope(b, t, a, z),
    ensures
        script_of(b, t, rule) matches Ok(Some(m)) ==> ok_math_group(m, loc_at(b, a), loc_at(b, z)),
    decreases t, 1nat,
{
    reveal(script_of);
    let i = script_at(t, rule);
    if i > 0 && t.children[i].children.len() > 0 {
        lemma_child_scope(b, t, a, z, i);
        lemma_child_scope(b, t.children[i], a, z, 0);
        lemma_ranged_math_group(b, t.children[i].children[0], a, z);
    }
}

/// The ranges of what an argument of a math command lowers to lie in the
/// scope of its node.
#[verifier::spinoff_prover]
pub proof fn lemma_math_arg(b: Seq<u8>, t: Tree, a: int, z: int)
    requires
        scope(b, t, a, z),
    ensures
        math_arg_of(b, t) matches Ok(m) ==> m.nested(loc_at(b, a), loc_at(b, z)),
    decreases t, 2nat,
{
    reveal(math_arg_of);
    if t.children.len() > 0 {
        lemma_child_scope(b, t, a, z, 0);
        let c = t.children[0];
        lemma_math_mode(b, c, a, z);
        lemma_horizontal(b, c, a, z);
        lemma_vertical(b, c, a, z);
        if c.children.len() > 0 {
            lemma_child_scope(b, c, a, z, 0);
            lemma_unary(b, c.children[0], a, z);
        }
    }
}

/// Where a node lowers to an argument of a math command, the range of that
/// lies in the scope of the node, and the ranges of its parts in its own.
#[verifier::spinoff_prover]
pub proof fn lemma_ranged_math_arg(b: Seq<u8>, t: Tree, a: int, z: int)
    requires
        scope(b, t, a, z),
    ensures
        ranged_math_arg_of(b, t) matches Ok(m) ==> ok_math_arg(m, loc_at(b, a), loc_at(b, z)),
    decreases t, 3nat,
{
    reveal(ranged_math_arg_of);
    lemma_spans(b, t, a, z);
    lemma_math_arg(b, t, t.start, t.end);
}

/// The ranges of what a math command lowers to lie in the scope of its node.
#[verifier::spinoff_prover]
pub proof fn lemma_math_cmd(b: Seq<u8>, t: Tree, a: int, z: int)
    requires
        scope(b, t, a, z),
    ensures
        math_cmd_of(b, t) matches Ok(m) ==> within(m.0, loc_at(b, a), loc_at(b, z))
            && all_math_arg(m.1, loc_at(b, a), loc_at(b, z))
            && all_math_arg(m.2, loc_at(b, a), loc_at(b, z)),
    decreases t, 1nat,
{
    reveal(math_cmd_of);
    if t.children.len() > 0 {
        lemma_child_scope(b, t, a, z, 0);
        lemma_text(b, t.children[0], a, z);
        lemma_math_options_end(t, 1);
        lemma_math_option_results(b, t, 1, math_options_end(t, 1), a, z);
        lemma_math_arg_results(b, t, math_options_end(t, 1), t.children.len() as int, a, z);
    }
}

/// The ranges of what a single element of math text lowers to lie in the
/// scope of its node.
#[verifier::spinoff_prover]
pub proof fn lemma_math_unary(b: Seq<u8>, t: Tree, a: int, z: int)
    requires
        scope(b, t, a, z),
    ensures
        math_unary_of(b, t) matches Ok(m) ==> m.nested(loc_at(b, a), loc_at(b, z)),
    decreases t, 2nat,
{
    reveal(math_unary_of);
    if t.children.len() > 0 {
        lemma_child_scope(b, t, a, z, 0);
        lemma_math_cmd(b, t.children[0], a, z);
    }
}

/// Where a node lowers to a single element of math text, the range of that
/// lies in the scope of the node, and the ranges of its parts in its own.
#[verifier::spinoff_prover]
pub proof fn lemma_ranged_math_unary(b: Seq<u8>, t: Tree, a: int, z: int)
    requires
        scope(b, t, a, z),
    ensures
        ranged_math_unary_of(b, t) matches Ok(m) ==> ok_math_unary(m, loc_at(b, a), loc_at(b, z)),
    decreases t, 3nat,
{
    reveal(ranged_math_unary_of);
    lemma_spans(b, t, a, z);
    lemma_math_unary(b, t, t.start, t.end);
}

/// The ranges of what a group of math text lowers to lie in the scope of its
/// node.
#[verifier::spinoff_prover]
pub proof fn lemma_math_group(b: Seq<u8>, t: Tree, a: int, z: int)
    requires
        scope(b, t, a, z),
    ensures
        math_group_of(b, t) matches Ok(m) ==> m.nested(loc_at(b, a), loc_at(b, z)),
    decreases t, 1nat,
{
    reveal(math_group_of);
    if t.children.len() > 0 {
        lemma_child_scope(b, t, a, z, 0);
        lemma_math_single(b, t.children[0], a, z);
        lemma_math_unary(b, t.children[0], a, z);
    }
}

/// Where a node lowers to a group of math text, the range of that lies in the
/// scope of the node, and the ranges of its parts in its own.
#[verifier::spinoff_prover]
pub proof fn lemma_ranged_math_group(b: Seq<u8>, t: Tree, a: int, z: int)
    requires
        scope(b, t, a, z),
    ensures
        ranged_math_group_of(b, t) matches Ok(m) ==> ok_math_group(m, loc_at(b, a), loc_at(b, z)),
    decreases t, 2nat,
{
    reveal(ranged_math_group_of);
    lemma_spans(b, t, a, z);
    lemma_math_group(b, t, t.start, t.end);
}

/// The ranges of what an element of math text lowers to lie in the scope of
/// its node.
#[verifier::spinoff_prover]
pub proof fn lemma_math_token(b: Seq<u8>, t: Tree, a: int, z: int)
    requires
        scope(b, t, a, z),
    ensures
        math_token_of(b, t) matches Ok(m) ==> m.nested(loc_at(b, a), loc_at(b, z)),
    decreases t, 2nat,
{
    reveal(math_token_of);
    if t.children.len() > 0 {
        lemma_child_scope(b, t, a, z, 0);
        lemma_ranged_math_unary(b, t.children[0], a, z);
    }
    lemma_script(b, t, Rule::math_sup, a, z);
    lemma_script(b, t, Rule::math_sub, a, z);
}

/// Where a node lowers to an element of math text, the range of that lies in
/// the scope of the node, and the ranges of its parts in its own.
#[verifier::spinoff_prover]
pub proof fn lemma_ranged_math_token(b: Seq<u8>, t: Tree, a: int, z: int)
    requires
        scope(b, t, a, z),
    ensures
        ranged_math_token_of(b, t) matches Ok(m) ==> ok_math_token(m, loc_at(b, a), loc_at(b, z)),
    decreases t, 3nat,
{
    reveal(ranged_math_token_of);
    lemma_spans(b, t, a, z);
    lemma_math_token(b, t, t.start, t.end);
}

/// The ranges of what a run of math text lowers to lie in the scope of its
/// node.
#[verifier::spinoff_prover]
pub proof fn lemma_math_single(b: Seq<u8>, t: Tree, a: int, z: int)
    requires
        scope(b, t, a, z),
    ensures
        math_single_of(b, t) matches Ok(m) ==> all_math_token(m, loc_at(b, a), loc_at(b, z)),
    decreases t, 1nat,
{
    reveal(math_single_of);
    lemma_math_token_results(b, t, 0, t.children.len() as int, a, z);
}

/// Where a node lowers to a run of math text, the range of that lies in the
/// scope of the node, and the ranges of its parts in its own.
#[verifier::spinoff_prover]
pub proof fn lemma_ranged_math_single(b: Seq<u8>, t: Tree, a: int, z: int)
    requires
        scope(b, t, a, z),
    ensures
        ranged_math_single_of(b, t) matches Ok(m) ==> ok_math_single(m, loc_at(b, a), loc_at(b, z)),
    decreases t, 2nat,
{
    reveal(ranged_math_single_of);
    lemma_spans(b, t, a, z);
    lemma_math_single(b, t, t.start, t.end);
}

/// The ranges of what math text lowers to lie in the scope of its node.
#[verifier::spinoff_prover]
pub proof fn lemma_math_mode(b: Seq<u8>, t: Tree, a: int, z: int)
    requires
        scope(b, t, a, z),
    ensures
        math_mode_of(b, t) matches Ok(m) ==> m.nested(loc_at(b, a), loc_at(b, z)),
    decreases t, 1nat,
{
    reveal(math_mode_of);
    if t.children.len() > 0 {
        lemma_child_scope(b, t, a, z, 0);
        let c = t.children[0];
        lemma_math_single(b, c, a, z);
        lemma_math_single_results(b, c, 0, c.children.len() as int, a, z);
    }
}

/// The ranges of what math text in its brackets lowers to lie in the scope of
/// its node.
#[verifier::spinoff_prover]
pub proof fn lemma_math(b: Seq<u8>, t: Tree, a: int, z: int)
    requires
        scope(b, t, a, z),
    ensures
        math_of(b, t) matches Ok(m) ==> m.nested(loc_at(b, a), loc_at(b, z)),
    decreases t, 2nat,
{
    reveal(math_of);
    if t.children.len() > 0 {
        lemma_child_scope(b, t, a, z, 0);
        lemma_math_mode(b, t.children[0], a, z);
    }
}

/// The ranges of what a parameter lowers to lie in the scope of its node.
#[verifier::spinoff_prover]
pub proof fn lemma_argument(b: Seq<u8>, t: Tree, a: int, z: int)
    requires
        scope(b, t, a, z),
    ensures
        argument_of(b, t) matches Ok(m) ==> m.nested(loc_at(b, a), loc_at(b, z)),
{
    reveal(argument_of);
    lemma_pattern(b, t, a, z);
    if t.children.len() > 0 {
        lemma_child_scope(b, t, a, z, 0);
        lemma_pattern(b, t.children[0], a, z);
    }
}

/// Where a node lowers to a parameter, the range of that lies in the scope of
/// the node, and the ranges of its parts in its own.
#[verifier::spinoff_prover]
pub proof fn lemma_ranged_argument(b: Seq<u8>, t: Tree, a: int, z: int)
    requires
        scope(b, t, a, z),
    ensures
        ranged_argument_of(b, t) matches Ok(m) ==> ok_argument(m, loc_at(b, a), loc_at(b, z)),
{
    reveal(ranged_argument_of);
    lemma_spans(b, t, a, z);
    lemma_argument(b, t, t.start, t.end);
}

/// The ranges of what a `let` lowers to lie in the scope of its node.
#[verifier::spinoff_prover]
pub proof fn lemma_let(b: Seq<u8>, t: Tree, a: int, z: int)
    requires
        scope(b, t, a, z),
    ensures
        let_of(b, t) matches Ok(m) ==> m.nested(loc_at(b, a), loc_at(b, z)),
    decreases t, 1nat,
{
    reveal(let_of);
    if t.children.len() > 0 {
        lemma_child_scope(b, t, a, z, 0);
        lemma_ranged_pattern(b, t.children[0], a, z);
    }
    if t.children.len() > 1 {
        lemma_child_scope(b, t, a, z, 1);
        lemma_ranged_expr(b, t.children[1], a, z);
    }
    if t.children.len() > 2 {
        lemma_child_scope(b, t, a, z, 2);
        lemma_ranged_expr(b, t.children[2], a, z);
    }
    if t.children.len() > 1 {
        let c = t.children[1];
        lemma_argument_results(b, c, 0, c.children.len() as int, a, z);
    }
}

/// The ranges of what the declaration of a command lowers to lie in the scope
/// of its node.
#[verifier::spinoff_prover]
pub proof fn lemma_let_command(b: Seq<u8>, t: Tree, a: int, z: int)
    requires
        scope(b, t, a, z),
    ensures
        let_command_of(b, t) matches Ok(m)
            ==> optional_within(m.0, loc_at(b, a), loc_at(b, z))
            && within(m.1, loc_at(b, a), loc_at(b, z))
            && all_argument(m.2, loc_at(b, a), loc_at(b, z))
            && ok_expr(m.3, loc_at(b, a), loc_at(b, z)),
    decreases t, 1nat,
{
    reveal(let_command_of);
    let at = command_at(t);
    let last = t.children.len() - 1;
    if t.children.len() >= at + 2 {
        lemma_child_scope(b, t, a, z, 0);
        lemma_text(b, t.children[0], a, z);
        lemma_child_scope(b, t, a, z, at);
        lemma_text(b, t.children[at], a, z);
        lemma_argument_results(b, t, at + 1, last, a, z);
        lemma_child_scope(b, t, a, z, last);
        lemma_ranged_expr(b, t.children[last], a, z);
    }
}

/// The ranges of what a `let-mutable` lowers to lie in the scope of its node.
#[verifier::spinoff_prover]
pub proof fn lemma_let_mutable(b: Seq<u8>, t: Tree, a: int, z: int)
    requires
        scope(b, t, a, z),
    ensures
        let_mutable_of(b, t) matches Ok(m) ==> m.nested(loc_at(b, a), loc_at(b, z)),
    decreases t, 1nat,
{
    reveal(let_mutable_of);
    if t.children.len() > 0 {
        lemma_child_scope(b, t, a, z, 0);
        lemma_text(b, t.children[0], a, z);
    }
    if t.children.len() > 1 {
        lemma_child_scope(b, t, a, z, 1);
        lemma_ranged_expr(b, t.children[1], a, z);
    }
}

/// The ranges of what a module lowers to lie in the scope of its node.
#[verifier::spinoff_prover]
pub proof fn lemma_module(b: Seq<u8>, t: Tree, a: int, z: int)
    requires
        scope(b, t, a, z),
    ensures
        module_of(b, t) matches Ok(m) ==> m.nested(loc_at(b, a), loc_at(b, z)),
    decreases t, 1nat,
{
    reveal(module_of);
    let last = t.children.len() - 1;
    if t.children.len() > 1 {
        lemma_child_scope(b, t, a, z, 0);
        lemma_text(b, t.children[0], a, z);
        lemma_child_scope(b, t, a, z, last);
        let c = t.children[last];
        if c.children.len() > 0 {
            lemma_child_scope(b, c, a, z, 0);
            lemma_preamble(b, c.children[0], a, z);
        }
    }
}

/// The ranges of what a declaration lowers to lie in the scope of its node.
#[verifier::spinoff_prover]
pub proof fn lemma_statement(b: Seq<u8>, t: Tree, a: int, z: int)
    requires
        scope(b, t, a, z),
    ensures
        statement_of(b, t) matches Ok(m) ==> m.nested(loc_at(b, a), loc_at(b, z)),
    decreases t, 2nat,
{
    reveal(statement_of);
    lemma_let(b, t, a, z);
    lemma_let_command(b, t, a, z);
    lemma_let_mutable(b, t, a, z);
    lemma_module(b, t, a, z);
}

/// Where a node lowers to a declaration, the range of that lies in the scope
/// of the node, and the ranges of its parts in its own.
#[verifier::spinoff_prover]
pub proof fn lemma_ranged_statement(b: Seq<u8>, t: Tree, a: int, z: int)
    requires
        scope(b, t, a, z),
    ensures
        ranged_statement_of(b, t) matches Ok(m) ==> ok_statement(m, loc_at(b, a), loc_at(b, z)),
    decreases t, 3nat,
{
    reveal(ranged_statement_of);
    lemma_spans(b, t, a, z);
    lemma_statement(b, t, t.start, t.end);
}

/// The ranges of what a preamble lowers to lie in the scope of its node.
#[verifier::spinoff_prover]
pub proof fn lemma_preamble(b: Seq<u8>, t: Tree, a: int, z: int)
    requires
        scope(b, t, a, z),
    ensures
        preamble_of(b, t) matches Ok(m) ==> all_statement(m, loc_at(b, a), loc_at(b, z)),
    decreases t, 1nat,
{
    reveal(preamble_of);
    lemma_statement_results(b, t, 0, t.children.len() as int, a, z);
}

/// The ranges of what a header line lowers to lie in the scope of its node.
#[verifier::spinoff_prover]
pub proof fn lemma_header(b: Seq<u8>, t: Tree, a: int, z: int)
    requires
        scope(b, t, a, z),
    ensures
        header_of(b, t) matches Ok(m) ==> m.nested(loc_at(b, a), loc_at(b, z)),
{
    if t.children.len() > 1 {
        lemma_child_scope(b, t, a, z, 1);
        lemma_text(b, t.children[1], a, z);
    }
}

/// Where a node lowers to a header line, the range of that lies in the scope
/// of the node, and the ranges of its parts in its own.
#[verifier::spinoff_prover]
pub proof fn lemma_ranged_header(b: Seq<u8>, t: Tree, a: int, z: int)
    requires
        scope(b, t, a, z),
    ensures
        ranged_header_of(b, t) matches Ok(m) ==> ok_header(m, loc_at(b, a), loc_at(b, z)),
{
    reveal(ranged_header_of);
    lemma_spans(b, t, a, z);
    lemma_header(b, t, t.start, t.end);
}

/// The ranges of what a program lowers to lie in the scope of its node.
#[verifier::spinoff_prover]
pub proof fn lemma_program(b: Seq<u8>, t: Tree, a: int, z: int)
    requires
        scope(b, t, a, z),
    ensures
        program_of(b, t) matches Ok(m) ==> m.nested(loc_at(b, a), loc_at(b, z)),
{
    let h = headers_at(t);
    let x = body_at(t);
    if t.children.len() > x {
        lemma_child_scope(b, t, a, z, 0);
        lemma_text(b, t.children[0], a, z);
        lemma_child_scope(b, t, a, z, h);
        let lines = t.children[h];
        lemma_header_results(b, lines, 0, lines.children.len() as int, a, z);
        if has_preamble(t) {
            lemma_child_scope(b, t, a, z, h + 1);
            let p = t.children[h + 1];
            lemma_preamble(b, p, p.start, p.end);
            lemma_text(b, p, a, z);
        }
        lemma_child_scope(b, t, a, z, x);
        lemma_ranged_expr(b, t.children[x], a, z);
    }
}

/// Ranges are contained: in the program that a text is read as, every
/// part starts and ends inside the part that holds it, from the whole text
/// down to the innermost part. This holds of every text short enough for its
/// offsets to be machine integers.
pub proof fn lemma_program_ranges_nested(b: Seq<u8>)
    requires
        b.len() < usize::MAX,
    ensures
        parse_spec(Rule::program, b) matches Ok(t) ==> (program_of(b, t) matches Ok(m)
            ==> m.nested(loc_at(b, 0), loc_at(b, t.end))),
{
    lemma_parse_well_formed(Rule::program, b);
    if let Ok(t) = parse_spec(Rule::program, b) {
        lemma_program(b, t, 0, t.end);
    }
}

} // verus!
