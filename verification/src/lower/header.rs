//! Lowering of the program and its header lines.

use vstd::prelude::*;
use vstd::string::StringSliceAdditionalSpecFns;
use crate::ast::expr::ExprModel;
use crate::ast::header::header_models;
use crate::ast::header::Header;
use crate::ast::header::HeaderModel;
use crate::ast::header::Program;
use crate::ast::header::ProgramModel;
use crate::ast::header::Stage;
use crate::ast::literal::ranged;
use crate::ast::statement::Preamble;
use crate::ast::statement::StatementModel;
use crate::error::bad_shape;
use crate::error::collect;
use crate::error::fails;
use crate::error::gives;
use crate::error::LowerError;
use crate::lower::common::at_node;
use crate::lower::common::ranged_node_text;
use crate::lower::common::ranged_text_of;
use crate::lower::common::shape_error;
use crate::lower::common::wrap_node;
use crate::lower::expr::lower_ranged_expr;
use crate::lower::expr::ranged_expr_of;
use crate::lower::lists::header_results;
use crate::lower::lists::lower_headers;
use crate::lower::statement::lower_preamble;
use crate::lower::statement::preamble_of;
use crate::position::Ranged;
use crate::rule::Rule;
use crate::text::node_spells;
use crate::text::spells;
use crate::tree::Pair;
use crate::tree::Tree;

verus! {

/// What a stage line lowers to, by the text of its first child.
pub open spec fn stage_of(b: Seq<u8>, t: Tree) -> Result<Stage, LowerError> {
    if t.children.len() < 1 {
        Err(bad_shape(t))
    } else if spells(b, t.children[0], "0".spec_bytes()) {
        Ok(Stage::Stage0)
    } else if spells(b, t.children[0], "1".spec_bytes()) {
        Ok(Stage::Stage1)
    } else if spells(b, t.children[0], "persistent".spec_bytes()) {
        Ok(Stage::Persistent)
    } else {
        Err(bad_shape(t.children[0]))
    }
}

/// What a stage line lowers to, with the node's range.
pub open spec fn ranged_stage_of(b: Seq<u8>, t: Tree) -> Result<Ranged<Stage>, LowerError> {
    match stage_of(b, t) {
        Ok(v) => at_node(b, t, v),
        Err(e) => Err(e),
    }
}

/// What a header line lowers to: by the text of its first child a
/// `require` or an `import`, with the text and the range of its second child.
pub open spec fn header_of(b: Seq<u8>, t: Tree) -> Result<HeaderModel, LowerError> {
    if t.children.len() < 2 {
        Err(bad_shape(t))
    } else if spells(b, t.children[0], "require".spec_bytes()) {
        match ranged_text_of(b, t.children[1]) {
            Ok(name) => Ok(HeaderModel::Require(name)),
            Err(e) => Err(e),
        }
    } else if spells(b, t.children[0], "import".spec_bytes()) {
        match ranged_text_of(b, t.children[1]) {
            Ok(name) => Ok(HeaderModel::Import(name)),
            Err(e) => Err(e),
        }
    } else {
        Err(bad_shape(t.children[0]))
    }
}

/// What a header line lowers to, with the node's range.
pub open spec fn ranged_header_of(b: Seq<u8>, t: Tree) -> Result<Ranged<HeaderModel>, LowerError> {
    match header_of(b, t) {
        Ok(v) => at_node(b, t, v),
        Err(e) => Err(e),
    }
}

/// Whether a program's first child is a stage line.
pub open spec fn has_stage(t: Tree) -> bool {
    t.children.len() > 0 && t.children[0].rule == Rule::header_stage
}

/// Where the header lines stand among a program's children: behind the
/// stage line, if there is one.
pub open spec fn headers_at(t: Tree) -> int {
    if has_stage(t) {
        1
    } else {
        0
    }
}

/// Whether the child behind a program's header lines is a preamble.
pub open spec fn has_preamble(t: Tree) -> bool {
    t.children.len() > headers_at(t) + 1 && t.children[headers_at(t) + 1].rule == Rule::preamble
}

/// Where the body stands among a program's children: behind the header
/// lines and the preamble, if there is one.
pub open spec fn body_at(t: Tree) -> int {
    if has_preamble(t) {
        headers_at(t) + 2
    } else {
        headers_at(t) + 1
    }
}

/// The stage of a program, if it has a stage line.
pub open spec fn program_stage(b: Seq<u8>, t: Tree) -> Result<Option<Ranged<Stage>>, LowerError> {
    if has_stage(t) {
        match ranged_stage_of(b, t.children[0]) {
            Ok(v) => Ok(Some(v)),
            Err(e) => Err(e),
        }
    } else {
        Ok(None)
    }
}

/// The preamble of a program, if it has one.
pub open spec fn program_preamble(b: Seq<u8>, t: Tree) -> Result<
    Option<Ranged<Seq<Ranged<StatementModel>>>>,
    LowerError,
> {
    if has_preamble(t) {
        match preamble_of(b, t.children[headers_at(t) + 1]) {
            Err(e) => Err(e),
            Ok(p) => match at_node(b, t.children[headers_at(t) + 1], p) {
                Ok(v) => Ok(Some(v)),
                Err(e) => Err(e),
            },
        }
    } else {
        Ok(None)
    }
}

/// What a program lowers to. Its children are taken in order: a stage line
/// if the first child is one, the header lines, a preamble if the next child
/// is one, and the body. A child that is not what may come next is not
/// skipped: it is taken for what must follow.
pub open spec fn program_of(b: Seq<u8>, t: Tree) -> Result<ProgramModel, LowerError> {
    if t.children.len() <= headers_at(t) {
        Err(bad_shape(t))
    } else if t.children[headers_at(t)].rule != Rule::headers {
        Err(bad_shape(t.children[headers_at(t)]))
    } else if t.children.len() <= body_at(t) {
        Err(bad_shape(t))
    } else {
        match program_stage(b, t) {
            Err(e) => Err(e),
            Ok(stage) => match collect(
                header_results(
                    b,
                    t.children[headers_at(t)],
                    0,
                    t.children[headers_at(t)].children.len() as int,
                ),
            ) {
                Err(e) => Err(e),
                Ok(header) => match program_preamble(b, t) {
                    Err(e) => Err(e),
                    Ok(preamble) => match ranged_expr_of(b, t.children[body_at(t)]) {
                        Err(e) => Err(e),
                        Ok(expr) => Ok(ProgramModel { stage, header, preamble, expr }),
                    },
                },
            }
        }
    }
}

/// Lowers a stage line.
#[verifier::spinoff_prover]
pub fn lower_stage(text: &str, pair: &Pair) -> (r: Result<Stage, LowerError>)
    ensures
        r == stage_of(text.spec_bytes(), pair@),
{
    if pair.child_count() < 1 {
        return Err(shape_error(pair));
    }
    let c = pair.child(0);
    if node_spells(text, c, "0") {
        Ok(Stage::Stage0)
    } else if node_spells(text, c, "1") {
        Ok(Stage::Stage1)
    } else if node_spells(text, c, "persistent") {
        Ok(Stage::Persistent)
    } else {
        Err(shape_error(c))
    }
}

/// Lowers a stage line and attaches its range.
#[verifier::spinoff_prover]
pub fn lower_ranged_stage(text: &str, pair: &Pair) -> (r: Result<Ranged<Stage>, LowerError>)
    ensures
        r == ranged_stage_of(text.spec_bytes(), pair@),
{
    match lower_stage(text, pair) {
        Ok(v) => wrap_node(v, text, pair),
        Err(e) => Err(e),
    }
}

/// Lowers a header line.
#[verifier::spinoff_prover]
pub fn lower_header(text: &str, pair: &Pair) -> (r: Result<Header, LowerError>)
    ensures
        r matches Ok(v) ==> gives(header_of(text.spec_bytes(), pair@), v.model()),
        r matches Err(e) ==> fails(header_of(text.spec_bytes(), pair@), e),
{
    if pair.child_count() < 2 {
        return Err(shape_error(pair));
    }
    let kind = pair.child(0);
    if node_spells(text, kind, "require") {
        match ranged_node_text(text, pair.child(1)) {
            Ok(name) => Ok(Header::Require(name)),
            Err(e) => Err(e),
        }
    } else if node_spells(text, kind, "import") {
        match ranged_node_text(text, pair.child(1)) {
            Ok(name) => Ok(Header::Import(name)),
            Err(e) => Err(e),
        }
    } else {
        Err(shape_error(kind))
    }
}

/// Lowers a header line and attaches its range.
#[verifier::spinoff_prover]
pub fn lower_ranged_header(text: &str, pair: &Pair) -> (r: Result<Ranged<Header>, LowerError>)
    ensures
        r matches Ok(v) ==> gives(
            ranged_header_of(text.spec_bytes(), pair@),
            ranged(v, v.body.model()),
        ),
        r matches Err(e) ==> fails(ranged_header_of(text.spec_bytes(), pair@), e),
{
    match lower_header(text, pair) {
        Ok(v) => wrap_node(v, text, pair),
        Err(e) => Err(e),
    }
}

/// Lowers a program.
#[verifier::spinoff_prover]
pub fn lower_program(text: &str, pair: &Pair) -> (r: Result<Program, LowerError>)
    ensures
        r matches Ok(v) ==> gives(program_of(text.spec_bytes(), pair@), v.model()),
        r matches Err(e) ==> fails(program_of(text.spec_bytes(), pair@), e),
{
    let n = pair.child_count();
    let with_stage = n > 0 && pair.child(0).as_rule() == Rule::header_stage;
    let at: usize = if with_stage {
        1
    } else {
        0
    };
    if n <= at {
        return Err(shape_error(pair));
    }
    let lines = pair.child(at);
    if lines.as_rule() != Rule::headers {
        return Err(shape_error(lines));
    }
    let with_preamble = n > at + 1 && pair.child(at + 1).as_rule() == Rule::preamble;
    let body: usize = if with_preamble {
        at + 2
    } else {
        at + 1
    };
    if n <= body {
        return Err(shape_error(pair));
    }
    let stage = if with_stage {
        match lower_ranged_stage(text, pair.child(0)) {
            Ok(v) => Some(v),
            Err(e) => {
                return Err(e);
            },
        }
    } else {
        None
    };
    let header = match lower_headers(text, lines, 0, lines.child_count()) {
        Ok(v) => v,
        Err(e) => {
            return Err(e);
        },
    };
    let preamble = if with_preamble {
        let holder = pair.child(at + 1);
        match lower_preamble(text, holder) {
            Err(e) => {
                return Err(e);
            },
            Ok(p) => match wrap_node(p, text, holder) {
                Ok(v) => Some(v),
                Err(e) => {
                    return Err(e);
                },
            },
        }
    } else {
        None
    };
    match lower_ranged_expr(text, pair.child(body)) {
        Ok(expr) => {
            proof {
                assert(Program { stage, header, preamble, expr }.model().header =~= header_models(
                    header@,
                ));
            }
            Ok(Program { stage, header, preamble, expr })
        },
        Err(e) => Err(e),
    }
}

} // verus!
