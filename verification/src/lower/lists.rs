//! Lowering of the children of a node, one after another.
//!
//! For every kind of item: what a run of children lowers to, each child by
//! itself, and the function that lowers them in order and stops at the first
//! that fails.

use vstd::prelude::*;
use vstd::string::StringSliceAdditionalSpecFns;
use crate::ast::content::bullet_models;
use crate::ast::content::element_models;
use crate::ast::content::math_arg_models;
use crate::ast::content::math_single_models;
use crate::ast::content::math_token_models;
use crate::ast::content::single_models;
use crate::ast::content::MathArg;
use crate::ast::content::MathArgModel;
use crate::ast::content::MathSingle;
use crate::ast::content::MathToken;
use crate::ast::content::MathTokenModel;
use crate::ast::content::token_models;
use crate::ast::content::HorizontalBullet;
use crate::ast::content::HorizontalBulletModel;
use crate::ast::content::HorizontalSingle;
use crate::ast::content::HorizontalToken;
use crate::ast::content::HorizontalTokenModel;
use crate::ast::content::VerticalElement;
use crate::ast::content::VerticalElementModel;
use crate::ast::expr::app_arg_models;
use crate::ast::expr::arm_models;
use crate::ast::expr::expr_models;
use crate::ast::expr::option_models;
use crate::ast::expr::record_unit_models;
use crate::ast::expr::AppArg;
use crate::ast::expr::AppArgModel;
use crate::ast::expr::Expr;
use crate::ast::expr::ExprModel;
use crate::ast::expr::MatchArm;
use crate::ast::expr::MatchArmModel;
use crate::ast::expr::RecordUnit;
use crate::ast::expr::RecordUnitModel;
use crate::ast::header::header_models;
use crate::ast::header::Header;
use crate::ast::header::HeaderModel;
use crate::ast::pattern::pattern_models;
use crate::ast::pattern::Pattern;
use crate::ast::pattern::PatternModel;
use crate::ast::statement::argument_models;
use crate::ast::statement::statement_models;
use crate::ast::statement::Argument;
use crate::ast::statement::ArgumentModel;
use crate::ast::statement::Statement;
use crate::ast::statement::StatementModel;
use crate::error::collect;
use crate::error::fails;
use crate::error::gives;
use crate::error::lemma_first_error_at;
use crate::error::lemma_no_error;
use crate::error::LowerError;
use crate::position::Ranged;
use crate::tree::Pair;
use crate::tree::Tree;

verus! {

/// What the children `from..to` of node `t` lower to as patterns, each by
/// itself.
#[verifier::opaque]
pub open spec fn pattern_results(b: Seq<u8>, t: Tree, from: int, to: int) -> Seq<
    Result<Ranged<PatternModel>, LowerError>,
>
    decreases t, 0nat,
{
    Seq::new(
        if from <= to {
            (to - from) as nat
        } else {
            0
        },
        |i: int|
            if 0 <= from + i < t.children.len() {
                crate::lower::pattern::ranged_pattern_of(b, t.children[from + i])
            } else {
                arbitrary()
            },
    )
}

/// Lowers the children `from..to` of a node as patterns.
#[verifier::spinoff_prover]
pub fn lower_patterns(text: &str, pair: &Pair, from: usize, to: usize) -> (r: Result<
    Vec<Ranged<Pattern>>,
    LowerError,
>)
    requires
        from <= to <= pair@.children.len(),
    ensures
        r matches Ok(v) ==> gives(
            collect(pattern_results(text.spec_bytes(), pair@, from as int, to as int)),
            pattern_models(v@),
        ),
        r matches Err(e) ==> fails(
            collect(pattern_results(text.spec_bytes(), pair@, from as int, to as int)),
            e,
        ),
    decreases pair@, 0nat,
{
    let ghost rs = pattern_results(text.spec_bytes(), pair@, from as int, to as int);
    let mut out: Vec<Ranged<Pattern>> = Vec::new();
    let mut i: usize = from;
    while i < to
        invariant
            from <= i <= to <= pair@.children.len(),
            rs == pattern_results(text.spec_bytes(), pair@, from as int, to as int),
            out@.len() == i - from,
            forall|j: int|
                0 <= j < i - from ==> (#[trigger] rs[j]) == Ok::<Ranged<PatternModel>, LowerError>(
                    pattern_models(out@)[j],
                ),
        decreases to - i,
    {
        proof {
            reveal(pattern_results);
        }
        match crate::lower::pattern::lower_ranged_pattern(text, pair.child(i)) {
            Ok(item) => {
                out.push(item);
            },
            Err(e) => {
                proof {
                    lemma_first_error_at(rs, i - from);
                }
                return Err(e);
            },
        }
        i = i + 1;
    }
    proof {
        reveal(pattern_results);
        lemma_no_error(rs);
        assert(Seq::new(rs.len(), |i: int| rs[i]->Ok_0) =~= pattern_models(out@));
    }
    Ok(out)
}

/// What the children `from..to` of node `t` lower to as expressions, each by
/// itself.
#[verifier::opaque]
pub open spec fn expr_results(b: Seq<u8>, t: Tree, from: int, to: int) -> Seq<
    Result<Ranged<ExprModel>, LowerError>,
>
    decreases t, 0nat,
{
    Seq::new(
        if from <= to {
            (to - from) as nat
        } else {
            0
        },
        |i: int|
            if 0 <= from + i < t.children.len() {
                crate::lower::expr::ranged_expr_of(b, t.children[from + i])
            } else {
                arbitrary()
            },
    )
}

/// Lowers the children `from..to` of a node as expressions.
#[verifier::spinoff_prover]
pub fn lower_exprs(text: &str, pair: &Pair, from: usize, to: usize) -> (r: Result<
    Vec<Ranged<Expr>>,
    LowerError,
>)
    requires
        from <= to <= pair@.children.len(),
    ensures
        r matches Ok(v) ==> gives(
            collect(expr_results(text.spec_bytes(), pair@, from as int, to as int)),
            expr_models(v@),
        ),
        r matches Err(e) ==> fails(
            collect(expr_results(text.spec_bytes(), pair@, from as int, to as int)),
            e,
        ),
    decreases pair@, 0nat,
{
    let ghost rs = expr_results(text.spec_bytes(), pair@, from as int, to as int);
    let mut out: Vec<Ranged<Expr>> = Vec::new();
    let mut i: usize = from;
    while i < to
        invariant
            from <= i <= to <= pair@.children.len(),
            rs == expr_results(text.spec_bytes(), pair@, from as int, to as int),
            out@.len() == i - from,
            forall|j: int|
                0 <= j < i - from ==> (#[trigger] rs[j]) == Ok::<Ranged<ExprModel>, LowerError>(
                    expr_models(out@)[j],
                ),
        decreases to - i,
    {
        proof {
            reveal(expr_results);
        }
        match crate::lower::expr::lower_ranged_expr(text, pair.child(i)) {
            Ok(item) => {
                out.push(item);
            },
            Err(e) => {
                proof {
                    lemma_first_error_at(rs, i - from);
                }
                return Err(e);
            },
        }
        i = i + 1;
    }
    proof {
        reveal(expr_results);
        lemma_no_error(rs);
        assert(Seq::new(rs.len(), |i: int| rs[i]->Ok_0) =~= expr_models(out@));
    }
    Ok(out)
}

/// What the children `from..to` of node `t` lower to as arms of a `match`, each by
/// itself.
#[verifier::opaque]
pub open spec fn arm_results(b: Seq<u8>, t: Tree, from: int, to: int) -> Seq<
    Result<Ranged<MatchArmModel>, LowerError>,
>
    decreases t, 0nat,
{
    Seq::new(
        if from <= to {
            (to - from) as nat
        } else {
            0
        },
        |i: int|
            if 0 <= from + i < t.children.len() {
                crate::lower::expr::ranged_arm_of(b, t.children[from + i])
            } else {
                arbitrary()
            },
    )
}

/// Lowers the children `from..to` of a node as arms of a `match`.
#[verifier::spinoff_prover]
pub fn lower_arms(text: &str, pair: &Pair, from: usize, to: usize) -> (r: Result<
    Vec<Ranged<MatchArm>>,
    LowerError,
>)
    requires
        from <= to <= pair@.children.len(),
    ensures
        r matches Ok(v) ==> gives(
            collect(arm_results(text.spec_bytes(), pair@, from as int, to as int)),
            arm_models(v@),
        ),
        r matches Err(e) ==> fails(
            collect(arm_results(text.spec_bytes(), pair@, from as int, to as int)),
            e,
        ),
    decreases pair@, 0nat,
{
    let ghost rs = arm_results(text.spec_bytes(), pair@, from as int, to as int);
    let mut out: Vec<Ranged<MatchArm>> = Vec::new();
    let mut i: usize = from;
    while i < to
        invariant
            from <= i <= to <= pair@.children.len(),
            rs == arm_results(text.spec_bytes(), pair@, from as int, to as int),
            out@.len() == i - from,
            forall|j: int|
                0 <= j < i - from ==> (#[trigger] rs[j]) == Ok::<Ranged<MatchArmModel>, LowerError>(
                    arm_models(out@)[j],
                ),
        decreases to - i,
    {
        proof {
            reveal(arm_results);
        }
        match crate::lower::expr::lower_ranged_arm(text, pair.child(i)) {
            Ok(item) => {
                out.push(item);
            },
            Err(e) => {
                proof {
                    lemma_first_error_at(rs, i - from);
                }
                return Err(e);
            },
        }
        i = i + 1;
    }
    proof {
        reveal(arm_results);
        lemma_no_error(rs);
        assert(Seq::new(rs.len(), |i: int| rs[i]->Ok_0) =~= arm_models(out@));
    }
    Ok(out)
}

/// What the children `from..to` of node `t` lower to as arguments of an application, each by
/// itself.
#[verifier::opaque]
pub open spec fn app_arg_results(b: Seq<u8>, t: Tree, from: int, to: int) -> Seq<
    Result<Ranged<AppArgModel>, LowerError>,
>
    decreases t, 0nat,
{
    Seq::new(
        if from <= to {
            (to - from) as nat
        } else {
            0
        },
        |i: int|
            if 0 <= from + i < t.children.len() {
                crate::lower::expr::ranged_app_arg_of(b, t.children[from + i])
            } else {
                arbitrary()
            },
    )
}

/// Lowers the children `from..to` of a node as arguments of an application.
#[verifier::spinoff_prover]
pub fn lower_app_args(text: &str, pair: &Pair, from: usize, to: usize) -> (r: Result<
    Vec<Ranged<AppArg>>,
    LowerError,
>)
    requires
        from <= to <= pair@.children.len(),
    ensures
        r matches Ok(v) ==> gives(
            collect(app_arg_results(text.spec_bytes(), pair@, from as int, to as int)),
            app_arg_models(v@),
        ),
        r matches Err(e) ==> fails(
            collect(app_arg_results(text.spec_bytes(), pair@, from as int, to as int)),
            e,
        ),
    decreases pair@, 0nat,
{
    let ghost rs = app_arg_results(text.spec_bytes(), pair@, from as int, to as int);
    let mut out: Vec<Ranged<AppArg>> = Vec::new();
    let mut i: usize = from;
    while i < to
        invariant
            from <= i <= to <= pair@.children.len(),
            rs == app_arg_results(text.spec_bytes(), pair@, from as int, to as int),
            out@.len() == i - from,
            forall|j: int|
                0 <= j < i - from ==> (#[trigger] rs[j]) == Ok::<Ranged<AppArgModel>, LowerError>(
                    app_arg_models(out@)[j],
                ),
        decreases to - i,
    {
        proof {
            reveal(app_arg_results);
        }
        match crate::lower::expr::lower_ranged_app_arg(text, pair.child(i)) {
            Ok(item) => {
                out.push(item);
            },
            Err(e) => {
                proof {
                    lemma_first_error_at(rs, i - from);
                }
                return Err(e);
            },
        }
        i = i + 1;
    }
    proof {
        reveal(app_arg_results);
        lemma_no_error(rs);
        assert(Seq::new(rs.len(), |i: int| rs[i]->Ok_0) =~= app_arg_models(out@));
    }
    Ok(out)
}

/// What the children `from..to` of node `t` lower to as fields of a record, each by
/// itself.
#[verifier::opaque]
pub open spec fn record_unit_results(b: Seq<u8>, t: Tree, from: int, to: int) -> Seq<
    Result<RecordUnitModel, LowerError>,
>
    decreases t, 0nat,
{
    Seq::new(
        if from <= to {
            (to - from) as nat
        } else {
            0
        },
        |i: int|
            if 0 <= from + i < t.children.len() {
                crate::lower::expr::record_unit_of(b, t.children[from + i])
            } else {
                arbitrary()
            },
    )
}

/// Lowers the children `from..to` of a node as fields of a record.
#[verifier::spinoff_prover]
pub fn lower_record_units(text: &str, pair: &Pair, from: usize, to: usize) -> (r: Result<
    Vec<RecordUnit>,
    LowerError,
>)
    requires
        from <= to <= pair@.children.len(),
    ensures
        r matches Ok(v) ==> gives(
            collect(record_unit_results(text.spec_bytes(), pair@, from as int, to as int)),
            record_unit_models(v@),
        ),
        r matches Err(e) ==> fails(
            collect(record_unit_results(text.spec_bytes(), pair@, from as int, to as int)),
            e,
        ),
    decreases pair@, 0nat,
{
    let ghost rs = record_unit_results(text.spec_bytes(), pair@, from as int, to as int);
    let mut out: Vec<RecordUnit> = Vec::new();
    let mut i: usize = from;
    while i < to
        invariant
            from <= i <= to <= pair@.children.len(),
            rs == record_unit_results(text.spec_bytes(), pair@, from as int, to as int),
            out@.len() == i - from,
            forall|j: int|
                0 <= j < i - from ==> (#[trigger] rs[j]) == Ok::<RecordUnitModel, LowerError>(
                    record_unit_models(out@)[j],
                ),
        decreases to - i,
    {
        proof {
            reveal(record_unit_results);
        }
        match crate::lower::expr::lower_record_unit(text, pair.child(i)) {
            Ok(item) => {
                out.push(item);
            },
            Err(e) => {
                proof {
                    lemma_first_error_at(rs, i - from);
                }
                return Err(e);
            },
        }
        i = i + 1;
    }
    proof {
        reveal(record_unit_results);
        lemma_no_error(rs);
        assert(Seq::new(rs.len(), |i: int| rs[i]->Ok_0) =~= record_unit_models(out@));
    }
    Ok(out)
}

/// What the children `from..to` of node `t` lower to as header lines, each by
/// itself.
#[verifier::opaque]
pub open spec fn header_results(b: Seq<u8>, t: Tree, from: int, to: int) -> Seq<
    Result<Ranged<HeaderModel>, LowerError>,
>
    decreases t, 0nat,
{
    Seq::new(
        if from <= to {
            (to - from) as nat
        } else {
            0
        },
        |i: int|
            if 0 <= from + i < t.children.len() {
                crate::lower::header::ranged_header_of(b, t.children[from + i])
            } else {
                arbitrary()
            },
    )
}

/// Lowers the children `from..to` of a node as header lines.
#[verifier::spinoff_prover]
pub fn lower_headers(text: &str, pair: &Pair, from: usize, to: usize) -> (r: Result<
    Vec<Ranged<Header>>,
    LowerError,
>)
    requires
        from <= to <= pair@.children.len(),
    ensures
        r matches Ok(v) ==> gives(
            collect(header_results(text.spec_bytes(), pair@, from as int, to as int)),
            header_models(v@),
        ),
        r matches Err(e) ==> fails(
            collect(header_results(text.spec_bytes(), pair@, from as int, to as int)),
            e,
        ),
    decreases pair@, 0nat,
{
    let ghost rs = header_results(text.spec_bytes(), pair@, from as int, to as int);
    let mut out: Vec<Ranged<Header>> = Vec::new();
    let mut i: usize = from;
    while i < to
        invariant
            from <= i <= to <= pair@.children.len(),
            rs == header_results(text.spec_bytes(), pair@, from as int, to as int),
            out@.len() == i - from,
            forall|j: int|
                0 <= j < i - from ==> (#[trigger] rs[j]) == Ok::<Ranged<HeaderModel>, LowerError>(
                    header_models(out@)[j],
                ),
        decreases to - i,
    {
        proof {
            reveal(header_results);
        }
        match crate::lower::header::lower_ranged_header(text, pair.child(i)) {
            Ok(item) => {
                out.push(item);
            },
            Err(e) => {
                proof {
                    lemma_first_error_at(rs, i - from);
                }
                return Err(e);
            },
        }
        i = i + 1;
    }
    proof {
        reveal(header_results);
        lemma_no_error(rs);
        assert(Seq::new(rs.len(), |i: int| rs[i]->Ok_0) =~= header_models(out@));
    }
    Ok(out)
}

/// What the children `from..to` of node `t` lower to as declarations, each by
/// itself.
#[verifier::opaque]
pub open spec fn statement_results(b: Seq<u8>, t: Tree, from: int, to: int) -> Seq<
    Result<Ranged<StatementModel>, LowerError>,
>
    decreases t, 0nat,
{
    Seq::new(
        if from <= to {
            (to - from) as nat
        } else {
            0
        },
        |i: int|
            if 0 <= from + i < t.children.len() {
                crate::lower::statement::ranged_statement_of(b, t.children[from + i])
            } else {
                arbitrary()
            },
    )
}

/// Lowers the children `from..to` of a node as declarations.
#[verifier::spinoff_prover]
pub fn lower_statements(text: &str, pair: &Pair, from: usize, to: usize) -> (r: Result<
    Vec<Ranged<Statement>>,
    LowerError,
>)
    requires
        from <= to <= pair@.children.len(),
    ensures
        r matches Ok(v) ==> gives(
            collect(statement_results(text.spec_bytes(), pair@, from as int, to as int)),
            statement_models(v@),
        ),
        r matches Err(e) ==> fails(
            collect(statement_results(text.spec_bytes(), pair@, from as int, to as int)),
            e,
        ),
    decreases pair@, 0nat,
{
    let ghost rs = statement_results(text.spec_bytes(), pair@, from as int, to as int);
    let mut out: Vec<Ranged<Statement>> = Vec::new();
    let mut i: usize = from;
    while i < to
        invariant
            from <= i <= to <= pair@.children.len(),
            rs == statement_results(text.spec_bytes(), pair@, from as int, to as int),
            out@.len() == i - from,
            forall|j: int|
                0 <= j < i - from ==> (#[trigger] rs[j])
                    == Ok::<Ranged<StatementModel>, LowerError>(
                    statement_models(out@)[j],
                ),
        decreases to - i,
    {
        proof {
            reveal(statement_results);
        }
        match crate::lower::statement::lower_ranged_statement(text, pair.child(i)) {
            Ok(item) => {
                out.push(item);
            },
            Err(e) => {
                proof {
                    lemma_first_error_at(rs, i - from);
                }
                return Err(e);
            },
        }
        i = i + 1;
    }
    proof {
        reveal(statement_results);
        lemma_no_error(rs);
        assert(Seq::new(rs.len(), |i: int| rs[i]->Ok_0) =~= statement_models(out@));
    }
    Ok(out)
}

/// What the children `from..to` of node `t` lower to as parameters, each by
/// itself.
#[verifier::opaque]
pub open spec fn argument_results(b: Seq<u8>, t: Tree, from: int, to: int) -> Seq<
    Result<Ranged<ArgumentModel>, LowerError>,
>
    decreases t, 0nat,
{
    Seq::new(
        if from <= to {
            (to - from) as nat
        } else {
            0
        },
        |i: int|
            if 0 <= from + i < t.children.len() {
                crate::lower::statement::ranged_argument_of(b, t.children[from + i])
            } else {
                arbitrary()
            },
    )
}

/// Lowers the children `from..to` of a node as parameters.
#[verifier::spinoff_prover]
pub fn lower_arguments(text: &str, pair: &Pair, from: usize, to: usize) -> (r: Result<
    Vec<Ranged<Argument>>,
    LowerError,
>)
    requires
        from <= to <= pair@.children.len(),
    ensures
        r matches Ok(v) ==> gives(
            collect(argument_results(text.spec_bytes(), pair@, from as int, to as int)),
            argument_models(v@),
        ),
        r matches Err(e) ==> fails(
            collect(argument_results(text.spec_bytes(), pair@, from as int, to as int)),
            e,
        ),
    decreases pair@, 0nat,
{
    let ghost rs = argument_results(text.spec_bytes(), pair@, from as int, to as int);
    let mut out: Vec<Ranged<Argument>> = Vec::new();
    let mut i: usize = from;
    while i < to
        invariant
            from <= i <= to <= pair@.children.len(),
            rs == argument_results(text.spec_bytes(), pair@, from as int, to as int),
            out@.len() == i - from,
            forall|j: int|
                0 <= j < i - from ==> (#[trigger] rs[j]) == Ok::<Ranged<ArgumentModel>, LowerError>(
                    argument_models(out@)[j],
                ),
        decreases to - i,
    {
        proof {
            reveal(argument_results);
        }
        match crate::lower::statement::lower_ranged_argument(text, pair.child(i)) {
            Ok(item) => {
                out.push(item);
            },
            Err(e) => {
                proof {
                    lemma_first_error_at(rs, i - from);
                }
                return Err(e);
            },
        }
        i = i + 1;
    }
    proof {
        reveal(argument_results);
        lemma_no_error(rs);
        assert(Seq::new(rs.len(), |i: int| rs[i]->Ok_0) =~= argument_models(out@));
    }
    Ok(out)
}

/// What the children `from..to` of node `t` lower to as elements of block text, each by
/// itself.
#[verifier::opaque]
pub open spec fn element_results(b: Seq<u8>, t: Tree, from: int, to: int) -> Seq<
    Result<Ranged<VerticalElementModel>, LowerError>,
>
    decreases t, 0nat,
{
    Seq::new(
        if from <= to {
            (to - from) as nat
        } else {
            0
        },
        |i: int|
            if 0 <= from + i < t.children.len() {
                crate::lower::content::ranged_element_of(b, t.children[from + i])
            } else {
                arbitrary()
            },
    )
}

/// Lowers the children `from..to` of a node as elements of block text.
#[verifier::spinoff_prover]
pub fn lower_elements(text: &str, pair: &Pair, from: usize, to: usize) -> (r: Result<
    Vec<Ranged<VerticalElement>>,
    LowerError,
>)
    requires
        from <= to <= pair@.children.len(),
    ensures
        r matches Ok(v) ==> gives(
            collect(element_results(text.spec_bytes(), pair@, from as int, to as int)),
            element_models(v@),
        ),
        r matches Err(e) ==> fails(
            collect(element_results(text.spec_bytes(), pair@, from as int, to as int)),
            e,
        ),
    decreases pair@, 0nat,
{
    let ghost rs = element_results(text.spec_bytes(), pair@, from as int, to as int);
    let mut out: Vec<Ranged<VerticalElement>> = Vec::new();
    let mut i: usize = from;
    while i < to
        invariant
            from <= i <= to <= pair@.children.len(),
            rs == element_results(text.spec_bytes(), pair@, from as int, to as int),
            out@.len() == i - from,
            forall|j: int|
                0 <= j < i - from ==> (#[trigger] rs[j])
                    == Ok::<Ranged<VerticalElementModel>, LowerError>(
                    element_models(out@)[j],
                ),
        decreases to - i,
    {
        proof {
            reveal(element_results);
        }
        match crate::lower::content::lower_ranged_element(text, pair.child(i)) {
            Ok(item) => {
                out.push(item);
            },
            Err(e) => {
                proof {
                    lemma_first_error_at(rs, i - from);
                }
                return Err(e);
            },
        }
        i = i + 1;
    }
    proof {
        reveal(element_results);
        lemma_no_error(rs);
        assert(Seq::new(rs.len(), |i: int| rs[i]->Ok_0) =~= element_models(out@));
    }
    Ok(out)
}

/// What the children `from..to` of node `t` lower to as elements of inline text, each by
/// itself.
#[verifier::opaque]
pub open spec fn token_results(b: Seq<u8>, t: Tree, from: int, to: int) -> Seq<
    Result<Ranged<HorizontalTokenModel>, LowerError>,
>
    decreases t, 0nat,
{
    Seq::new(
        if from <= to {
            (to - from) as nat
        } else {
            0
        },
        |i: int|
            if 0 <= from + i < t.children.len() {
                crate::lower::content::ranged_token_of(b, t.children[from + i])
            } else {
                arbitrary()
            },
    )
}

/// Lowers the children `from..to` of a node as elements of inline text.
#[verifier::spinoff_prover]
pub fn lower_tokens(text: &str, pair: &Pair, from: usize, to: usize) -> (r: Result<
    Vec<Ranged<HorizontalToken>>,
    LowerError,
>)
    requires
        from <= to <= pair@.children.len(),
    ensures
        r matches Ok(v) ==> gives(
            collect(token_results(text.spec_bytes(), pair@, from as int, to as int)),
            token_models(v@),
        ),
        r matches Err(e) ==> fails(
            collect(token_results(text.spec_bytes(), pair@, from as int, to as int)),
            e,
        ),
    decreases pair@, 0nat,
{
    let ghost rs = token_results(text.spec_bytes(), pair@, from as int, to as int);
    let mut out: Vec<Ranged<HorizontalToken>> = Vec::new();
    let mut i: usize = from;
    while i < to
        invariant
            from <= i <= to <= pair@.children.len(),
            rs == token_results(text.spec_bytes(), pair@, from as int, to as int),
            out@.len() == i - from,
            forall|j: int|
                0 <= j < i - from ==> (#[trigger] rs[j])
                    == Ok::<Ranged<HorizontalTokenModel>, LowerError>(
                    token_models(out@)[j],
                ),
        decreases to - i,
    {
        proof {
            reveal(token_results);
        }
        match crate::lower::content::lower_ranged_token(text, pair.child(i)) {
            Ok(item) => {
                out.push(item);
            },
            Err(e) => {
                proof {
                    lemma_first_error_at(rs, i - from);
                }
                return Err(e);
            },
        }
        i = i + 1;
    }
    proof {
        reveal(token_results);
        lemma_no_error(rs);
        assert(Seq::new(rs.len(), |i: int| rs[i]->Ok_0) =~= token_models(out@));
    }
    Ok(out)
}

/// What the children `from..to` of node `t` lower to as runs of inline text, each by
/// itself.
#[verifier::opaque]
pub open spec fn single_results(b: Seq<u8>, t: Tree, from: int, to: int) -> Seq<
    Result<Ranged<Seq<Ranged<HorizontalTokenModel>>>, LowerError>,
>
    decreases t, 0nat,
{
    Seq::new(
        if from <= to {
            (to - from) as nat
        } else {
            0
        },
        |i: int|
            if 0 <= from + i < t.children.len() {
                crate::lower::content::ranged_single_of(b, t.children[from + i])
            } else {
                arbitrary()
            },
    )
}

/// Lowers the children `from..to` of a node as runs of inline text.
#[verifier::spinoff_prover]
pub fn lower_singles(text: &str, pair: &Pair, from: usize, to: usize) -> (r: Result<
    Vec<Ranged<HorizontalSingle>>,
    LowerError,
>)
    requires
        from <= to <= pair@.children.len(),
    ensures
        r matches Ok(v) ==> gives(
            collect(single_results(text.spec_bytes(), pair@, from as int, to as int)),
            single_models(v@),
        ),
        r matches Err(e) ==> fails(
            collect(single_results(text.spec_bytes(), pair@, from as int, to as int)),
            e,
        ),
    decreases pair@, 0nat,
{
    let ghost rs = single_results(text.spec_bytes(), pair@, from as int, to as int);
    let mut out: Vec<Ranged<HorizontalSingle>> = Vec::new();
    let mut i: usize = from;
    while i < to
        invariant
            from <= i <= to <= pair@.children.len(),
            rs == single_results(text.spec_bytes(), pair@, from as int, to as int),
            out@.len() == i - from,
            forall|j: int|
                0 <= j < i - from ==> (#[trigger] rs[j])
                    == Ok::<Ranged<Seq<Ranged<HorizontalTokenModel>>>, LowerError>(
                    single_models(out@)[j],
                ),
        decreases to - i,
    {
        proof {
            reveal(single_results);
        }
        match crate::lower::content::lower_ranged_single(text, pair.child(i)) {
            Ok(item) => {
                out.push(item);
            },
            Err(e) => {
                proof {
                    lemma_first_error_at(rs, i - from);
                }
                return Err(e);
            },
        }
        i = i + 1;
    }
    proof {
        reveal(single_results);
        lemma_no_error(rs);
        assert(Seq::new(rs.len(), |i: int| rs[i]->Ok_0) =~= single_models(out@));
    }
    Ok(out)
}

/// What the children `from..to` of node `t` lower to as items of a bullet list, each by
/// itself.
#[verifier::opaque]
pub open spec fn bullet_results(b: Seq<u8>, t: Tree, from: int, to: int) -> Seq<
    Result<Ranged<HorizontalBulletModel>, LowerError>,
>
    decreases t, 0nat,
{
    Seq::new(
        if from <= to {
            (to - from) as nat
        } else {
            0
        },
        |i: int|
            if 0 <= from + i < t.children.len() {
                crate::lower::content::ranged_bullet_of(b, t.children[from + i])
            } else {
                arbitrary()
            },
    )
}

/// Lowers the children `from..to` of a node as items of a bullet list.
#[verifier::spinoff_prover]
pub fn lower_bullets(text: &str, pair: &Pair, from: usize, to: usize) -> (r: Result<
    Vec<Ranged<HorizontalBullet>>,
    LowerError,
>)
    requires
        from <= to <= pair@.children.len(),
    ensures
        r matches Ok(v) ==> gives(
            collect(bullet_results(text.spec_bytes(), pair@, from as int, to as int)),
            bullet_models(v@),
        ),
        r matches Err(e) ==> fails(
            collect(bullet_results(text.spec_bytes(), pair@, from as int, to as int)),
            e,
        ),
    decreases pair@, 0nat,
{
    let ghost rs = bullet_results(text.spec_bytes(), pair@, from as int, to as int);
    let mut out: Vec<Ranged<HorizontalBullet>> = Vec::new();
    let mut i: usize = from;
    while i < to
        invariant
            from <= i <= to <= pair@.children.len(),
            rs == bullet_results(text.spec_bytes(), pair@, from as int, to as int),
            out@.len() == i - from,
            forall|j: int|
                0 <= j < i - from ==> (#[trigger] rs[j])
                    == Ok::<Ranged<HorizontalBulletModel>, LowerError>(
                    bullet_models(out@)[j],
                ),
        decreases to - i,
    {
        proof {
            reveal(bullet_results);
        }
        match crate::lower::content::lower_ranged_bullet(text, pair.child(i)) {
            Ok(item) => {
                out.push(item);
            },
            Err(e) => {
                proof {
                    lemma_first_error_at(rs, i - from);
                }
                return Err(e);
            },
        }
        i = i + 1;
    }
    proof {
        reveal(bullet_results);
        lemma_no_error(rs);
        assert(Seq::new(rs.len(), |i: int| rs[i]->Ok_0) =~= bullet_models(out@));
    }
    Ok(out)
}

/// What the children `from..to` of node `t` lower to as optional arguments of a command, each by
/// itself.
#[verifier::opaque]
pub open spec fn option_results(b: Seq<u8>, t: Tree, from: int, to: int) -> Seq<
    Result<Ranged<Option<ExprModel>>, LowerError>,
>
    decreases t, 0nat,
{
    Seq::new(
        if from <= to {
            (to - from) as nat
        } else {
            0
        },
        |i: int|
            if 0 <= from + i < t.children.len() {
                crate::lower::content::ranged_option_of(b, t.children[from + i])
            } else {
                arbitrary()
            },
    )
}

/// Lowers the children `from..to` of a node as optional arguments of a command.
#[verifier::spinoff_prover]
pub fn lower_options(text: &str, pair: &Pair, from: usize, to: usize) -> (r: Result<
    Vec<Ranged<Option<Expr>>>,
    LowerError,
>)
    requires
        from <= to <= pair@.children.len(),
    ensures
        r matches Ok(v) ==> gives(
            collect(option_results(text.spec_bytes(), pair@, from as int, to as int)),
            option_models(v@),
        ),
        r matches Err(e) ==> fails(
            collect(option_results(text.spec_bytes(), pair@, from as int, to as int)),
            e,
        ),
    decreases pair@, 0nat,
{
    let ghost rs = option_results(text.spec_bytes(), pair@, from as int, to as int);
    let mut out: Vec<Ranged<Option<Expr>>> = Vec::new();
    let mut i: usize = from;
    while i < to
        invariant
            from <= i <= to <= pair@.children.len(),
            rs == option_results(text.spec_bytes(), pair@, from as int, to as int),
            out@.len() == i - from,
            forall|j: int|
                0 <= j < i - from ==> (#[trigger] rs[j])
                    == Ok::<Ranged<Option<ExprModel>>, LowerError>(
                    option_models(out@)[j],
                ),
        decreases to - i,
    {
        proof {
            reveal(option_results);
        }
        match crate::lower::content::lower_ranged_option(text, pair.child(i)) {
            Ok(item) => {
                out.push(item);
            },
            Err(e) => {
                proof {
                    lemma_first_error_at(rs, i - from);
                }
                return Err(e);
            },
        }
        i = i + 1;
    }
    proof {
        reveal(option_results);
        lemma_no_error(rs);
        assert(Seq::new(rs.len(), |i: int| rs[i]->Ok_0) =~= option_models(out@));
    }
    Ok(out)
}

/// What the children `from..to` of node `t` lower to as elements of math text, each by
/// itself.
#[verifier::opaque]
pub open spec fn math_token_results(b: Seq<u8>, t: Tree, from: int, to: int) -> Seq<
    Result<Ranged<MathTokenModel>, LowerError>,
>
    decreases t, 0nat,
{
    Seq::new(
        if from <= to {
            (to - from) as nat
        } else {
            0
        },
        |i: int|
            if 0 <= from + i < t.children.len() {
                crate::lower::math::ranged_math_token_of(b, t.children[from + i])
            } else {
                arbitrary()
            },
    )
}

/// Lowers the children `from..to` of a node as elements of math text.
#[verifier::spinoff_prover]
pub fn lower_math_tokens(text: &str, pair: &Pair, from: usize, to: usize) -> (r: Result<
    Vec<Ranged<MathToken>>,
    LowerError,
>)
    requires
        from <= to <= pair@.children.len(),
    ensures
        r matches Ok(v) ==> gives(
            collect(math_token_results(text.spec_bytes(), pair@, from as int, to as int)),
            math_token_models(v@),
        ),
        r matches Err(e) ==> fails(
            collect(math_token_results(text.spec_bytes(), pair@, from as int, to as int)),
            e,
        ),
    decreases pair@, 0nat,
{
    let ghost rs = math_token_results(text.spec_bytes(), pair@, from as int, to as int);
    let mut out: Vec<Ranged<MathToken>> = Vec::new();
    let mut i: usize = from;
    while i < to
        invariant
            from <= i <= to <= pair@.children.len(),
            rs == math_token_results(text.spec_bytes(), pair@, from as int, to as int),
            out@.len() == i - from,
            forall|j: int|
                0 <= j < i - from ==> (#[trigger] rs[j])
                    == Ok::<Ranged<MathTokenModel>, LowerError>(
                    math_token_models(out@)[j],
                ),
        decreases to - i,
    {
        proof {
            reveal(math_token_results);
        }
        match crate::lower::math::lower_ranged_math_token(text, pair.child(i)) {
            Ok(item) => {
                out.push(item);
            },
            Err(e) => {
                proof {
                    lemma_first_error_at(rs, i - from);
                }
                return Err(e);
            },
        }
        i = i + 1;
    }
    proof {
        reveal(math_token_results);
        lemma_no_error(rs);
        assert(Seq::new(rs.len(), |i: int| rs[i]->Ok_0) =~= math_token_models(out@));
    }
    Ok(out)
}

/// What the children `from..to` of node `t` lower to as runs of math text, each by
/// itself.
#[verifier::opaque]
pub open spec fn math_single_results(b: Seq<u8>, t: Tree, from: int, to: int) -> Seq<
    Result<Ranged<Seq<Ranged<MathTokenModel>>>, LowerError>,
>
    decreases t, 0nat,
{
    Seq::new(
        if from <= to {
            (to - from) as nat
        } else {
            0
        },
        |i: int|
            if 0 <= from + i < t.children.len() {
                crate::lower::math::ranged_math_single_of(b, t.children[from + i])
            } else {
                arbitrary()
            },
    )
}

/// Lowers the children `from..to` of a node as runs of math text.
#[verifier::spinoff_prover]
pub fn lower_math_singles(text: &str, pair: &Pair, from: usize, to: usize) -> (r: Result<
    Vec<Ranged<MathSingle>>,
    LowerError,
>)
    requires
        from <= to <= pair@.children.len(),
    ensures
        r matches Ok(v) ==> gives(
            collect(math_single_results(text.spec_bytes(), pair@, from as int, to as int)),
            math_single_models(v@),
        ),
        r matches Err(e) ==> fails(
            collect(math_single_results(text.spec_bytes(), pair@, from as int, to as int)),
            e,
        ),
    decreases pair@, 0nat,
{
    let ghost rs = math_single_results(text.spec_bytes(), pair@, from as int, to as int);
    let mut out: Vec<Ranged<MathSingle>> = Vec::new();
    let mut i: usize = from;
    while i < to
        invariant
            from <= i <= to <= pair@.children.len(),
            rs == math_single_results(text.spec_bytes(), pair@, from as int, to as int),
            out@.len() == i - from,
            forall|j: int|
                0 <= j < i - from ==> (#[trigger] rs[j])
                    == Ok::<Ranged<Seq<Ranged<MathTokenModel>>>, LowerError>(
                    math_single_models(out@)[j],
                ),
        decreases to - i,
    {
        proof {
            reveal(math_single_results);
        }
        match crate::lower::math::lower_ranged_math_single(text, pair.child(i)) {
            Ok(item) => {
                out.push(item);
            },
            Err(e) => {
                proof {
                    lemma_first_error_at(rs, i - from);
                }
                return Err(e);
            },
        }
        i = i + 1;
    }
    proof {
        reveal(math_single_results);
        lemma_no_error(rs);
        assert(Seq::new(rs.len(), |i: int| rs[i]->Ok_0) =~= math_single_models(out@));
    }
    Ok(out)
}

/// What the children `from..to` of node `t` lower to as arguments of a math command, each by
/// itself.
#[verifier::opaque]
pub open spec fn math_arg_results(b: Seq<u8>, t: Tree, from: int, to: int) -> Seq<
    Result<Ranged<MathArgModel>, LowerError>,
>
    decreases t, 0nat,
{
    Seq::new(
        if from <= to {
            (to - from) as nat
        } else {
            0
        },
        |i: int|
            if 0 <= from + i < t.children.len() {
                crate::lower::math::ranged_math_arg_of(b, t.children[from + i])
            } else {
                arbitrary()
            },
    )
}

/// Lowers the children `from..to` of a node as arguments of a math command.
#[verifier::spinoff_prover]
pub fn lower_math_args(text: &str, pair: &Pair, from: usize, to: usize) -> (r: Result<
    Vec<Ranged<MathArg>>,
    LowerError,
>)
    requires
        from <= to <= pair@.children.len(),
    ensures
        r matches Ok(v) ==> gives(
            collect(math_arg_results(text.spec_bytes(), pair@, from as int, to as int)),
            math_arg_models(v@),
        ),
        r matches Err(e) ==> fails(
            collect(math_arg_results(text.spec_bytes(), pair@, from as int, to as int)),
            e,
        ),
    decreases pair@, 0nat,
{
    let ghost rs = math_arg_results(text.spec_bytes(), pair@, from as int, to as int);
    let mut out: Vec<Ranged<MathArg>> = Vec::new();
    let mut i: usize = from;
    while i < to
        invariant
            from <= i <= to <= pair@.children.len(),
            rs == math_arg_results(text.spec_bytes(), pair@, from as int, to as int),
            out@.len() == i - from,
            forall|j: int|
                0 <= j < i - from ==> (#[trigger] rs[j]) == Ok::<Ranged<MathArgModel>, LowerError>(
                    math_arg_models(out@)[j],
                ),
        decreases to - i,
    {
        proof {
            reveal(math_arg_results);
        }
        match crate::lower::math::lower_ranged_math_arg(text, pair.child(i)) {
            Ok(item) => {
                out.push(item);
            },
            Err(e) => {
                proof {
                    lemma_first_error_at(rs, i - from);
                }
                return Err(e);
            },
        }
        i = i + 1;
    }
    proof {
        reveal(math_arg_results);
        lemma_no_error(rs);
        assert(Seq::new(rs.len(), |i: int| rs[i]->Ok_0) =~= math_arg_models(out@));
    }
    Ok(out)
}

/// What the children `from..to` of node `t` lower to as optional arguments of a math command, each by
/// itself.
#[verifier::opaque]
pub open spec fn math_option_results(b: Seq<u8>, t: Tree, from: int, to: int) -> Seq<
    Result<Ranged<MathArgModel>, LowerError>,
>
    decreases t, 0nat,
{
    Seq::new(
        if from <= to {
            (to - from) as nat
        } else {
            0
        },
        |i: int|
            if 0 <= from + i < t.children.len() {
                crate::lower::math::ranged_math_option_of(b, t.children[from + i])
            } else {
                arbitrary()
            },
    )
}

/// Lowers the children `from..to` of a node as optional arguments of a math command.
#[verifier::spinoff_prover]
pub fn lower_math_options(text: &str, pair: &Pair, from: usize, to: usize) -> (r: Result<
    Vec<Ranged<MathArg>>,
    LowerError,
>)
    requires
        from <= to <= pair@.children.len(),
    ensures
        r matches Ok(v) ==> gives(
            collect(math_option_results(text.spec_bytes(), pair@, from as int, to as int)),
            math_arg_models(v@),
        ),
        r matches Err(e) ==> fails(
            collect(math_option_results(text.spec_bytes(), pair@, from as int, to as int)),
            e,
        ),
    decreases pair@, 0nat,
{
    let ghost rs = math_option_results(text.spec_bytes(), pair@, from as int, to as int);
    let mut out: Vec<Ranged<MathArg>> = Vec::new();
    let mut i: usize = from;
    while i < to
        invariant
            from <= i <= to <= pair@.children.len(),
            rs == math_option_results(text.spec_bytes(), pair@, from as int, to as int),
            out@.len() == i - from,
            forall|j: int|
                0 <= j < i - from ==> (#[trigger] rs[j]) == Ok::<Ranged<MathArgModel>, LowerError>(
                    math_arg_models(out@)[j],
                ),
        decreases to - i,
    {
        proof {
            reveal(math_option_results);
        }
        match crate::lower::math::lower_ranged_math_option(text, pair.child(i)) {
            Ok(item) => {
                out.push(item);
            },
            Err(e) => {
                proof {
                    lemma_first_error_at(rs, i - from);
                }
                return Err(e);
            },
        }
        i = i + 1;
    }
    proof {
        reveal(math_option_results);
        lemma_no_error(rs);
        assert(Seq::new(rs.len(), |i: int| rs[i]->Ok_0) =~= math_arg_models(out@));
    }
    Ok(out)
}

/// What the children `from..to` of node `t` lower to as arguments of a command, each by
/// itself.
#[verifier::opaque]
pub open spec fn cmd_arg_results(b: Seq<u8>, t: Tree, from: int, to: int) -> Seq<
    Result<Ranged<ExprModel>, LowerError>,
>
    decreases t, 0nat,
{
    Seq::new(
        if from <= to {
            (to - from) as nat
        } else {
            0
        },
        |i: int|
            if 0 <= from + i < t.children.len() {
                crate::lower::content::ranged_cmd_arg_of(b, t.children[from + i])
            } else {
                arbitrary()
            },
    )
}

/// Lowers the children `from..to` of a node as arguments of a command.
#[verifier::spinoff_prover]
pub fn lower_cmd_args(text: &str, pair: &Pair, from: usize, to: usize) -> (r: Result<
    Vec<Ranged<Expr>>,
    LowerError,
>)
    requires
        from <= to <= pair@.children.len(),
    ensures
        r matches Ok(v) ==> gives(
            collect(cmd_arg_results(text.spec_bytes(), pair@, from as int, to as int)),
            expr_models(v@),
        ),
        r matches Err(e) ==> fails(
            collect(cmd_arg_results(text.spec_bytes(), pair@, from as int, to as int)),
            e,
        ),
    decreases pair@, 0nat,
{
    let ghost rs = cmd_arg_results(text.spec_bytes(), pair@, from as int, to as int);
    let mut out: Vec<Ranged<Expr>> = Vec::new();
    let mut i: usize = from;
    while i < to
        invariant
            from <= i <= to <= pair@.children.len(),
            rs == cmd_arg_results(text.spec_bytes(), pair@, from as int, to as int),
            out@.len() == i - from,
            forall|j: int|
                0 <= j < i - from ==> (#[trigger] rs[j]) == Ok::<Ranged<ExprModel>, LowerError>(
                    expr_models(out@)[j],
                ),
        decreases to - i,
    {
        proof {
            reveal(cmd_arg_results);
        }
        match crate::lower::content::lower_ranged_cmd_arg(text, pair.child(i)) {
            Ok(item) => {
                out.push(item);
            },
            Err(e) => {
                proof {
                    lemma_first_error_at(rs, i - from);
                }
                return Err(e);
            },
        }
        i = i + 1;
    }
    proof {
        reveal(cmd_arg_results);
        lemma_no_error(rs);
        assert(Seq::new(rs.len(), |i: int| rs[i]->Ok_0) =~= expr_models(out@));
    }
    Ok(out)
}

} // verus!
