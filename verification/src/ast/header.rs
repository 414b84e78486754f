//! The program and its header lines.

use vstd::prelude::*;
use crate::ast::expr::Expr;
use crate::ast::expr::ExprModel;
use crate::ast::literal::ranged;
use crate::ast::statement::Preamble;
use crate::ast::statement::StatementModel;
use crate::position::Location;
use crate::position::Ranged;
use crate::position::within;

verus! {

/// The stage at which a program runs.
#[derive(Debug, Clone, Copy, PartialEq, Eq, Structural)]
pub enum Stage {
    /// `@stage: 0`
    Stage0,
    /// `@stage: 1`
    Stage1,
    /// `@stage: persistent`
    Persistent,
}

/// A header line, which names a file that the program uses.
#[derive(Debug, PartialEq)]
pub enum Header {
    /// `@require:` with the name of a package.
    Require(Ranged<String>),
    /// `@import:` with the path of a file.
    Import(Ranged<String>),
}

/// A whole program.
#[derive(Debug, PartialEq)]
pub struct Program {
    /// The stage, if the program declares one.
    pub stage: Option<Ranged<Stage>>,
    /// The header lines, in order.
    pub header: Vec<Ranged<Header>>,
    /// The declarations before the body, if there are any.
    pub preamble: Option<Ranged<Preamble>>,
    /// The body.
    pub expr: Ranged<Expr>,
}

/// Model of `Header`.
pub enum HeaderModel {
    Require(Ranged<Seq<char>>),
    Import(Ranged<Seq<char>>),
}

/// Model of `Program`.
pub struct ProgramModel {
    pub stage: Option<Ranged<Stage>>,
    pub header: Seq<Ranged<HeaderModel>>,
    pub preamble: Option<Ranged<Seq<Ranged<StatementModel>>>>,
    pub expr: Ranged<ExprModel>,
}

impl Header {
    /// The model of the value.
    pub open spec fn model(self) -> HeaderModel
        decreases self,
    {
        match self {
            Header::Require(v) => HeaderModel::Require(ranged(v, v.body@)),
            Header::Import(v) => HeaderModel::Import(ranged(v, v.body@)),
        }
    }
}

impl Program {
    /// The model of the value.
    pub open spec fn model(self) -> ProgramModel
        decreases self,
    {
        ProgramModel {
            stage: match self.stage {
                Some(x0) => Some(ranged(x0, x0.body)),
                None => None,
            },
            header: Seq::new(
                self.header@.len(),
                |i0: int|
                    if 0 <= i0 < self.header@.len() {
                        ranged(self.header@[i0], self.header@[i0].body.model())
                    } else {
                        arbitrary()
                    },
            ),
            preamble: match self.preamble {
                Some(x0) => Some(ranged(x0, x0.body.model())),
                None => None,
            },
            expr: ranged(self.expr, self.expr.body.model()),
        }
    }
}

/// Models of header lines.
pub open spec fn header_models(xs: Seq<Ranged<Header>>) -> Seq<Ranged<HeaderModel>> {
    Seq::new(xs.len(), |i: int| ranged(xs[i], xs[i].body.model()))
}

impl HeaderModel {
    /// Whether the ranges of the parts lie in `lo..hi`, one inside another
    /// down to the innermost part.
    pub open spec fn nested(self, lo: Location, hi: Location) -> bool
        decreases self,
    {
        match self {
            HeaderModel::Require(v) => within(v, lo, hi),
            HeaderModel::Import(v) => within(v, lo, hi),
        }
    }
}

impl ProgramModel {
    /// Whether the ranges of the parts lie in `lo..hi`, one inside another
    /// down to the innermost part.
    pub open spec fn nested(self, lo: Location, hi: Location) -> bool
        decreases self,
    {
        &&& (match self.stage {
            Some(x0) => within(x0, lo, hi),
            None => true,
        })
        &&& (forall|i0: int|
            0 <= i0 < self.header.len() ==> within((#[trigger] self.header[i0]), lo, hi)
                && self.header[i0].body.nested(self.header[i0].start, self.header[i0].end))
        &&& (match self.preamble {
            Some(x0) => within(x0, lo, hi) && (forall|i1: int|
                0 <= i1 < x0.body.len() ==> within((#[trigger] x0.body[i1]), x0.start, x0.end)
                    && x0.body[i1].body.nested(x0.body[i1].start, x0.body[i1].end)),
            None => true,
        })
        &&& within(self.expr, lo, hi) && self.expr.body.nested(self.expr.start, self.expr.end)
    }
}

} // verus!
