//! Declarations.

use vstd::prelude::*;
use crate::ast::expr::Expr;
use crate::ast::expr::ExprModel;
use crate::ast::literal::ranged;
use crate::ast::pattern::Pattern;
use crate::ast::pattern::PatternModel;
use crate::ast::pattern::Variable;
use crate::position::Location;
use crate::position::Ranged;
use crate::position::within;

verus! {

/// The kinds of declarations.
#[derive(Debug, Clone, Copy, PartialEq, Eq, Structural)]
pub enum Stmt {
    /// `let`
    LetStmt,
    /// `let-inline`
    LetInlineStmt,
    /// `let-block`
    LetBlockStmt,
    /// `let-math`
    LetMathStmt,
    /// `let-mutable`
    LetMutableStmt,
    /// `module`
    ModuleStmt,
}

/// A parameter of a declared function or command.
#[derive(Debug, PartialEq)]
pub enum Argument {
    /// A parameter that is matched against a pattern.
    Pattern(Pattern),
    /// An optional parameter, written `?:name`.
    Optional(Variable),
}

/// A declaration.
#[derive(Debug, PartialEq)]
pub enum Statement {
    /// `let pattern arguments = expression`
    Let { ptn: Ranged<Pattern>, args: Vec<Ranged<Argument>>, expr: Ranged<Expr> },
    /// `let-inline`: declares an inline command, with a context variable or
    /// without.
    LetInline { ctx: Option<Ranged<Variable>>, name: Ranged<String>, args: Vec<Ranged<Argument>>,
        expr: Ranged<Expr> },
    /// `let-block`: declares a block command, with a context variable or
    /// without.
    LetBlock { ctx: Option<Ranged<Variable>>, name: Ranged<String>, args: Vec<Ranged<Argument>>,
        expr: Ranged<Expr> },
    /// `let-math`: declares a math command.
    LetMath { name: Ranged<String>, args: Vec<Ranged<Argument>>, expr: Ranged<Expr> },
    /// `let-mutable variable <- expression`
    LetMutable { var: Ranged<Variable>, expr: Ranged<Expr> },
    /// `module Name = struct ... end`, with the declarations of its body.
    Module { name: Ranged<String>, body: Vec<Ranged<Statement>> },
}

/// The declarations before the body of a program, in order.
#[derive(Debug, PartialEq)]
pub struct Preamble(pub Vec<Ranged<Statement>>);

/// Model of `Argument`.
pub enum ArgumentModel {
    Pattern(PatternModel),
    Optional(Seq<char>),
}

/// Model of `Statement`.
pub enum StatementModel {
    Let { ptn: Ranged<PatternModel>, args: Seq<Ranged<ArgumentModel>>, expr: Ranged<ExprModel> },
    LetInline { ctx: Option<Ranged<Seq<char>>>, name: Ranged<Seq<char>>,
        args: Seq<Ranged<ArgumentModel>>, expr: Ranged<ExprModel> },
    LetBlock { ctx: Option<Ranged<Seq<char>>>, name: Ranged<Seq<char>>,
        args: Seq<Ranged<ArgumentModel>>, expr: Ranged<ExprModel> },
    LetMath { name: Ranged<Seq<char>>, args: Seq<Ranged<ArgumentModel>>, expr: Ranged<ExprModel> },
    LetMutable { var: Ranged<Seq<char>>, expr: Ranged<ExprModel> },
    Module { name: Ranged<Seq<char>>, body: Seq<Ranged<StatementModel>> },
}

impl Argument {
    /// The model of the value.
    pub open spec fn model(self) -> ArgumentModel
        decreases self,
    {
        match self {
            Argument::Pattern(v) => ArgumentModel::Pattern(v.model()),
            Argument::Optional(v) => ArgumentModel::Optional(v.model()),
        }
    }
}

impl Statement {
    /// The model of the value.
    pub open spec fn model(self) -> StatementModel
        decreases self,
    {
        match self {
            Statement::Let { ptn, args, expr } => StatementModel::Let {
                ptn: ranged(ptn, ptn.body.model()),
                args: Seq::new(
                    args@.len(),
                    |i0: int|
                        if 0 <= i0 < args@.len() {
                            ranged(args@[i0], args@[i0].body.model())
                        } else {
                            arbitrary()
                        },
                ),
                expr: ranged(expr, expr.body.model()),
            },
            Statement::LetInline { ctx, name, args, expr } => StatementModel::LetInline {
                ctx: match ctx {
                    Some(x0) => Some(ranged(x0, x0.body.model())),
                    None => None,
                },
                name: ranged(name, name.body@),
                args: Seq::new(
                    args@.len(),
                    |i0: int|
                        if 0 <= i0 < args@.len() {
                            ranged(args@[i0], args@[i0].body.model())
                        } else {
                            arbitrary()
                        },
                ),
                expr: ranged(expr, expr.body.model()),
            },
            Statement::LetBlock { ctx, name, args, expr } => StatementModel::LetBlock {
                ctx: match ctx {
                    Some(x0) => Some(ranged(x0, x0.body.model())),
                    None => None,
                },
                name: ranged(name, name.body@),
                args: Seq::new(
                    args@.len(),
                    |i0: int|
                        if 0 <= i0 < args@.len() {
                            ranged(args@[i0], args@[i0].body.model())
                        } else {
                            arbitrary()
                        },
                ),
                expr: ranged(expr, expr.body.model()),
            },
            Statement::LetMath { name, args, expr } => StatementModel::LetMath {
                name: ranged(name, name.body@),
                args: Seq::new(
                    args@.len(),
                    |i0: int|
                        if 0 <= i0 < args@.len() {
                            ranged(args@[i0], args@[i0].body.model())
                        } else {
                            arbitrary()
                        },
                ),
                expr: ranged(expr, expr.body.model()),
            },
            Statement::LetMutable { var, expr } => StatementModel::LetMutable {
                var: ranged(var, var.body.model()),
                expr: ranged(expr, expr.body.model()),
            },
            Statement::Module { name, body } => StatementModel::Module {
                name: ranged(name, name.body@),
                body: Seq::new(
                    body@.len(),
                    |i0: int|
                        if 0 <= i0 < body@.len() {
                            ranged(body@[i0], body@[i0].body.model())
                        } else {
                            arbitrary()
                        },
                ),
            },
        }
    }
}

impl Preamble {
    /// The model of the value.
    pub open spec fn model(self) -> Seq<Ranged<StatementModel>>
        decreases self,
    {
        Seq::new(
            self.0@.len(),
            |i0: int|
                if 0 <= i0 < self.0@.len() {
                    ranged(self.0@[i0], self.0@[i0].body.model())
                } else {
                    arbitrary()
                },
        )
    }
}

/// Models of declarations.
pub open spec fn statement_models(xs: Seq<Ranged<Statement>>) -> Seq<Ranged<StatementModel>> {
    Seq::new(xs.len(), |i: int| ranged(xs[i], xs[i].body.model()))
}

/// Models of parameters.
pub open spec fn argument_models(xs: Seq<Ranged<Argument>>) -> Seq<Ranged<ArgumentModel>> {
    Seq::new(xs.len(), |i: int| ranged(xs[i], xs[i].body.model()))
}

impl ArgumentModel {
    /// Whether the ranges of the parts lie in `lo..hi`, one inside another
    /// down to the innermost part.
    pub open spec fn nested(self, lo: Location, hi: Location) -> bool
        decreases self,
    {
        match self {
            ArgumentModel::Pattern(v) => v.nested(lo, hi),
            ArgumentModel::Optional(_) => true,
        }
    }
}

impl StatementModel {
    /// Whether the ranges of the parts lie in `lo..hi`, one inside another
    /// down to the innermost part.
    pub open spec fn nested(self, lo: Location, hi: Location) -> bool
        decreases self,
    {
        match self {
            StatementModel::Let { ptn, args, expr } => {
                &&& within(ptn, lo, hi) && ptn.body.nested(ptn.start, ptn.end)
                &&& (forall|i0: int|
                    0 <= i0 < args.len() ==> within((#[trigger] args[i0]), lo, hi)
                        && args[i0].body.nested(args[i0].start, args[i0].end))
                &&& within(expr, lo, hi) && expr.body.nested(expr.start, expr.end)
            },
            StatementModel::LetInline { ctx, name, args, expr } => {
                &&& (match ctx {
                    Some(x0) => within(x0, lo, hi),
                    None => true,
                })
                &&& within(name, lo, hi)
                &&& (forall|i0: int|
                    0 <= i0 < args.len() ==> within((#[trigger] args[i0]), lo, hi)
                        && args[i0].body.nested(args[i0].start, args[i0].end))
                &&& within(expr, lo, hi) && expr.body.nested(expr.start, expr.end)
            },
            StatementModel::LetBlock { ctx, name, args, expr } => {
                &&& (match ctx {
                    Some(x0) => within(x0, lo, hi),
                    None => true,
                })
                &&& within(name, lo, hi)
                &&& (forall|i0: int|
                    0 <= i0 < args.len() ==> within((#[trigger] args[i0]), lo, hi)
                        && args[i0].body.nested(args[i0].start, args[i0].end))
                &&& within(expr, lo, hi) && expr.body.nested(expr.start, expr.end)
            },
            StatementModel::LetMath { name, args, expr } => {
                &&& within(name, lo, hi)
                &&& (forall|i0: int|
                    0 <= i0 < args.len() ==> within((#[trigger] args[i0]), lo, hi)
                        && args[i0].body.nested(args[i0].start, args[i0].end))
                &&& within(expr, lo, hi) && expr.body.nested(expr.start, expr.end)
            },
            StatementModel::LetMutable { var, expr } => {
                &&& within(var, lo, hi)
                &&& within(expr, lo, hi) && expr.body.nested(expr.start, expr.end)
            },
            StatementModel::Module { name, body } => {
                &&& within(name, lo, hi)
                &&& (forall|i0: int|
                    0 <= i0 < body.len() ==> within((#[trigger] body[i0]), lo, hi)
                        && body[i0].body.nested(body[i0].start, body[i0].end))
            },
        }
    }
}

} // verus!
