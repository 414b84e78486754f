//! Expressions.

use vstd::prelude::*;
use crate::ast::content::Horizontal;
use crate::ast::content::HorizontalModel;
use crate::ast::content::Math;
use crate::ast::content::MathModel;
use crate::ast::content::Vertical;
use crate::ast::content::VerticalElementModel;
use crate::ast::literal::Literal;
use crate::ast::literal::LiteralModel;
use crate::ast::literal::ranged;
use crate::ast::pattern::Pattern;
use crate::ast::pattern::PatternModel;
use crate::ast::pattern::Variable;
use crate::ast::pattern::Variant;
use crate::ast::statement::Statement;
use crate::ast::statement::StatementModel;
use crate::position::Location;
use crate::position::Ranged;
use crate::position::within;

verus! {

/// An expression.
#[derive(Debug, PartialEq)]
pub enum Expr {
    /// `match expression with arms`
    Match { expr: Box<Ranged<Expr>>, arms: Vec<Ranged<MatchArm>> },
    /// `declaration in expression`
    BindStmt { bind: Box<Ranged<Statement>>, body: Box<Ranged<Expr>> },
    /// `while condition do body`
    CtrlFlowWhile { condition: Box<Ranged<Expr>>, body: Box<Ranged<Expr>> },
    /// `if condition then expression else expression`
    CtrlFlowIf { condition: Box<Ranged<Expr>>, expr_true: Box<Ranged<Expr>>,
        expr_false: Box<Ranged<Expr>> },
    /// Two operands with a binary operator between them, such as `1 + 2`.
    Dyadic { lhs: Box<Ranged<Expr>>, rhs: Box<Ranged<Expr>>, binop: Ranged<String> },
    /// An operand behind a unary operator, such as `- 1`.
    UnaryOperatorExpr { rhs: Box<Ranged<Expr>>, unaryop: Ranged<String> },
    /// A variant, with its argument if it has one.
    VariantConstructor { variant: Ranged<Variant>, args: Option<Box<Ranged<Unary>>> },
    /// A function applied to arguments.
    Application(Ranged<Application>),
    /// `record # member`
    RecordMember { record: Box<Ranged<Unary>>, member: Ranged<Variable> },
    /// An expression that needs no brackets around it.
    Unary(Ranged<Unary>),
}

/// One arm of a `match`.
#[derive(Debug, PartialEq)]
pub struct MatchArm {
    /// The pattern.
    pub ptn: Ranged<Pattern>,
    /// The condition behind `when`, if there is one.
    pub when: Option<Ranged<Expr>>,
    /// The expression behind `->`.
    pub body: Ranged<Expr>,
}

/// An argument of an application.
#[derive(Debug, PartialEq)]
pub enum AppArg {
    /// An argument.
    Unary(Unary),
    /// A variant without an argument of its own.
    Variant(Variant),
    /// An optional argument that is given, written `?:argument`.
    Optional(Unary),
    /// An optional argument that is left out, written `?*`.
    Omitted,
}

/// A function applied to arguments.
#[derive(Debug, PartialEq)]
pub enum Application {
    /// A variable, with its module if it names one, and the arguments.
    General { modname: Option<Ranged<String>>, var: Ranged<Variable>, args: Vec<Ranged<AppArg>> },
    /// `command` and the name of an inline command.
    Command(Ranged<String>),
}

/// An expression that needs no brackets around it.
#[derive(Debug, PartialEq)]
pub enum Unary {
    /// Block text between `'<` and `>`.
    BlockText(Vertical),
    /// Inline text between braces.
    HorizontalText(Horizontal),
    /// Math text between `${` and `}`.
    MathText(Math),
    /// A record.
    Record(Record),
    /// A list.
    List(List),
    /// A tuple.
    Tuple(Tuple),
    /// A binary operator in parentheses, used as a function.
    BinOperator(String),
    /// A literal.
    Literal(Literal),
    /// An expression in parentheses, behind the name of a module if it is
    /// written `Module.( ... )`.
    Expr { modname: Option<Ranged<String>>, expr: Box<Ranged<Expr>> },
    /// A variable, behind the name of its module if it names one.
    Variable { modname: Option<Ranged<String>>, var: Ranged<Variable> },
}

/// A field of a record with its value.
#[derive(Debug, PartialEq)]
pub struct RecordUnit {
    /// The name of the field.
    pub key: Ranged<String>,
    /// The value.
    pub val: Ranged<Expr>,
}

/// A record.
#[derive(Debug, PartialEq)]
pub enum Record {
    /// The fields that are written out.
    Mapping(Vec<RecordUnit>),
    /// `record with fields`: at least one field, and the record that gives
    /// the others.
    MapWithDefault { map: Vec<RecordUnit>, default: Box<Ranged<Unary>> },
}

/// The items of a list.
#[derive(Debug, PartialEq)]
pub struct List(pub Vec<Ranged<Expr>>);

/// The items of a tuple, which are two or more.
#[derive(Debug, PartialEq)]
pub struct Tuple(pub Vec<Ranged<Expr>>);

/// Model of `Expr`.
pub enum ExprModel {
    Match { expr: Box<Ranged<ExprModel>>, arms: Seq<Ranged<MatchArmModel>> },
    BindStmt { bind: Box<Ranged<StatementModel>>, body: Box<Ranged<ExprModel>> },
    CtrlFlowWhile { condition: Box<Ranged<ExprModel>>, body: Box<Ranged<ExprModel>> },
    CtrlFlowIf { condition: Box<Ranged<ExprModel>>, expr_true: Box<Ranged<ExprModel>>,
        expr_false: Box<Ranged<ExprModel>> },
    Dyadic { lhs: Box<Ranged<ExprModel>>, rhs: Box<Ranged<ExprModel>>, binop: Ranged<Seq<char>> },
    UnaryOperatorExpr { rhs: Box<Ranged<ExprModel>>, unaryop: Ranged<Seq<char>> },
    VariantConstructor { variant: Ranged<Seq<char>>, args: Option<Box<Ranged<UnaryModel>>> },
    Application(Ranged<ApplicationModel>),
    RecordMember { record: Box<Ranged<UnaryModel>>, member: Ranged<Seq<char>> },
    Unary(Ranged<UnaryModel>),
}

/// Model of `MatchArm`.
pub struct MatchArmModel {
    pub ptn: Ranged<PatternModel>,
    pub when: Option<Ranged<ExprModel>>,
    pub body: Ranged<ExprModel>,
}

/// Model of `AppArg`.
pub enum AppArgModel {
    Unary(UnaryModel),
    Variant(Seq<char>),
    Optional(UnaryModel),
    Omitted,
}

/// Model of `Application`.
pub enum ApplicationModel {
    General { modname: Option<Ranged<Seq<char>>>, var: Ranged<Seq<char>>,
        args: Seq<Ranged<AppArgModel>> },
    Command(Ranged<Seq<char>>),
}

/// Model of `Unary`.
pub enum UnaryModel {
    BlockText(Seq<Ranged<VerticalElementModel>>),
    HorizontalText(HorizontalModel),
    MathText(MathModel),
    Record(RecordModel),
    List(Seq<Ranged<ExprModel>>),
    Tuple(Seq<Ranged<ExprModel>>),
    BinOperator(Seq<char>),
    Literal(LiteralModel),
    Expr { modname: Option<Ranged<Seq<char>>>, expr: Box<Ranged<ExprModel>> },
    Variable { modname: Option<Ranged<Seq<char>>>, var: Ranged<Seq<char>> },
}

/// Model of `RecordUnit`.
pub struct RecordUnitModel {
    pub key: Ranged<Seq<char>>,
    pub val: Ranged<ExprModel>,
}

/// Model of `Record`.
pub enum RecordModel {
    Mapping(Seq<RecordUnitModel>),
    MapWithDefault { map: Seq<RecordUnitModel>, default: Box<Ranged<UnaryModel>> },
}

impl Expr {
    /// The model of the value.
    pub open spec fn model(self) -> ExprModel
        decreases self,
    {
        match self {
            Expr::Match { expr, arms } => ExprModel::Match {
                expr: Box::new(ranged((*expr), (*expr).body.model())),
                arms: Seq::new(
                    arms@.len(),
                    |i0: int|
                        if 0 <= i0 < arms@.len() {
                            ranged(arms@[i0], arms@[i0].body.model())
                        } else {
                            arbitrary()
                        },
                ),
            },
            Expr::BindStmt { bind, body } => ExprModel::BindStmt {
                bind: Box::new(ranged((*bind), (*bind).body.model())),
                body: Box::new(ranged((*body), (*body).body.model())),
            },
            Expr::CtrlFlowWhile { condition, body } => ExprModel::CtrlFlowWhile {
                condition: Box::new(ranged((*condition), (*condition).body.model())),
                body: Box::new(ranged((*body), (*body).body.model())),
            },
            Expr::CtrlFlowIf { condition, expr_true, expr_false } => ExprModel::CtrlFlowIf {
                condition: Box::new(ranged((*condition), (*condition).body.model())),
                expr_true: Box::new(ranged((*expr_true), (*expr_true).body.model())),
                expr_false: Box::new(ranged((*expr_false), (*expr_false).body.model())),
            },
            Expr::Dyadic { lhs, rhs, binop } => ExprModel::Dyadic {
                lhs: Box::new(ranged((*lhs), (*lhs).body.model())),
                rhs: Box::new(ranged((*rhs), (*rhs).body.model())),
                binop: ranged(binop, binop.body@),
            },
            Expr::UnaryOperatorExpr { rhs, unaryop } => ExprModel::UnaryOperatorExpr {
                rhs: Box::new(ranged((*rhs), (*rhs).body.model())),
                unaryop: ranged(unaryop, unaryop.body@),
            },
            Expr::VariantConstructor { variant, args } => ExprModel::VariantConstructor {
                variant: ranged(variant, variant.body.model()),
                args: match args {
                    Some(x0) => Some(Box::new(ranged((*x0), (*x0).body.model()))),
                    None => None,
                },
            },
            Expr::Application(v) => ExprModel::Application(ranged(v, v.body.model())),
            Expr::RecordMember { record, member } => ExprModel::RecordMember {
                record: Box::new(ranged((*record), (*record).body.model())),
                member: ranged(member, member.body.model()),
            },
            Expr::Unary(v) => ExprModel::Unary(ranged(v, v.body.model())),
        }
    }
}

impl MatchArm {
    /// The model of the value.
    pub open spec fn model(self) -> MatchArmModel
        decreases self,
    {
        MatchArmModel {
            ptn: ranged(self.ptn, self.ptn.body.model()),
            when: match self.when {
                Some(x0) => Some(ranged(x0, x0.body.model())),
                None => None,
            },
            body: ranged(self.body, self.body.body.model()),
        }
    }
}

impl AppArg {
    /// The model of the value.
    pub open spec fn model(self) -> AppArgModel
        decreases self,
    {
        match self {
            AppArg::Unary(v) => AppArgModel::Unary(v.model()),
            AppArg::Variant(v) => AppArgModel::Variant(v.model()),
            AppArg::Optional(v) => AppArgModel::Optional(v.model()),
            AppArg::Omitted => AppArgModel::Omitted,
        }
    }
}

impl Application {
    /// The model of the value.
    pub open spec fn model(self) -> ApplicationModel
        decreases self,
    {
        match self {
            Application::General { modname, var, args } => ApplicationModel::General {
                modname: match modname {
                    Some(x0) => Some(ranged(x0, x0.body@)),
                    None => None,
                },
                var: ranged(var, var.body.model()),
                args: Seq::new(
                    args@.len(),
                    |i0: int|
                        if 0 <= i0 < args@.len() {
                            ranged(args@[i0], args@[i0].body.model())
                        } else {
                            arbitrary()
                        },
                ),
            },
            Application::Command(v) => ApplicationModel::Command(ranged(v, v.body@)),
        }
    }
}

impl Unary {
    /// The model of the value.
    pub open spec fn model(self) -> UnaryModel
        decreases self,
    {
        match self {
            Unary::BlockText(v) => UnaryModel::BlockText(v.model()),
            Unary::HorizontalText(v) => UnaryModel::HorizontalText(v.model()),
            Unary::MathText(v) => UnaryModel::MathText(v.model()),
            Unary::Record(v) => UnaryModel::Record(v.model()),
            Unary::List(v) => UnaryModel::List(v.model()),
            Unary::Tuple(v) => UnaryModel::Tuple(v.model()),
            Unary::BinOperator(v) => UnaryModel::BinOperator(v@),
            Unary::Literal(v) => UnaryModel::Literal(v.model()),
            Unary::Expr { modname, expr } => UnaryModel::Expr {
                modname: match modname {
                    Some(x0) => Some(ranged(x0, x0.body@)),
                    None => None,
                },
                expr: Box::new(ranged((*expr), (*expr).body.model())),
            },
            Unary::Variable { modname, var } => UnaryModel::Variable {
                modname: match modname {
                    Some(x0) => Some(ranged(x0, x0.body@)),
                    None => None,
                },
                var: ranged(var, var.body.model()),
            },
        }
    }
}

impl RecordUnit {
    /// The model of the value.
    pub open spec fn model(self) -> RecordUnitModel
        decreases self,
    {
        RecordUnitModel {
            key: ranged(self.key, self.key.body@),
            val: ranged(self.val, self.val.body.model()),
        }
    }
}

impl Record {
    /// The model of the value.
    pub open spec fn model(self) -> RecordModel
        decreases self,
    {
        match self {
            Record::Mapping(v) => RecordModel::Mapping(Seq::new(
                v@.len(),
                |i0: int|
                    if 0 <= i0 < v@.len() {
                        v@[i0].model()
                    } else {
                        arbitrary()
                    },
            )),
            Record::MapWithDefault { map, default } => RecordModel::MapWithDefault {
                map: Seq::new(
                    map@.len(),
                    |i0: int|
                        if 0 <= i0 < map@.len() {
                            map@[i0].model()
                        } else {
                            arbitrary()
                        },
                ),
                default: Box::new(ranged((*default), (*default).body.model())),
            },
        }
    }
}

impl List {
    /// The model of the value.
    pub open spec fn model(self) -> Seq<Ranged<ExprModel>>
        decreases self,
    {
        Seq::new(
            self.0@.len(),
            |i0: int|
                if 0 <= i0 < self.0@.len() {
                    ranged(self.0@[i0], self.0@[i0].body.model())
                } else {
                    arbitrary()
                },
        )
    }
}

impl Tuple {
    /// The model of the value.
    pub open spec fn model(self) -> Seq<Ranged<ExprModel>>
        decreases self,
    {
        Seq::new(
            self.0@.len(),
            |i0: int|
                if 0 <= i0 < self.0@.len() {
                    ranged(self.0@[i0], self.0@[i0].body.model())
                } else {
                    arbitrary()
                },
        )
    }
}

/// Models of expressions.
pub open spec fn expr_models(xs: Seq<Ranged<Expr>>) -> Seq<Ranged<ExprModel>> {
    Seq::new(xs.len(), |i: int| ranged(xs[i], xs[i].body.model()))
}

/// Models of the arms of a `match`.
pub open spec fn arm_models(xs: Seq<Ranged<MatchArm>>) -> Seq<Ranged<MatchArmModel>> {
    Seq::new(xs.len(), |i: int| ranged(xs[i], xs[i].body.model()))
}

/// Models of the arguments of an application.
pub open spec fn app_arg_models(xs: Seq<Ranged<AppArg>>) -> Seq<Ranged<AppArgModel>> {
    Seq::new(xs.len(), |i: int| ranged(xs[i], xs[i].body.model()))
}

/// Models of the fields of a record.
pub open spec fn record_unit_models(xs: Seq<RecordUnit>) -> Seq<RecordUnitModel> {
    Seq::new(xs.len(), |i: int| xs[i].model())
}

/// Models of optional arguments of a command.
pub open spec fn option_models(xs: Seq<Ranged<Option<Expr>>>) -> Seq<Ranged<Option<ExprModel>>> {
    Seq::new(xs.len(), |i: int| ranged(xs[i], match xs[i].body {
        Some(x1) => Some(x1.model()),
        None => None,
    }))
}

impl ExprModel {
    /// Whether the ranges of the parts lie in `lo..hi`, one inside another
    /// down to the innermost part.
    pub open spec fn nested(self, lo: Location, hi: Location) -> bool
        decreases self,
    {
        match self {
            ExprModel::Match { expr, arms } => {
                &&& within((*expr), lo, hi) && (*expr).body.nested((*expr).start, (*expr).end)
                &&& (forall|i0: int|
                    0 <= i0 < arms.len() ==> within((#[trigger] arms[i0]), lo, hi)
                        && arms[i0].body.nested(arms[i0].start, arms[i0].end))
            },
            ExprModel::BindStmt { bind, body } => {
                &&& within((*bind), lo, hi) && (*bind).body.nested((*bind).start, (*bind).end)
                &&& within((*body), lo, hi) && (*body).body.nested((*body).start, (*body).end)
            },
            ExprModel::CtrlFlowWhile { condition, body } => {
                &&& within((*condition), lo, hi)
                    && (*condition).body.nested((*condition).start, (*condition).end)
                &&& within((*body), lo, hi) && (*body).body.nested((*body).start, (*body).end)
            },
            ExprModel::CtrlFlowIf { condition, expr_true, expr_false } => {
                &&& within((*condition), lo, hi)
                    && (*condition).body.nested((*condition).start, (*condition).end)
                &&& within((*expr_true), lo, hi)
                    && (*expr_true).body.nested((*expr_true).start, (*expr_true).end)
                &&& within((*expr_false), lo, hi)
                    && (*expr_false).body.nested((*expr_false).start, (*expr_false).end)
            },
            ExprModel::Dyadic { lhs, rhs, binop } => {
                &&& within((*lhs), lo, hi) && (*lhs).body.nested((*lhs).start, (*lhs).end)
                &&& within((*rhs), lo, hi) && (*rhs).body.nested((*rhs).start, (*rhs).end)
                &&& within(binop, lo, hi)
            },
            ExprModel::UnaryOperatorExpr { rhs, unaryop } => {
                &&& within((*rhs), lo, hi) && (*rhs).body.nested((*rhs).start, (*rhs).end)
                &&& within(unaryop, lo, hi)
            },
            ExprModel::VariantConstructor { variant, args } => {
                &&& within(variant, lo, hi)
                &&& (match args {
                    Some(x0) => within((*x0), lo, hi) && (*x0).body.nested((*x0).start, (*x0).end),
                    None => true,
                })
            },
            ExprModel::Application(v) => within(v, lo, hi) && v.body.nested(v.start, v.end),
            ExprModel::RecordMember { record, member } => {
                &&& within((*record), lo, hi)
                    && (*record).body.nested((*record).start, (*record).end)
                &&& within(member, lo, hi)
            },
            ExprModel::Unary(v) => within(v, lo, hi) && v.body.nested(v.start, v.end),
        }
    }
}

impl MatchArmModel {
    /// Whether the ranges of the parts lie in `lo..hi`, one inside another
    /// down to the innermost part.
    pub open spec fn nested(self, lo: Location, hi: Location) -> bool
        decreases self,
    {
        &&& within(self.ptn, lo, hi) && self.ptn.body.nested(self.ptn.start, self.ptn.end)
        &&& (match self.when {
            Some(x0) => within(x0, lo, hi) && x0.body.nested(x0.start, x0.end),
            None => true,
        })
        &&& within(self.body, lo, hi) && self.body.body.nested(self.body.start, self.body.end)
    }
}

impl AppArgModel {
    /// Whether the ranges of the parts lie in `lo..hi`, one inside another
    /// down to the innermost part.
    pub open spec fn nested(self, lo: Location, hi: Location) -> bool
        decreases self,
    {
        match self {
            AppArgModel::Unary(v) => v.nested(lo, hi),
            AppArgModel::Variant(_) => true,
            AppArgModel::Optional(v) => v.nested(lo, hi),
            AppArgModel::Omitted => true,
        }
    }
}

impl ApplicationModel {
    /// Whether the ranges of the parts lie in `lo..hi`, one inside another
    /// down to the innermost part.
    pub open spec fn nested(self, lo: Location, hi: Location) -> bool
        decreases self,
    {
        match self {
            ApplicationModel::General { modname, var, args } => {
                &&& (match modname {
                    Some(x0) => within(x0, lo, hi),
                    None => true,
                })
                &&& within(var, lo, hi)
                &&& (forall|i0: int|
                    0 <= i0 < args.len() ==> within((#[trigger] args[i0]), lo, hi)
                        && args[i0].body.nested(args[i0].start, args[i0].end))
            },
            ApplicationModel::Command(v) => within(v, lo, hi),
        }
    }
}

impl UnaryModel {
    /// Whether the ranges of the parts lie in `lo..hi`, one inside another
    /// down to the innermost part.
    pub open spec fn nested(self, lo: Location, hi: Location) -> bool
        decreases self,
    {
        match self {
            UnaryModel::BlockText(v) => (forall|i0: int|
                0 <= i0 < v.len() ==> within((#[trigger] v[i0]), lo, hi)
                    && v[i0].body.nested(v[i0].start, v[i0].end)),
            UnaryModel::HorizontalText(v) => v.nested(lo, hi),
            UnaryModel::MathText(v) => v.nested(lo, hi),
            UnaryModel::Record(v) => v.nested(lo, hi),
            UnaryModel::List(v) => (forall|i0: int|
                0 <= i0 < v.len() ==> within((#[trigger] v[i0]), lo, hi)
                    && v[i0].body.nested(v[i0].start, v[i0].end)),
            UnaryModel::Tuple(v) => (forall|i0: int|
                0 <= i0 < v.len() ==> within((#[trigger] v[i0]), lo, hi)
                    && v[i0].body.nested(v[i0].start, v[i0].end)),
            UnaryModel::BinOperator(_) => true,
            UnaryModel::Literal(v) => v.nested(lo, hi),
            UnaryModel::Expr { modname, expr } => {
                &&& (match modname {
                    Some(x0) => within(x0, lo, hi),
                    None => true,
                })
                &&& within((*expr), lo, hi) && (*expr).body.nested((*expr).start, (*expr).end)
            },
            UnaryModel::Variable { modname, var } => {
                &&& (match modname {
                    Some(x0) => within(x0, lo, hi),
                    None => true,
                })
                &&& within(var, lo, hi)
            },
        }
    }
}

impl RecordUnitModel {
    /// Whether the ranges of the parts lie in `lo..hi`, one inside another
    /// down to the innermost part.
    pub open spec fn nested(self, lo: Location, hi: Location) -> bool
        decreases self,
    {
        &&& within(self.key, lo, hi)
        &&& within(self.val, lo, hi) && self.val.body.nested(self.val.start, self.val.end)
    }
}

impl RecordModel {
    /// Whether the ranges of the parts lie in `lo..hi`, one inside another
    /// down to the innermost part.
    pub open spec fn nested(self, lo: Location, hi: Location) -> bool
        decreases self,
    {
        match self {
            RecordModel::Mapping(v) => (forall|i0: int|
                0 <= i0 < v.len() ==> (#[trigger] v[i0]).nested(lo, hi)),
            RecordModel::MapWithDefault { map, default } => {
                &&& (forall|i0: int|
                    0 <= i0 < map.len() ==> (#[trigger] map[i0]).nested(lo, hi))
                &&& within((*default), lo, hi)
                    && (*default).body.nested((*default).start, (*default).end)
            },
        }
    }
}

} // verus!
