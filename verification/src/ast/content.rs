//! Block text, inline text and math text.

use vstd::prelude::*;
use crate::ast::expr::Expr;
use crate::ast::expr::ExprModel;
use crate::ast::expr::List;
use crate::ast::expr::Unary;
use crate::ast::expr::UnaryModel;
use crate::ast::literal::Literal;
use crate::ast::literal::LiteralModel;
use crate::ast::literal::ranged;
use crate::position::Location;
use crate::position::Ranged;
use crate::position::within;

verus! {

/// An argument of a math command.
#[derive(Debug, PartialEq)]
pub enum MathArg {
    /// Math text in braces.
    Math(Math),
    /// Inline text, written `!{ ... }`.
    Horizontal(Horizontal),
    /// Block text, written `!< ... >`.
    Vertical(Vertical),
    /// An expression, written behind `!`.
    Expr(Unary),
}

/// A single element of math text.
#[derive(Debug, PartialEq)]
pub enum MathUnary {
    /// A letter or a digit.
    Char(String),
    /// A run of symbols such as `+` or `:=`.
    Symbol(String),
    /// A character that is written behind a backslash.
    SpecialChar(String),
    /// A math command with its arguments.
    Cmd { name: Ranged<String>, args: Vec<Ranged<MathArg>>, opts: Vec<Ranged<MathArg>> },
}

/// What stands above or below an element of math text.
#[derive(Debug, PartialEq)]
pub enum MathGroup {
    /// A run of math text in braces.
    Single(MathSingle),
    /// One element.
    Unary(MathUnary),
}

/// An element of math text with what stands above and below it.
#[derive(Debug, PartialEq)]
pub struct MathToken {
    /// The element.
    pub base: Ranged<MathUnary>,
    /// What stands above, behind `^`.
    pub sup: Option<Ranged<MathGroup>>,
    /// What stands below, behind `_`.
    pub sub: Option<Ranged<MathGroup>>,
}

/// A run of math text: its elements in order.
#[derive(Debug, PartialEq)]
pub struct MathSingle(pub Vec<Ranged<MathToken>>);

/// Math text.
#[derive(Debug, PartialEq)]
pub enum Math {
    /// One run of math text.
    Single(MathSingle),
    /// Runs of math text between bars.
    List(Vec<Ranged<MathSingle>>),
}

/// An element of block text.
#[derive(Debug, PartialEq)]
pub enum VerticalElement {
    /// A block command with its arguments.
    BlockCmd { name: Ranged<String>, args: Vec<Ranged<Expr>>, opts: Vec<Ranged<Option<Expr>>> },
    /// A variable whose content is inserted.
    BlockTextEmbedding { mod_name: Option<Ranged<String>>, name: Ranged<String> },
}

/// Block text: its elements in order.
#[derive(Debug, PartialEq)]
pub struct Vertical(pub Vec<Ranged<VerticalElement>>);

/// An element of inline text.
#[derive(Debug, PartialEq)]
pub enum HorizontalToken {
    /// Plain text.
    Text(Ranged<String>),
    /// A character that is written behind a backslash.
    SpecialChar(Ranged<String>),
    /// A variable whose content is inserted.
    HorizontalTextEmbedding { mod_name: Option<Ranged<String>>, name: Ranged<String> },
    /// An inline command with its arguments.
    InlineCmd { name: Ranged<String>, args: Vec<Ranged<Expr>>, opts: Vec<Ranged<Option<Expr>>> },
    /// Math text.
    Math(Ranged<Math>),
    /// A string between backticks.
    StringLiteral(Ranged<Literal>),
}

/// A run of inline text: its elements in order.
#[derive(Debug, PartialEq)]
pub struct HorizontalSingle(pub Vec<Ranged<HorizontalToken>>);

/// An item of a bullet list.
#[derive(Debug, PartialEq)]
pub struct HorizontalBullet {
    /// How deep the item is nested: the number of its asterisks.
    pub indent: u32,
    /// The text of the item.
    pub body: Ranged<HorizontalSingle>,
}

/// Inline text.
#[derive(Debug, PartialEq)]
pub enum Horizontal {
    /// One run of text.
    Single(HorizontalSingle),
    /// Runs of text between bars.
    List(Vec<Ranged<HorizontalSingle>>),
    /// The items of a bullet list.
    BulletList(Vec<Ranged<HorizontalBullet>>),
}

/// Model of `MathArg`.
pub enum MathArgModel {
    Math(MathModel),
    Horizontal(HorizontalModel),
    Vertical(Seq<Ranged<VerticalElementModel>>),
    Expr(UnaryModel),
}

/// Model of `MathUnary`.
pub enum MathUnaryModel {
    Char(Seq<char>),
    Symbol(Seq<char>),
    SpecialChar(Seq<char>),
    Cmd { name: Ranged<Seq<char>>, args: Seq<Ranged<MathArgModel>>,
        opts: Seq<Ranged<MathArgModel>> },
}

/// Model of `MathGroup`.
pub enum MathGroupModel {
    Single(Seq<Ranged<MathTokenModel>>),
    Unary(MathUnaryModel),
}

/// Model of `MathToken`.
pub struct MathTokenModel {
    pub base: Ranged<MathUnaryModel>,
    pub sup: Option<Ranged<MathGroupModel>>,
    pub sub: Option<Ranged<MathGroupModel>>,
}

/// Model of `Math`.
pub enum MathModel {
    Single(Seq<Ranged<MathTokenModel>>),
    List(Seq<Ranged<Seq<Ranged<MathTokenModel>>>>),
}

/// Model of `VerticalElement`.
pub enum VerticalElementModel {
    BlockCmd { name: Ranged<Seq<char>>, args: Seq<Ranged<ExprModel>>,
        opts: Seq<Ranged<Option<ExprModel>>> },
    BlockTextEmbedding { mod_name: Option<Ranged<Seq<char>>>, name: Ranged<Seq<char>> },
}

/// Model of `HorizontalToken`.
pub enum HorizontalTokenModel {
    Text(Ranged<Seq<char>>),
    SpecialChar(Ranged<Seq<char>>),
    HorizontalTextEmbedding { mod_name: Option<Ranged<Seq<char>>>, name: Ranged<Seq<char>> },
    InlineCmd { name: Ranged<Seq<char>>, args: Seq<Ranged<ExprModel>>,
        opts: Seq<Ranged<Option<ExprModel>>> },
    Math(Ranged<MathModel>),
    StringLiteral(Ranged<LiteralModel>),
}

/// Model of `HorizontalBullet`.
pub struct HorizontalBulletModel {
    pub indent: u32,
    pub body: Ranged<Seq<Ranged<HorizontalTokenModel>>>,
}

/// Model of `Horizontal`.
pub enum HorizontalModel {
    Single(Seq<Ranged<HorizontalTokenModel>>),
    List(Seq<Ranged<Seq<Ranged<HorizontalTokenModel>>>>),
    BulletList(Seq<Ranged<HorizontalBulletModel>>),
}

impl MathArg {
    /// The model of the value.
    pub open spec fn model(self) -> MathArgModel
        decreases self,
    {
        match self {
            MathArg::Math(v) => MathArgModel::Math(v.model()),
            MathArg::Horizontal(v) => MathArgModel::Horizontal(v.model()),
            MathArg::Vertical(v) => MathArgModel::Vertical(v.model()),
            MathArg::Expr(v) => MathArgModel::Expr(v.model()),
        }
    }
}

impl MathUnary {
    /// The model of the value.
    pub open spec fn model(self) -> MathUnaryModel
        decreases self,
    {
        match self {
            MathUnary::Char(v) => MathUnaryModel::Char(v@),
            MathUnary::Symbol(v) => MathUnaryModel::Symbol(v@),
            MathUnary::SpecialChar(v) => MathUnaryModel::SpecialChar(v@),
            MathUnary::Cmd { name, args, opts } => MathUnaryModel::Cmd {
                name: ranged(name, name.body@),
                args: Seq::new(
                    args@.len(),
                    |i0: int|
                        if 0 <= i0 < args@.len() {
                            ranged(args@[i0], args@[i0].body.model())
                        } else {
                            arbitrary()
                        },
                ),
                opts: Seq::new(
                    opts@.len(),
                    |i0: int|
                        if 0 <= i0 < opts@.len() {
                            ranged(opts@[i0], opts@[i0].body.model())
                        } else {
                            arbitrary()
                        },
                ),
            },
        }
    }
}

impl MathGroup {
    /// The model of the value.
    pub open spec fn model(self) -> MathGroupModel
        decreases self,
    {
        match self {
            MathGroup::Single(v) => MathGroupModel::Single(v.model()),
            MathGroup::Unary(v) => MathGroupModel::Unary(v.model()),
        }
    }
}

impl MathToken {
    /// The model of the value.
    pub open spec fn model(self) -> MathTokenModel
        decreases self,
    {
        MathTokenModel {
            base: ranged(self.base, self.base.body.model()),
            sup: match self.sup {
                Some(x0) => Some(ranged(x0, x0.body.model())),
                None => None,
            },
            sub: match self.sub {
                Some(x0) => Some(ranged(x0, x0.body.model())),
                None => None,
            },
        }
    }
}

impl MathSingle {
    /// The model of the value.
    pub open spec fn model(self) -> Seq<Ranged<MathTokenModel>>
        decreases self,
    {
        Seq::new(
            self.0@.len(),
            |i0: int|
                if 0 <= i0 < self.0@.len() {
                    ranged(self.0@[i0], self.0@[i0].body.model())
                } else {
                    arbitrary()
                },
        )
    }
}

impl Math {
    /// The model of the value.
    pub open spec fn model(self) -> MathModel
        decreases self,
    {
        match self {
            Math::Single(v) => MathModel::Single(v.model()),
            Math::List(v) => MathModel::List(Seq::new(
                v@.len(),
                |i0: int|
                    if 0 <= i0 < v@.len() {
                        ranged(v@[i0], v@[i0].body.model())
                    } else {
                        arbitrary()
                    },
            )),
        }
    }
}

impl VerticalElement {
    /// The model of the value.
    pub open spec fn model(self) -> VerticalElementModel
        decreases self,
    {
        match self {
            VerticalElement::BlockCmd { name, args, opts } => VerticalElementModel::BlockCmd {
                name: ranged(name, name.body@),
                args: Seq::new(
                    args@.len(),
                    |i0: int|
                        if 0 <= i0 < args@.len() {
                            ranged(args@[i0], args@[i0].body.model())
                        } else {
                            arbitrary()
                        },
                ),
                opts: Seq::new(
                    opts@.len(),
                    |i0: int|
                        if 0 <= i0 < opts@.len() {
                            ranged(opts@[i0], match opts@[i0].body {
                                Some(x1) => Some(x1.model()),
                                None => None,
                            })
                        } else {
                            arbitrary()
                        },
                ),
            },
            VerticalElement::BlockTextEmbedding { mod_name,
                name } => VerticalElementModel::BlockTextEmbedding {
                mod_name: match mod_name {
                    Some(x0) => Some(ranged(x0, x0.body@)),
                    None => None,
                },
                name: ranged(name, name.body@),
            },
        }
    }
}

impl Vertical {
    /// The model of the value.
    pub open spec fn model(self) -> Seq<Ranged<VerticalElementModel>>
        decreases self,
    {
        Seq::new(
            self.0@.len(),
            |i0: int|
                if 0 <= i0 < self.0@.len() {
                    ranged(self.0@[i0], self.0@[i0].body.model())
                } else {
                    arbitrary()
                },
        )
    }
}

impl HorizontalToken {
    /// The model of the value.
    pub open spec fn model(self) -> HorizontalTokenModel
        decreases self,
    {
        match self {
            HorizontalToken::Text(v) => HorizontalTokenModel::Text(ranged(v, v.body@)),
            HorizontalToken::SpecialChar(v) => HorizontalTokenModel::SpecialChar(ranged(v,
                v.body@)),
            HorizontalToken::HorizontalTextEmbedding { mod_name,
                name } => HorizontalTokenModel::HorizontalTextEmbedding {
                mod_name: match mod_name {
                    Some(x0) => Some(ranged(x0, x0.body@)),
                    None => None,
                },
                name: ranged(name, name.body@),
            },
            HorizontalToken::InlineCmd { name, args, opts } => HorizontalTokenModel::InlineCmd {
                name: ranged(name, name.body@),
                args: Seq::new(
                    args@.len(),
                    |i0: int|
                        if 0 <= i0 < args@.len() {
                            ranged(args@[i0], args@[i0].body.model())
                        } else {
                            arbitrary()
                        },
                ),
                opts: Seq::new(
                    opts@.len(),
                    |i0: int|
                        if 0 <= i0 < opts@.len() {
                            ranged(opts@[i0], match opts@[i0].body {
                                Some(x1) => Some(x1.model()),
                                None => None,
                            })
                        } else {
                            arbitrary()
                        },
                ),
            },
            HorizontalToken::Math(v) => HorizontalTokenModel::Math(ranged(v, v.body.model())),
            HorizontalToken::StringLiteral(v) => HorizontalTokenModel::StringLiteral(ranged(v,
                v.body.model())),
        }
    }
}

impl HorizontalSingle {
    /// The model of the value.
    pub open spec fn model(self) -> Seq<Ranged<HorizontalTokenModel>>
        decreases self,
    {
        Seq::new(
            self.0@.len(),
            |i0: int|
                if 0 <= i0 < self.0@.len() {
                    ranged(self.0@[i0], self.0@[i0].body.model())
                } else {
                    arbitrary()
                },
        )
    }
}

impl HorizontalBullet {
    /// The model of the value.
    pub open spec fn model(self) -> HorizontalBulletModel
        decreases self,
    {
        HorizontalBulletModel {
            indent: self.indent,
            body: ranged(self.body, self.body.body.model()),
        }
    }
}

impl Horizontal {
    /// The model of the value.
    pub open spec fn model(self) -> HorizontalModel
        decreases self,
    {
        match self {
            Horizontal::Single(v) => HorizontalModel::Single(v.model()),
            Horizontal::List(v) => HorizontalModel::List(Seq::new(
                v@.len(),
                |i0: int|
                    if 0 <= i0 < v@.len() {
                        ranged(v@[i0], v@[i0].body.model())
                    } else {
                        arbitrary()
                    },
            )),
            Horizontal::BulletList(v) => HorizontalModel::BulletList(Seq::new(
                v@.len(),
                |i0: int|
                    if 0 <= i0 < v@.len() {
                        ranged(v@[i0], v@[i0].body.model())
                    } else {
                        arbitrary()
                    },
            )),
        }
    }
}

/// Models of the elements of math text.
pub open spec fn math_token_models(xs: Seq<Ranged<MathToken>>) -> Seq<Ranged<MathTokenModel>> {
    Seq::new(xs.len(), |i: int| ranged(xs[i], xs[i].body.model()))
}

/// Models of runs of math text.
pub open spec fn math_single_models(xs: Seq<Ranged<MathSingle>>) -> Seq<Ranged<Seq<Ranged<MathTokenModel>>>> {
    Seq::new(xs.len(), |i: int| ranged(xs[i], xs[i].body.model()))
}

/// Models of the arguments of a math command.
pub open spec fn math_arg_models(xs: Seq<Ranged<MathArg>>) -> Seq<Ranged<MathArgModel>> {
    Seq::new(xs.len(), |i: int| ranged(xs[i], xs[i].body.model()))
}

/// Models of the elements of block text.
pub open spec fn element_models(xs: Seq<Ranged<VerticalElement>>) -> Seq<Ranged<VerticalElementModel>> {
    Seq::new(xs.len(), |i: int| ranged(xs[i], xs[i].body.model()))
}

/// Models of the elements of inline text.
pub open spec fn token_models(xs: Seq<Ranged<HorizontalToken>>) -> Seq<Ranged<HorizontalTokenModel>> {
    Seq::new(xs.len(), |i: int| ranged(xs[i], xs[i].body.model()))
}

/// Models of runs of inline text.
pub open spec fn single_models(xs: Seq<Ranged<HorizontalSingle>>) -> Seq<Ranged<Seq<Ranged<HorizontalTokenModel>>>> {
    Seq::new(xs.len(), |i: int| ranged(xs[i], xs[i].body.model()))
}

/// Models of the items of a bullet list.
pub open spec fn bullet_models(xs: Seq<Ranged<HorizontalBullet>>) -> Seq<Ranged<HorizontalBulletModel>> {
    Seq::new(xs.len(), |i: int| ranged(xs[i], xs[i].body.model()))
}

impl MathArgModel {
    /// Whether the ranges of the parts lie in `lo..hi`, one inside another
    /// down to the innermost part.
    pub open spec fn nested(self, lo: Location, hi: Location) -> bool
        decreases self,
    {
        match self {
            MathArgModel::Math(v) => v.nested(lo, hi),
            MathArgModel::Horizontal(v) => v.nested(lo, hi),
            MathArgModel::Vertical(v) => (forall|i0: int|
                0 <= i0 < v.len() ==> within((#[trigger] v[i0]), lo, hi)
                    && v[i0].body.nested(v[i0].start, v[i0].end)),
            MathArgModel::Expr(v) => v.nested(lo, hi),
        }
    }
}

impl MathUnaryModel {
    /// Whether the ranges of the parts lie in `lo..hi`, one inside another
    /// down to the innermost part.
    pub open spec fn nested(self, lo: Location, hi: Location) -> bool
        decreases self,
    {
        match self {
            MathUnaryModel::Char(_) => true,
            MathUnaryModel::Symbol(_) => true,
            MathUnaryModel::SpecialChar(_) => true,
            MathUnaryModel::Cmd { name, args, opts } => {
                &&& within(name, lo, hi)
                &&& (forall|i0: int|
                    0 <= i0 < args.len() ==> within((#[trigger] args[i0]), lo, hi)
                        && args[i0].body.nested(args[i0].start, args[i0].end))
                &&& (forall|i0: int|
                    0 <= i0 < opts.len() ==> within((#[trigger] opts[i0]), lo, hi)
                        && opts[i0].body.nested(opts[i0].start, opts[i0].end))
            },
        }
    }
}

impl MathGroupModel {
    /// Whether the ranges of the parts lie in `lo..hi`, one inside another
    /// down to the innermost part.
    pub open spec fn nested(self, lo: Location, hi: Location) -> bool
        decreases self,
    {
        match self {
            MathGroupModel::Single(v) => (forall|i0: int|
                0 <= i0 < v.len() ==> within((#[trigger] v[i0]), lo, hi)
                    && v[i0].body.nested(v[i0].start, v[i0].end)),
            MathGroupModel::Unary(v) => v.nested(lo, hi),
        }
    }
}

impl MathTokenModel {
    /// Whether the ranges of the parts lie in `lo..hi`, one inside another
    /// down to the innermost part.
    pub open spec fn nested(self, lo: Location, hi: Location) -> bool
        decreases self,
    {
        &&& within(self.base, lo, hi) && self.base.body.nested(self.base.start, self.base.end)
        &&& (match self.sup {
            Some(x0) => within(x0, lo, hi) && x0.body.nested(x0.start, x0.end),
            None => true,
        })
        &&& (match self.sub {
            Some(x0) => within(x0, lo, hi) && x0.body.nested(x0.start, x0.end),
            None => true,
        })
    }
}

impl MathModel {
    /// Whether the ranges of the parts lie in `lo..hi`, one inside another
    /// down to the innermost part.
    pub open spec fn nested(self, lo: Location, hi: Location) -> bool
        decreases self,
    {
        match self {
            MathModel::Single(v) => (forall|i0: int|
                0 <= i0 < v.len() ==> within((#[trigger] v[i0]), lo, hi)
                    && v[i0].body.nested(v[i0].start, v[i0].end)),
            MathModel::List(v) => (forall|i0: int|
                0 <= i0 < v.len() ==> within((#[trigger] v[i0]), lo, hi) && (forall|i1: int|
                    0 <= i1 < v[i0].body.len()
                        ==> within((#[trigger] v[i0].body[i1]), v[i0].start, v[i0].end)
                        && v[i0].body[i1].body.nested(v[i0].body[i1].start, v[i0].body[i1].end))),
        }
    }
}

impl VerticalElementModel {
    /// Whether the ranges of the parts lie in `lo..hi`, one inside another
    /// down to the innermost part.
    pub open spec fn nested(self, lo: Location, hi: Location) -> bool
        decreases self,
    {
        match self {
            VerticalElementModel::BlockCmd { name, args, opts } => {
                &&& within(name, lo, hi)
                &&& (forall|i0: int|
                    0 <= i0 < args.len() ==> within((#[trigger] args[i0]), lo, hi)
                        && args[i0].body.nested(args[i0].start, args[i0].end))
                &&& (forall|i0: int|
                    0 <= i0 < opts.len() ==> within((#[trigger] opts[i0]), lo, hi)
                        && (match opts[i0].body {
                        Some(x1) => x1.nested(opts[i0].start, opts[i0].end),
                        None => true,
                    }))
            },
            VerticalElementModel::BlockTextEmbedding { mod_name, name } => {
                &&& (match mod_name {
                    Some(x0) => within(x0, lo, hi),
                    None => true,
                })
                &&& within(name, lo, hi)
            },
        }
    }
}

impl HorizontalTokenModel {
    /// Whether the ranges of the parts lie in `lo..hi`, one inside another
    /// down to the innermost part.
    pub open spec fn nested(self, lo: Location, hi: Location) -> bool
        decreases self,
    {
        match self {
            HorizontalTokenModel::Text(v) => within(v, lo, hi),
            HorizontalTokenModel::SpecialChar(v) => within(v, lo, hi),
            HorizontalTokenModel::HorizontalTextEmbedding { mod_name, name } => {
                &&& (match mod_name {
                    Some(x0) => within(x0, lo, hi),
                    None => true,
                })
                &&& within(name, lo, hi)
            },
            HorizontalTokenModel::InlineCmd { name, args, opts } => {
                &&& within(name, lo, hi)
                &&& (forall|i0: int|
                    0 <= i0 < args.len() ==> within((#[trigger] args[i0]), lo, hi)
                        && args[i0].body.nested(args[i0].start, args[i0].end))
                &&& (forall|i0: int|
                    0 <= i0 < opts.len() ==> within((#[trigger] opts[i0]), lo, hi)
                        && (match opts[i0].body {
                        Some(x1) => x1.nested(opts[i0].start, opts[i0].end),
                        None => true,
                    }))
            },
            HorizontalTokenModel::Math(v) => within(v, lo, hi) && v.body.nested(v.start, v.end),
            HorizontalTokenModel::StringLiteral(v) => within(v, lo, hi)
                && v.body.nested(v.start, v.end),
        }
    }
}

impl HorizontalBulletModel {
    /// Whether the ranges of the parts lie in `lo..hi`, one inside another
    /// down to the innermost part.
    pub open spec fn nested(self, lo: Location, hi: Location) -> bool
        decreases self,
    {
        &&& within(self.body, lo, hi) && (forall|i0: int|
            0 <= i0 < self.body.body.len()
                ==> within((#[trigger] self.body.body[i0]), self.body.start, self.body.end)
                && self.body.body[i0].body.nested(self.body.body[i0].start, self.body.body[i0].end))
    }
}

impl HorizontalModel {
    /// Whether the ranges of the parts lie in `lo..hi`, one inside another
    /// down to the innermost part.
    pub open spec fn nested(self, lo: Location, hi: Location) -> bool
        decreases self,
    {
        match self {
            HorizontalModel::Single(v) => (forall|i0: int|
                0 <= i0 < v.len() ==> within((#[trigger] v[i0]), lo, hi)
                    && v[i0].body.nested(v[i0].start, v[i0].end)),
            HorizontalModel::List(v) => (forall|i0: int|
                0 <= i0 < v.len() ==> within((#[trigger] v[i0]), lo, hi) && (forall|i1: int|
                    0 <= i1 < v[i0].body.len()
                        ==> within((#[trigger] v[i0].body[i1]), v[i0].start, v[i0].end)
                        && v[i0].body[i1].body.nested(v[i0].body[i1].start, v[i0].body[i1].end))),
            HorizontalModel::BulletList(v) => (forall|i0: int|
                0 <= i0 < v.len() ==> within((#[trigger] v[i0]), lo, hi)
                    && v[i0].body.nested(v[i0].start, v[i0].end)),
        }
    }
}

} // verus!
