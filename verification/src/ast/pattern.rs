//! Names and patterns.

use vstd::prelude::*;
use crate::ast::literal::ranged;
use crate::ast::literal::ranged_text;
use crate::ast::literal::Literal;
use crate::ast::literal::LiteralModel;
use crate::position::within;
use crate::position::Location;
use crate::position::Ranged;

verus! {

/// The name of a variable.
#[derive(Debug, PartialEq, Eq)]
pub struct Variable {
    pub name: String,
}

/// The name of a variant: a constructor of a sum type.
#[derive(Debug, PartialEq, Eq)]
pub struct Variant {
    pub name: String,
}

/// A pattern, as it stands in the arms of a `match` and on the left of a
/// binding.
#[derive(Debug, PartialEq)]
pub enum Pattern {
    /// `_`
    Wildcard,
    /// A literal that the value must equal.
    Literal(Literal),
    /// A variable that is bound to the value.
    Variable(Variable),
    /// `[p; q; ...]`
    List(Vec<Ranged<Pattern>>),
    /// `(p, q, ...)`
    Tuple(Vec<Ranged<Pattern>>),
    /// A variant, with the pattern of its argument if it has one.
    Variant { name: Ranged<Variant>, arg: Option<Box<Ranged<Pattern>>> },
    /// `head :: tail`
    Cons { head: Box<Ranged<Pattern>>, tail: Box<Ranged<Pattern>> },
    /// `pattern as variable`
    As { ptn: Box<Ranged<Pattern>>, var: Ranged<Variable> },
}

/// Model of a pattern.
pub enum PatternModel {
    Wildcard,
    Literal(LiteralModel),
    Variable(Seq<char>),
    List(Seq<Ranged<PatternModel>>),
    Tuple(Seq<Ranged<PatternModel>>),
    Variant { name: Ranged<Seq<char>>, arg: Option<Box<Ranged<PatternModel>>> },
    Cons { head: Box<Ranged<PatternModel>>, tail: Box<Ranged<PatternModel>> },
    As { ptn: Box<Ranged<PatternModel>>, var: Ranged<Seq<char>> },
}

impl Variable {
    /// The name.
    pub open spec fn model(self) -> Seq<char> {
        self.name@
    }
}

impl Variant {
    /// The name.
    pub open spec fn model(self) -> Seq<char> {
        self.name@
    }
}

/// Model of a ranged variable.
pub open spec fn ranged_variable(r: Ranged<Variable>) -> Ranged<Seq<char>> {
    ranged(r, r.body.model())
}

/// Model of a ranged variant.
pub open spec fn ranged_variant(r: Ranged<Variant>) -> Ranged<Seq<char>> {
    ranged(r, r.body.model())
}

impl Pattern {
    /// The model of the pattern.
    pub open spec fn model(self) -> PatternModel
        decreases self,
    {
        match self {
            Pattern::Wildcard => PatternModel::Wildcard,
            Pattern::Literal(l) => PatternModel::Literal(l.model()),
            Pattern::Variable(v) => PatternModel::Variable(v.model()),
            Pattern::List(ps) => PatternModel::List(
                Seq::new(
                    ps@.len(),
                    |i: int|
                        if 0 <= i < ps@.len() {
                            ranged(ps@[i], ps@[i].body.model())
                        } else {
                            arbitrary()
                        },
                ),
            ),
            Pattern::Tuple(ps) => PatternModel::Tuple(
                Seq::new(
                    ps@.len(),
                    |i: int|
                        if 0 <= i < ps@.len() {
                            ranged(ps@[i], ps@[i].body.model())
                        } else {
                            arbitrary()
                        },
                ),
            ),
            Pattern::Variant { name, arg } => PatternModel::Variant {
                name: ranged_variant(name),
                arg: match arg {
                    Some(p) => Some(Box::new(ranged(*p, p.body.model()))),
                    None => None,
                },
            },
            Pattern::Cons { head, tail } => PatternModel::Cons {
                head: Box::new(ranged(*head, head.body.model())),
                tail: Box::new(ranged(*tail, tail.body.model())),
            },
            Pattern::As { ptn, var } => PatternModel::As {
                ptn: Box::new(ranged(*ptn, ptn.body.model())),
                var: ranged_variable(var),
            },
        }
    }
}

impl PatternModel {
    /// Whether the ranges of the parts lie in `lo..hi`, one inside another
    /// down to the innermost part.
    pub open spec fn nested(self, lo: Location, hi: Location) -> bool
        decreases self,
    {
        match self {
            PatternModel::Literal(l) => l.nested(lo, hi),
            PatternModel::List(ps) => forall|i: int|
                0 <= i < ps.len() ==> within(#[trigger] ps[i], lo, hi) && ps[i].body.nested(
                    ps[i].start,
                    ps[i].end,
                ),
            PatternModel::Tuple(ps) => forall|i: int|
                0 <= i < ps.len() ==> within(#[trigger] ps[i], lo, hi) && ps[i].body.nested(
                    ps[i].start,
                    ps[i].end,
                ),
            PatternModel::Variant { name, arg } => within(name, lo, hi) && match arg {
                Some(p) => within(*p, lo, hi) && p.body.nested(p.start, p.end),
                None => true,
            },
            PatternModel::Cons { head, tail } => within(*head, lo, hi) && head.body.nested(
                head.start,
                head.end,
            ) && within(*tail, lo, hi) && tail.body.nested(tail.start, tail.end),
            PatternModel::As { ptn, var } => within(*ptn, lo, hi) && ptn.body.nested(
                ptn.start,
                ptn.end,
            ) && within(var, lo, hi),
            _ => true,
        }
    }
}

/// Models of ranged patterns.
pub open spec fn pattern_models(ps: Seq<Ranged<Pattern>>) -> Seq<Ranged<PatternModel>> {
    Seq::new(ps.len(), |i: int| ranged(ps[i], ps[i].body.model()))
}

/// The model of a list or tuple pattern holds the models of its items.
pub proof fn lemma_pattern_items(ps: Vec<Ranged<Pattern>>)
    ensures
        Pattern::List(ps).model() == PatternModel::List(pattern_models(ps@)),
        Pattern::Tuple(ps).model() == PatternModel::Tuple(pattern_models(ps@)),
{
    assert(Pattern::List(ps).model()->List_0 =~= pattern_models(ps@));
    assert(Pattern::Tuple(ps).model()->Tuple_0 =~= pattern_models(ps@));
}

} // verus!
