//! Literals.

use vstd::prelude::*;
use crate::position::within;
use crate::position::Location;
use crate::position::Ranged;

verus! {

/// A number with a fraction, as it is written: digits with at most one
/// decimal point among them.
#[derive(Debug, PartialEq, Eq)]
pub struct Decimal {
    /// The digits and the point.
    pub text: String,
}

/// A length: a number and a unit.
#[derive(Debug, PartialEq)]
pub struct Length {
    /// How many units.
    pub value: Ranged<Decimal>,
    /// The name of the unit.
    pub unit: Ranged<String>,
}

/// A literal.
#[derive(Debug, PartialEq)]
pub enum Literal {
    /// `()`
    Unit,
    /// `true` or `false`
    Bool(bool),
    /// A string between backticks.
    String(String),
    /// A length such as `12pt`.
    Length(Length),
    /// A number with a decimal point.
    Float(Decimal),
    /// An integer, written in decimal or hexadecimal.
    Int(i32),
}

/// Model of a value with its range.
pub open spec fn ranged<T, V>(r: Ranged<T>, body: V) -> Ranged<V> {
    Ranged { body, start: r.start, end: r.end }
}

/// Model of a ranged string.
pub open spec fn ranged_text(r: Ranged<String>) -> Ranged<Seq<char>> {
    ranged(r, r.body@)
}

/// Model of a length.
pub struct LengthModel {
    pub value: Ranged<Seq<char>>,
    pub unit: Ranged<Seq<char>>,
}

/// Model of a literal.
pub enum LiteralModel {
    Unit,
    Bool(bool),
    String(Seq<char>),
    Length(LengthModel),
    Float(Seq<char>),
    Int(i32),
}

impl Decimal {
    /// The text of the number.
    pub open spec fn model(self) -> Seq<char> {
        self.text@
    }
}

impl Length {
    /// The model of the length.
    pub open spec fn model(self) -> LengthModel {
        LengthModel {
            value: ranged(self.value, self.value.body.model()),
            unit: ranged_text(self.unit),
        }
    }
}

impl Literal {
    /// The model of the literal.
    pub open spec fn model(self) -> LiteralModel {
        match self {
            Literal::Unit => LiteralModel::Unit,
            Literal::Bool(b) => LiteralModel::Bool(b),
            Literal::String(s) => LiteralModel::String(s@),
            Literal::Length(l) => LiteralModel::Length(l.model()),
            Literal::Float(d) => LiteralModel::Float(d.model()),
            Literal::Int(i) => LiteralModel::Int(i),
        }
    }
}

impl LengthModel {
    /// Whether the ranges of the number and of the unit lie in `lo..hi`.
    pub open spec fn nested(self, lo: Location, hi: Location) -> bool {
        within(self.value, lo, hi) && within(self.unit, lo, hi)
    }
}

impl LiteralModel {
    /// Whether the ranges of the parts lie in `lo..hi`.
    pub open spec fn nested(self, lo: Location, hi: Location) -> bool {
        match self {
            LiteralModel::Length(l) => l.nested(lo, hi),
            _ => true,
        }
    }
}

} // verus!
