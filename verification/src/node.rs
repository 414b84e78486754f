//! Syntax elements that can be read from text.
//!
//! Every element names the rule of the grammar that matches it and says how
//! a node of the parse tree lowers to it. Reading an element from a text is
//! matching that rule and lowering the node.

use vstd::prelude::*;
use vstd::string::StringSliceAdditionalSpecFns;
use crate::ast::content::Horizontal;
use crate::ast::content::Math;
use crate::ast::content::MathSingle;
use crate::ast::content::MathToken;
use crate::ast::content::HorizontalBullet;
use crate::ast::content::HorizontalSingle;
use crate::ast::content::HorizontalToken;
use crate::ast::content::Vertical;
use crate::ast::content::VerticalElement;
use crate::ast::expr::Application;
use crate::ast::expr::Expr;
use crate::ast::expr::List;
use crate::ast::expr::MatchArm;
use crate::ast::expr::Record;
use crate::ast::expr::RecordUnit;
use crate::ast::expr::Tuple;
use crate::ast::expr::Unary;
use crate::ast::header::Header;
use crate::ast::header::Program;
use crate::ast::header::Stage;
use crate::ast::literal::Decimal;
use crate::ast::literal::Length;
use crate::ast::literal::Literal;
use crate::ast::pattern::Pattern;
use crate::ast::statement::Preamble;
use crate::ast::statement::Statement;
use crate::error::LowerError;
use crate::error::bad_span;
use crate::error::fails;
use crate::error::gives;
use crate::lower::common::wrap_node;
use crate::laws::ranges::all_element;
use crate::laws::ranges::all_expr;
use crate::laws::ranges::all_math_token;
use crate::laws::ranges::all_statement;
use crate::laws::ranges::all_token;
use crate::laws::ranges::lemma_application;
use crate::laws::ranges::lemma_arm;
use crate::laws::ranges::lemma_bullet;
use crate::laws::ranges::lemma_element;
use crate::laws::ranges::lemma_expr;
use crate::laws::ranges::lemma_header;
use crate::laws::ranges::lemma_horizontal;
use crate::laws::ranges::lemma_length;
use crate::laws::ranges::lemma_list;
use crate::laws::ranges::lemma_literal;
use crate::laws::ranges::lemma_math_mode;
use crate::laws::ranges::lemma_math_single;
use crate::laws::ranges::lemma_math_token;
use crate::laws::ranges::lemma_pattern;
use crate::laws::ranges::lemma_preamble;
use crate::laws::ranges::lemma_program;
use crate::laws::ranges::lemma_record;
use crate::laws::ranges::lemma_record_unit;
use crate::laws::ranges::lemma_single;
use crate::laws::ranges::lemma_statement;
use crate::laws::ranges::lemma_token;
use crate::laws::ranges::lemma_tuple;
use crate::laws::ranges::lemma_unary;
use crate::laws::ranges::lemma_vertical;
use crate::laws::ranges::scope;
use crate::laws::trees::lemma_parse_well_formed;
use crate::lower::content::bullet_of;
use crate::lower::content::element_of;
use crate::lower::content::horizontal_of;
use crate::lower::content::lower_bullet;
use crate::lower::content::lower_element;
use crate::lower::content::lower_horizontal;
use crate::lower::content::lower_single;
use crate::lower::content::lower_token;
use crate::lower::content::lower_vertical;
use crate::lower::content::single_of;
use crate::lower::content::token_of;
use crate::lower::content::vertical_of;
use crate::lower::expr::application_of;
use crate::lower::expr::arm_of;
use crate::lower::expr::expr_of;
use crate::lower::expr::list_of;
use crate::lower::expr::lower_application;
use crate::lower::expr::lower_arm;
use crate::lower::expr::lower_expr;
use crate::lower::expr::lower_list;
use crate::lower::expr::lower_record;
use crate::lower::expr::lower_record_unit;
use crate::lower::expr::lower_tuple;
use crate::lower::expr::lower_unary;
use crate::lower::expr::record_of;
use crate::lower::expr::record_unit_of;
use crate::lower::expr::tuple_of;
use crate::lower::expr::unary_of;
use crate::lower::header::header_of;
use crate::lower::header::lower_header;
use crate::lower::header::lower_program;
use crate::lower::header::lower_stage;
use crate::lower::header::program_of;
use crate::lower::header::stage_of;
use crate::lower::literal::bool_of;
use crate::lower::math::lower_math_mode;
use crate::lower::math::lower_math_single;
use crate::lower::math::lower_math_token;
use crate::lower::math::math_mode_of;
use crate::lower::math::math_single_of;
use crate::lower::math::math_token_of;
use crate::lower::literal::decimal_of;
use crate::lower::literal::int_of;
use crate::lower::literal::length_of;
use crate::lower::literal::literal_of;
use crate::lower::literal::lower_bool;
use crate::lower::literal::lower_decimal;
use crate::lower::literal::lower_int;
use crate::lower::literal::lower_length;
use crate::lower::literal::lower_literal;
use crate::lower::pattern::lower_pattern;
use crate::lower::pattern::pattern_of;
use crate::lower::statement::lower_preamble;
use crate::lower::statement::lower_statement;
use crate::lower::statement::preamble_of;
use crate::lower::statement::statement_of;
use crate::parser::ParseError;
use crate::parser::SatysfiParser;
use crate::parser::parse_spec;
use crate::position::Location;
use crate::position::Ranged;
use crate::position::loc_at;
use crate::rule::Rule;
use crate::text::covers;
use crate::tree::Pair;
use crate::tree::Tree;

verus! {

/// Why an element could not be read from a text.
#[derive(Debug, PartialEq, Eq)]
pub enum Error {
    /// The text does not match the rule.
    Syntax(ParseError),
    /// The parse tree could not be lowered.
    Lower(LowerError),
}

/// A syntax element.
pub trait Grammar: Sized {
    /// The rule that matches the element.
    spec fn start_rule() -> Rule;

    /// Whether `r` is what node `t` of a text with bytes `b` lowers to.
    spec fn lowers_to(b: Seq<u8>, t: Tree, r: Result<Self, LowerError>) -> bool;

    /// Whether the ranges of the element's parts lie in `lo..hi`, one inside
    /// another down to the innermost part.
    spec fn parts_within(self, lo: Location, hi: Location) -> bool;

    /// Ranges are contained: what a node of a well-formed tree lowers to has
    /// the ranges of its parts in the scope of the node, one inside another.
    proof fn lemma_parts_within(b: Seq<u8>, t: Tree, a: int, z: int, v: Self)
        requires
            scope(b, t, a, z),
            Self::lowers_to(b, t, Ok(v)),
        ensures
            v.parts_within(loc_at(b, a), loc_at(b, z)),
    ;

    /// The rule that matches the element.
    fn rule() -> (r: Rule)
        ensures
            r == Self::start_rule(),
    ;

    /// Lowers a node to the element.
    fn parse_pair(text: &str, pair: &Pair) -> (r: Result<Self, LowerError>)
        ensures
            Self::lowers_to(text.spec_bytes(), pair@, r),
    ;

    /// Lowers a node to the element and attaches the node's range, which
    /// does not end before it starts. Where the node lowers but covers no
    /// range of the text, that is the error. Where the node is one of a
    /// well-formed tree, the ranges of the element's parts lie in the range
    /// of the element, one inside another.
    fn parse_pair_ranged(text: &str, pair: &Pair) -> (r: Result<Ranged<Self>, LowerError>)
        ensures
            r matches Ok(v) ==> Self::lowers_to(text.spec_bytes(), pair@, Ok(v.body)) && covers(
                text.spec_bytes(),
                pair@,
            ) && v.start == loc_at(text.spec_bytes(), pair@.start) && v.end == loc_at(
                text.spec_bytes(),
                pair@.end,
            ) && v.start.at_or_before(v.end),
            r matches Ok(v) ==> (pair@.well_formed(text.spec_bytes().len() as int)
                && text.spec_bytes().len() < usize::MAX ==> v.body.parts_within(v.start, v.end)),
            r matches Err(e) ==> Self::lowers_to(text.spec_bytes(), pair@, Err(e)) || (e
                == bad_span(pair@) && !covers(text.spec_bytes(), pair@) && exists|v: Self|
                Self::lowers_to(text.spec_bytes(), pair@, Ok(v))),
    {
        match Self::parse_pair(text, pair) {
            Ok(v) => {
                let ghost body = v;
                proof {
                    let b = text.spec_bytes();
                    if pair@.well_formed(b.len() as int) && b.len() < usize::MAX {
                        Self::lemma_parts_within(b, pair@, pair@.start, pair@.end, body);
                    }
                }
                match wrap_node(v, text, pair) {
                    Ok(w) => Ok(w),
                    Err(e) => {
                        assert(Self::lowers_to(text.spec_bytes(), pair@, Ok(body)));
                        Err(e)
                    },
                }
            },
            Err(e) => Err(e),
        }
    }

    /// Reads the element from a text: matches the element's rule at the
    /// start of the text and lowers the node. The ranges of the element's
    /// parts lie in what was matched, one inside another.
    fn parse(text: &str) -> (r: Result<Self, Error>)
        ensures
            match parse_spec(Self::start_rule(), text.spec_bytes()) {
                Err(f) => r matches Err(Error::Syntax(e)) && e.model() == f,
                Ok(t) => match r {
                    Ok(v) => Self::lowers_to(text.spec_bytes(), t, Ok(v)) && (
                    text.spec_bytes().len() < usize::MAX ==> v.parts_within(
                        loc_at(text.spec_bytes(), t.start),
                        loc_at(text.spec_bytes(), t.end),
                    )),
                    Err(Error::Lower(e)) => Self::lowers_to(text.spec_bytes(), t, Err(e)),
                    Err(Error::Syntax(_)) => false,
                },
            },
    {
        match SatysfiParser::parse(Self::rule(), text) {
            Err(e) => Err(Error::Syntax(e)),
            Ok(pair) => match Self::parse_pair(text, &pair) {
                Ok(v) => {
                    proof {
                        let b = text.spec_bytes();
                        lemma_parse_well_formed(Self::start_rule(), b);
                        if b.len() < usize::MAX {
                            Self::lemma_parts_within(b, pair@, pair@.start, pair@.end, v);
                        }
                    }
                    Ok(v)
                },
                Err(e) => Err(Error::Lower(e)),
            },
        }
    }
}

impl Grammar for Program {
    open spec fn start_rule() -> Rule {
        Rule::program
    }

    open spec fn lowers_to(b: Seq<u8>, t: Tree, r: Result<Self, LowerError>) -> bool {
        match r {
            Ok(v) => gives(program_of(b, t), v.model()),
            Err(e) => fails(program_of(b, t), e),
        }
    }

    open spec fn parts_within(self, lo: Location, hi: Location) -> bool {
        self.model().nested(lo, hi)
    }

    proof fn lemma_parts_within(b: Seq<u8>, t: Tree, a: int, z: int, v: Self) {
        lemma_program(b, t, a, z);
    }

    fn rule() -> Rule {
        Rule::program
    }

    fn parse_pair(text: &str, pair: &Pair) -> Result<Self, LowerError> {
        lower_program(text, pair)
    }
}

impl Grammar for Stage {
    open spec fn start_rule() -> Rule {
        Rule::header_stage
    }

    open spec fn lowers_to(b: Seq<u8>, t: Tree, r: Result<Self, LowerError>) -> bool {
        match r {
            Ok(v) => gives(stage_of(b, t), v),
            Err(e) => fails(stage_of(b, t), e),
        }
    }

    open spec fn parts_within(self, lo: Location, hi: Location) -> bool {
        true
    }

    proof fn lemma_parts_within(b: Seq<u8>, t: Tree, a: int, z: int, v: Self) {
    }

    fn rule() -> Rule {
        Rule::header_stage
    }

    fn parse_pair(text: &str, pair: &Pair) -> Result<Self, LowerError> {
        lower_stage(text, pair)
    }
}

impl Grammar for Header {
    open spec fn start_rule() -> Rule {
        Rule::header
    }

    open spec fn lowers_to(b: Seq<u8>, t: Tree, r: Result<Self, LowerError>) -> bool {
        match r {
            Ok(v) => gives(header_of(b, t), v.model()),
            Err(e) => fails(header_of(b, t), e),
        }
    }

    open spec fn parts_within(self, lo: Location, hi: Location) -> bool {
        self.model().nested(lo, hi)
    }

    proof fn lemma_parts_within(b: Seq<u8>, t: Tree, a: int, z: int, v: Self) {
        lemma_header(b, t, a, z);
    }

    fn rule() -> Rule {
        Rule::header
    }

    fn parse_pair(text: &str, pair: &Pair) -> Result<Self, LowerError> {
        lower_header(text, pair)
    }
}

impl Grammar for Preamble {
    open spec fn start_rule() -> Rule {
        Rule::preamble
    }

    open spec fn lowers_to(b: Seq<u8>, t: Tree, r: Result<Self, LowerError>) -> bool {
        match r {
            Ok(v) => gives(preamble_of(b, t), v.model()),
            Err(e) => fails(preamble_of(b, t), e),
        }
    }

    open spec fn parts_within(self, lo: Location, hi: Location) -> bool {
        all_statement(self.model(), lo, hi)
    }

    proof fn lemma_parts_within(b: Seq<u8>, t: Tree, a: int, z: int, v: Self) {
        lemma_preamble(b, t, a, z);
    }

    fn rule() -> Rule {
        Rule::preamble
    }

    fn parse_pair(text: &str, pair: &Pair) -> Result<Self, LowerError> {
        lower_preamble(text, pair)
    }
}

impl Grammar for Statement {
    open spec fn start_rule() -> Rule {
        Rule::let_stmt
    }

    open spec fn lowers_to(b: Seq<u8>, t: Tree, r: Result<Self, LowerError>) -> bool {
        match r {
            Ok(v) => gives(statement_of(b, t), v.model()),
            Err(e) => fails(statement_of(b, t), e),
        }
    }

    open spec fn parts_within(self, lo: Location, hi: Location) -> bool {
        self.model().nested(lo, hi)
    }

    proof fn lemma_parts_within(b: Seq<u8>, t: Tree, a: int, z: int, v: Self) {
        lemma_statement(b, t, a, z);
    }

    fn rule() -> Rule {
        Rule::let_stmt
    }

    fn parse_pair(text: &str, pair: &Pair) -> Result<Self, LowerError> {
        lower_statement(text, pair)
    }
}

impl Grammar for Pattern {
    open spec fn start_rule() -> Rule {
        Rule::match_ptn
    }

    open spec fn lowers_to(b: Seq<u8>, t: Tree, r: Result<Self, LowerError>) -> bool {
        match r {
            Ok(v) => gives(pattern_of(b, t), v.model()),
            Err(e) => fails(pattern_of(b, t), e),
        }
    }

    open spec fn parts_within(self, lo: Location, hi: Location) -> bool {
        self.model().nested(lo, hi)
    }

    proof fn lemma_parts_within(b: Seq<u8>, t: Tree, a: int, z: int, v: Self) {
        lemma_pattern(b, t, a, z);
    }

    fn rule() -> Rule {
        Rule::match_ptn
    }

    fn parse_pair(text: &str, pair: &Pair) -> Result<Self, LowerError> {
        lower_pattern(text, pair)
    }
}

impl Grammar for Expr {
    open spec fn start_rule() -> Rule {
        Rule::expr
    }

    open spec fn lowers_to(b: Seq<u8>, t: Tree, r: Result<Self, LowerError>) -> bool {
        match r {
            Ok(v) => gives(expr_of(b, t), v.model()),
            Err(e) => fails(expr_of(b, t), e),
        }
    }

    open spec fn parts_within(self, lo: Location, hi: Location) -> bool {
        self.model().nested(lo, hi)
    }

    proof fn lemma_parts_within(b: Seq<u8>, t: Tree, a: int, z: int, v: Self) {
        lemma_expr(b, t, a, z);
    }

    fn rule() -> Rule {
        Rule::expr
    }

    fn parse_pair(text: &str, pair: &Pair) -> Result<Self, LowerError> {
        lower_expr(text, pair)
    }
}

impl Grammar for MatchArm {
    open spec fn start_rule() -> Rule {
        Rule::match_arm
    }

    open spec fn lowers_to(b: Seq<u8>, t: Tree, r: Result<Self, LowerError>) -> bool {
        match r {
            Ok(v) => gives(arm_of(b, t), v.model()),
            Err(e) => fails(arm_of(b, t), e),
        }
    }

    open spec fn parts_within(self, lo: Location, hi: Location) -> bool {
        self.model().nested(lo, hi)
    }

    proof fn lemma_parts_within(b: Seq<u8>, t: Tree, a: int, z: int, v: Self) {
        lemma_arm(b, t, a, z);
    }

    fn rule() -> Rule {
        Rule::match_arm
    }

    fn parse_pair(text: &str, pair: &Pair) -> Result<Self, LowerError> {
        lower_arm(text, pair)
    }
}

impl Grammar for Application {
    open spec fn start_rule() -> Rule {
        Rule::application
    }

    open spec fn lowers_to(b: Seq<u8>, t: Tree, r: Result<Self, LowerError>) -> bool {
        match r {
            Ok(v) => gives(application_of(b, t), v.model()),
            Err(e) => fails(application_of(b, t), e),
        }
    }

    open spec fn parts_within(self, lo: Location, hi: Location) -> bool {
        self.model().nested(lo, hi)
    }

    proof fn lemma_parts_within(b: Seq<u8>, t: Tree, a: int, z: int, v: Self) {
        lemma_application(b, t, a, z);
    }

    fn rule() -> Rule {
        Rule::application
    }

    fn parse_pair(text: &str, pair: &Pair) -> Result<Self, LowerError> {
        lower_application(text, pair)
    }
}

impl Grammar for Unary {
    open spec fn start_rule() -> Rule {
        Rule::unary
    }

    open spec fn lowers_to(b: Seq<u8>, t: Tree, r: Result<Self, LowerError>) -> bool {
        match r {
            Ok(v) => gives(unary_of(b, t), v.model()),
            Err(e) => fails(unary_of(b, t), e),
        }
    }

    open spec fn parts_within(self, lo: Location, hi: Location) -> bool {
        self.model().nested(lo, hi)
    }

    proof fn lemma_parts_within(b: Seq<u8>, t: Tree, a: int, z: int, v: Self) {
        lemma_unary(b, t, a, z);
    }

    fn rule() -> Rule {
        Rule::unary
    }

    fn parse_pair(text: &str, pair: &Pair) -> Result<Self, LowerError> {
        lower_unary(text, pair)
    }
}

impl Grammar for Record {
    open spec fn start_rule() -> Rule {
        Rule::record
    }

    open spec fn lowers_to(b: Seq<u8>, t: Tree, r: Result<Self, LowerError>) -> bool {
        match r {
            Ok(v) => gives(record_of(b, t), v.model()),
            Err(e) => fails(record_of(b, t), e),
        }
    }

    open spec fn parts_within(self, lo: Location, hi: Location) -> bool {
        self.model().nested(lo, hi)
    }

    proof fn lemma_parts_within(b: Seq<u8>, t: Tree, a: int, z: int, v: Self) {
        lemma_record(b, t, a, z);
    }

    fn rule() -> Rule {
        Rule::record
    }

    fn parse_pair(text: &str, pair: &Pair) -> Result<Self, LowerError> {
        lower_record(text, pair)
    }
}

impl Grammar for RecordUnit {
    open spec fn start_rule() -> Rule {
        Rule::record_unit
    }

    open spec fn lowers_to(b: Seq<u8>, t: Tree, r: Result<Self, LowerError>) -> bool {
        match r {
            Ok(v) => gives(record_unit_of(b, t), v.model()),
            Err(e) => fails(record_unit_of(b, t), e),
        }
    }

    open spec fn parts_within(self, lo: Location, hi: Location) -> bool {
        self.model().nested(lo, hi)
    }

    proof fn lemma_parts_within(b: Seq<u8>, t: Tree, a: int, z: int, v: Self) {
        lemma_record_unit(b, t, a, z);
    }

    fn rule() -> Rule {
        Rule::record_unit
    }

    fn parse_pair(text: &str, pair: &Pair) -> Result<Self, LowerError> {
        lower_record_unit(text, pair)
    }
}

impl Grammar for List {
    open spec fn start_rule() -> Rule {
        Rule::list
    }

    open spec fn lowers_to(b: Seq<u8>, t: Tree, r: Result<Self, LowerError>) -> bool {
        match r {
            Ok(v) => gives(list_of(b, t), v.model()),
            Err(e) => fails(list_of(b, t), e),
        }
    }

    open spec fn parts_within(self, lo: Location, hi: Location) -> bool {
        all_expr(self.model(), lo, hi)
    }

    proof fn lemma_parts_within(b: Seq<u8>, t: Tree, a: int, z: int, v: Self) {
        lemma_list(b, t, a, z);
    }

    fn rule() -> Rule {
        Rule::list
    }

    fn parse_pair(text: &str, pair: &Pair) -> Result<Self, LowerError> {
        lower_list(text, pair)
    }
}

impl Grammar for Tuple {
    open spec fn start_rule() -> Rule {
        Rule::tuple
    }

    open spec fn lowers_to(b: Seq<u8>, t: Tree, r: Result<Self, LowerError>) -> bool {
        match r {
            Ok(v) => gives(tuple_of(b, t), v.model()),
            Err(e) => fails(tuple_of(b, t), e),
        }
    }

    open spec fn parts_within(self, lo: Location, hi: Location) -> bool {
        all_expr(self.model(), lo, hi)
    }

    proof fn lemma_parts_within(b: Seq<u8>, t: Tree, a: int, z: int, v: Self) {
        lemma_tuple(b, t, a, z);
    }

    fn rule() -> Rule {
        Rule::tuple
    }

    fn parse_pair(text: &str, pair: &Pair) -> Result<Self, LowerError> {
        lower_tuple(text, pair)
    }
}

impl Grammar for Vertical {
    open spec fn start_rule() -> Rule {
        Rule::vertical_mode
    }

    open spec fn lowers_to(b: Seq<u8>, t: Tree, r: Result<Self, LowerError>) -> bool {
        match r {
            Ok(v) => gives(vertical_of(b, t), v.model()),
            Err(e) => fails(vertical_of(b, t), e),
        }
    }

    open spec fn parts_within(self, lo: Location, hi: Location) -> bool {
        all_element(self.model(), lo, hi)
    }

    proof fn lemma_parts_within(b: Seq<u8>, t: Tree, a: int, z: int, v: Self) {
        lemma_vertical(b, t, a, z);
    }

    fn rule() -> Rule {
        Rule::vertical_mode
    }

    fn parse_pair(text: &str, pair: &Pair) -> Result<Self, LowerError> {
        lower_vertical(text, pair)
    }
}

impl Grammar for VerticalElement {
    open spec fn start_rule() -> Rule {
        Rule::vertical_element
    }

    open spec fn lowers_to(b: Seq<u8>, t: Tree, r: Result<Self, LowerError>) -> bool {
        match r {
            Ok(v) => gives(element_of(b, t), v.model()),
            Err(e) => fails(element_of(b, t), e),
        }
    }

    open spec fn parts_within(self, lo: Location, hi: Location) -> bool {
        self.model().nested(lo, hi)
    }

    proof fn lemma_parts_within(b: Seq<u8>, t: Tree, a: int, z: int, v: Self) {
        lemma_element(b, t, a, z);
    }

    fn rule() -> Rule {
        Rule::vertical_element
    }

    fn parse_pair(text: &str, pair: &Pair) -> Result<Self, LowerError> {
        lower_element(text, pair)
    }
}

impl Grammar for Horizontal {
    open spec fn start_rule() -> Rule {
        Rule::horizontal_mode
    }

    open spec fn lowers_to(b: Seq<u8>, t: Tree, r: Result<Self, LowerError>) -> bool {
        match r {
            Ok(v) => gives(horizontal_of(b, t), v.model()),
            Err(e) => fails(horizontal_of(b, t), e),
        }
    }

    open spec fn parts_within(self, lo: Location, hi: Location) -> bool {
        self.model().nested(lo, hi)
    }

    proof fn lemma_parts_within(b: Seq<u8>, t: Tree, a: int, z: int, v: Self) {
        lemma_horizontal(b, t, a, z);
    }

    fn rule() -> Rule {
        Rule::horizontal_mode
    }

    fn parse_pair(text: &str, pair: &Pair) -> Result<Self, LowerError> {
        lower_horizontal(text, pair)
    }
}

impl Grammar for HorizontalBullet {
    open spec fn start_rule() -> Rule {
        Rule::horizontal_bullet
    }

    open spec fn lowers_to(b: Seq<u8>, t: Tree, r: Result<Self, LowerError>) -> bool {
        match r {
            Ok(v) => gives(bullet_of(b, t), v.model()),
            Err(e) => fails(bullet_of(b, t), e),
        }
    }

    open spec fn parts_within(self, lo: Location, hi: Location) -> bool {
        self.model().nested(lo, hi)
    }

    proof fn lemma_parts_within(b: Seq<u8>, t: Tree, a: int, z: int, v: Self) {
        lemma_bullet(b, t, a, z);
    }

    fn rule() -> Rule {
        Rule::horizontal_bullet
    }

    fn parse_pair(text: &str, pair: &Pair) -> Result<Self, LowerError> {
        lower_bullet(text, pair)
    }
}

impl Grammar for HorizontalSingle {
    open spec fn start_rule() -> Rule {
        Rule::horizontal_single
    }

    open spec fn lowers_to(b: Seq<u8>, t: Tree, r: Result<Self, LowerError>) -> bool {
        match r {
            Ok(v) => gives(single_of(b, t), v.model()),
            Err(e) => fails(single_of(b, t), e),
        }
    }

    open spec fn parts_within(self, lo: Location, hi: Location) -> bool {
        all_token(self.model(), lo, hi)
    }

    proof fn lemma_parts_within(b: Seq<u8>, t: Tree, a: int, z: int, v: Self) {
        lemma_single(b, t, a, z);
    }

    fn rule() -> Rule {
        Rule::horizontal_single
    }

    fn parse_pair(text: &str, pair: &Pair) -> Result<Self, LowerError> {
        lower_single(text, pair)
    }
}

impl Grammar for HorizontalToken {
    open spec fn start_rule() -> Rule {
        Rule::horizontal_token
    }

    open spec fn lowers_to(b: Seq<u8>, t: Tree, r: Result<Self, LowerError>) -> bool {
        match r {
            Ok(v) => gives(token_of(b, t), v.model()),
            Err(e) => fails(token_of(b, t), e),
        }
    }

    open spec fn parts_within(self, lo: Location, hi: Location) -> bool {
        self.model().nested(lo, hi)
    }

    proof fn lemma_parts_within(b: Seq<u8>, t: Tree, a: int, z: int, v: Self) {
        lemma_token(b, t, a, z);
    }

    fn rule() -> Rule {
        Rule::horizontal_token
    }

    fn parse_pair(text: &str, pair: &Pair) -> Result<Self, LowerError> {
        lower_token(text, pair)
    }
}

impl Grammar for Math {
    open spec fn start_rule() -> Rule {
        Rule::math_mode
    }

    open spec fn lowers_to(b: Seq<u8>, t: Tree, r: Result<Self, LowerError>) -> bool {
        match r {
            Ok(v) => gives(math_mode_of(b, t), v.model()),
            Err(e) => fails(math_mode_of(b, t), e),
        }
    }

    open spec fn parts_within(self, lo: Location, hi: Location) -> bool {
        self.model().nested(lo, hi)
    }

    proof fn lemma_parts_within(b: Seq<u8>, t: Tree, a: int, z: int, v: Self) {
        lemma_math_mode(b, t, a, z);
    }

    fn rule() -> Rule {
        Rule::math_mode
    }

    fn parse_pair(text: &str, pair: &Pair) -> Result<Self, LowerError> {
        lower_math_mode(text, pair)
    }
}

impl Grammar for MathSingle {
    open spec fn start_rule() -> Rule {
        Rule::math_single
    }

    open spec fn lowers_to(b: Seq<u8>, t: Tree, r: Result<Self, LowerError>) -> bool {
        match r {
            Ok(v) => gives(math_single_of(b, t), v.model()),
            Err(e) => fails(math_single_of(b, t), e),
        }
    }

    open spec fn parts_within(self, lo: Location, hi: Location) -> bool {
        all_math_token(self.model(), lo, hi)
    }

    proof fn lemma_parts_within(b: Seq<u8>, t: Tree, a: int, z: int, v: Self) {
        lemma_math_single(b, t, a, z);
    }

    fn rule() -> Rule {
        Rule::math_single
    }

    fn parse_pair(text: &str, pair: &Pair) -> Result<Self, LowerError> {
        lower_math_single(text, pair)
    }
}

impl Grammar for MathToken {
    open spec fn start_rule() -> Rule {
        Rule::math_token
    }

    open spec fn lowers_to(b: Seq<u8>, t: Tree, r: Result<Self, LowerError>) -> bool {
        match r {
            Ok(v) => gives(math_token_of(b, t), v.model()),
            Err(e) => fails(math_token_of(b, t), e),
        }
    }

    open spec fn parts_within(self, lo: Location, hi: Location) -> bool {
        self.model().nested(lo, hi)
    }

    proof fn lemma_parts_within(b: Seq<u8>, t: Tree, a: int, z: int, v: Self) {
        lemma_math_token(b, t, a, z);
    }

    fn rule() -> Rule {
        Rule::math_token
    }

    fn parse_pair(text: &str, pair: &Pair) -> Result<Self, LowerError> {
        lower_math_token(text, pair)
    }
}

impl Grammar for Literal {
    open spec fn start_rule() -> Rule {
        Rule::literal
    }

    open spec fn lowers_to(b: Seq<u8>, t: Tree, r: Result<Self, LowerError>) -> bool {
        match r {
            Ok(v) => gives(literal_of(b, t), v.model()),
            Err(e) => fails(literal_of(b, t), e),
        }
    }

    open spec fn parts_within(self, lo: Location, hi: Location) -> bool {
        self.model().nested(lo, hi)
    }

    proof fn lemma_parts_within(b: Seq<u8>, t: Tree, a: int, z: int, v: Self) {
        lemma_literal(b, t, a, z);
    }

    fn rule() -> Rule {
        Rule::literal
    }

    fn parse_pair(text: &str, pair: &Pair) -> Result<Self, LowerError> {
        lower_literal(text, pair)
    }
}

impl Grammar for Length {
    open spec fn start_rule() -> Rule {
        Rule::length_const
    }

    open spec fn lowers_to(b: Seq<u8>, t: Tree, r: Result<Self, LowerError>) -> bool {
        match r {
            Ok(v) => gives(length_of(b, t), v.model()),
            Err(e) => fails(length_of(b, t), e),
        }
    }

    open spec fn parts_within(self, lo: Location, hi: Location) -> bool {
        self.model().nested(lo, hi)
    }

    proof fn lemma_parts_within(b: Seq<u8>, t: Tree, a: int, z: int, v: Self) {
        lemma_length(b, t, a, z);
    }

    fn rule() -> Rule {
        Rule::length_const
    }

    fn parse_pair(text: &str, pair: &Pair) -> Result<Self, LowerError> {
        lower_length(text, pair)
    }
}

impl Grammar for Decimal {
    open spec fn start_rule() -> Rule {
        Rule::float_const
    }

    open spec fn lowers_to(b: Seq<u8>, t: Tree, r: Result<Self, LowerError>) -> bool {
        match r {
            Ok(v) => gives(decimal_of(b, t), v.model()),
            Err(e) => fails(decimal_of(b, t), e),
        }
    }

    open spec fn parts_within(self, lo: Location, hi: Location) -> bool {
        true
    }

    proof fn lemma_parts_within(b: Seq<u8>, t: Tree, a: int, z: int, v: Self) {
    }

    fn rule() -> Rule {
        Rule::float_const
    }

    fn parse_pair(text: &str, pair: &Pair) -> Result<Self, LowerError> {
        lower_decimal(text, pair)
    }
}

impl Grammar for bool {
    open spec fn start_rule() -> Rule {
        Rule::bool_const
    }

    open spec fn lowers_to(b: Seq<u8>, t: Tree, r: Result<Self, LowerError>) -> bool {
        match r {
            Ok(v) => gives(bool_of(b, t), v),
            Err(e) => fails(bool_of(b, t), e),
        }
    }

    open spec fn parts_within(self, lo: Location, hi: Location) -> bool {
        true
    }

    proof fn lemma_parts_within(b: Seq<u8>, t: Tree, a: int, z: int, v: Self) {
    }

    fn rule() -> Rule {
        Rule::bool_const
    }

    fn parse_pair(text: &str, pair: &Pair) -> Result<Self, LowerError> {
        lower_bool(text, pair)
    }
}

impl Grammar for i32 {
    open spec fn start_rule() -> Rule {
        Rule::int_const
    }

    open spec fn lowers_to(b: Seq<u8>, t: Tree, r: Result<Self, LowerError>) -> bool {
        match r {
            Ok(v) => gives(int_of(b, t), v),
            Err(e) => fails(int_of(b, t), e),
        }
    }

    open spec fn parts_within(self, lo: Location, hi: Location) -> bool {
        true
    }

    proof fn lemma_parts_within(b: Seq<u8>, t: Tree, a: int, z: int, v: Self) {
    }

    fn rule() -> Rule {
        Rule::int_const
    }

    fn parse_pair(text: &str, pair: &Pair) -> Result<Self, LowerError> {
        lower_int(text, pair)
    }
}

} // verus!
