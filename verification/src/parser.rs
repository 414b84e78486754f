//! The recogniser: runs a rule of the grammar on a text.

use vstd::prelude::*;
use vstd::string::StringSliceAdditionalSpecFns;
use crate::grammar::build_grammar;
use crate::grammar::grammar;
use crate::peg::eval;
use crate::peg::no_trace;
use crate::peg::run;
use crate::peg::Outcome;
use crate::peg::Peg;
use crate::peg::Seen;
use crate::peg::Step;
use crate::rule::Rule;
use crate::tree::Pair;
use crate::tree::Tree;
use crate::tree::trees;

verus! {

/// How deep rules may be nested while a text is recognised.
pub const MAX_DEPTH: usize = 400;

/// Why a text was not recognised.
#[derive(Debug, PartialEq, Eq)]
pub enum ParseError {
    /// The text does not start with anything the rule matches. Matching got
    /// furthest at byte `pos`, where the rules `expected` were tried and did
    /// not match.
    NoMatch { pos: usize, expected: Vec<Rule> },
    /// The text nests rules deeper than `MAX_DEPTH`.
    TooDeep,
}

/// Model of `ParseError`.
pub enum ParseFailure {
    NoMatch { pos: int, expected: Seq<Rule> },
    TooDeep,
}

impl ParseError {
    /// The model of the error.
    pub open spec fn model(self) -> ParseFailure {
        match self {
            ParseError::NoMatch { pos, expected } => ParseFailure::NoMatch {
                pos: pos as int,
                expected: expected@,
            },
            ParseError::TooDeep => ParseFailure::TooDeep,
        }
    }
}

/// What a rule of the grammar matches at the start of a text: the node of
/// the match, or the reason why there is none.
pub open spec fn parse_spec(rule: Rule, bytes: Seq<u8>) -> Result<Tree, ParseFailure> {
    match eval(grammar(), Peg::Call(rule), bytes, 0, MAX_DEPTH as nat, no_trace()) {
        Outcome::Match { end, nodes, seen } => Ok(nodes[0]),
        Outcome::Miss { seen } => Err(
            ParseFailure::NoMatch { pos: seen.pos, expected: seen.rules },
        ),
        Outcome::Abort => Err(ParseFailure::TooDeep),
    }
}

/// The recogniser for the grammar.
pub struct SatysfiParser {
    table: Vec<Peg>,
}

impl SatysfiParser {
    #[verifier::type_invariant]
    spec fn holds_grammar(self) -> bool {
        self.table@ == grammar()
    }

    /// The table of rules that the recogniser works with: at every rule's
    /// index the rule's expression.
    pub closed spec fn rules(self) -> Seq<Peg> {
        self.table@
    }

    /// A recogniser, with the table of the grammar built.
    pub fn new() -> (p: SatysfiParser)
        ensures
            p.rules() == grammar(),
    {
        SatysfiParser { table: build_grammar() }
    }

    /// Matches `rule` at the start of `text`. The node returned covers what
    /// was matched, which may be less than the whole text.
    pub fn recognise(&self, rule: Rule, text: &str) -> (r: Result<Pair, ParseError>)
        ensures
            r matches Ok(p) ==> parse_spec(rule, text.spec_bytes()) == Ok::<Tree, ParseFailure>(p@),
            r matches Err(e) ==> parse_spec(rule, text.spec_bytes()) == Err::<Tree, ParseFailure>(
                e.model(),
            ),
    {
        proof {
            use_type_invariant(self);
        }
        let start = Peg::Call(rule);
        proof {
            rule.lemma_at_index();
        }
        match run(&self.table, &start, text.as_bytes(), 0, MAX_DEPTH, Seen::none()) {
            Step::Match(_, mut nodes, _) => {
                proof {
                    let found = eval(
                        grammar(),
                        start,
                        text.spec_bytes(),
                        0,
                        MAX_DEPTH as nat,
                        no_trace(),
                    );
                    assert(found->nodes.len() == 1);
                    assert(trees(nodes@).len() == 1);
                    assert(trees(nodes@)[0] == nodes@[0]@);
                }
                match nodes.pop() {
                    Some(p) => Ok(p),
                    None => Err(ParseError::TooDeep),
                }
            },
            Step::Miss(seen) => Err(ParseError::NoMatch { pos: seen.pos, expected: seen.rules }),
            Step::Abort => Err(ParseError::TooDeep),
        }
    }

    /// Matches `rule` at the start of `text`, with a recogniser made for
    /// this one call.
    pub fn parse(rule: Rule, text: &str) -> (r: Result<Pair, ParseError>)
        ensures
            r matches Ok(p) ==> parse_spec(rule, text.spec_bytes()) == Ok::<Tree, ParseFailure>(p@),
            r matches Err(e) ==> parse_spec(rule, text.spec_bytes()) == Err::<Tree, ParseFailure>(
                e.model(),
            ),
    {
        SatysfiParser::new().recognise(rule, text)
    }
}

} // verus!
