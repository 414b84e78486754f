//! Lowering of patterns.

use vstd::prelude::*;
use vstd::string::StringSliceAdditionalSpecFns;
use crate::ast::literal::ranged;
use crate::ast::literal::LiteralModel;
use crate::ast::pattern::lemma_pattern_items;
use crate::ast::pattern::pattern_models;
use crate::ast::pattern::ranged_variable;
use crate::ast::pattern::ranged_variant;
use crate::ast::pattern::Pattern;
use crate::ast::pattern::PatternModel;
use crate::ast::pattern::Variable;
use crate::ast::pattern::Variant;
use crate::error::bad_shape;
use crate::error::collect;
use crate::error::fails;
use crate::error::gives;
use crate::error::LowerError;
use crate::lower::common::at_node;
use crate::lower::common::name_of;
use crate::lower::common::node_text;
use crate::lower::common::ranged_text_of;
use crate::lower::common::shape_error;
use crate::lower::common::wrap_node;
use crate::lower::lists::lower_patterns;
use crate::lower::lists::pattern_results;
use crate::lower::literal::literal_of;
use crate::lower::literal::lower_literal;
use crate::position::Ranged;
use crate::rule::Rule;
use crate::tree::Pair;
use crate::tree::Tree;

verus! {

/// What a variant pattern lowers to: the name of its first child and, if
/// there is a second child, the pattern of that.
#[verifier::opaque]
pub open spec fn pat_variant_of(b: Seq<u8>, t: Tree) -> Result<PatternModel, LowerError>
    decreases t, 0nat,
{
    if t.children.len() < 1 {
        Err(bad_shape(t))
    } else {
        match ranged_text_of(b, t.children[0]) {
            Err(e) => Err(e),
            Ok(name) => if t.children.len() < 2 {
                Ok(PatternModel::Variant { name, arg: None })
            } else {
                match ranged_pattern_of(b, t.children[1]) {
                    Ok(p) => Ok(PatternModel::Variant { name, arg: Some(Box::new(p)) }),
                    Err(e) => Err(e),
                }
            },
        }
    }
}

/// What a `head :: tail` pattern lowers to.
#[verifier::opaque]
pub open spec fn pat_cons_of(b: Seq<u8>, t: Tree) -> Result<PatternModel, LowerError>
    decreases t, 0nat,
{
    if t.children.len() < 2 {
        Err(bad_shape(t))
    } else {
        match ranged_pattern_of(b, t.children[0]) {
            Err(e) => Err(e),
            Ok(head) => match ranged_pattern_of(b, t.children[1]) {
                Err(e) => Err(e),
                Ok(tail) => Ok(PatternModel::Cons { head: Box::new(head), tail: Box::new(tail) }),
            },
        }
    }
}

/// What a `pattern as variable` pattern lowers to.
#[verifier::opaque]
pub open spec fn pat_as_of(b: Seq<u8>, t: Tree) -> Result<PatternModel, LowerError>
    decreases t, 0nat,
{
    if t.children.len() < 2 {
        Err(bad_shape(t))
    } else {
        match ranged_pattern_of(b, t.children[0]) {
            Err(e) => Err(e),
            Ok(ptn) => match ranged_text_of(b, t.children[1]) {
                Err(e) => Err(e),
                Ok(var) => Ok(PatternModel::As { ptn: Box::new(ptn), var }),
            },
        }
    }
}

/// What a pattern node lowers to. A node that only groups stands for its
/// child; every other node lowers by its rule.
#[verifier::opaque]
pub open spec fn pattern_of(b: Seq<u8>, t: Tree) -> Result<PatternModel, LowerError>
    decreases t, 1nat,
{
    match t.rule {
        Rule::match_ptn | Rule::pattern => if t.children.len() < 1 {
            Err(bad_shape(t))
        } else {
            pattern_of(b, t.children[0])
        },
        Rule::pat_wildcard => Ok(PatternModel::Wildcard),
        Rule::literal => match literal_of(b, t) {
            Ok(l) => Ok(PatternModel::Literal(l)),
            Err(e) => Err(e),
        },
        Rule::var => match name_of(b, t) {
            Ok(v) => Ok(PatternModel::Variable(v)),
            Err(e) => Err(e),
        },
        Rule::pat_list => match collect(pattern_results(b, t, 0, t.children.len() as int)) {
            Ok(ps) => Ok(PatternModel::List(ps)),
            Err(e) => Err(e),
        },
        Rule::pat_tuple => match collect(pattern_results(b, t, 0, t.children.len() as int)) {
            Ok(ps) => Ok(PatternModel::Tuple(ps)),
            Err(e) => Err(e),
        },
        Rule::pat_variant => pat_variant_of(b, t),
        Rule::pat_cons => pat_cons_of(b, t),
        Rule::pat_as => pat_as_of(b, t),
        _ => Err(bad_shape(t)),
    }
}

/// What a pattern node lowers to, with the node's range.
#[verifier::opaque]
pub open spec fn ranged_pattern_of(b: Seq<u8>, t: Tree) -> Result<
    Ranged<PatternModel>,
    LowerError,
>
    decreases t, 2nat,
{
    match pattern_of(b, t) {
        Ok(p) => at_node(b, t, p),
        Err(e) => Err(e),
    }
}

/// Lowers a node to a variable: the name is the node's text.
#[verifier::spinoff_prover]
pub fn lower_variable(text: &str, pair: &Pair) -> (r: Result<Ranged<Variable>, LowerError>)
    ensures
        r matches Ok(v) ==> gives(ranged_text_of(text.spec_bytes(), pair@), ranged_variable(v)),
        r matches Err(e) ==> fails(ranged_text_of(text.spec_bytes(), pair@), e),
{
    match node_text(text, pair) {
        Ok(name) => wrap_node(Variable { name }, text, pair),
        Err(e) => Err(e),
    }
}

/// Lowers a node to a variant: the name is the node's text.
#[verifier::spinoff_prover]
pub fn lower_variant(text: &str, pair: &Pair) -> (r: Result<Ranged<Variant>, LowerError>)
    ensures
        r matches Ok(v) ==> gives(ranged_text_of(text.spec_bytes(), pair@), ranged_variant(v)),
        r matches Err(e) ==> fails(ranged_text_of(text.spec_bytes(), pair@), e),
{
    match node_text(text, pair) {
        Ok(name) => wrap_node(Variant { name }, text, pair),
        Err(e) => Err(e),
    }
}

/// Lowers a variant pattern.
#[verifier::spinoff_prover]
fn lower_pat_variant(text: &str, pair: &Pair) -> (r: Result<Pattern, LowerError>)
    ensures
        r matches Ok(v) ==> gives(pat_variant_of(text.spec_bytes(), pair@), v.model()),
        r matches Err(e) ==> fails(pat_variant_of(text.spec_bytes(), pair@), e),
    decreases pair@, 0nat,
{
    proof {
        reveal(pat_variant_of);
    }
    let n = pair.child_count();
    if n < 1 {
        return Err(shape_error(pair));
    }
    let name = match lower_variant(text, pair.child(0)) {
        Ok(v) => v,
        Err(e) => {
            return Err(e);
        },
    };
    if n < 2 {
        Ok(Pattern::Variant { name, arg: None })
    } else {
        match lower_ranged_pattern(text, pair.child(1)) {
            Ok(p) => Ok(Pattern::Variant { name, arg: Some(Box::new(p)) }),
            Err(e) => Err(e),
        }
    }
}

/// Lowers a `head :: tail` pattern.
#[verifier::spinoff_prover]
fn lower_pat_cons(text: &str, pair: &Pair) -> (r: Result<Pattern, LowerError>)
    ensures
        r matches Ok(v) ==> gives(pat_cons_of(text.spec_bytes(), pair@), v.model()),
        r matches Err(e) ==> fails(pat_cons_of(text.spec_bytes(), pair@), e),
    decreases pair@, 0nat,
{
    proof {
        reveal(pat_cons_of);
    }
    if pair.child_count() < 2 {
        return Err(shape_error(pair));
    }
    let head = match lower_ranged_pattern(text, pair.child(0)) {
        Ok(v) => v,
        Err(e) => {
            return Err(e);
        },
    };
    match lower_ranged_pattern(text, pair.child(1)) {
        Ok(tail) => Ok(Pattern::Cons { head: Box::new(head), tail: Box::new(tail) }),
        Err(e) => Err(e),
    }
}

/// Lowers a `pattern as variable` pattern.
#[verifier::spinoff_prover]
fn lower_pat_as(text: &str, pair: &Pair) -> (r: Result<Pattern, LowerError>)
    ensures
        r matches Ok(v) ==> gives(pat_as_of(text.spec_bytes(), pair@), v.model()),
        r matches Err(e) ==> fails(pat_as_of(text.spec_bytes(), pair@), e),
    decreases pair@, 0nat,
{
    proof {
        reveal(pat_as_of);
    }
    if pair.child_count() < 2 {
        return Err(shape_error(pair));
    }
    let ptn = match lower_ranged_pattern(text, pair.child(0)) {
        Ok(v) => v,
        Err(e) => {
            return Err(e);
        },
    };
    match lower_variable(text, pair.child(1)) {
        Ok(var) => Ok(Pattern::As { ptn: Box::new(ptn), var }),
        Err(e) => Err(e),
    }
}

/// Lowers a pattern node.
#[verifier::spinoff_prover]
pub fn lower_pattern(text: &str, pair: &Pair) -> (r: Result<Pattern, LowerError>)
    ensures
        r matches Ok(v) ==> gives(pattern_of(text.spec_bytes(), pair@), v.model()),
        r matches Err(e) ==> fails(pattern_of(text.spec_bytes(), pair@), e),
    decreases pair@, 1nat,
{
    proof {
        reveal(pattern_of);
    }
    let n = pair.child_count();
    match pair.as_rule() {
        Rule::match_ptn | Rule::pattern => {
            if n < 1 {
                Err(shape_error(pair))
            } else {
                lower_pattern(text, pair.child(0))
            }
        },
        Rule::pat_wildcard => Ok(Pattern::Wildcard),
        Rule::literal => match lower_literal(text, pair) {
            Ok(l) => Ok(Pattern::Literal(l)),
            Err(e) => Err(e),
        },
        Rule::var => match node_text(text, pair) {
            Ok(name) => Ok(Pattern::Variable(Variable { name })),
            Err(e) => Err(e),
        },
        Rule::pat_list => match lower_patterns(text, pair, 0, n) {
            Ok(ps) => {
                proof {
                    lemma_pattern_items(ps);
                }
                Ok(Pattern::List(ps))
            },
            Err(e) => Err(e),
        },
        Rule::pat_tuple => match lower_patterns(text, pair, 0, n) {
            Ok(ps) => {
                proof {
                    lemma_pattern_items(ps);
                }
                Ok(Pattern::Tuple(ps))
            },
            Err(e) => Err(e),
        },
        Rule::pat_variant => lower_pat_variant(text, pair),
        Rule::pat_cons => lower_pat_cons(text, pair),
        Rule::pat_as => lower_pat_as(text, pair),
        _ => Err(shape_error(pair)),
    }
}

/// Lowers a pattern node and attaches its range.
#[verifier::spinoff_prover]
pub fn lower_ranged_pattern(text: &str, pair: &Pair) -> (r: Result<Ranged<Pattern>, LowerError>)
    ensures
        r matches Ok(v) ==> gives(
            ranged_pattern_of(text.spec_bytes(), pair@),
            ranged(v, v.body.model()),
        ),
        r matches Err(e) ==> fails(ranged_pattern_of(text.spec_bytes(), pair@), e),
    decreases pair@, 2nat,
{
    proof {
        reveal(ranged_pattern_of);
    }
    match lower_pattern(text, pair) {
        Ok(p) => wrap_node(p, text, pair),
        Err(e) => Err(e),
    }
}

} // verus!
