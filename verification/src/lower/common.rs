//! What the lowering of every kind of node uses.

use vstd::prelude::*;
use vstd::string::StringSliceAdditionalSpecFns;
use crate::error::bad_shape;
use crate::error::bad_span;
use crate::error::fails;
use crate::error::fault;
use crate::error::gives;
use crate::error::LowerError;
use crate::error::LowerErrorKind;
use crate::ast::pattern::Variable;
use crate::ast::pattern::Variant;
use crate::position::loc_at;
use crate::position::Ranged;
use crate::position::Span;
use crate::rule::Rule;
use crate::text::covers;
use crate::text::slice_text;
use crate::text::text_of;
use crate::tree::Pair;
use crate::tree::Tree;

verus! {

/// `body` with the range of node `t`.
pub open spec fn with_range<V>(b: Seq<u8>, t: Tree, body: V) -> Ranged<V> {
    Ranged { body, start: loc_at(b, t.start), end: loc_at(b, t.end) }
}

/// `body` with the range of node `t`, where the node covers a range of the
/// text.
pub open spec fn at_node<V>(b: Seq<u8>, t: Tree, body: V) -> Result<Ranged<V>, LowerError> {
    if covers(b, t) {
        Ok(with_range(b, t, body))
    } else {
        Err(bad_span(t))
    }
}

/// The text of node `t`, where the node covers a range of the text.
pub open spec fn name_of(b: Seq<u8>, t: Tree) -> Result<Seq<char>, LowerError> {
    if covers(b, t) {
        Ok(text_of(b, t))
    } else {
        Err(bad_span(t))
    }
}

/// The text of node `t` with the node's range.
pub open spec fn ranged_text_of(b: Seq<u8>, t: Tree) -> Result<Ranged<Seq<char>>, LowerError> {
    at_node(b, t, text_of(b, t))
}

/// A name with the module before it, if there is one. A node of rule
/// `modvar` holds the module and the name as its children; any other node is
/// the name itself.
pub open spec fn qualified_of(b: Seq<u8>, t: Tree) -> Result<
    (Option<Ranged<Seq<char>>>, Ranged<Seq<char>>),
    LowerError,
> {
    if t.rule == Rule::modvar {
        if t.children.len() < 2 {
            Err(bad_shape(t))
        } else {
            match ranged_text_of(b, t.children[0]) {
                Err(e) => Err(e),
                Ok(module) => match ranged_text_of(b, t.children[1]) {
                    Err(e) => Err(e),
                    Ok(name) => Ok((Some(module), name)),
                },
            }
        }
    } else {
        match ranged_text_of(b, t) {
            Err(e) => Err(e),
            Ok(name) => Ok((None, name)),
        }
    }
}

/// Model of a ranged string that may be missing.
pub open spec fn optional_text(o: Option<Ranged<String>>) -> Option<Ranged<Seq<char>>> {
    match o {
        Some(r) => Some(crate::ast::literal::ranged_text(r)),
        None => None,
    }
}

/// The error that says `kind` of `pair`.
pub fn error_at(kind: LowerErrorKind, pair: &Pair) -> (e: LowerError)
    ensures
        e == fault(kind, pair@),
{
    proof {
        crate::tree::lemma_children_view(*pair);
    }
    LowerError { kind, rule: pair.rule, start: pair.start, end: pair.end }
}

/// The error for a node of unexpected form.
pub fn shape_error(pair: &Pair) -> (e: LowerError)
    ensures
        e == bad_shape(pair@),
{
    error_at(LowerErrorKind::Shape, pair)
}

/// Attaches the range of `pair` to `body`.
pub fn wrap_node<T>(body: T, text: &str, pair: &Pair) -> (r: Result<Ranged<T>, LowerError>)
    ensures
        r is Ok <==> covers(text.spec_bytes(), pair@),
        r matches Ok(v) ==> v.body == body && v.start == loc_at(
            text.spec_bytes(),
            pair@.start,
        ) && v.end == loc_at(text.spec_bytes(), pair@.end) && v.start.at_or_before(v.end),
        r matches Err(e) ==> e == bad_span(pair@),
{
    proof {
        crate::tree::lemma_children_view(*pair);
        reveal(crate::text::in_text);
    }
    let span = Span { input: text, start: pair.start, end: pair.end };
    match Ranged::wrap(body, &span) {
        Some(v) => Ok(v),
        None => Err(error_at(LowerErrorKind::Span, pair)),
    }
}

/// The text that `pair` covers.
pub fn node_text(text: &str, pair: &Pair) -> (r: Result<String, LowerError>)
    ensures
        r is Ok <==> covers(text.spec_bytes(), pair@),
        r matches Ok(s) ==> s@ == text_of(text.spec_bytes(), pair@) && gives(
            name_of(text.spec_bytes(), pair@),
            s@,
        ),
        r matches Err(e) ==> e == bad_span(pair@) && fails(name_of(text.spec_bytes(), pair@), e),
{
    proof {
        crate::tree::lemma_children_view(*pair);
    }
    match slice_text(text, pair.start, pair.end) {
        Some(s) => Ok(s.to_owned()),
        None => Err(error_at(LowerErrorKind::Span, pair)),
    }
}

/// The text that `pair` covers, with the range of `pair`.
pub fn ranged_node_text(text: &str, pair: &Pair) -> (r: Result<Ranged<String>, LowerError>)
    ensures
        r matches Ok(v) ==> gives(
            ranged_text_of(text.spec_bytes(), pair@),
            crate::ast::literal::ranged_text(v),
        ),
        r matches Err(e) ==> fails(ranged_text_of(text.spec_bytes(), pair@), e),
{
    match node_text(text, pair) {
        Ok(s) => wrap_node(s, text, pair),
        Err(e) => Err(e),
    }
}

/// Lowers a name with the module before it, if there is one.
pub fn lower_qualified(text: &str, pair: &Pair) -> (r: Result<
    (Option<Ranged<String>>, Ranged<String>),
    LowerError,
>)
    ensures
        r matches Ok(v) ==> gives(
            qualified_of(text.spec_bytes(), pair@),
            (optional_text(v.0), crate::ast::literal::ranged_text(v.1)),
        ),
        r matches Err(e) ==> fails(qualified_of(text.spec_bytes(), pair@), e),
{
    if pair.as_rule() == Rule::modvar {
        if pair.child_count() < 2 {
            return Err(shape_error(pair));
        }
        let module = match ranged_node_text(text, pair.child(0)) {
            Ok(v) => v,
            Err(e) => {
                return Err(e);
            },
        };
        match ranged_node_text(text, pair.child(1)) {
            Ok(name) => Ok((Some(module), name)),
            Err(e) => Err(e),
        }
    } else {
        match ranged_node_text(text, pair) {
            Ok(name) => Ok((None, name)),
            Err(e) => Err(e),
        }
    }
}

/// The variable whose name is the given text.
pub fn into_variable(r: Ranged<String>) -> (v: Ranged<Variable>)
    ensures
        crate::ast::pattern::ranged_variable(v) == crate::ast::literal::ranged_text(r),
{
    Ranged { body: Variable { name: r.body }, start: r.start, end: r.end }
}

/// The variant whose name is the given text.
pub fn into_variant(r: Ranged<String>) -> (v: Ranged<Variant>)
    ensures
        crate::ast::pattern::ranged_variant(v) == crate::ast::literal::ranged_text(r),
{
    Ranged { body: Variant { name: r.body }, start: r.start, end: r.end }
}

} // verus!
