//! Errors of lowering a parse tree.

use vstd::prelude::*;
use crate::rule::Rule;
use crate::tree::Tree;

verus! {

/// What was wrong with a node.
#[derive(Debug, Clone, Copy, PartialEq, Eq, Structural)]
pub enum LowerErrorKind {
    /// The node's range does not lie in the text, or cuts a character.
    Span,
    /// The node, or the text it covers, is not of a form that is expected at
    /// its place.
    Shape,
    /// The node is a number too large for its type.
    Overflow,
}

/// A parse tree could not be lowered: the node at fault and the reason.
#[derive(Debug, Clone, Copy, PartialEq, Eq, Structural)]
pub struct LowerError {
    /// What was wrong.
    pub kind: LowerErrorKind,
    /// The rule of the node at fault.
    pub rule: Rule,
    /// Offset of the node's first byte.
    pub start: usize,
    /// Offset just behind the node's last byte.
    pub end: usize,
}

/// The error that says `kind` of node `t`.
pub open spec fn fault(kind: LowerErrorKind, t: Tree) -> LowerError {
    LowerError { kind, rule: t.rule, start: t.start as usize, end: t.end as usize }
}

/// The error for a node of unexpected form.
pub open spec fn bad_shape(t: Tree) -> LowerError {
    fault(LowerErrorKind::Shape, t)
}

/// The error for a node with a range that does not fit the text.
pub open spec fn bad_span(t: Tree) -> LowerError {
    fault(LowerErrorKind::Span, t)
}

/// Whether `r` is the value `v`.
pub open spec fn gives<V>(r: Result<V, LowerError>, v: V) -> bool {
    r == Ok::<V, LowerError>(v)
}

/// Whether `r` is the error `e`.
pub open spec fn fails<V>(r: Result<V, LowerError>, e: LowerError) -> bool {
    r == Err::<V, LowerError>(e)
}

/// The first error among `rs`, if there is one.
pub open spec fn first_error<V>(rs: Seq<Result<V, LowerError>>) -> Option<LowerError>
    decreases rs.len(),
{
    if rs.len() == 0 {
        None
    } else {
        match rs[0] {
            Err(e) => Some(e),
            Ok(_) => first_error(rs.drop_first()),
        }
    }
}

/// All values of `rs`, or its first error.
pub open spec fn collect<V>(rs: Seq<Result<V, LowerError>>) -> Result<Seq<V>, LowerError> {
    match first_error(rs) {
        Some(e) => Err(e),
        None => Ok(Seq::new(rs.len(), |i: int| rs[i]->Ok_0)),
    }
}

/// Where the first `n` results are values and the next is an error, that
/// error is the first.
pub proof fn lemma_first_error_at<V>(rs: Seq<Result<V, LowerError>>, n: int)
    requires
        0 <= n < rs.len(),
        forall|j: int| 0 <= j < n ==> (#[trigger] rs[j]) is Ok,
        rs[n] is Err,
    ensures
        first_error(rs) == Some(rs[n]->Err_0),
    decreases n,
{
    if n > 0 {
        let rest = rs.drop_first();
        assert forall|j: int| 0 <= j < n - 1 implies (#[trigger] rest[j]) is Ok by {
            assert(rest[j] == rs[j + 1]);
        }
        lemma_first_error_at(rest, n - 1);
    }
}

/// Where all results are values there is no error.
pub proof fn lemma_no_error<V>(rs: Seq<Result<V, LowerError>>)
    requires
        forall|j: int| 0 <= j < rs.len() ==> (#[trigger] rs[j]) is Ok,
    ensures
        first_error(rs) is None,
    decreases rs.len(),
{
    if rs.len() > 0 {
        let rest = rs.drop_first();
        assert forall|j: int| 0 <= j < rest.len() implies (#[trigger] rest[j]) is Ok by {
            assert(rest[j] == rs[j + 1]);
        }
        lemma_no_error(rest);
    }
}

} // verus!
