//! Parse trees: the nodes a recogniser produces, each tagged with the rule
//! that matched and the byte range it covers.

use vstd::prelude::*;
use crate::rule::Rule;

verus! {

/// Mathematical model of a parse tree node.
pub struct Tree {
    /// The rule that matched.
    pub rule: Rule,
    /// Offset of the first byte matched.
    pub start: int,
    /// Offset just behind the last byte matched.
    pub end: int,
    /// The nodes matched inside this one, in source order.
    pub children: Seq<Tree>,
}

/// A parse tree node.
#[derive(Debug, PartialEq, Eq)]
pub struct Pair {
    /// The rule that matched.
    pub rule: Rule,
    /// Offset of the first byte matched.
    pub start: usize,
    /// Offset just behind the last byte matched.
    pub end: usize,
    /// The nodes matched inside this one, in source order.
    pub children: Vec<Pair>,
}

impl Pair {
    /// The mathematical model of the node.
    pub open spec fn model(self) -> Tree
        decreases self,
    {
        Tree {
            rule: self.rule,
            start: self.start as int,
            end: self.end as int,
            children: Seq::new(
                self.children@.len(),
                |i: int|
                    if 0 <= i < self.children@.len() {
                        self.children@[i].model()
                    } else {
                        arbitrary()
                    },
            ),
        }
    }
}

impl View for Pair {
    type V = Tree;

    open spec fn view(&self) -> Tree {
        self.model()
    }
}

/// The models of a sequence of nodes.
pub open spec fn trees(ps: Seq<Pair>) -> Seq<Tree> {
    Seq::new(ps.len(), |i: int| ps[i]@)
}

/// The children of a node's model are the models of its children.
pub proof fn lemma_children_view(p: Pair)
    ensures
        p@.children == trees(p.children@),
        p@.rule == p.rule,
        p@.start == p.start,
        p@.end == p.end,
{
    assert(p@.children.len() == p.children@.len());
    assert forall|i: int| 0 <= i < p.children@.len() implies p@.children[i] == trees(
        p.children@,
    )[i] by {}
    assert(p@.children =~= trees(p.children@));
}

impl Pair {
    /// The number of children.
    pub fn child_count(&self) -> (n: usize)
        ensures
            n == self@.children.len(),
            self@.rule == self.rule,
            self@.start == self.start,
            self@.end == self.end,
    {
        proof {
            lemma_children_view(*self);
        }
        self.children.len()
    }

    /// The child at position `i`.
    pub fn child(&self, i: usize) -> (c: &Pair)
        requires
            i < self@.children.len(),
        ensures
            c@ == self@.children[i as int],
            *c == self.children@[i as int],
    {
        proof {
            lemma_children_view(*self);
        }
        &self.children[i]
    }

    /// The rule that matched.
    pub fn as_rule(&self) -> (r: Rule)
        ensures
            r == self@.rule,
    {
        self.rule
    }
}

impl Tree {
    /// Whether `nodes` lie one after another between `lo` and `hi`.
    pub open spec fn ordered(nodes: Seq<Tree>, lo: int, hi: int) -> bool {
        &&& lo <= hi
        &&& forall|i: int|
            0 <= i < nodes.len() ==> lo <= (#[trigger] nodes[i]).start && nodes[i].start
                <= nodes[i].end && nodes[i].end <= hi
        &&& forall|i: int, j: int|
            0 <= i < j < nodes.len() ==> (#[trigger] nodes[i]).end <= (#[trigger] nodes[j]).start
    }

    /// Whether the node and all nodes below it cover ranges of a text of
    /// `len` bytes, with the children of each node inside it and in source
    /// order.
    pub open spec fn well_formed(self, len: int) -> bool
        decreases self,
    {
        &&& 0 <= self.start <= self.end <= len
        &&& Tree::ordered(self.children, self.start, self.end)
        &&& forall|i: int|
            0 <= i < self.children.len() ==> (#[trigger] self.children[i]).well_formed(len)
    }
}

} // verus!
