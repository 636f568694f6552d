//! What is left of a tuple once the alias elements are taken out.
//!
//! The matched elements leave the tuple, every other element stays where it
//! stood relative to the others, and one reference to the canonical symbol is
//! put in front unless the tuple already held one.

use vstd::prelude::*;
use crate::identity::{canonical_identity, matches_canonical, resolved, Identity};
use crate::syntax::{Element, NodeId, TupleExpr};

verus! {

/// One element of the rewritten tuple.
pub enum Piece<'a> {
    /// The reference to the canonical symbol that the rewrite puts in.
    Canonical,
    /// An element of the tuple that stays.
    Kept(Element<'a>),
}

impl<'a> Piece<'a> {
    /// What the piece resolves to once the fix is applied: the new reference
    /// is written with the name bound to the canonical symbol.
    pub open spec fn identity(self) -> Option<Identity> {
        match self {
            Piece::Canonical => Some(canonical_identity()),
            Piece::Kept(element) => resolved(element.identity),
        }
    }
}

/// The elements that are not matched, in the order of the tuple.
pub open spec fn retained(elements: Seq<Element>, matched: Seq<NodeId>) -> Seq<Element>
    decreases elements.len(),
{
    if elements.len() == 0 {
        Seq::empty()
    } else {
        let before = retained(elements.drop_last(), matched);
        if matched.contains(elements.last().id) {
            before
        } else {
            before.push(elements.last())
        }
    }
}

/// The positions in the tuple of the elements that are not matched, in
/// increasing order.
pub open spec fn retained_positions(elements: Seq<Element>, matched: Seq<NodeId>) -> Seq<int>
    decreases elements.len(),
{
    if elements.len() == 0 {
        Seq::empty()
    } else {
        let before = retained_positions(elements.drop_last(), matched);
        if matched.contains(elements.last().id) {
            before
        } else {
            before.push(elements.len() - 1)
        }
    }
}

/// How many elements of the tuple are matched.
pub open spec fn removed_count(elements: Seq<Element>, matched: Seq<NodeId>) -> nat
    decreases elements.len(),
{
    if elements.len() == 0 {
        0
    } else {
        let before = removed_count(elements.drop_last(), matched);
        if matched.contains(elements.last().id) {
            before + 1
        } else {
            before
        }
    }
}

/// Some element of the tuple resolves to the canonical symbol.
pub open spec fn holds_canonical(elements: Seq<Element>) -> bool {
    exists|i: int| 0 <= i < elements.len() && (#[trigger] elements[i]).is_canonical()
}

/// The rewritten tuple: a reference to the canonical symbol in front unless
/// the tuple held one, then the retained elements.
pub open spec fn rewritten(elements: Seq<Element>, matched: Seq<NodeId>) -> Seq<Piece> {
    let kept = retained(elements, matched).map_values(|element: Element| Piece::Kept(element));
    if holds_canonical(elements) {
        kept
    } else {
        seq![Piece::Canonical] + kept
    }
}

/// The elements a reference sequence points at.
pub open spec fn pointed_at<'a>(elements: Seq<&'a Element<'a>>) -> Seq<Element<'a>> {
    elements.map_values(|element: &'a Element<'a>| *element)
}

/// The rewritten tuple as the library holds it: whether a reference to the
/// canonical symbol comes first, and the elements that stay.
pub struct Remaining<'a> {
    pub canonical_first: bool,
    pub kept: Vec<&'a Element<'a>>,
}

impl<'a> View for Remaining<'a> {
    type V = Seq<Piece<'a>>;

    open spec fn view(&self) -> Seq<Piece<'a>> {
        let kept = pointed_at(self.kept@).map_values(|element: Element| Piece::Kept(element));
        if self.canonical_first {
            seq![Piece::Canonical] + kept
        } else {
            kept
        }
    }
}

impl<'a> Remaining<'a> {
    /// By how many places the elements that stay are shifted: one where the
    /// new reference comes first, else none.
    pub open spec fn shift(&self) -> int {
        if self.canonical_first {
            1
        } else {
            0
        }
    }

    /// Whether exactly one element is left.
    pub fn is_single(&self) -> (single: bool)
        ensures
            single == (self@.len() == 1),
    {
        if self.canonical_first {
            self.kept.len() == 0
        } else {
            self.kept.len() == 1
        }
    }
}

/// Whether `id` is one of the matched nodes.
pub fn is_matched(matched: &Vec<NodeId>, id: NodeId) -> (found: bool)
    ensures
        found == matched@.contains(id),
{
    let mut i: usize = 0;
    while i < matched.len()
        invariant
            i <= matched.len(),
            forall|k: int| 0 <= k < i ==> matched@[k] != id,
        decreases matched.len() - i,
    {
        if matched[i] == id {
            return true;
        }
        i = i + 1;
    }
    false
}

/// Whether some element of the tuple resolves to the canonical symbol.
pub fn has_canonical(tuple: &TupleExpr) -> (found: bool)
    ensures
        found == holds_canonical(tuple.elements@),
{
    let mut i: usize = 0;
    while i < tuple.elements.len()
        invariant
            i <= tuple.elements.len(),
            forall|k: int| 0 <= k < i ==> !(#[trigger] tuple.elements@[k]).is_canonical(),
        decreases tuple.elements.len() - i,
    {
        if matches_canonical(&tuple.elements[i].identity) {
            return true;
        }
        i = i + 1;
    }
    false
}

/// The elements of the tuple that are not matched, in the order of the tuple.
pub fn retained_elements<'a>(tuple: &'a TupleExpr<'a>, matched: &Vec<NodeId>) -> (kept: Vec<&'a Element<'a>>)
    ensures
        pointed_at(kept@) == retained(tuple.elements@, matched@),
{
    let mut kept: Vec<&'a Element<'a>> = Vec::new();
    let mut i: usize = 0;
    while i < tuple.elements.len()
        invariant
            i <= tuple.elements.len(),
            pointed_at(kept@) == retained(tuple.elements@.take(i as int), matched@),
        decreases tuple.elements.len() - i,
    {
        let element = &tuple.elements[i];
        assert(tuple.elements@.take(i + 1).drop_last() =~= tuple.elements@.take(i as int));
        if !is_matched(matched, element.id) {
            kept.push(element);
        }
        i = i + 1;
    }
    assert(tuple.elements@.take(i as int) =~= tuple.elements@);
    kept
}

/// Rewrites the tuple: takes the matched elements out and asks for a
/// reference to the canonical symbol in front unless the tuple holds one.
pub fn remaining<'a>(tuple: &'a TupleExpr<'a>, matched: &Vec<NodeId>) -> (left: Remaining<'a>)
    ensures
        left@ == rewritten(tuple.elements@, matched@),
        left.canonical_first == !holds_canonical(tuple.elements@),
        pointed_at(left.kept@) == retained(tuple.elements@, matched@),
{
    let kept = retained_elements(tuple, matched);
    let canonical_first = !has_canonical(tuple);
    Remaining { canonical_first, kept }
}

} // verus!
