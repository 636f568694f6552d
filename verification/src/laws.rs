//! What holds of the rule as a whole.

use vstd::prelude::*;
use ruff_python_semantic::SemanticModel;
use ruff_python_trivia::CommentRanges;
use crate::comments::{applicability_when, comment_spans, meets, meets_any, spans_in_order, Applicability};
use crate::diagnostic::{describes_atom, describes_tuple, fix_replaces, Diagnostic};
use crate::fix::{edit_view, fix_applicability, fix_edits, Binding};
use crate::identity::{canonical_identity, lemma_alias_is_not_canonical, names_alias, resolved};
use crate::render::{padded, tuple_text, Surroundings};
use crate::rewrite::{holds_canonical, removed_count, retained, retained_positions, rewritten, Piece};
use crate::site::{
    alias_ids, call_site, handler_site, handler_sites, raise_site, reference_site, tuple_site, SiteView,
};
use crate::span::Span;
use crate::syntax::{distinct_nodes, Element, Expression, Handler, NodeId, Reference, TupleExpr};
use crate::tree::{node_range, node_shape, reads_expression, resolved_identity, Shape};

verus! {

/// A reference that resolves to the alias gives exactly one atom in each
/// context that looks at references, and a reference that does not gives
/// none.
pub proof fn law_alias_reference_gives_one_atom(reference: Reference)
    ensures
        reference.is_alias() ==> {
            &&& call_site(Expression::Name(reference)) == Some(SiteView::Atom(reference))
            &&& call_site(Expression::Attribute(reference)) == Some(SiteView::Atom(reference))
            &&& raise_site(Expression::Name(reference)) == Some(SiteView::Atom(reference))
            &&& raise_site(Expression::Attribute(reference)) == Some(SiteView::Atom(reference))
            &&& handler_sites(seq![(Handler { type_: Some(Expression::Name(reference)) })]) == seq![
                SiteView::Atom(reference),
            ]
            &&& handler_sites(seq![(Handler { type_: Some(Expression::Attribute(reference)) })])
                == seq![SiteView::Atom(reference)]
        },
        !reference.is_alias() ==> {
            &&& call_site(Expression::Name(reference)) is None
            &&& raise_site(Expression::Name(reference)) is None
            &&& handler_sites(seq![(Handler { type_: Some(Expression::Name(reference)) })]).len() == 0
        },
{
    let by_name = seq![(Handler { type_: Some(Expression::Name(reference)) })];
    let by_attribute = seq![(Handler { type_: Some(Expression::Attribute(reference)) })];
    assert(handler_sites(by_name.drop_last()) =~= Seq::<SiteView>::empty());
    assert(handler_sites(by_attribute.drop_last()) =~= Seq::<SiteView>::empty());
}

/// How many references the rewrite puts in: one where the tuple does not
/// hold the canonical symbol, none where it does.
pub open spec fn inserted(elements: Seq<Element>) -> int {
    if holds_canonical(elements) {
        0
    } else {
        1
    }
}

/// The elements that stay and the elements that leave make up the tuple.
pub proof fn law_retained_and_removed(elements: Seq<Element>, matched: Seq<NodeId>)
    ensures
        retained(elements, matched).len() + removed_count(elements, matched) == elements.len(),
        retained_positions(elements, matched).len() == retained(elements, matched).len(),
    decreases elements.len(),
{
    if elements.len() > 0 {
        law_retained_and_removed(elements.drop_last(), matched);
    }
}

/// A tuple of M elements of which N are matched is rewritten to
/// `M - N` elements where it already holds the canonical symbol, and to
/// `M - N + 1` elements where it does not.
pub proof fn law_rewritten_len(elements: Seq<Element>, matched: Seq<NodeId>)
    ensures
        rewritten(elements, matched).len() == elements.len() - removed_count(elements, matched)
            + inserted(elements),
{
    law_retained_and_removed(elements, matched);
}

/// No element but a matched one is lost, and the elements that stay keep
/// their order: the retained elements are the elements at the retained
/// positions, these positions increase, none of them is matched, and every
/// position that is not matched is among them.
pub proof fn law_retained_in_order(elements: Seq<Element>, matched: Seq<NodeId>)
    ensures
        retained_positions(elements, matched).len() == retained(elements, matched).len(),
        forall|k: int|
            0 <= k < retained(elements, matched).len() ==> {
                let position = #[trigger] retained_positions(elements, matched)[k];
                &&& 0 <= position < elements.len()
                &&& !matched.contains(elements[position].id)
                &&& retained(elements, matched)[k] == elements[position]
            },
        forall|j: int, k: int|
            0 <= j < k < retained(elements, matched).len() ==> #[trigger] retained_positions(
                elements,
                matched,
            )[j] < #[trigger] retained_positions(elements, matched)[k],
        forall|position: int|
            0 <= position < elements.len() && !matched.contains((#[trigger] elements[position]).id)
                ==> retained_positions(elements, matched).contains(position),
    decreases elements.len(),
{
    if elements.len() > 0 {
        let front = elements.drop_last();
        law_retained_in_order(front, matched);
        let positions = retained_positions(elements, matched);
        let before = retained_positions(front, matched);
        assert forall|position: int|
            0 <= position < elements.len() && !matched.contains(
                (#[trigger] elements[position]).id,
            ) implies positions.contains(position) by {
            if position < elements.len() - 1 {
                assert(front[position] == elements[position]);
                let k = choose|k: int| 0 <= k < before.len() && before[k] == position;
                assert(positions[k] == position);
            } else {
                assert(positions[positions.len() - 1] == position);
            }
        }
    }
}

/// Where no node occurs twice, the nodes of the alias elements match exactly
/// the alias elements.
pub proof fn law_alias_ids_match_aliases(elements: Seq<Element>)
    requires
        distinct_nodes(elements),
    ensures
        forall|position: int|
            0 <= position < elements.len() ==> (alias_ids(elements).contains(
                (#[trigger] elements[position]).id,
            ) <==> elements[position].is_alias()),
        removed_count(elements, alias_ids(elements)) == alias_ids(elements).len(),
    decreases elements.len(),
{
    lemma_alias_ids_come_from_aliases(elements);
    if elements.len() > 0 {
        let front = elements.drop_last();
        let last = elements.last();
        law_alias_ids_match_aliases(front);
        lemma_alias_ids_come_from_aliases(front);
        let ids = alias_ids(elements);
        let before = alias_ids(front);
        assert forall|position: int| 0 <= position < elements.len() implies (ids.contains(
            (#[trigger] elements[position]).id,
        ) <==> elements[position].is_alias()) by {
            if elements[position].is_alias() {
                if position < elements.len() - 1 {
                    let k = choose|k: int| 0 <= k < before.len() && before[k] == front[position].id;
                    assert(ids[k] == elements[position].id);
                } else {
                    assert(ids[ids.len() - 1] == last.id);
                }
            }
        }
        lemma_removed_count_ignores_absent(front, before, last.id);
    }
}

/// `id` is the node of an alias element.
pub open spec fn is_alias_node(elements: Seq<Element>, id: NodeId) -> bool {
    exists|source: int|
        0 <= source < elements.len() && (#[trigger] elements[source]).is_alias() && elements[source].id == id
}

/// Each of the alias nodes is the node of an alias element.
proof fn lemma_alias_ids_come_from_aliases(elements: Seq<Element>)
    ensures
        forall|k: int|
            0 <= k < alias_ids(elements).len() ==> is_alias_node(elements, #[trigger] alias_ids(elements)[k]),
    decreases elements.len(),
{
    if elements.len() > 0 {
        let front = elements.drop_last();
        lemma_alias_ids_come_from_aliases(front);
        let ids = alias_ids(elements);
        assert forall|k: int| 0 <= k < ids.len() implies is_alias_node(elements, #[trigger] ids[k]) by {
            if k < alias_ids(front).len() {
                let source = choose|source: int|
                    0 <= source < front.len() && (#[trigger] front[source]).is_alias() && front[source].id
                        == alias_ids(front)[k];
                assert(elements[source].is_alias());
            }
        }
    }
}

/// Adding a node that none of the elements has does not change how many of
/// them are matched.
proof fn lemma_removed_count_ignores_absent(elements: Seq<Element>, matched: Seq<NodeId>, id: NodeId)
    requires
        forall|position: int| 0 <= position < elements.len() ==> (#[trigger] elements[position]).id != id,
    ensures
        removed_count(elements, matched.push(id)) == removed_count(elements, matched),
    decreases elements.len(),
{
    if elements.len() > 0 {
        let front = elements.drop_last();
        assert forall|position: int| 0 <= position < front.len() implies (#[trigger] front[position]).id
            != id by {
            assert(front[position] == elements[position]);
        }
        lemma_removed_count_ignores_absent(front, matched, id);
        let last = elements.last();
        if matched.contains(last.id) {
            let k = choose|k: int| 0 <= k < matched.len() && matched[k] == last.id;
            assert(matched.push(id)[k] == last.id);
        } else if matched.push(id).contains(last.id) {
            let k = choose|k: int| 0 <= k < matched.push(id).len() && matched.push(id)[k] == last.id;
            assert(matched[k] == last.id);
        }
    }
}

/// Where no node occurs twice among the elements, none occurs twice among
/// the alias nodes.
pub proof fn law_alias_ids_are_distinct(elements: Seq<Element>)
    requires
        distinct_nodes(elements),
    ensures
        alias_ids(elements).no_duplicates(),
    decreases elements.len(),
{
    if elements.len() > 0 {
        let front = elements.drop_last();
        let last = elements.last();
        law_alias_ids_are_distinct(front);
        lemma_alias_ids_come_from_aliases(front);
        let before = alias_ids(front);
        assert forall|k: int| 0 <= k < before.len() implies #[trigger] before[k] != last.id by {
            let source = choose|source: int|
                0 <= source < front.len() && (#[trigger] front[source]).is_alias() && front[source].id
                    == before[k];
            assert(front[source] == elements[source]);
        }
    }
}

/// The site of a well-formed handler is well formed. A tuple site holds at
/// least one node, holds none twice, and holds only nodes of alias elements
/// of its tuple.
pub proof fn law_collected_site_is_well_formed(handler: Handler)
    requires
        handler.wf(),
        handler_site(handler) is Some,
    ensures
        handler_site(handler)->0.wf(),
        handler_site(handler) matches Some(SiteView::TupleMember(tuple, matched)) ==> {
            &&& matched.len() > 0
            &&& matched.no_duplicates()
            &&& forall|k: int| 0 <= k < matched.len() ==> is_alias_node(tuple.elements@, #[trigger] matched[k])
        },
{
    if let Some(Expression::Tuple(tuple)) = handler.type_ {
        law_alias_ids_are_distinct(tuple.elements@);
        lemma_alias_ids_come_from_aliases(tuple.elements@);
    }
}

/// For the site of a tuple that holds each node once: of M elements with N
/// alias elements, `M - N` are left where the tuple already holds the
/// canonical symbol and `M - N + 1` where it does not.
pub proof fn law_site_rewritten_len(elements: Seq<Element>)
    requires
        distinct_nodes(elements),
    ensures
        alias_ids(elements).len() <= elements.len(),
        rewritten(elements, alias_ids(elements)).len() == elements.len() - alias_ids(elements).len()
            + inserted(elements),
{
    law_alias_ids_match_aliases(elements);
    law_rewritten_len(elements, alias_ids(elements));
    law_retained_and_removed(elements, alias_ids(elements));
}

/// A tuple of a single element that is the alias is rewritten to one
/// reference to the canonical symbol, and what replaces the tuple is the bare
/// bound name, whatever a printer would make of the element.
pub proof fn law_single_alias_collapses(elements: Seq<Element>, binding: Seq<char>, printed: Seq<char>)
    requires
        elements.len() == 1,
        elements[0].is_alias(),
    ensures
        rewritten(elements, alias_ids(elements)) == seq![Piece::Canonical],
        tuple_text(rewritten(elements, alias_ids(elements)).len() == 1, binding, printed) == binding,
{
    lemma_alias_is_not_canonical();
    let matched = alias_ids(elements);
    assert(alias_ids(elements.drop_last()) =~= Seq::<NodeId>::empty());
    assert(matched[0] == elements[0].id);
    assert(retained(elements.drop_last(), matched) =~= Seq::<Element>::empty());
}

/// A reference that resolves to the canonical symbol is no site in any
/// context: once an atom is fixed, nothing is found at it again.
pub proof fn law_canonical_reference_is_clean(fixed: Reference)
    requires
        resolved(fixed.identity) == Some(canonical_identity()),
    ensures
        reference_site(fixed) is None,
        call_site(Expression::Name(fixed)) is None,
        call_site(Expression::Attribute(fixed)) is None,
        raise_site(Expression::Name(fixed)) is None,
        raise_site(Expression::Attribute(fixed)) is None,
        handler_site((Handler { type_: Some(Expression::Name(fixed)) })) is None,
        handler_site((Handler { type_: Some(Expression::Attribute(fixed)) })) is None,
{
    lemma_alias_is_not_canonical();
}

/// No element of the rewritten tuple resolves to the alias.
pub proof fn law_rewritten_has_no_alias(elements: Seq<Element>, k: int)
    requires
        distinct_nodes(elements),
        0 <= k < rewritten(elements, alias_ids(elements)).len(),
    ensures
        !names_alias(rewritten(elements, alias_ids(elements))[k].identity()),
{
    lemma_alias_is_not_canonical();
    law_alias_ids_match_aliases(elements);
    law_retained_in_order(elements, alias_ids(elements));
    let matched = alias_ids(elements);
    if k >= inserted(elements) {
        let position = retained_positions(elements, matched)[k - inserted(elements)];
        assert(!elements[position].is_alias());
    }
}

/// A tuple without an alias element has no alias nodes.
proof fn lemma_no_alias_no_ids(elements: Seq<Element>)
    requires
        forall|position: int| 0 <= position < elements.len() ==> !(#[trigger] elements[position]).is_alias(),
    ensures
        alias_ids(elements).len() == 0,
    decreases elements.len(),
{
    if elements.len() > 0 {
        let front = elements.drop_last();
        assert forall|position: int| 0 <= position < front.len() implies !(#[trigger] front[position]).is_alias() by {
            assert(front[position] == elements[position]);
        }
        lemma_no_alias_no_ids(front);
    }
}

/// A tuple whose elements resolve as the elements of the rewritten tuple do
/// is no site: once a tuple is fixed, nothing is found at it again.
pub proof fn law_fixed_tuple_is_clean(elements: Seq<Element>, fixed: TupleExpr)
    requires
        distinct_nodes(elements),
        fixed.elements@.len() == rewritten(elements, alias_ids(elements)).len(),
        forall|k: int|
            0 <= k < fixed.elements@.len() ==> resolved((#[trigger] fixed.elements@[k]).identity)
                == rewritten(elements, alias_ids(elements))[k].identity(),
    ensures
        tuple_site(fixed) is None,
        handler_site((Handler { type_: Some(Expression::Tuple(fixed)) })) is None,
{
    assert forall|k: int| 0 <= k < fixed.elements@.len() implies !(#[trigger] fixed.elements@[k]).is_alias() by {
        law_rewritten_has_no_alias(elements, k);
    }
    lemma_no_alias_no_ids(fixed.elements@);
}

/// A span that does not end before it starts shares a byte with the range.
pub open spec fn overlaps(span: (u32, u32), range: Span) -> bool {
    span.0 <= span.1 && span.0 < range.end && range.start < span.1
}

/// A fix over a range is unsafe where a comment meets the range and safe
/// where none does, and a comment that shares a byte with the range meets it.
pub proof fn law_comment_decides_applicability(spans: Seq<(u32, u32)>, range: Span)
    requires
        range.wf(),
    ensures
        meets_any(spans, range) ==> applicability_when(meets_any(spans, range)) == Applicability::Unsafe,
        !meets_any(spans, range) ==> applicability_when(meets_any(spans, range)) == Applicability::Safe,
        forall|i: int|
            0 <= i < spans.len() && overlaps(#[trigger] spans[i], range) ==> meets_any(spans, range),
{
    assert forall|i: int| 0 <= i < spans.len() && overlaps(#[trigger] spans[i], range) implies meets_any(
        spans,
        range,
    ) by {
        assert(meets(spans[i], range));
    }
}

/// The fix of an atom writes the bound name, as it is, over the whole
/// reference, and holds the binding's import edit beside it and nothing
/// else.
pub proof fn law_atom_fix_writes_bound_name(
    diagnostic: Diagnostic,
    target: Reference,
    binding: Binding,
    comments: CommentRanges,
)
    requires
        describes_atom(diagnostic, target, Some(binding), comments),
    ensures
        diagnostic.fix is Some,
        fix_edits(diagnostic.fix->0).len() == 2,
        fix_edits(diagnostic.fix->0).contains((target.range.start, target.range.end, binding.name@)),
        fix_edits(diagnostic.fix->0).contains(edit_view(binding.edit)),
{
    let edits = fix_edits(diagnostic.fix->0);
    assert(edits[0] == edit_view(binding.edit) || edits[1] == edit_view(binding.edit));
}

/// Where a single element is left of a tuple, its fix writes the bare bound
/// name over the whole tuple, padded against the neighbours: nothing that a
/// printer writes stands in it.
pub proof fn law_single_tuple_fix_is_bare_name(
    diagnostic: Diagnostic,
    tuple: TupleExpr,
    aliases: Seq<NodeId>,
    binding: Binding,
    comments: CommentRanges,
    around: Surroundings,
)
    requires
        describes_tuple(diagnostic, tuple, aliases, Some(binding), comments, around),
        rewritten(tuple.elements@, aliases).len() == 1,
    ensures
        fix_replaces(diagnostic.fix, Some(binding), padded(binding.name@, around), tuple.range),
{
}

/// A name or an attribute access of the host's tree that the semantic model
/// resolves to the alias gives, once read, exactly one atom over its own
/// range, as a call target, as a raised expression and as the type of a
/// handler. One that resolves to anything else, or does not resolve, gives
/// none.
pub proof fn law_read_reference_gives_atom_iff_alias(
    read: Expression,
    expr: ruff_python_ast::Expr,
    semantic: SemanticModel,
)
    requires
        reads_expression(read, expr, semantic),
        node_shape(expr) == Shape::Name || node_shape(expr) == Shape::Attribute,
    ensures
        names_alias(resolved_identity(semantic, expr)) ==> {
            &&& call_site(read) matches Some(SiteView::Atom(target)) && target.range == node_range(expr)
            &&& raise_site(read) == call_site(read)
            &&& handler_sites(seq![(Handler { type_: Some(read) })]) == seq![call_site(read)->0]
        },
        !names_alias(resolved_identity(semantic, expr)) ==> {
            &&& call_site(read) is None
            &&& raise_site(read) is None
            &&& handler_sites(seq![(Handler { type_: Some(read) })]).len() == 0
        },
{
    let alone = seq![(Handler { type_: Some(read) })];
    assert(handler_sites(alone.drop_last()) =~= Seq::<SiteView>::empty());
}

/// Where the comment spans are in order, the fix of an atom is unsafe iff a
/// comment meets the reference, and safe otherwise. Neither the shape of the
/// reference nor what the importer answered changes that.
pub proof fn law_atom_fix_is_unsafe_iff_comment_met(
    diagnostic: Diagnostic,
    target: Reference,
    binding: Binding,
    comments: CommentRanges,
)
    requires
        describes_atom(diagnostic, target, Some(binding), comments),
        spans_in_order(comment_spans(comments)),
    ensures
        diagnostic.fix is Some,
        meets_any(comment_spans(comments), target.range) ==> fix_applicability(diagnostic.fix->0)
            == Applicability::Unsafe,
        !meets_any(comment_spans(comments), target.range) ==> fix_applicability(diagnostic.fix->0)
            == Applicability::Safe,
{
}

/// Where the comment spans are in order, the fix of a tuple is unsafe iff a
/// comment meets the range of the whole tuple, and safe otherwise: a comment
/// beside an element that stays counts, a comment outside the tuple does
/// not.
pub proof fn law_tuple_fix_is_unsafe_iff_comment_met(
    diagnostic: Diagnostic,
    tuple: TupleExpr,
    aliases: Seq<NodeId>,
    binding: Binding,
    comments: CommentRanges,
    around: Surroundings,
)
    requires
        describes_tuple(diagnostic, tuple, aliases, Some(binding), comments, around),
        spans_in_order(comment_spans(comments)),
    ensures
        diagnostic.fix is Some,
        meets_any(comment_spans(comments), tuple.range) ==> fix_applicability(diagnostic.fix->0)
            == Applicability::Unsafe,
        !meets_any(comment_spans(comments), tuple.range) ==> fix_applicability(diagnostic.fix->0)
            == Applicability::Safe,
{
}

} // verus!
