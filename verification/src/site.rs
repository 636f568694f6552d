//! The sites at which the alias is used, and how they are collected.
//!
//! Three contexts are looked at: the target of a call, the expression of a
//! `raise`, and the type expression of each exception handler. A reference
//! that resolves to the alias gives an atom; a tuple of which at least one
//! element resolves to the alias gives one site for the whole tuple.

use vstd::prelude::*;
use crate::identity::matches_alias;
use crate::span::Span;
use crate::syntax::{Element, Expression, Handler, NodeId, Reference, TupleExpr};

verus! {

/// One place at which the alias is used.
#[derive(Debug)]
pub enum Site<'a> {
    /// A single reference that resolves to the alias.
    Atom(&'a Reference),
    /// A tuple, with the nodes of its elements that resolve to the alias.
    TupleMember(&'a TupleExpr<'a>, Vec<NodeId>),
}

/// A site as a mathematical value.
pub enum SiteView<'a> {
    Atom(Reference),
    TupleMember(TupleExpr<'a>, Seq<NodeId>),
}

impl<'a> View for Site<'a> {
    type V = SiteView<'a>;

    open spec fn view(&self) -> SiteView<'a> {
        match self {
            Site::Atom(reference) => SiteView::Atom(**reference),
            Site::TupleMember(tuple, matched) => SiteView::TupleMember(**tuple, matched@),
        }
    }
}

/// The range of the source that a site covers: the reference of an atom,
/// the whole tuple of a tuple site.
pub open spec fn site_range(site: SiteView) -> Span {
    match site {
        SiteView::Atom(target) => target.range,
        SiteView::TupleMember(tuple, _) => tuple.range,
    }
}

impl<'a> Site<'a> {
    /// The range of the source that the site covers.
    pub fn range(&self) -> (span: Span)
        ensures
            span == site_range(self@),
    {
        match self {
            Site::Atom(target) => target.range,
            Site::TupleMember(tuple, _) => tuple.range,
        }
    }
}

/// The nodes of the elements that resolve to the alias, in the order of the
/// tuple.
pub open spec fn alias_ids(elements: Seq<Element>) -> Seq<NodeId>
    decreases elements.len(),
{
    if elements.len() == 0 {
        Seq::empty()
    } else {
        let before = alias_ids(elements.drop_last());
        if elements.last().is_alias() {
            before.push(elements.last().id)
        } else {
            before
        }
    }
}

impl<'a> SiteView<'a> {
    /// An atom is a well-formed reference to the alias. A tuple site holds a
    /// well-formed tuple and exactly the nodes of its alias elements, of
    /// which there is at least one.
    pub open spec fn wf(self) -> bool {
        match self {
            SiteView::Atom(reference) => reference.wf() && reference.is_alias(),
            SiteView::TupleMember(tuple, matched) => {
                &&& tuple.wf()
                &&& matched == alias_ids(tuple.elements@)
                &&& matched.len() > 0
            },
        }
    }
}

/// The site of a reference: an atom iff it resolves to the alias.
pub open spec fn reference_site<'a>(reference: Reference) -> Option<SiteView<'a>> {
    if reference.is_alias() {
        Some(SiteView::Atom(reference))
    } else {
        None
    }
}

/// The site of a tuple: the tuple with its alias elements iff it has any.
pub open spec fn tuple_site(tuple: TupleExpr) -> Option<SiteView> {
    if alias_ids(tuple.elements@).len() > 0 {
        Some(SiteView::TupleMember(tuple, alias_ids(tuple.elements@)))
    } else {
        None
    }
}

/// The site of a call target: whatever its shape, an atom iff it resolves to
/// the alias. A tuple does not resolve.
pub open spec fn call_site(func: Expression) -> Option<SiteView> {
    match func {
        Expression::Name(reference) => reference_site(reference),
        Expression::Attribute(reference) => reference_site(reference),
        Expression::Call(reference) => reference_site(reference),
        Expression::Other(reference) => reference_site(reference),
        Expression::Tuple(_) => None,
    }
}

/// The site of a raised expression: an atom iff it is a name or an attribute
/// access that resolves to the alias.
pub open spec fn raise_site(expr: Expression) -> Option<SiteView> {
    match expr {
        Expression::Name(reference) => reference_site(reference),
        Expression::Attribute(reference) => reference_site(reference),
        Expression::Call(_) => None,
        Expression::Tuple(_) => None,
        Expression::Other(_) => None,
    }
}

/// The site of a handler: that of its type expression where it is a name, an
/// attribute access or a tuple, and none for a handler without a type or
/// with a type of another shape.
pub open spec fn handler_site(handler: Handler) -> Option<SiteView> {
    match handler.type_ {
        Some(Expression::Name(reference)) => reference_site(reference),
        Some(Expression::Attribute(reference)) => reference_site(reference),
        Some(Expression::Tuple(tuple)) => tuple_site(tuple),
        Some(Expression::Call(_)) => None,
        Some(Expression::Other(_)) => None,
        None => None,
    }
}

/// The sites of a run of handlers, in the order of the handlers.
pub open spec fn handler_sites(handlers: Seq<Handler>) -> Seq<SiteView>
    decreases handlers.len(),
{
    if handlers.len() == 0 {
        Seq::empty()
    } else {
        let before = handler_sites(handlers.drop_last());
        match handler_site(handlers.last()) {
            Some(site) => before.push(site),
            None => before,
        }
    }
}

/// A site that may be missing, as a mathematical value.
pub open spec fn site_view<'a>(site: Option<Site<'a>>) -> Option<SiteView<'a>> {
    match site {
        Some(found) => Some(found@),
        None => None,
    }
}

/// The sites as mathematical values.
pub open spec fn site_views<'a>(sites: Seq<Site<'a>>) -> Seq<SiteView<'a>> {
    sites.map_values(|site: Site<'a>| site@)
}

/// The atom of a reference, iff it resolves to the alias.
fn atom<'a>(reference: &'a Reference) -> (site: Option<Site<'a>>)
    ensures
        site_view(site) == reference_site(*reference),
{
    if matches_alias(&reference.identity) {
        Some(Site::Atom(reference))
    } else {
        None
    }
}

/// The nodes of the elements of `tuple` that resolve to the alias, in the
/// order of the tuple.
pub fn alias_elements(tuple: &TupleExpr) -> (matched: Vec<NodeId>)
    ensures
        matched@ == alias_ids(tuple.elements@),
{
    let mut matched: Vec<NodeId> = Vec::new();
    let mut i: usize = 0;
    while i < tuple.elements.len()
        invariant
            i <= tuple.elements.len(),
            matched@ == alias_ids(tuple.elements@.take(i as int)),
        decreases tuple.elements.len() - i,
    {
        let element = &tuple.elements[i];
        assert(tuple.elements@.take(i + 1).drop_last() =~= tuple.elements@.take(i as int));
        if matches_alias(&element.identity) {
            matched.push(element.id);
        }
        i = i + 1;
    }
    assert(tuple.elements@.take(i as int) =~= tuple.elements@);
    matched
}

/// The site of a tuple, iff one of its elements resolves to the alias.
fn tuple_member<'a>(tuple: &'a TupleExpr<'a>) -> (site: Option<Site<'a>>)
    ensures
        site_view(site) == tuple_site(*tuple),
{
    let matched = alias_elements(tuple);
    if matched.len() > 0 {
        Some(Site::TupleMember(tuple, matched))
    } else {
        None
    }
}

/// Looks at the target of a call.
pub fn badzipfile_alias_call<'a>(func: &'a Expression<'a>) -> (site: Option<Site<'a>>)
    ensures
        site_view(site) == call_site(*func),
{
    match func {
        Expression::Name(reference) => atom(reference),
        Expression::Attribute(reference) => atom(reference),
        Expression::Call(reference) => atom(reference),
        Expression::Other(reference) => atom(reference),
        Expression::Tuple(_) => None,
    }
}

/// Looks at the expression of a `raise`.
pub fn badzipfile_alias_raise<'a>(expr: &'a Expression<'a>) -> (site: Option<Site<'a>>)
    ensures
        site_view(site) == raise_site(*expr),
{
    match expr {
        Expression::Name(reference) => atom(reference),
        Expression::Attribute(reference) => atom(reference),
        Expression::Call(_) => None,
        Expression::Tuple(_) => None,
        Expression::Other(_) => None,
    }
}

/// Looks at the type expression of one handler.
pub fn handler_type_site<'a>(handler: &'a Handler<'a>) -> (site: Option<Site<'a>>)
    ensures
        site_view(site) == handler_site(*handler),
{
    match &handler.type_ {
        Some(Expression::Name(reference)) => atom(reference),
        Some(Expression::Attribute(reference)) => atom(reference),
        Some(Expression::Tuple(tuple)) => tuple_member(tuple),
        Some(Expression::Call(_)) => None,
        Some(Expression::Other(_)) => None,
        None => None,
    }
}

/// Looks at the type expression of each handler and gives the sites in the
/// order of the handlers.
pub fn badzipfile_alias_handlers<'a>(handlers: &'a Vec<Handler<'a>>) -> (sites: Vec<Site<'a>>)
    ensures
        site_views(sites@) == handler_sites(handlers@),
{
    let mut sites: Vec<Site<'a>> = Vec::new();
    let mut i: usize = 0;
    while i < handlers.len()
        invariant
            i <= handlers.len(),
            site_views(sites@) == handler_sites(handlers@.take(i as int)),
        decreases handlers.len() - i,
    {
        assert(handlers@.take(i + 1).drop_last() =~= handlers@.take(i as int));
        if let Some(site) = handler_type_site(&handlers[i]) {
            sites.push(site);
        }
        i = i + 1;
    }
    assert(handlers@.take(i as int) =~= handlers@);
    sites
}

} // verus!
