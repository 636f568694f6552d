//! The part of the host's syntax tree that the rule reads.
//!
//! The host resolves names and locates nodes; the model keeps, for each node
//! the rule may look at, what the host found out about it. A node is told
//! apart from every other node by its `NodeId`, never by its text: two
//! elements that read the same are still two elements.

use vstd::prelude::*;
use crate::identity::{names_alias, names_canonical, resolved};
use crate::span::Span;

verus! {

/// The stable index by which a node is known: two nodes are the same node iff
/// their indices are equal.
#[derive(Clone, Copy, Debug, PartialEq, Eq, Structural)]
pub struct NodeId {
    pub index: usize,
}

/// An expression that stands on its own: where it is, what it resolves to and,
/// for a name or a dotted name, how it is spelled in the source.
#[derive(Debug)]
pub struct Reference {
    pub range: Span,
    pub identity: Option<Vec<String>>,
    pub spelling: Option<String>,
}

/// One element of a tuple: which node it is, what it resolves to, and the
/// host's node itself, which is only ever handed on to the host's printer.
#[derive(Debug)]
pub struct Element<'a> {
    pub id: NodeId,
    pub identity: Option<Vec<String>>,
    pub node: &'a ruff_python_ast::Expr,
}

/// A tuple expression with its elements in source order.
#[derive(Debug)]
pub struct TupleExpr<'a> {
    pub range: Span,
    pub elements: Vec<Element<'a>>,
}

/// The shapes of expression that the rule tells apart.
#[derive(Debug)]
pub enum Expression<'a> {
    /// A bare name, such as `BadZipfile`.
    Name(Reference),
    /// An attribute access, such as `zipfile.BadZipfile`.
    Attribute(Reference),
    /// A call.
    Call(Reference),
    /// A tuple.
    Tuple(TupleExpr<'a>),
    /// Any other expression.
    Other(Reference),
}

/// An exception handler with the expression that names what it catches, if
/// it names anything.
#[derive(Debug)]
pub struct Handler<'a> {
    pub type_: Option<Expression<'a>>,
}

impl Reference {
    /// A reference covers a well-formed range.
    pub open spec fn wf(&self) -> bool {
        self.range.wf()
    }

    /// The reference resolves to the deprecated alias.
    pub open spec fn is_alias(&self) -> bool {
        names_alias(resolved(self.identity))
    }
}

impl<'a> Element<'a> {
    /// The element resolves to the deprecated alias.
    pub open spec fn is_alias(&self) -> bool {
        names_alias(resolved(self.identity))
    }

    /// The element resolves to the canonical symbol.
    pub open spec fn is_canonical(&self) -> bool {
        names_canonical(resolved(self.identity))
    }
}

/// No node occurs twice among the elements.
pub open spec fn distinct_nodes(elements: Seq<Element>) -> bool {
    forall|i: int, j: int|
        0 <= i < j < elements.len() ==> (#[trigger] elements[i]).id != (#[trigger] elements[j]).id
}

impl<'a> TupleExpr<'a> {
    /// A tuple covers a well-formed range and holds each node once.
    pub open spec fn wf(&self) -> bool {
        self.range.wf() && distinct_nodes(self.elements@)
    }
}

impl<'a> Expression<'a> {
    /// Every range in the expression is well formed and a tuple holds each of
    /// its nodes once.
    pub open spec fn wf(&self) -> bool {
        match self {
            Expression::Name(reference) => reference.wf(),
            Expression::Attribute(reference) => reference.wf(),
            Expression::Call(reference) => reference.wf(),
            Expression::Tuple(tuple) => tuple.wf(),
            Expression::Other(reference) => reference.wf(),
        }
    }
}

impl<'a> Handler<'a> {
    /// The handler's type expression, if any, is well formed.
    pub open spec fn wf(&self) -> bool {
        self.type_ matches Some(expr) ==> expr.wf()
    }
}

} // verus!
