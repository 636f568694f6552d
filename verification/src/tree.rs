//! Reading the host's tree into the model.
//!
//! Each node is asked for the three things the rule needs of it: where it
//! is, what the semantic model resolves it to, and how it is spelled. A
//! tuple keeps a borrow of each of its element nodes, known by its position
//! in the tuple.

use vstd::prelude::*;
use ruff_python_ast::name::UnqualifiedName;
use ruff_python_semantic::SemanticModel;
use ruff_text_size::Ranged;
use crate::identity::{matches_alias, names_alias, resolved, Identity};
use crate::span::Span;
use crate::syntax::{distinct_nodes, Element, Expression, Handler, NodeId, Reference, TupleExpr};

verus! {

/// `ruff_python_semantic::SemanticModel`, the host's record of scopes and
/// bindings. What it resolves a node to is spoken of through
/// `resolved_identity`.
#[verifier::external_type_specification]
#[verifier::external_body]
pub struct ExSemanticModel<'a>(SemanticModel<'a>);

/// `ruff_python_ast::ExceptHandler`, a handler of the host's tree. Its type
/// expression is spoken of through `handler_type_node`.
#[verifier::external_type_specification]
#[verifier::external_body]
pub struct ExExceptHandler(ruff_python_ast::ExceptHandler);

/// What the semantic model resolves a node to: the segments of the
/// qualified name, or `None` where the node does not resolve.
pub uninterp spec fn resolved_identity(semantic: SemanticModel, expr: ruff_python_ast::Expr) -> Option<Identity>;

/// How a node is spelled where it is a name or a dotted name: its segments
/// with dots between them, and `None` for any other node.
pub uninterp spec fn dotted_name(expr: ruff_python_ast::Expr) -> Option<Seq<char>>;

/// The range of the source that a node covers.
pub uninterp spec fn node_range(expr: ruff_python_ast::Expr) -> Span;

/// Which of the shapes that the rule tells apart a node has.
pub uninterp spec fn node_shape(expr: ruff_python_ast::Expr) -> Shape;

/// The element nodes of a tuple in source order, and no nodes for a node
/// that is no tuple.
pub uninterp spec fn node_elements(expr: ruff_python_ast::Expr) -> Seq<ruff_python_ast::Expr>;

/// The type expression of a handler, where it has one.
pub uninterp spec fn handler_type_node(handler: ruff_python_ast::ExceptHandler) -> Option<ruff_python_ast::Expr>;

/// The shapes of node that the rule tells apart.
#[derive(Clone, Copy, Debug, PartialEq, Eq, Structural)]
pub enum Shape {
    Name,
    Attribute,
    Call,
    Tuple,
    Other,
}

/// The nodes that a sequence of borrows points at.
pub open spec fn nodes_at<'a>(nodes: Seq<&'a ruff_python_ast::Expr>) -> Seq<ruff_python_ast::Expr> {
    nodes.map_values(|node: &'a ruff_python_ast::Expr| *node)
}

/// A spelling that may be missing, as a mathematical value.
pub open spec fn spelled(spelling: Option<String>) -> Option<Seq<char>> {
    match spelling {
        Some(text) => Some(text@),
        None => None,
    }
}

/// A borrowed node that may be missing, as the node itself.
pub open spec fn node_at<'a>(node: Option<&'a ruff_python_ast::Expr>) -> Option<ruff_python_ast::Expr> {
    match node {
        Some(found) => Some(*found),
        None => None,
    }
}

/// Calls `SemanticModel::resolve_qualified_name` and copies the segments of
/// the name it finds.
///
/// What a node resolves to takes the whole of the model's scopes and
/// bindings to say. The method reads the model and the node and nothing
/// else, so the same model and node always resolve alike: the answer is
/// what `resolved_identity` names.
#[verifier::external_body]
fn resolved_segments(semantic: &SemanticModel, expr: &ruff_python_ast::Expr) -> (segments: Option<Vec<String>>)
    ensures
        resolved(segments) == resolved_identity(*semantic, *expr),
{
    semantic
        .resolve_qualified_name(expr)
        .map(|name| name.segments().iter().map(|segment| (*segment).to_string()).collect())
}

/// Calls `UnqualifiedName::from_expr` and writes the name it finds with dots
/// between its segments, as its `Display` does.
///
/// The spelling is read from inside the node and from nothing else: it is
/// what `dotted_name` names.
#[verifier::external_body]
fn dotted_spelling(expr: &ruff_python_ast::Expr) -> (spelling: Option<String>)
    ensures
        spelled(spelling) == dotted_name(*expr),
{
    UnqualifiedName::from_expr(expr).map(|name| name.to_string())
}

/// Calls `Ranged::range` on the node.
///
/// The range is stored in the node: it is what `node_range` names. A
/// `TextRange` never ends before it starts: its fields are private and
/// every way of making one keeps the start at or before the end.
#[verifier::external_body]
fn range_of(expr: &ruff_python_ast::Expr) -> (range: Span)
    ensures
        range == node_range(*expr),
        range.wf(),
{
    let range = expr.range();
    Span { start: range.start().to_u32(), end: range.end().to_u32() }
}

/// Tells the variants of `Expr` apart: `Name`, `Attribute`, `Call` and
/// `Tuple` each by its own shape, every other variant as `Other`.
///
/// Which variant a node is lies in the node alone: it is what `node_shape`
/// names.
#[verifier::external_body]
fn shape_of(expr: &ruff_python_ast::Expr) -> (shape: Shape)
    ensures
        shape == node_shape(*expr),
{
    match expr {
        ruff_python_ast::Expr::Name(_) => Shape::Name,
        ruff_python_ast::Expr::Attribute(_) => Shape::Attribute,
        ruff_python_ast::Expr::Call(_) => Shape::Call,
        ruff_python_ast::Expr::Tuple(_) => Shape::Tuple,
        _ => Shape::Other,
    }
}

/// Borrows the elements of an `ExprTuple` in the order of its `elts`, and
/// nothing of a node that is no tuple.
///
/// The elements lie in the node alone: they are what `node_elements` names.
#[verifier::external_body]
fn elements_of<'a>(expr: &'a ruff_python_ast::Expr) -> (nodes: Vec<&'a ruff_python_ast::Expr>)
    ensures
        nodes_at(nodes@) == node_elements(*expr),
{
    match expr {
        ruff_python_ast::Expr::Tuple(tuple) => tuple.elts.iter().collect(),
        _ => Vec::new(),
    }
}

/// Borrows the type expression of a handler, where it has one.
///
/// Whether a handler has a type, and which, lies in the handler alone: it
/// is what `handler_type_node` names.
#[verifier::external_body]
fn handler_type<'a>(handler: &'a ruff_python_ast::ExceptHandler) -> (expr: Option<&'a ruff_python_ast::Expr>)
    ensures
        node_at(expr) == handler_type_node(*handler),
{
    let ruff_python_ast::ExceptHandler::ExceptHandler(inner) = handler;
    inner.type_.as_deref()
}

/// A reference holds what was read of a node: its range, what the semantic
/// model resolves it to, and its dotted spelling.
pub open spec fn reads_reference(read: Reference, expr: ruff_python_ast::Expr, semantic: SemanticModel) -> bool {
    &&& read.range == node_range(expr)
    &&& resolved(read.identity) == resolved_identity(semantic, expr)
    &&& spelled(read.spelling) == dotted_name(expr)
}

/// The elements hold what was read of the nodes: each element borrows the
/// node at its position, is known by that position, and resolves as the
/// semantic model resolves the node.
pub open spec fn reads_elements(
    read: Seq<Element>,
    nodes: Seq<ruff_python_ast::Expr>,
    semantic: SemanticModel,
) -> bool {
    &&& read.len() == nodes.len()
    &&& forall|i: int|
        0 <= i < read.len() ==> {
            &&& (#[trigger] read[i]).id.index == i
            &&& *read[i].node == nodes[i]
            &&& resolved(read[i].identity) == resolved_identity(semantic, nodes[i])
        }
}

/// An expression holds what was read of a node: it has the node's shape, a
/// tuple holds the node's range and what was read of its elements, and any
/// other shape holds what was read of the node as a reference.
pub open spec fn reads_expression(read: Expression, expr: ruff_python_ast::Expr, semantic: SemanticModel) -> bool {
    match node_shape(expr) {
        Shape::Name => read matches Expression::Name(reference) && reads_reference(reference, expr, semantic),
        Shape::Attribute => read matches Expression::Attribute(reference) && reads_reference(
            reference,
            expr,
            semantic,
        ),
        Shape::Call => read matches Expression::Call(reference) && reads_reference(reference, expr, semantic),
        Shape::Other => read matches Expression::Other(reference) && reads_reference(reference, expr, semantic),
        Shape::Tuple => read matches Expression::Tuple(tuple) && tuple.range == node_range(expr)
            && reads_elements(tuple.elements@, node_elements(expr), semantic),
    }
}

/// A handler holds what was read of a handler of the host's tree: no type
/// where that has none, else what was read of its type expression.
pub open spec fn reads_handler(
    read: Handler,
    node: ruff_python_ast::ExceptHandler,
    semantic: SemanticModel,
) -> bool {
    match handler_type_node(node) {
        None => read.type_ is None,
        Some(expr) => read.type_ matches Some(expression) && reads_expression(expression, expr, semantic),
    }
}

/// Returns `true` iff the semantic model resolves the expression to the
/// deprecated alias. An expression that does not resolve is not the alias.
pub fn is_alias(expr: &ruff_python_ast::Expr, semantic: &SemanticModel) -> (alias: bool)
    ensures
        alias == names_alias(resolved_identity(*semantic, *expr)),
{
    matches_alias(&resolved_segments(semantic, expr))
}

/// Reads a node as an expression that stands on its own.
pub fn reference(expr: &ruff_python_ast::Expr, semantic: &SemanticModel) -> (read: Reference)
    ensures
        reads_reference(read, *expr, *semantic),
        read.wf(),
{
    Reference { range: range_of(expr), identity: resolved_segments(semantic, expr), spelling: dotted_spelling(expr) }
}

/// Reads the element nodes of a tuple. Each element is the node at its
/// position and is known by that position, so no two elements are the same
/// node.
pub fn elements<'a>(nodes: &Vec<&'a ruff_python_ast::Expr>, semantic: &SemanticModel) -> (read: Vec<Element<'a>>)
    ensures
        reads_elements(read@, nodes_at(nodes@), *semantic),
        distinct_nodes(read@),
{
    let mut read: Vec<Element<'a>> = Vec::new();
    let mut i: usize = 0;
    while i < nodes.len()
        invariant
            i <= nodes.len(),
            reads_elements(read@, nodes_at(nodes@).take(i as int), *semantic),
        decreases nodes.len() - i,
    {
        let node: &'a ruff_python_ast::Expr = nodes[i];
        read.push(Element { id: NodeId { index: i }, identity: resolved_segments(semantic, node), node });
        i = i + 1;
    }
    assert(nodes_at(nodes@).take(i as int) =~= nodes_at(nodes@));
    read
}

/// Reads a node by its shape.
pub fn expression<'a>(expr: &'a ruff_python_ast::Expr, semantic: &SemanticModel) -> (read: Expression<'a>)
    ensures
        reads_expression(read, *expr, *semantic),
        read.wf(),
{
    match shape_of(expr) {
        Shape::Name => Expression::Name(reference(expr, semantic)),
        Shape::Attribute => Expression::Attribute(reference(expr, semantic)),
        Shape::Call => Expression::Call(reference(expr, semantic)),
        Shape::Tuple => Expression::Tuple(
            TupleExpr { range: range_of(expr), elements: elements(&elements_of(expr), semantic) },
        ),
        Shape::Other => Expression::Other(reference(expr, semantic)),
    }
}

/// Reads a handler with its type expression.
pub fn handler<'a>(node: &'a ruff_python_ast::ExceptHandler, semantic: &SemanticModel) -> (read: Handler<'a>)
    ensures
        reads_handler(read, *node, *semantic),
        read.wf(),
{
    match handler_type(node) {
        Some(expr) => Handler { type_: Some(expression(expr, semantic)) },
        None => Handler { type_: None },
    }
}

/// Reads the handlers of a `try` statement, in order.
pub fn handlers<'a>(
    nodes: &'a [ruff_python_ast::ExceptHandler],
    semantic: &SemanticModel,
) -> (read: Vec<Handler<'a>>)
    ensures
        read@.len() == nodes@.len(),
        forall|i: int| 0 <= i < read@.len() ==> reads_handler(#[trigger] read@[i], nodes@[i], *semantic),
        forall|i: int| 0 <= i < read@.len() ==> (#[trigger] read@[i]).wf(),
{
    let mut read: Vec<Handler<'a>> = Vec::new();
    let mut i: usize = 0;
    while i < nodes.len()
        invariant
            i <= nodes.len(),
            read@.len() == i,
            forall|k: int| 0 <= k < i ==> reads_handler(#[trigger] read@[k], nodes@[k], *semantic),
            forall|k: int| 0 <= k < i ==> (#[trigger] read@[k]).wf(),
        decreases nodes.len() - i,
    {
        read.push(handler(&nodes[i], semantic));
        i = i + 1;
    }
    read
}

} // verus!
