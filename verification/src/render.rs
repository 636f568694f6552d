//! The text that takes the place of a rewritten tuple.
//!
//! Rendering a node is the host printer's work. What the library decides is
//! which nodes are printed, what is written when a single reference is left,
//! and the padding that keeps the new text apart from its neighbours.

use vstd::prelude::*;
use vstd::string::StringSliceAdditionalSpecFns;
use ruff_python_ast::{AtomicNodeIndex, ExprContext, ExprName, ExprTuple};
use ruff_python_ast::name::Name;
use ruff_python_codegen::{Generator, Indentation};
use ruff_source_file::LineEnding;
use ruff_text_size::TextRange;
use crate::rewrite::{Piece, Remaining};
use crate::tree::nodes_at;
use crate::span::Span;

verus! {

/// `ruff_python_ast::Expr`, a node of the host's tree. What is read of a
/// node, and what the printer writes for nodes, is spoken of through the
/// names that stand beside the calls.
#[verifier::external_type_specification]
#[verifier::external_body]
pub struct ExExpr(ruff_python_ast::Expr);

/// The node of the bare name `id`, as it stands where a name is loaded.
pub uninterp spec fn name_expr(id: Seq<char>) -> ruff_python_ast::Expr;

/// What the printer writes for the given nodes as the elements of one tuple,
/// without parentheses round them.
pub uninterp spec fn printed_elements(nodes: Seq<ruff_python_ast::Expr>) -> Seq<char>;

/// Makes the node of a bare name that is loaded, as `ExprName` with
/// `Name::new(id)`, the placeholder node index and the default range.
///
/// The node is made of `id` and of constants: it is what `name_expr` names.
#[verifier::external_body]
fn name_node(id: &str) -> (node: ruff_python_ast::Expr)
    ensures
        node == name_expr(id@),
{
    ruff_python_ast::Expr::Name(ExprName {
        node_index: AtomicNodeIndex::NONE,
        range: TextRange::default(),
        id: Name::new(id),
        ctx: ExprContext::Load,
    })
}

/// Prints the given nodes as the elements of one tuple with
/// `Generator::expr`, which writes a tuple at the top level without the
/// parentheses round it, and a tuple of no elements as `()`. The generator
/// is made with the default indentation and with line feeds, which it only
/// writes between statements.
///
/// What is written takes the whole of the printer to say. It reads the
/// nodes and nothing else, so the same nodes are always printed alike: the
/// text is what `printed_elements` names. Each node is cloned into the
/// tuple that is printed.
#[verifier::external_body]
fn print_elements(elements: &Vec<&ruff_python_ast::Expr>) -> (text: String)
    ensures
        text@ == printed_elements(nodes_at(elements@)),
{
    let tuple = ExprTuple {
        node_index: AtomicNodeIndex::NONE,
        range: TextRange::default(),
        elts: elements.iter().map(|node| (*node).clone()).collect(),
        ctx: ExprContext::Load,
        parenthesized: true,
    };
    Generator::new(&Indentation::default(), LineEnding::Lf).expr(&ruff_python_ast::Expr::Tuple(tuple))
}

/// The nodes of the pieces of a rewritten tuple, with `fresh` as the node of
/// the reference that is put in.
pub open spec fn piece_nodes(pieces: Seq<Piece>, fresh: ruff_python_ast::Expr) -> Seq<ruff_python_ast::Expr> {
    pieces.map_values(
        |piece: Piece|
            match piece {
                Piece::Canonical => fresh,
                Piece::Kept(element) => *element.node,
            },
    )
}

/// The nodes that are handed to the printer for a rewritten tuple: the new
/// reference first where one is put in, then the node of each element that
/// stays, in order.
pub fn nodes_to_print<'a>(
    left: &Remaining<'a>,
    fresh: &'a ruff_python_ast::Expr,
) -> (nodes: Vec<&'a ruff_python_ast::Expr>)
    ensures
        nodes_at(nodes@) == piece_nodes(left@, *fresh),
{
    let mut nodes: Vec<&'a ruff_python_ast::Expr> = Vec::new();
    if left.canonical_first {
        nodes.push(fresh);
    }
    let mut i: usize = 0;
    while i < left.kept.len()
        invariant
            i <= left.kept.len(),
            nodes@.len() == i + left.shift(),
            left.canonical_first ==> *nodes@[0] == *fresh,
            forall|k: int| 0 <= k < i ==> *(#[trigger] left.kept@[k]).node == *nodes@[k + left.shift()],
        decreases left.kept.len() - i,
    {
        nodes.push(left.kept[i].node);
        i = i + 1;
    }
    assert(nodes_at(nodes@) =~= piece_nodes(left@, *fresh));
    nodes
}

/// Has the printer print the rewritten tuple, with a new node of the name
/// `binding` for the reference that is put in.
pub(crate) fn print_remaining(left: &Remaining, binding: &String) -> (text: String)
    ensures
        text@ == printed_elements(piece_nodes(left@, name_expr(binding@))),
{
    let fresh = name_node(binding.as_str());
    let nodes = nodes_to_print(left, &fresh);
    print_elements(&nodes)
}

/// The bytes of the source next to the range that is replaced: the one just
/// before it and the one just after it, where the source has one.
#[derive(Clone, Copy, Debug, PartialEq, Eq, Structural)]
pub struct Surroundings {
    pub before: Option<u8>,
    pub after: Option<u8>,
}

/// The bytes of `source` next to `range`. A range that starts at the very
/// beginning, or past the end, has no byte before it; one that ends at the
/// end of the source or past it has none after it.
pub open spec fn neighbours(source: Seq<u8>, range: Span) -> Surroundings {
    Surroundings {
        before: if 0 < range.start <= source.len() {
            Some(source[range.start - 1])
        } else {
            None
        },
        after: if range.end < source.len() {
            Some(source[range.end as int])
        } else {
            None
        },
    }
}

/// The bytes of the ASCII letters. No byte of a character outside ASCII is
/// among them.
pub open spec fn is_letter(byte: u8) -> bool {
    (0x61 <= byte && byte <= 0x7a) || (0x41 <= byte && byte <= 0x5a)
}

/// A neighbour calls for a space when it is a letter: new text written right
/// against it would run into an identifier or a keyword.
pub open spec fn calls_for_space(neighbour: Option<u8>) -> bool {
    neighbour matches Some(byte) && is_letter(byte)
}

/// `content` with a space on each side on which a letter stands.
pub open spec fn padded(content: Seq<char>, around: Surroundings) -> Seq<char> {
    let lead = if calls_for_space(around.before) { seq![' '] } else { Seq::<char>::empty() };
    let trail = if calls_for_space(around.after) { seq![' '] } else { Seq::<char>::empty() };
    lead + content + trail
}

/// The replacement for a rewritten tuple: the bare binding where a single
/// element is left, else the printed elements in parentheses.
pub open spec fn tuple_text(single: bool, binding: Seq<char>, printed: Seq<char>) -> Seq<char> {
    if single {
        binding
    } else {
        seq!['('] + printed + seq![')']
    }
}

/// Whether the neighbour is a letter.
fn needs_space(neighbour: Option<u8>) -> (space: bool)
    ensures
        space == calls_for_space(neighbour),
{
    match neighbour {
        Some(byte) => (0x61 <= byte && byte <= 0x7a) || (0x41 <= byte && byte <= 0x5a),
        None => false,
    }
}

/// Finds the bytes of `source` next to `range`.
pub fn surroundings(source: &str, range: &Span) -> (around: Surroundings)
    ensures
        around == neighbours(source.spec_bytes(), *range),
{
    let bytes = source.as_bytes();
    let start = range.start as usize;
    let end = range.end as usize;
    let before = if 0 < start && start <= bytes.len() {
        Some(bytes[start - 1])
    } else {
        None
    };
    let after = if end < bytes.len() {
        Some(bytes[end])
    } else {
        None
    };
    Surroundings { before, after }
}

/// Pads `content` so that it does not run into a letter on either side.
pub fn pad(content: &String, around: &Surroundings) -> (text: String)
    ensures
        text@ == padded(content@, *around),
{
    let mut text = String::new();
    proof {
        reveal_strlit(" ");
    }
    if needs_space(around.before) {
        text.append(" ");
    }
    text.append(content.as_str());
    if needs_space(around.after) {
        text.append(" ");
    }
    text
}

/// Writes the replacement for a rewritten tuple from the name bound to the
/// canonical symbol and from what the printer made of the elements.
pub fn tuple_content(single: bool, binding: &String, printed: &String) -> (text: String)
    ensures
        text@ == tuple_text(single, binding@, printed@),
{
    if single {
        binding.clone()
    } else {
        let mut text = String::from_str("(");
        text.append(printed.as_str());
        text.append(")");
        proof {
            reveal_strlit("(");
            reveal_strlit(")");
        }
        text
    }
}

} // verus!
