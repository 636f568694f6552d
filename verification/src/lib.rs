//! Detection of the deprecated `zipfile.BadZipfile` alias in a resolved syntax
//! tree, and synthesis of the fix that replaces it by `zipfile.BadZipFile`.
//!
//! The library works on a small model of the host's syntax tree, in which
//! every node carries what the host's semantic model resolves it to. It
//! reads that model from the host's tree ([`tree`]), collects the sites at
//! which the alias is used ([`site`]), decides what is left of a tuple that
//! held the alias ([`rewrite`]), writes the replacement text ([`render`])
//! and builds, for each site, a diagnostic with a fix ([`diagnostic`]).
//!
//! The tree and the semantic model are those of `ruff_python_ast` and
//! `ruff_python_semantic`, the fix is a `ruff_diagnostics::Fix`, the comments
//! are read from a `ruff_python_trivia::CommentRanges`, and the elements that
//! stay in a tuple are printed by `ruff_python_codegen`. What the library
//! trusts of these crates is stated where it calls them; everything else is
//! proved, and [`laws`] states what holds of the rule as a whole.
//!
//! Finding a name for the canonical symbol is the work of the host's
//! importer: [`diagnostic::import_request`] says what to ask of it, and
//! [`diagnostic::diagnose`] takes its answer.

pub mod span;
pub mod identity;
pub mod comments;
pub mod fix;
pub mod syntax;
pub mod tree;
pub mod site;
pub mod rewrite;
pub mod render;
pub mod diagnostic;
pub mod laws;
