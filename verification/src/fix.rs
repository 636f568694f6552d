//! Bindings, and the fixes assembled from them.

use vstd::prelude::*;
use ruff_diagnostics::{Edit, Fix};
use ruff_text_size::{TextRange, TextSize};
use crate::comments::Applicability;
use crate::span::Span;

verus! {

/// `ruff_diagnostics::Fix`, a collection of edits with an applicability. What
/// it holds is spoken of through `fix_edits` and `fix_applicability`.
#[verifier::external_type_specification]
#[verifier::external_body]
pub struct ExFix(Fix);

/// `ruff_diagnostics::Edit`, one edit of the source. The library hands the
/// importer's edit on as it came; what it holds is spoken of through
/// `edit_view`.
#[verifier::external_type_specification]
#[verifier::external_body]
pub struct ExEdit(Edit);

/// An edit as a mathematical value: start offset, end offset and the text
/// that takes the place of that range.
pub type EditView = (u32, u32, Seq<char>);

/// The range and the text of an `Edit`. An edit that only deletes has no
/// text.
pub uninterp spec fn edit_view(edit: Edit) -> EditView;

/// The edits that a `Fix` holds, in the order in which it holds them.
pub uninterp spec fn fix_edits(fix: Fix) -> Seq<EditView>;

/// The applicability that a `Fix` was built with.
pub uninterp spec fn fix_applicability(fix: Fix) -> Applicability;

/// The local name under which the canonical symbol can be written at a site,
/// with the importer's edit that makes the name available there. The edit
/// is kept as the importer gave it, whatever it does: where the symbol was
/// already imported it may change nothing at all.
#[derive(Debug)]
pub struct Binding {
    pub name: String,
    pub edit: Edit,
}

impl Binding {
    /// A binding has a name.
    pub open spec fn wf(&self) -> bool {
        self.name@.len() > 0
    }

    /// The binding of `name` that comes with `edit`, or `None` where the
    /// name is empty.
    pub fn new(name: String, edit: Edit) -> (binding: Option<Binding>)
        ensures
            binding is Some <==> name@.len() > 0,
            binding matches Some(made) ==> made.wf() && made.name == name && made.edit == edit,
    {
        if !name.as_str().is_empty() {
            Some(Binding { name, edit })
        } else {
            None
        }
    }
}

/// The request made of the host's importer: make `member` of `module`
/// available at offset `at`, and say under which name.
#[derive(Debug)]
pub struct ImportRequest {
    pub module: String,
    pub member: String,
    pub at: u32,
}

/// An edit comes before another when it starts earlier, or starts at the same
/// offset and ends earlier.
pub open spec fn comes_before(a: EditView, b: EditView) -> bool {
    a.0 < b.0 || (a.0 == b.0 && a.1 < b.1)
}

/// The order in which a fix holds a replacement and the edit that goes with
/// it: by start, then by end, the replacement first where both are the same.
pub open spec fn edits_in_order(replacement: EditView, import: EditView) -> Seq<EditView> {
    if comes_before(import, replacement) {
        seq![import, replacement]
    } else {
        seq![replacement, import]
    }
}

/// Builds the fix that replaces `range` by `content` and applies `import`
/// with it, through `Edit::range_replacement` and `Fix::applicable_edits`.
///
/// `Fix::applicable_edits` chains the first edit and the rest, sorts them by
/// `(start, end)` with a stable sort, and stores the applicability it was
/// given. The import edit goes in as a clone of what was handed over.
/// `Edit::range_replacement` asserts in debug builds that the content is not
/// empty and `TextRange::new` panics on a range that ends before it starts;
/// the precondition rules both out.
#[verifier::external_body]
pub(crate) fn applicable_fix(
    content: &String,
    range: &Span,
    import: &Edit,
    applicability: Applicability,
) -> (fix: Fix)
    requires
        content@.len() > 0,
        range.wf(),
    ensures
        fix_edits(fix) == edits_in_order((range.start, range.end, content@), edit_view(*import)),
        fix_applicability(fix) == applicability,
{
    let at = TextRange::new(TextSize::new(range.start), TextSize::new(range.end));
    let level = match applicability {
        Applicability::Safe => ruff_diagnostics::Applicability::Safe,
        Applicability::Unsafe => ruff_diagnostics::Applicability::Unsafe,
    };
    Fix::applicable_edits(Edit::range_replacement(content.clone(), at), [import.clone()], level)
}

} // verus!
