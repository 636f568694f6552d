//! Diagnostics and the fixes attached to them.

use vstd::prelude::*;
use vstd::string::StringSliceAdditionalSpecFns;
use ruff_diagnostics::Fix;
use ruff_python_trivia::CommentRanges;
use crate::comments::{applicability, applicability_when, comment_spans, meets_any, spans_in_order, Applicability};
use crate::fix::{
    applicable_fix, edit_view, edits_in_order, fix_applicability, fix_edits, Binding, ImportRequest,
};
use crate::render::{
    name_expr, neighbours, pad, padded, piece_nodes, print_remaining, printed_elements, surroundings, tuple_content,
    tuple_text, Surroundings,
};
use crate::rewrite::{remaining, rewritten};
use crate::site::{site_range, Site, SiteView};
use crate::span::Span;
use crate::syntax::{NodeId, Reference, TupleExpr};

verus! {

/// The finding that the deprecated alias is used, with the spelling of the
/// reference where it has one.
#[derive(Debug)]
pub struct BadZipFileAlias {
    pub name: Option<String>,
}

/// The title of the fix for a reference with the given spelling.
pub open spec fn fix_title_text(name: Option<String>) -> Seq<char> {
    match name {
        None => "Replace with `zipfile.BadZipFile`"@,
        Some(name) => "Replace `"@ + name@ + "` with `zipfile.BadZipFile`"@,
    }
}

impl BadZipFileAlias {
    /// What the finding says.
    pub fn message(&self) -> (text: String)
        ensures
            text@ == "Replace aliased error with `BadZipFile`"@,
    {
        String::from_str("Replace aliased error with `BadZipFile`")
    }

    /// What applying the fix does, naming the reference where its spelling is
    /// known.
    pub fn fix_title(&self) -> (text: String)
        ensures
            text@ == fix_title_text(self.name),
    {
        match &self.name {
            None => String::from_str("Replace with `zipfile.BadZipFile`"),
            Some(name) => {
                let mut text = String::from_str("Replace `");
                text.append(name.as_str());
                text.append("` with `zipfile.BadZipFile`");
                text
            },
        }
    }
}

/// One use of the alias: where it is, what was found, and the fix where one
/// could be built.
#[derive(Debug)]
pub struct Diagnostic {
    pub kind: BadZipFileAlias,
    pub range: Span,
    pub fix: Option<Fix>,
}

/// The fix is there iff a binding was found, and then holds the replacement
/// of `range` by `content` together with the binding's import edit.
pub open spec fn fix_replaces(
    fix: Option<Fix>,
    import: Option<Binding>,
    content: Seq<char>,
    range: Span,
) -> bool {
    match import {
        None => fix is None,
        Some(binding) => fix matches Some(made) && fix_edits(made) == edits_in_order(
            (range.start, range.end, content),
            edit_view(binding.edit),
        ),
    }
}

/// Where the comment spans are in order, a fix over `range` is unsafe iff a
/// comment meets the range, and safe otherwise.
pub open spec fn fix_classified(fix: Option<Fix>, comments: CommentRanges, range: Span) -> bool {
    fix matches Some(made) ==> (spans_in_order(comment_spans(comments)) ==> fix_applicability(made)
        == applicability_when(meets_any(comment_spans(comments), range)))
}

/// What replaces a tuple: the bare bound name where a single element is
/// left, else what the printer writes for the rewritten tuple, with a node
/// of the bound name for the reference that is put in, in parentheses;
/// either padded against the neighbours.
pub open spec fn tuple_replacement(
    tuple: TupleExpr,
    aliases: Seq<NodeId>,
    binding: Seq<char>,
    around: Surroundings,
) -> Seq<char> {
    let left = rewritten(tuple.elements@, aliases);
    padded(tuple_text(left.len() == 1, binding, printed_elements(piece_nodes(left, name_expr(binding)))), around)
}

/// What the diagnostic of a single reference holds: the reference's range and
/// spelling, and a fix that writes the bound name over the whole reference.
pub open spec fn describes_atom(
    diagnostic: Diagnostic,
    target: Reference,
    import: Option<Binding>,
    comments: CommentRanges,
) -> bool {
    &&& diagnostic.kind.name == target.spelling
    &&& diagnostic.range == target.range
    &&& fix_replaces(
        diagnostic.fix,
        import,
        match import {
            Some(binding) => binding.name@,
            None => Seq::empty(),
        },
        target.range,
    )
    &&& fix_classified(diagnostic.fix, comments, target.range)
}

/// What the diagnostic of a tuple holds: the tuple's range, no spelling, and
/// a fix that writes the rewritten tuple over the whole tuple.
pub open spec fn describes_tuple(
    diagnostic: Diagnostic,
    tuple: TupleExpr,
    aliases: Seq<NodeId>,
    import: Option<Binding>,
    comments: CommentRanges,
    around: Surroundings,
) -> bool {
    &&& diagnostic.kind.name is None
    &&& diagnostic.range == tuple.range
    &&& fix_replaces(
        diagnostic.fix,
        import,
        match import {
            Some(binding) => tuple_replacement(tuple, aliases, binding.name@, around),
            None => Seq::empty(),
        },
        tuple.range,
    )
    &&& fix_classified(diagnostic.fix, comments, tuple.range)
}

/// What the diagnostic of a site holds.
pub open spec fn describes(
    diagnostic: Diagnostic,
    site: SiteView,
    import: Option<Binding>,
    comments: CommentRanges,
    around: Surroundings,
) -> bool {
    match site {
        SiteView::Atom(target) => describes_atom(diagnostic, target, import, comments),
        SiteView::TupleMember(tuple, aliases) => describes_tuple(
            diagnostic,
            tuple,
            aliases,
            import,
            comments,
            around,
        ),
    }
}

/// A copy of the spelling.
fn copy_spelling(spelling: &Option<String>) -> (copy: Option<String>)
    ensures
        copy == *spelling,
{
    match spelling {
        Some(text) => Some(text.clone()),
        None => None,
    }
}

/// Builds the diagnostic for a single reference to the alias.
///
/// The diagnostic covers the reference and carries its spelling. Where a
/// binding was found the fix replaces the whole reference by the bound name;
/// where none was found the diagnostic is still made, without a fix.
pub fn atom_diagnostic(
    target: &Reference,
    import: &Option<Binding>,
    comments: &CommentRanges,
) -> (diagnostic: Diagnostic)
    requires
        target.wf(),
        import matches Some(binding) ==> binding.wf(),
    ensures
        describes_atom(diagnostic, *target, *import, *comments),
{
    let kind = BadZipFileAlias { name: copy_spelling(&target.spelling) };
    let fix = match import {
        None => None,
        Some(binding) => {
            let level = applicability(comments, &target.range);
            Some(applicable_fix(&binding.name, &target.range, &binding.edit, level))
        },
    };
    Diagnostic { kind, range: target.range, fix }
}

/// Builds the fix for a tuple from what the printer made of the elements
/// that are left: the bare bound name where a single element is left, else
/// the printed elements in parentheses, padded against the neighbours and
/// written over the tuple's range.
pub fn tuple_fix(
    single: bool,
    binding: &Binding,
    printed: &String,
    range: &Span,
    around: &Surroundings,
    level: Applicability,
) -> (fix: Fix)
    requires
        binding.wf(),
        range.wf(),
    ensures
        fix_edits(fix) == edits_in_order(
            (range.start, range.end, padded(tuple_text(single, binding.name@, printed@), *around)),
            edit_view(binding.edit),
        ),
        fix_applicability(fix) == level,
{
    let content = pad(&tuple_content(single, &binding.name, printed), around);
    applicable_fix(&content, range, &binding.edit, level)
}

/// Builds the diagnostic for a tuple that holds the alias.
///
/// The diagnostic covers the tuple and names no spelling. Where a binding
/// was found the fix rewrites the whole tuple: the matched elements leave, a
/// reference to the canonical symbol is put in front unless the tuple holds
/// one, a single element that is left is written bare, more than one are
/// written as the printer writes them, in parentheses, and the new text is
/// padded against the bytes of `source` next to the tuple. Where no binding
/// was found the diagnostic is still made, without a fix.
pub fn tuple_diagnostic(
    tuple: &TupleExpr,
    aliases: &Vec<NodeId>,
    import: &Option<Binding>,
    comments: &CommentRanges,
    source: &str,
) -> (diagnostic: Diagnostic)
    requires
        tuple.range.wf(),
        import matches Some(binding) ==> binding.wf(),
    ensures
        describes_tuple(
            diagnostic,
            *tuple,
            aliases@,
            *import,
            *comments,
            neighbours(source.spec_bytes(), tuple.range),
        ),
{
    let kind = BadZipFileAlias { name: None };
    let level = applicability(comments, &tuple.range);
    let around = surroundings(source, &tuple.range);
    let fix = match import {
        None => None,
        Some(binding) => {
            let left = remaining(tuple, aliases);
            let single = left.is_single();
            let printed = if single {
                String::new()
            } else {
                print_remaining(&left, &binding.name)
            };
            Some(tuple_fix(single, binding, &printed, &tuple.range, &around, level))
        },
    };
    Diagnostic { kind, range: tuple.range, fix }
}

/// What is asked of the importer at a site.
pub open spec fn asks_at(request: ImportRequest, site: SiteView) -> bool {
    &&& request.module@ == "zipfile"@
    &&& request.member@ == "BadZipFile"@
    &&& request.at == site_range(site).start
}

/// Asks for the canonical symbol at a site: `BadZipFile` of the module
/// `zipfile`, to be bound at the offset at which the site starts.
pub fn import_request(site: &Site) -> (request: ImportRequest)
    ensures
        asks_at(request, site@),
{
    ImportRequest {
        module: String::from_str("zipfile"),
        member: String::from_str("BadZipFile"),
        at: site.range().start,
    }
}

/// Builds the diagnostic for a site from what came of its import request.
pub fn diagnose(
    site: &Site,
    import: &Option<Binding>,
    comments: &CommentRanges,
    source: &str,
) -> (diagnostic: Diagnostic)
    requires
        site_range(site@).wf(),
        import matches Some(binding) ==> binding.wf(),
    ensures
        describes(
            diagnostic,
            site@,
            *import,
            *comments,
            neighbours(source.spec_bytes(), site_range(site@)),
        ),
{
    match site {
        Site::Atom(target) => atom_diagnostic(target, import, comments),
        Site::TupleMember(tuple, aliases) => tuple_diagnostic(tuple, aliases, import, comments, source),
    }
}

/// The requests to make of the importer, one for each site, in the order of
/// the sites.
pub fn import_requests(sites: &Vec<Site>) -> (requests: Vec<ImportRequest>)
    ensures
        requests@.len() == sites@.len(),
        forall|i: int| 0 <= i < sites@.len() ==> asks_at(#[trigger] requests@[i], sites@[i]@),
{
    let mut requests: Vec<ImportRequest> = Vec::new();
    let mut i: usize = 0;
    while i < sites.len()
        invariant
            i <= sites.len(),
            requests@.len() == i,
            forall|k: int| 0 <= k < i ==> asks_at(#[trigger] requests@[k], sites@[k]@),
        decreases sites.len() - i,
    {
        requests.push(import_request(&sites[i]));
        i = i + 1;
    }
    requests
}

/// Builds one diagnostic for each site, in the order of the sites, from the
/// importer's answers to the requests of `import_requests`.
pub fn diagnose_all(
    sites: &Vec<Site>,
    imports: &Vec<Option<Binding>>,
    comments: &CommentRanges,
    source: &str,
) -> (diagnostics: Vec<Diagnostic>)
    requires
        imports@.len() == sites@.len(),
        forall|i: int| 0 <= i < sites@.len() ==> site_range((#[trigger] sites@[i])@).wf(),
        forall|i: int|
            0 <= i < imports@.len() ==> ((#[trigger] imports@[i]) matches Some(binding) ==> binding.wf()),
    ensures
        diagnostics@.len() == sites@.len(),
        forall|i: int|
            0 <= i < sites@.len() ==> describes(
                #[trigger] diagnostics@[i],
                sites@[i]@,
                imports@[i],
                *comments,
                neighbours(source.spec_bytes(), site_range(sites@[i]@)),
            ),
{
    let mut diagnostics: Vec<Diagnostic> = Vec::new();
    let mut i: usize = 0;
    while i < sites.len()
        invariant
            i <= sites.len(),
            imports@.len() == sites@.len(),
            diagnostics@.len() == i,
            forall|k: int| 0 <= k < sites@.len() ==> site_range((#[trigger] sites@[k])@).wf(),
            forall|k: int|
                0 <= k < imports@.len() ==> ((#[trigger] imports@[k]) matches Some(binding) ==> binding.wf()),
            forall|k: int|
                0 <= k < i ==> describes(
                    #[trigger] diagnostics@[k],
                    sites@[k]@,
                    imports@[k],
                    *comments,
                    neighbours(source.spec_bytes(), site_range(sites@[k]@)),
                ),
        decreases sites.len() - i,
    {
        diagnostics.push(diagnose(&sites[i], &imports[i], comments, source));
        i = i + 1;
    }
    diagnostics
}

} // verus!
