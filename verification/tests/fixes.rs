use badzipfile_alias::comments::{applicability, Applicability};
use badzipfile_alias::diagnostic::{
    atom_diagnostic, diagnose, import_request, tuple_diagnostic, tuple_fix, BadZipFileAlias, Diagnostic,
};
use badzipfile_alias::fix::Binding;
use ruff_diagnostics::Edit;
use badzipfile_alias::render::{nodes_to_print, pad, surroundings, tuple_content, Surroundings};
use badzipfile_alias::rewrite::{has_canonical, is_matched, remaining, retained_elements};
use badzipfile_alias::site::{alias_elements, badzipfile_alias_handlers, Site};
use badzipfile_alias::span::Span;
use badzipfile_alias::syntax::{Element, Expression, Handler, NodeId, Reference, TupleExpr};
use ruff_python_ast::name::Name;
use ruff_python_ast::{AtomicNodeIndex, Expr, ExprAttribute, ExprContext, ExprName, Identifier};
use ruff_python_trivia::CommentRanges;
use ruff_text_size::{Ranged, TextRange, TextSize};

const IMPORT_LINE: &str = "from zipfile import BadZipFile\n";

fn identity(segments: &[&str]) -> Option<Vec<String>> {
    Some(segments.iter().map(|segment| segment.to_string()).collect())
}

fn alias() -> Option<Vec<String>> {
    identity(&["zipfile", "BadZipfile"])
}

fn canonical() -> Option<Vec<String>> {
    identity(&["zipfile", "BadZipFile"])
}

fn builtin(name: &str) -> Option<Vec<String>> {
    identity(&["", name])
}

fn name_node(text: &str) -> Expr {
    Expr::Name(ExprName {
        node_index: AtomicNodeIndex::NONE,
        range: TextRange::default(),
        id: Name::new(text),
        ctx: ExprContext::Load,
    })
}

/// A name node that lives as long as the run.
fn name(text: &str) -> &'static Expr {
    Box::leak(Box::new(name_node(text)))
}

/// An attribute node that lives as long as the run.
fn attribute(value: &str, attr: &str) -> &'static Expr {
    Box::leak(Box::new(Expr::Attribute(ExprAttribute {
        node_index: AtomicNodeIndex::NONE,
        range: TextRange::default(),
        value: Box::new(name_node(value)),
        attr: Identifier::new(attr, TextRange::default()),
        ctx: ExprContext::Load,
    })))
}

fn element(index: usize, resolved: Option<Vec<String>>, node: &'static Expr) -> Element<'static> {
    Element { id: NodeId { index }, identity: resolved, node }
}

fn ids(indices: &[usize]) -> Vec<NodeId> {
    indices.iter().map(|index| NodeId { index: *index }).collect()
}

fn comments(spans: &[(u32, u32)]) -> CommentRanges {
    CommentRanges::new(
        spans.iter().map(|(start, end)| TextRange::new(TextSize::new(*start), TextSize::new(*end))).collect(),
    )
}

/// The span of the first occurrence of `needle` in `source`.
fn span_of(source: &str, needle: &str) -> Span {
    let start = source.find(needle).expect("the text must occur in the source");
    Span::new(start as u32, (start + needle.len()) as u32)
}

/// The binding that the importer gives where `BadZipFile` is not imported
/// yet: a new import line at the top of the file.
fn imported() -> Option<Binding> {
    Some(Binding {
        name: "BadZipFile".to_string(),
        edit: edit(Span::new(0, 0), IMPORT_LINE.to_string()),
    })
}

fn import_line() -> (u32, u32, String) {
    (0, 0, IMPORT_LINE.to_string())
}

fn edits_of(fix: &ruff_diagnostics::Fix) -> Vec<(u32, u32, String)> {
    fix.edits()
        .iter()
        .map(|edit| (edit.start().to_u32(), edit.end().to_u32(), edit.content().unwrap_or_default().to_string()))
        .collect()
}

/// The edits of the fix as (start, end, content), and whether it is safe.
fn parts(diagnostic: &Diagnostic) -> (Vec<(u32, u32, String)>, bool) {
    let fix = diagnostic.fix.as_ref().expect("a fix was expected");
    let safe = match fix.applicability() {
        ruff_diagnostics::Applicability::Safe => true,
        ruff_diagnostics::Applicability::Unsafe => false,
        ruff_diagnostics::Applicability::DisplayOnly => panic!("a fix that is only displayed"),
    };
    (edits_of(fix), safe)
}

/// The source after the edits, applied from the last to the first.
fn applied(source: &str, edits: &[(u32, u32, String)]) -> String {
    let mut text = source.to_string();
    for (start, end, content) in edits.iter().rev() {
        text.replace_range(*start as usize..*end as usize, content);
    }
    text
}

/// The edit that writes `content` over `range`.
fn edit(range: Span, content: String) -> Edit {
    Edit::range_replacement(content, TextRange::new(TextSize::new(range.start), TextSize::new(range.end)))
}

#[test]
fn message_is_fixed() {
    let kind = BadZipFileAlias { name: Some("zipfile.BadZipfile".to_string()) };
    assert_eq!(kind.message(), "Replace aliased error with `BadZipFile`");
    assert_eq!(BadZipFileAlias { name: None }.message(), "Replace aliased error with `BadZipFile`");
}

#[test]
fn fix_title_names_the_reference_where_known() {
    let named = BadZipFileAlias { name: Some("zipfile.BadZipfile".to_string()) };
    assert_eq!(named.fix_title(), "Replace `zipfile.BadZipfile` with `zipfile.BadZipFile`");
    let bare = BadZipFileAlias { name: Some("BadZipfile".to_string()) };
    assert_eq!(bare.fix_title(), "Replace `BadZipfile` with `zipfile.BadZipFile`");
    assert_eq!(BadZipFileAlias { name: None }.fix_title(), "Replace with `zipfile.BadZipFile`");
}

#[test]
fn handler_alias_is_replaced_by_the_bound_name() {
    let source = "try:\n    pass\nexcept zipfile.BadZipfile:\n    pass\n";
    let handlers = vec![Handler {
        type_: Some(Expression::Attribute(Reference {
            range: span_of(source, "zipfile.BadZipfile"),
            identity: alias(),
            spelling: Some("zipfile.BadZipfile".to_string()),
        })),
    }];
    let sites = badzipfile_alias_handlers(&handlers);
    assert_eq!(sites.len(), 1);
    assert!(matches!(&sites[0], Site::Atom(_)));
    let request = import_request(&sites[0]);
    assert_eq!(request.module, "zipfile");
    assert_eq!(request.member, "BadZipFile");
    assert_eq!(request.at, 21);
    let diagnostic = diagnose(&sites[0], &imported(), &comments(&[]), source);
    assert_eq!(diagnostic.range, Span { start: 21, end: 39 });
    assert_eq!(diagnostic.kind.name.as_deref(), Some("zipfile.BadZipfile"));
    assert_eq!(diagnostic.kind.fix_title(), "Replace `zipfile.BadZipfile` with `zipfile.BadZipFile`");
    let (edits, safe) = parts(&diagnostic);
    assert_eq!(edits, vec![import_line(), (21, 39, "BadZipFile".to_string())]);
    assert!(safe);
    assert_eq!(
        applied(source, &edits),
        "from zipfile import BadZipFile\ntry:\n    pass\nexcept BadZipFile:\n    pass\n"
    );
}

#[test]
fn tuple_with_one_alias_keeps_the_other_element() {
    let source = "try:\n    pass\nexcept (zipfile.BadZipfile, ValueError):\n    pass\n";
    let tuple = TupleExpr {
        range: span_of(source, "(zipfile.BadZipfile, ValueError)"),
        elements: vec![
            element(1, alias(), attribute("zipfile", "BadZipfile")),
            element(2, builtin("ValueError"), name("ValueError")),
        ],
    };
    let handlers = vec![Handler { type_: Some(Expression::Tuple(tuple)) }];
    let sites = badzipfile_alias_handlers(&handlers);
    assert_eq!(sites.len(), 1);
    assert!(matches!(&sites[0], Site::TupleMember(_, matched) if matched == &ids(&[1])));
    assert_eq!(import_request(&sites[0]).at, 21);
    let diagnostic = diagnose(&sites[0], &imported(), &comments(&[]), source);
    assert_eq!(diagnostic.range, Span { start: 21, end: 53 });
    assert_eq!(diagnostic.kind.name, None);
    assert_eq!(diagnostic.kind.fix_title(), "Replace with `zipfile.BadZipFile`");
    let (edits, safe) = parts(&diagnostic);
    assert_eq!(edits, vec![import_line(), (21, 53, "(BadZipFile, ValueError)".to_string())]);
    assert!(safe);
    assert_eq!(
        applied(source, &edits),
        "from zipfile import BadZipFile\ntry:\n    pass\nexcept (BadZipFile, ValueError):\n    pass\n"
    );
}

#[test]
fn tuple_of_alias_and_canonical_collapses_to_the_bound_name() {
    let source = "try:\n    pass\nexcept (zipfile.BadZipfile, zipfile.BadZipFile):\n    pass\n";
    let tuple = TupleExpr {
        range: span_of(source, "(zipfile.BadZipfile, zipfile.BadZipFile)"),
        elements: vec![
            element(1, alias(), attribute("zipfile", "BadZipfile")),
            element(2, canonical(), attribute("zipfile", "BadZipFile")),
        ],
    };
    let matched = alias_elements(&tuple);
    assert_eq!(matched, ids(&[1]));
    let diagnostic = tuple_diagnostic(&tuple, &matched, &imported(), &comments(&[]), source);
    let (edits, safe) = parts(&diagnostic);
    assert_eq!(edits, vec![import_line(), (21, 61, "BadZipFile".to_string())]);
    assert!(safe);
    assert_eq!(
        applied(source, &edits),
        "from zipfile import BadZipFile\ntry:\n    pass\nexcept BadZipFile:\n    pass\n"
    );
}

#[test]
fn tuple_with_canonical_first_gets_no_second_reference() {
    let source = "from zipfile import BadZipFile\ntry:\n    pass\nexcept (BadZipFile, zipfile.BadZipfile):\n    pass\n";
    let tuple = TupleExpr {
        range: span_of(source, "(BadZipFile, zipfile.BadZipfile)"),
        elements: vec![
            element(1, canonical(), name("BadZipFile")),
            element(2, alias(), attribute("zipfile", "BadZipfile")),
        ],
    };
    let matched = alias_elements(&tuple);
    assert_eq!(matched, ids(&[2]));
    // The symbol is bound already: the importer rewrites the imported name to itself.
    let bound = Some(Binding {
        name: "BadZipFile".to_string(),
        edit: edit(span_of(source, "BadZipFile"), "BadZipFile".to_string()),
    });
    let diagnostic = tuple_diagnostic(&tuple, &matched, &bound, &comments(&[]), source);
    let (edits, safe) = parts(&diagnostic);
    assert_eq!(edits, vec![(20, 30, "BadZipFile".to_string()), (52, 84, "BadZipFile".to_string())]);
    assert!(safe);
    assert_eq!(applied(source, &edits), "from zipfile import BadZipFile\ntry:\n    pass\nexcept BadZipFile:\n    pass\n");
}

#[test]
fn tuple_of_a_single_alias_collapses_to_the_bound_name() {
    let source = "except (zipfile.BadZipfile,):";
    let tuple = TupleExpr {
        range: span_of(source, "(zipfile.BadZipfile,)"),
        elements: vec![element(1, alias(), attribute("zipfile", "BadZipfile"))],
    };
    let matched = alias_elements(&tuple);
    let left = remaining(&tuple, &matched);
    assert!(left.canonical_first);
    assert!(left.kept.is_empty());
    assert!(left.is_single());
    let diagnostic = tuple_diagnostic(&tuple, &matched, &imported(), &comments(&[]), source);
    let (edits, _) = parts(&diagnostic);
    assert_eq!(edits, vec![import_line(), (7, 28, "BadZipFile".to_string())]);
}

#[test]
fn duplicate_aliases_collapse_to_one_reference() {
    let source = "except (zipfile.BadZipfile, zipfile.BadZipfile):";
    let tuple = TupleExpr {
        range: span_of(source, "(zipfile.BadZipfile, zipfile.BadZipfile)"),
        elements: vec![
            element(1, alias(), attribute("zipfile", "BadZipfile")),
            element(2, alias(), attribute("zipfile", "BadZipfile")),
        ],
    };
    let matched = alias_elements(&tuple);
    assert_eq!(matched, ids(&[1, 2]));
    let diagnostic = tuple_diagnostic(&tuple, &matched, &imported(), &comments(&[]), source);
    let (edits, _) = parts(&diagnostic);
    assert_eq!(edits, vec![import_line(), (7, 47, "BadZipFile".to_string())]);
}

#[test]
fn rewritten_tuple_keeps_the_order_of_what_stays() {
    let source = "except (OSError, zipfile.BadZipfile, ValueError, z.BadZipfile, KeyError):";
    let tuple = TupleExpr {
        range: span_of(source, "(OSError, zipfile.BadZipfile, ValueError, z.BadZipfile, KeyError)"),
        elements: vec![
            element(1, builtin("OSError"), name("OSError")),
            element(2, alias(), attribute("zipfile", "BadZipfile")),
            element(3, builtin("ValueError"), name("ValueError")),
            element(4, alias(), attribute("z", "BadZipfile")),
            element(5, builtin("KeyError"), name("KeyError")),
        ],
    };
    let matched = alias_elements(&tuple);
    assert_eq!(matched, ids(&[2, 4]));
    assert!(!has_canonical(&tuple));
    let kept: Vec<usize> = retained_elements(&tuple, &matched).iter().map(|element| element.id.index).collect();
    assert_eq!(kept, vec![1, 3, 5]);
    let left = remaining(&tuple, &matched);
    assert!(left.canonical_first);
    assert_eq!(left.kept.len(), 3);
    assert!(!left.is_single());
    let diagnostic = tuple_diagnostic(&tuple, &matched, &imported(), &comments(&[]), source);
    let (edits, _) = parts(&diagnostic);
    assert_eq!(edits, vec![import_line(), (7, 72, "(BadZipFile, OSError, ValueError, KeyError)".to_string())]);
}

#[test]
fn rewritten_tuple_with_canonical_present_has_one_element_less() {
    let source = "except (OSError, zipfile.BadZipFile, zipfile.BadZipfile):";
    let tuple = TupleExpr {
        range: span_of(source, "(OSError, zipfile.BadZipFile, zipfile.BadZipfile)"),
        elements: vec![
            element(1, builtin("OSError"), name("OSError")),
            element(2, canonical(), attribute("zipfile", "BadZipFile")),
            element(3, alias(), attribute("zipfile", "BadZipfile")),
        ],
    };
    let matched = alias_elements(&tuple);
    assert!(has_canonical(&tuple));
    let left = remaining(&tuple, &matched);
    assert!(!left.canonical_first);
    assert_eq!(left.kept.len(), 2);
    let diagnostic = tuple_diagnostic(&tuple, &matched, &imported(), &comments(&[]), source);
    let (edits, _) = parts(&diagnostic);
    assert_eq!(edits, vec![import_line(), (7, 56, "(OSError, zipfile.BadZipFile)".to_string())]);
}

#[test]
fn elements_are_matched_by_node_not_by_text() {
    // Two elements that read the same: only the matched node leaves.
    let tuple = TupleExpr {
        range: Span::new(7, 40),
        elements: vec![element(8, builtin("OSError"), name("OSError")), element(9, builtin("OSError"), name("OSError"))],
    };
    let kept: Vec<usize> = retained_elements(&tuple, &ids(&[9])).iter().map(|element| element.id.index).collect();
    assert_eq!(kept, vec![8]);
    assert!(is_matched(&ids(&[9]), NodeId { index: 9 }));
    assert!(!is_matched(&ids(&[9]), NodeId { index: 8 }));
    assert!(!is_matched(&ids(&[]), NodeId { index: 8 }));
}

#[test]
fn printer_gets_the_new_reference_first() {
    let tuple = TupleExpr {
        range: Span::new(0, 30),
        elements: vec![
            element(1, alias(), attribute("zipfile", "BadZipfile")),
            element(2, builtin("ValueError"), name("ValueError")),
        ],
    };
    let matched = alias_elements(&tuple);
    let left = remaining(&tuple, &matched);
    let fresh = name("BadZipFile");
    let nodes = nodes_to_print(&left, fresh);
    assert_eq!(nodes.len(), 2);
    assert!(std::ptr::eq(nodes[0], fresh));
    assert!(std::ptr::eq(nodes[1], tuple.elements[1].node));
}

#[test]
fn failed_import_leaves_the_diagnostic_without_a_fix() {
    let source = "except (zipfile.BadZipfile, ValueError):";
    let target = Reference { range: Span::new(8, 26), identity: alias(), spelling: Some("zipfile.BadZipfile".to_string()) };
    let diagnostic = atom_diagnostic(&target, &None, &comments(&[(8, 26)]));
    assert_eq!(diagnostic.range, Span { start: 8, end: 26 });
    assert_eq!(diagnostic.kind.name.as_deref(), Some("zipfile.BadZipfile"));
    assert!(diagnostic.fix.is_none());

    let tuple = TupleExpr {
        range: span_of(source, "(zipfile.BadZipfile, ValueError)"),
        elements: vec![
            element(1, alias(), attribute("zipfile", "BadZipfile")),
            element(2, builtin("ValueError"), name("ValueError")),
        ],
    };
    let diagnostic = tuple_diagnostic(&tuple, &ids(&[1]), &None, &comments(&[]), source);
    assert_eq!(diagnostic.range, Span { start: 7, end: 39 });
    assert_eq!(diagnostic.kind.name, None);
    assert!(diagnostic.fix.is_none());
}

#[test]
fn comment_in_the_range_makes_the_fix_unsafe() {
    let target = Reference { range: Span::new(10, 40), identity: alias(), spelling: Some("zipfile.BadZipfile".to_string()) };
    let inside = atom_diagnostic(&target, &imported(), &comments(&[(2, 8), (20, 30), (50, 60)]));
    assert!(!parts(&inside).1);
    let outside = atom_diagnostic(&target, &imported(), &comments(&[(2, 8), (50, 60)]));
    assert!(parts(&outside).1);
    let none = atom_diagnostic(&target, &imported(), &comments(&[]));
    assert!(parts(&none).1);
}

#[test]
fn comment_in_the_tuple_makes_the_fix_unsafe() {
    let source = "except (\n    zipfile.BadZipfile,  # legacy spelling\n    ValueError,\n):  # handled below\n    pass\n";
    let tuple = TupleExpr {
        range: Span::new(7, source.find("):").expect("the tuple is closed") as u32 + 1),
        elements: vec![
            element(1, alias(), attribute("zipfile", "BadZipfile")),
            element(2, builtin("ValueError"), name("ValueError")),
        ],
    };
    let inner = span_of(source, "# legacy spelling");
    let outer = span_of(source, "# handled below");
    let with_comment =
        tuple_diagnostic(&tuple, &ids(&[1]), &imported(), &comments(&[(inner.start, inner.end), (outer.start, outer.end)]), source);
    let (edits, safe) = parts(&with_comment);
    assert!(!safe);
    assert_eq!(edits, vec![import_line(), (7, tuple.range.end, "(BadZipFile, ValueError)".to_string())]);
    let without = tuple_diagnostic(&tuple, &ids(&[1]), &imported(), &comments(&[(outer.start, outer.end)]), source);
    assert!(parts(&without).1);
}

#[test]
fn applicability_follows_the_comment_spans() {
    let range = Span::new(10, 20);
    assert_eq!(applicability(&comments(&[]), &range), Applicability::Safe);
    assert_eq!(applicability(&comments(&[(0, 5)]), &range), Applicability::Safe);
    assert_eq!(applicability(&comments(&[(25, 30)]), &range), Applicability::Safe);
    assert_eq!(applicability(&comments(&[(0, 5), (25, 30)]), &range), Applicability::Safe);
    assert_eq!(applicability(&comments(&[(12, 15)]), &range), Applicability::Unsafe);
    assert_eq!(applicability(&comments(&[(5, 12)]), &range), Applicability::Unsafe);
    assert_eq!(applicability(&comments(&[(18, 25)]), &range), Applicability::Unsafe);
    assert_eq!(applicability(&comments(&[(0, 30)]), &range), Applicability::Unsafe);
    assert_eq!(applicability(&comments(&[(0, 3), (4, 9), (15, 16), (40, 50)]), &range), Applicability::Unsafe);
    // A comment that ends where the range starts, or starts where it ends, meets it.
    assert_eq!(applicability(&comments(&[(5, 10)]), &range), Applicability::Unsafe);
    assert_eq!(applicability(&comments(&[(20, 25)]), &range), Applicability::Unsafe);
    assert_eq!(applicability(&comments(&[(5, 9)]), &range), Applicability::Safe);
    assert_eq!(applicability(&comments(&[(21, 25)]), &range), Applicability::Safe);
}

#[test]
fn edits_are_held_by_start_then_end() {
    let target = Reference { range: Span::new(7, 25), identity: alias(), spelling: None };
    let later = Some(Binding {
        name: "BadZipFile".to_string(),
        edit: edit(Span::new(30, 40), "BadZipFile".to_string()),
    });
    let (edits, _) = parts(&atom_diagnostic(&target, &later, &comments(&[])));
    assert_eq!(edits, vec![(7, 25, "BadZipFile".to_string()), (30, 40, "BadZipFile".to_string())]);

    let same_start_shorter = Some(Binding {
        name: "BadZipFile".to_string(),
        edit: edit(Span::new(7, 7), "import zipfile\n".to_string()),
    });
    let (edits, _) = parts(&atom_diagnostic(&target, &same_start_shorter, &comments(&[])));
    assert_eq!(edits, vec![(7, 7, "import zipfile\n".to_string()), (7, 25, "BadZipFile".to_string())]);

    let same_range = Some(Binding {
        name: "BadZipFile".to_string(),
        edit: edit(Span::new(7, 25), "other".to_string()),
    });
    let (edits, _) = parts(&atom_diagnostic(&target, &same_range, &comments(&[])));
    assert_eq!(edits, vec![(7, 25, "BadZipFile".to_string()), (7, 25, "other".to_string())]);
}

#[test]
fn binding_name_is_written_as_the_importer_gave_it() {
    // import zipfile as z: the canonical symbol is reached through the module.
    let source = "import zipfile as z\ntry:\n    pass\nexcept z.BadZipfile:\n    pass\n";
    let target = Reference {
        range: span_of(source, "z.BadZipfile"),
        identity: alias(),
        spelling: Some("z.BadZipfile".to_string()),
    };
    let bound = Some(Binding {
        name: "z.BadZipFile".to_string(),
        edit: edit(Span::new(0, 19), "import zipfile as z".to_string()),
    });
    let (edits, safe) = parts(&atom_diagnostic(&target, &bound, &comments(&[])));
    assert_eq!(edits, vec![(0, 19, "import zipfile as z".to_string()), (41, 53, "z.BadZipFile".to_string())]);
    assert!(safe);
    assert_eq!(applied(source, &edits), "import zipfile as z\ntry:\n    pass\nexcept z.BadZipFile:\n    pass\n");
}

#[test]
fn binding_needs_a_name_and_takes_any_edit() {
    let insertion = Edit::insertion(IMPORT_LINE.to_string(), TextSize::new(0));
    let binding = Binding::new("BadZipFile".to_string(), insertion.clone()).expect("a binding with a name");
    assert_eq!(binding.name, "BadZipFile");
    assert_eq!(binding.edit, insertion);
    let nothing = Edit::range_deletion(TextRange::empty(TextSize::new(0)));
    assert_eq!(Binding::new("BadZipFile".to_string(), nothing.clone()).expect("a binding with a name").edit, nothing);
    let deletion = Edit::deletion(TextSize::new(4), TextSize::new(9));
    assert_eq!(Binding::new("z.BadZipFile".to_string(), deletion.clone()).expect("a binding with a name").edit, deletion);
    assert!(Binding::new(String::new(), insertion).is_none());
}

#[test]
fn import_edit_is_handed_on_as_it_came() {
    let source = "except (zipfile.BadZipfile, ValueError):";
    let target = Reference { range: Span::new(8, 26), identity: alias(), spelling: Some("zipfile.BadZipfile".to_string()) };
    let tuple = TupleExpr {
        range: span_of(source, "(zipfile.BadZipfile, ValueError)"),
        elements: vec![
            element(1, alias(), attribute("zipfile", "BadZipfile")),
            element(2, builtin("ValueError"), name("ValueError")),
        ],
    };
    let answers = vec![
        // Nothing to do: the symbol is bound already and the importer changes nothing.
        Edit::range_deletion(TextRange::empty(TextSize::new(0))),
        // An edit that only deletes.
        Edit::deletion(TextSize::new(0), TextSize::new(5)),
        // An insertion and a replacement.
        Edit::insertion(IMPORT_LINE.to_string(), TextSize::new(0)),
        Edit::replacement("BadZipFile".to_string(), TextSize::new(2), TextSize::new(4)),
        // An edit that comes after the site.
        Edit::deletion(TextSize::new(50), TextSize::new(60)),
    ];
    for answer in answers {
        let import = Binding::new("BadZipFile".to_string(), answer.clone());
        let after = answer.start().to_u32() >= 50;

        let atom = atom_diagnostic(&target, &import, &comments(&[]));
        let fix = atom.fix.expect("a fix was expected");
        let replacement = Edit::range_replacement("BadZipFile".to_string(), TextRange::new(8.into(), 26.into()));
        let expected = if after { vec![replacement, answer.clone()] } else { vec![answer.clone(), replacement] };
        assert_eq!(fix.edits(), expected.as_slice());
        assert_eq!(fix.applicability(), ruff_diagnostics::Applicability::Safe);

        let whole = tuple_diagnostic(&tuple, &ids(&[1]), &import, &comments(&[]), source);
        let fix = whole.fix.expect("a fix was expected");
        let replacement =
            Edit::range_replacement("(BadZipFile, ValueError)".to_string(), TextRange::new(7.into(), 39.into()));
        let expected = if after { vec![replacement, answer.clone()] } else { vec![answer.clone(), replacement] };
        assert_eq!(fix.edits(), expected.as_slice());
    }
}

#[test]
fn surroundings_are_the_bytes_next_to_the_range() {
    let source = "except(a, b):";
    assert_eq!(surroundings(source, &Span::new(6, 12)), Surroundings { before: Some(b't'), after: Some(b':') });
    assert_eq!(surroundings(source, &Span::new(0, 6)), Surroundings { before: None, after: Some(b'(') });
    assert_eq!(surroundings(source, &Span::new(7, 13)), Surroundings { before: Some(b'('), after: None });
    assert_eq!(surroundings(source, &Span::new(0, 13)), Surroundings { before: None, after: None });
    assert_eq!(surroundings(source, &Span::new(13, 13)), Surroundings { before: Some(b':'), after: None });
    assert_eq!(surroundings(source, &Span::new(14, 20)), Surroundings { before: None, after: None });
    assert_eq!(surroundings("", &Span::new(0, 0)), Surroundings { before: None, after: None });
    // The last byte of a character outside ASCII is no letter.
    let accented = "é(a)é";
    let around = surroundings(accented, &Span::new(2, 5));
    assert_eq!(around, Surroundings { before: Some(0xa9), after: Some(0xc3) });
    assert_eq!(pad(&"x".to_string(), &around), "x");
}

#[test]
fn padding_keeps_the_text_off_a_letter() {
    let content = "BadZipFile".to_string();
    assert_eq!(pad(&content, &Surroundings { before: Some(b' '), after: Some(b':') }), "BadZipFile");
    assert_eq!(pad(&content, &Surroundings { before: Some(b't'), after: Some(b':') }), " BadZipFile");
    assert_eq!(pad(&content, &Surroundings { before: Some(b' '), after: Some(b'a') }), "BadZipFile ");
    assert_eq!(pad(&content, &Surroundings { before: Some(b'T'), after: Some(b'Z') }), " BadZipFile ");
    assert_eq!(pad(&content, &Surroundings { before: None, after: None }), "BadZipFile");
    assert_eq!(pad(&content, &Surroundings { before: Some(b'1'), after: Some(b'_') }), "BadZipFile");
    assert_eq!(pad(&content, &Surroundings { before: Some(b'@'), after: Some(b'[') }), "BadZipFile");
    assert_eq!(pad(&content, &Surroundings { before: Some(b'`'), after: Some(b'{') }), "BadZipFile");
    assert_eq!(pad(&content, &Surroundings { before: Some(b'a'), after: Some(b'z') }), " BadZipFile ");
    assert_eq!(pad(&content, &Surroundings { before: Some(b'A'), after: Some(0xc3) }), " BadZipFile");
}

#[test]
fn tuple_right_after_the_keyword_is_set_off_by_a_space() {
    let source = "except(zipfile.BadZipfile, ValueError):";
    let tuple = TupleExpr {
        range: span_of(source, "(zipfile.BadZipfile, ValueError)"),
        elements: vec![
            element(1, alias(), attribute("zipfile", "BadZipfile")),
            element(2, builtin("ValueError"), name("ValueError")),
        ],
    };
    let (edits, _) = parts(&tuple_diagnostic(&tuple, &ids(&[1]), &imported(), &comments(&[]), source));
    assert_eq!(edits, vec![import_line(), (6, 38, " (BadZipFile, ValueError)".to_string())]);

    let source = "except(zipfile.BadZipfile,):";
    let single = TupleExpr {
        range: span_of(source, "(zipfile.BadZipfile,)"),
        elements: vec![element(1, alias(), attribute("zipfile", "BadZipfile"))],
    };
    let (edits, _) = parts(&tuple_diagnostic(&single, &ids(&[1]), &imported(), &comments(&[]), source));
    assert_eq!(edits, vec![import_line(), (6, 27, " BadZipFile".to_string())]);
    assert_eq!(applied(source, &edits), "from zipfile import BadZipFile\nexcept BadZipFile:");
}

#[test]
fn tuple_content_is_the_name_or_the_parenthesised_elements() {
    let binding = "BadZipFile".to_string();
    assert_eq!(tuple_content(true, &binding, &"ignored".to_string()), "BadZipFile");
    assert_eq!(tuple_content(false, &binding, &"BadZipFile, ValueError".to_string()), "(BadZipFile, ValueError)");
    assert_eq!(tuple_content(false, &binding, &String::new()), "()");
}

#[test]
fn tuple_fix_is_built_from_the_printed_elements() {
    let binding = Binding {
        name: "BadZipFile".to_string(),
        edit: edit(Span::new(0, 0), IMPORT_LINE.to_string()),
    };
    let around = Surroundings { before: Some(b't'), after: Some(b'x') };
    let fix = tuple_fix(false, &binding, &"a, b".to_string(), &Span::new(6, 12), &around, Applicability::Unsafe);
    assert_eq!(edits_of(&fix), vec![import_line(), (6, 12, " (a, b) ".to_string())]);
    assert_eq!(fix.applicability(), ruff_diagnostics::Applicability::Unsafe);
    let single = tuple_fix(true, &binding, &"a, b".to_string(), &Span::new(6, 12), &around, Applicability::Safe);
    assert_eq!(edits_of(&single), vec![import_line(), (6, 12, " BadZipFile ".to_string())]);
    assert_eq!(single.applicability(), ruff_diagnostics::Applicability::Safe);
}

#[test]
fn fixed_output_gives_no_site() {
    // except (zipfile.BadZipfile, ValueError): has become except (BadZipFile, ValueError):
    let fixed_tuple = TupleExpr {
        range: Span::new(7, 31),
        elements: vec![element(1, canonical(), name("BadZipFile")), element(2, builtin("ValueError"), name("ValueError"))],
    };
    // except zipfile.BadZipfile: has become except BadZipFile:
    let fixed_atom = Reference { range: Span::new(7, 17), identity: canonical(), spelling: Some("BadZipFile".to_string()) };
    let handlers = vec![
        Handler { type_: Some(Expression::Tuple(fixed_tuple)) },
        Handler { type_: Some(Expression::Name(fixed_atom)) },
    ];
    assert!(badzipfile_alias_handlers(&handlers).is_empty());
}
