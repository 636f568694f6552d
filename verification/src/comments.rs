//! Comment spans of the source file, and what they mean for a fix.
//!
//! A fix whose target range meets a comment could delete text that a person
//! wrote, so it is only applied when asked for and never unattended.

use vstd::prelude::*;
use ruff_python_trivia::CommentRanges;
use ruff_text_size::{TextRange, TextSize};
use crate::span::Span;

verus! {

/// `ruff_text_size::TextRange`, declared because `CommentRanges` hands out a
/// slice of it. The library never looks inside one.
#[verifier::external_type_specification]
#[verifier::external_body]
pub struct ExTextRange(TextRange);

/// `ruff_python_trivia::CommentRanges`, the host's collection of comment
/// ranges. What it holds is spoken of through `comment_spans`.
#[verifier::external_type_specification]
#[verifier::external_body]
pub struct ExCommentRanges(CommentRanges);

/// The spans that a `CommentRanges` stores, in the order in which it stores
/// them, each as its start and end offset.
pub uninterp spec fn comment_spans(comments: CommentRanges) -> Seq<(u32, u32)>;

/// Whether a fix may be applied unattended.
#[derive(Clone, Copy, Debug, PartialEq, Eq, Structural)]
pub enum Applicability {
    /// The fix keeps every comment and may be applied unattended.
    Safe,
    /// The fix would touch a comment and must be asked for.
    Unsafe,
}

/// Each span ends no later than the next one starts: the spans are sorted and
/// no two of them overlap.
pub open spec fn spans_in_order(spans: Seq<(u32, u32)>) -> bool {
    forall|i: int, j: int| 0 <= i < j < spans.len() ==> (#[trigger] spans[i]).1 <= (#[trigger] spans[j]).0
}

/// A span meets a range when the later of the two starts is not past the
/// earlier of the two ends. Two ranges that only share an end point meet.
pub open spec fn meets(span: (u32, u32), range: Span) -> bool {
    let start = if span.0 >= range.start { span.0 } else { range.start };
    let end = if span.1 <= range.end { span.1 } else { range.end };
    start <= end
}

/// Some comment span meets the range.
pub open spec fn meets_any(spans: Seq<(u32, u32)>, range: Span) -> bool {
    exists|i: int| 0 <= i < spans.len() && meets(#[trigger] spans[i], range)
}

/// What a search of ordered spans for one that meets `range` answers.
pub open spec fn search_answers(spans: Seq<(u32, u32)>, range: Span, hit: bool) -> bool {
    spans_in_order(spans) ==> hit == meets_any(spans, range)
}

/// The applicability of a fix over a range that does, or does not, meet a
/// comment.
pub open spec fn applicability_when(meets_comment: bool) -> Applicability {
    if meets_comment {
        Applicability::Unsafe
    } else {
        Applicability::Safe
    }
}

/// Calls `CommentRanges::intersects` on `range`.
///
/// That method runs a binary search over the stored spans, answering `Equal`
/// for a span whose `TextRange::intersect` with the target is `Some`, `Less`
/// for one that ends before the target starts and `Greater` otherwise. On
/// spans that are sorted and do not overlap this order is consistent, so the
/// search finds a span that meets the target iff there is one. Nothing is
/// claimed for spans that are not in order. `TextRange::new` panics when the
/// end lies before the start, which the precondition rules out.
#[verifier::external_body]
fn comments_intersect(comments: &CommentRanges, range: &Span) -> (hit: bool)
    requires
        range.wf(),
    ensures
        search_answers(comment_spans(*comments), *range, hit),
{
    comments.intersects(TextRange::new(TextSize::new(range.start), TextSize::new(range.end)))
}

/// Classifies a fix over `range`: unsafe iff a comment meets the range.
pub fn applicability(comments: &CommentRanges, range: &Span) -> (found: Applicability)
    requires
        range.wf(),
    ensures
        spans_in_order(comment_spans(*comments)) ==> found == applicability_when(
            meets_any(comment_spans(*comments), *range),
        ),
{
    if comments_intersect(comments, range) {
        Applicability::Unsafe
    } else {
        Applicability::Safe
    }
}

} // verus!
