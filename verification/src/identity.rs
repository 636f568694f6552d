//! Fully qualified identities and the test for the deprecated alias.

use vstd::prelude::*;

verus! {

/// A fully qualified reference as the sequence of its name segments.
pub type Identity = Seq<Seq<char>>;

/// The identity of the deprecated alias, `zipfile.BadZipfile`.
pub open spec fn deprecated_identity() -> Identity {
    seq!["zipfile"@, "BadZipfile"@]
}

/// The identity of the canonical symbol, `zipfile.BadZipFile`.
pub open spec fn canonical_identity() -> Identity {
    seq!["zipfile"@, "BadZipFile"@]
}

/// What the resolver said of a node, as a mathematical value: `None` where the
/// node could not be resolved.
pub open spec fn resolved(identity: Option<Vec<String>>) -> Option<Identity> {
    match identity {
        Some(segments) => Some(segments.deep_view()),
        None => None,
    }
}

/// A resolved identity names the deprecated alias when it is exactly the
/// alias's segments. An unresolved node never does.
pub open spec fn names_alias(identity: Option<Identity>) -> bool {
    identity == Some(deprecated_identity())
}

/// A resolved identity names the canonical symbol when it is exactly the
/// canonical segments.
pub open spec fn names_canonical(identity: Option<Identity>) -> bool {
    identity == Some(canonical_identity())
}

/// Whether `segments` spells exactly `first.second`.
fn is_pair(segments: &Vec<String>, first: &str, second: &str) -> (same: bool)
    ensures
        same == (segments.deep_view() == seq![first@, second@]),
{
    if segments.len() != 2 {
        assert(segments.deep_view().len() == segments.len());
        return false;
    }
    let head = String::from_str(first);
    let tail = String::from_str(second);
    let same = segments[0] == head && segments[1] == tail;
    assert(same ==> segments.deep_view() =~= seq![first@, second@]);
    same
}

/// Returns `true` iff the resolved identity is the deprecated alias.
pub fn matches_alias(identity: &Option<Vec<String>>) -> (alias: bool)
    ensures
        alias == names_alias(resolved(*identity)),
{
    match identity {
        Some(segments) => is_pair(segments, "zipfile", "BadZipfile"),
        None => false,
    }
}

/// Returns `true` iff the resolved identity is the canonical symbol.
pub fn matches_canonical(identity: &Option<Vec<String>>) -> (canonical: bool)
    ensures
        canonical == names_canonical(resolved(*identity)),
{
    match identity {
        Some(segments) => is_pair(segments, "zipfile", "BadZipFile"),
        None => false,
    }
}

/// The alias and the canonical symbol differ: a node that resolves to the
/// canonical symbol is never taken for the alias, nor the other way round.
pub proof fn lemma_alias_is_not_canonical()
    ensures
        deprecated_identity() != canonical_identity(),
        !names_alias(Some(canonical_identity())),
        !names_canonical(Some(deprecated_identity())),
{
    reveal_strlit("BadZipfile");
    reveal_strlit("BadZipFile");
    assert("BadZipfile"@[6] != "BadZipFile"@[6]);
}

} // verus!
