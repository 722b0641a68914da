//! The change reporter: deciding whether a file changed, and rendering a
//! unified diff of the change.
//!
//! Diff rendering is done by an outside differ; the text it produces is a
//! function of the two texts, the context radius and the two labels alone,
//! named [`unified_diff_of`].

use vstd::prelude::*;
use vstd::string::*;
use crate::strutil::str_eq;

verus! {

/// The line-based unified diff of two texts, with the given context radius
/// and header labels.
pub uninterp spec fn unified_diff_of(
    before: Seq<char>,
    after: Seq<char>,
    ctx: nat,
    old_label: Seq<char>,
    new_label: Seq<char>,
) -> Seq<char>;

/// Relies on `similar::TextDiff`: the unified diff is computed from the two
/// texts, the context radius and the header labels, and nothing else.
#[verifier::external_body]
fn unified_diff_exec(before: &str, after: &str, ctx: usize, old_label: &str, new_label: &str) -> (r:
    String)
    ensures
        r@ == unified_diff_of(before@, after@, ctx as nat, old_label@, new_label@),
{
    let diff = similar::TextDiff::from_lines(before, after);
    let mut unified = diff.unified_diff();
    unified.context_radius(ctx).header(old_label, new_label).to_string()
}

/// Whether the transformation changed the text: strict inequality of the
/// original and the transformed text.
pub fn detect_change(original: &str, transformed: &str) -> (r: bool)
    ensures
        r == (original@ != transformed@),
{
    !str_eq(original, transformed)
}

/// Renders the unified diff of a change, labelled with the file's logical
/// path and before/after markers.
pub fn render_diff(original: &str, transformed: &str, context_lines: usize, logical_path: &str) -> (
    r: String)
    ensures
        r@ == unified_diff_of(
            original@,
            transformed@,
            context_lines as nat,
            logical_path@ + " (before)"@,
            logical_path@ + " (after)"@,
        ),
{
    let old_label = logical_path.to_owned().concat(" (before)");
    let new_label = logical_path.to_owned().concat(" (after)");
    unified_diff_exec(original, transformed, context_lines, old_label.as_str(), new_label.as_str())
}

} // verus!
