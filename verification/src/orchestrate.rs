//! The orchestrator's decisions: what is done with one transformed file,
//! and which stages a whole-project run performs.  The surrounding tool
//! carries these decisions out; everything it may write to disk is decided
//! here, so that a dry run provably writes nothing.

use vstd::prelude::*;

verus! {

/// What to do with one file after the engine ran on it.
#[derive(Debug, PartialEq, Eq)]
pub struct FileActionPlan {
    /// Report the file as changed (when verbose).
    pub report_changed: bool,
    /// Render and show a unified diff of the change.
    pub render_diff: bool,
    /// Persist the transformed text under the output root.
    pub write: bool,
}

/// Decides what is done with one transformed file.  An unchanged file is
/// reported unmodified and nothing is written or rendered, whatever the
/// run mode; and a dry run never writes.
pub fn plan_file_actions(changed: bool, dry_run: bool, diff_context: Option<usize>) -> (p:
    FileActionPlan)
    ensures
        p.report_changed == changed,
        p.render_diff == (changed && diff_context is Some),
        p.write == (changed && !dry_run),
        dry_run ==> !p.write,
        !changed ==> !p.render_diff && !p.write,
{
    FileActionPlan {
        report_changed: changed,
        render_diff: changed && diff_context.is_some(),
        write: changed && !dry_run,
    }
}

/// Which stages a whole-project run performs.
#[derive(Debug, PartialEq, Eq)]
pub struct ProjectPlan {
    /// Copy the project tree to the output root first.
    pub copy_tree: bool,
    /// Patch the manifests under the output root afterwards.
    pub patch_manifests: bool,
    /// Run the external formatter over the output afterwards.
    pub format_after: bool,
}

/// Decides the stages of a project run: a dry run only scans, so it copies
/// nothing, patches nothing and formats nothing.
pub fn plan_project(dry_run: bool, format: bool) -> (p: ProjectPlan)
    ensures
        p.copy_tree == !dry_run,
        p.patch_manifests == !dry_run,
        p.format_after == (!dry_run && format),
        dry_run ==> !p.copy_tree && !p.patch_manifests && !p.format_after,
{
    ProjectPlan {
        copy_tree: !dry_run,
        patch_manifests: !dry_run,
        format_after: !dry_run && format,
    }
}

} // verus!
