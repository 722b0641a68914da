//! Manifest patching: a concrete (non-aggregate) project manifest gains the
//! two version-pinned companion dependency entries, only if absent, and a
//! second patch provably changes nothing.
//!
//! The manifest is edited by an outside format-preserving editor.  A parsed
//! document is opaque; what the logic reads of it is named: the text it
//! renders back to, whether it has a package section, which names and
//! version strings its dependency table holds, and whether that section is
//! a table.  The same things, as functions of the manifest text, tie a
//! render to the following parse.  The editor does not promise to return
//! arbitrary input letter for letter (it normalises, for one, a missing
//! final newline), but its own rendered output parses and renders back
//! unchanged; that is what the idempotence law rests on.

use vstd::prelude::*;
use vstd::string::*;
use crate::strutil::{contains_sub, str_contains};

verus! {

#[verifier::external_type_specification]
#[verifier::external_body]
pub struct ExDocumentMut(toml_edit::DocumentMut);

/// The text the document renders back to.
pub uninterp spec fn doc_text(d: toml_edit::DocumentMut) -> Seq<char>;

/// Whether the document's root table has a `package` key.
pub uninterp spec fn doc_has_package(d: toml_edit::DocumentMut) -> bool;

/// Whether `name` is among the document's dependencies.
pub uninterp spec fn doc_dep(d: toml_edit::DocumentMut, name: Seq<char>) -> bool;

/// Whether the document's `dependencies` key is absent or a table.
pub uninterp spec fn doc_deps_ok(d: toml_edit::DocumentMut) -> bool;

/// Whether `name` is among the document's dependencies with the version
/// string `version`.
pub uninterp spec fn doc_dep_at(d: toml_edit::DocumentMut, name: Seq<char>, version: Seq<char>) -> bool;

/// Whether the text parses as a manifest.
pub uninterp spec fn toml_ok(t: Seq<char>) -> bool;

/// Whether the text's root table has a `package` key.
pub uninterp spec fn toml_has_package(t: Seq<char>) -> bool;

/// Whether `name` is among the text's dependencies.
pub uninterp spec fn toml_dep(t: Seq<char>, name: Seq<char>) -> bool;

/// Whether the text's `dependencies` key is absent or a table.
pub uninterp spec fn toml_deps_ok(t: Seq<char>) -> bool;

/// Whether `name` is among the text's dependencies with the version string
/// `version`.
pub uninterp spec fn toml_dep_at(t: Seq<char>, name: Seq<char>, version: Seq<char>) -> bool;

/// Whether the text is the editor's own rendering of some document.  Only
/// such texts round-trip letter for letter through parse and render.
pub uninterp spec fn toml_rendered(t: Seq<char>) -> bool;

/// Parses a manifest.
///
/// Relies on `toml_edit::DocumentMut`'s parser: parsing is a function of
/// the text; the parsed document's package section, dependency names and
/// versions, and dependency-table shape are those of the text; and a text
/// that is itself the editor's rendering parses back to a document that
/// renders to it letter for letter.  Arbitrary input is not promised back
/// letter for letter: the editor normalises, for one, a missing final
/// newline.
#[verifier::external_body]
fn parse_manifest(text: &str) -> (r: Option<toml_edit::DocumentMut>)
    ensures
        r is Some <==> toml_ok(text@),
        r matches Some(d) ==> (toml_rendered(text@) ==> doc_text(d) == text@),
        r matches Some(d) ==> doc_has_package(d) == toml_has_package(text@) && doc_deps_ok(d)
            == toml_deps_ok(text@) && (forall|n: Seq<char>| doc_dep(d, n) == toml_dep(text@, n))
            && (forall|n: Seq<char>, v: Seq<char>|
            doc_dep_at(d, n, v) == toml_dep_at(text@, n, v)),
{
    match text.parse::<toml_edit::DocumentMut>() {
        Ok(d) => Some(d),
        Err(_) => None,
    }
}

/// Relies on `toml_edit::Table::contains_key` on the document's root table.
#[verifier::external_body]
fn doc_contains_package(d: &toml_edit::DocumentMut) -> (r: bool)
    ensures
        r == doc_has_package(*d),
{
    d.contains_key("package")
}

/// Relies on `toml_edit::Table::contains_key` on the `dependencies` table;
/// an absent or non-table `dependencies` key holds no name.
#[verifier::external_body]
fn doc_dep_present(d: &toml_edit::DocumentMut, name: &str) -> (r: bool)
    ensures
        r == doc_dep(*d, name@),
{
    match d.get("dependencies") {
        Some(item) => match item.as_table() {
            Some(t) => t.contains_key(name),
            None => false,
        },
        None => false,
    }
}

/// Relies on `toml_edit::Item::is_table`: whether the `dependencies` key,
/// if present, is a table that entries can be added to.
#[verifier::external_body]
fn doc_deps_table_ok(d: &toml_edit::DocumentMut) -> (r: bool)
    ensures
        r == doc_deps_ok(*d),
{
    match d.get("dependencies") {
        Some(item) => item.is_table(),
        None => true,
    }
}

/// Adds one dependency entry to the document, creating the `dependencies`
/// table when absent.
///
/// Relies on `toml_edit::Table::insert` with a `toml_edit::value` string:
/// afterwards the dependencies are the old ones plus `name` pinned to
/// `version`, and every other entry and the package section are untouched.
/// What the document renders to afterwards is unconstrained: an insertion
/// may reformat the entry.
#[verifier::external_body]
fn doc_insert_dep(d: &mut toml_edit::DocumentMut, name: &str, version: &str)
    requires
        doc_deps_ok(*old(d)),
    ensures
        doc_has_package(*final(d)) == doc_has_package(*old(d)),
        doc_deps_ok(*final(d)),
        forall|n: Seq<char>| doc_dep(*final(d), n) == (doc_dep(*old(d), n) || n == name@),
        doc_dep_at(*final(d), name@, version@),
        forall|n: Seq<char>, v: Seq<char>|
            n != name@ ==> doc_dep_at(*final(d), n, v) == doc_dep_at(*old(d), n, v),
{
    if d.get("dependencies").is_none() {
        d["dependencies"] = toml_edit::Item::Table(toml_edit::Table::new());
    }
    if let Some(t) = d["dependencies"].as_table_mut() {
        t.insert(name, toml_edit::value(version));
    }
}

/// Renders the document back to text.
///
/// Relies on `toml_edit::DocumentMut`'s `Display`: the rendering is a
/// function of the document, is valid TOML, is the editor's own output,
/// and parses back to the same package section, dependency names and
/// versions, and dependency-table shape.
#[verifier::external_body]
fn doc_render(d: &toml_edit::DocumentMut) -> (r: String)
    ensures
        r@ == doc_text(*d),
        toml_ok(r@),
        toml_rendered(r@),
        toml_has_package(r@) == doc_has_package(*d),
        toml_deps_ok(r@) == doc_deps_ok(*d),
        forall|n: Seq<char>| toml_dep(r@, n) == doc_dep(*d, n),
        forall|n: Seq<char>, v: Seq<char>| toml_dep_at(r@, n, v) == doc_dep_at(*d, n, v),
{
    d.to_string()
}

/// The companion runtime library's dependency entry name.
pub open spec fn runtime_dep_name() -> Seq<char> {
    "rust_code_obfuscator"@
}

/// The protection primitive's dependency entry name.
pub open spec fn primitive_dep_name() -> Seq<char> {
    "cryptify"@
}

/// The version the runtime library entry is pinned to.
pub open spec fn runtime_dep_version() -> Seq<char> {
    "0.2.6"@
}

/// The version the protection primitive entry is pinned to.
pub open spec fn primitive_dep_version() -> Seq<char> {
    "3.1.1"@
}

/// Why a manifest could not be patched.
#[derive(Debug, PartialEq, Eq)]
pub enum ManifestPatchError {
    /// The text is not a well-formed manifest.
    Parse,
    /// The manifest has a `dependencies` key that is not a table.
    DependenciesNotATable,
}

/// What patching a concrete manifest leaves behind: an aggregate manifest
/// (no package section) is returned letter for letter; a concrete one
/// parses, keeps its package section and its dependency-table shape, has
/// exactly the old dependencies plus the two companion entries — each
/// added with its pinned version when it was absent, every other entry's
/// version kept — and, when the text was already the editor's own
/// rendering with both entries present, is returned letter for letter.
pub open spec fn patched_rel(t: Seq<char>, out: Seq<char>) -> bool {
    &&& (!toml_has_package(t) ==> out == t)
    &&& (toml_has_package(t) ==> {
        &&& toml_ok(out)
        &&& toml_rendered(out)
        &&& toml_has_package(out)
        &&& toml_deps_ok(out)
        &&& forall|n: Seq<char>|
            toml_dep(out, n) == (toml_dep(t, n) || n == runtime_dep_name() || n
                == primitive_dep_name())
        &&& (!toml_dep(t, runtime_dep_name()) ==> toml_dep_at(
            out,
            runtime_dep_name(),
            runtime_dep_version(),
        ))
        &&& (!toml_dep(t, primitive_dep_name()) ==> toml_dep_at(
            out,
            primitive_dep_name(),
            primitive_dep_version(),
        ))
        &&& forall|n: Seq<char>, v: Seq<char>|
            (n != runtime_dep_name() && n != primitive_dep_name()) ==> toml_dep_at(out, n, v)
                == toml_dep_at(t, n, v)
        &&& (toml_dep(t, runtime_dep_name()) ==> forall|v: Seq<char>|
            toml_dep_at(out, runtime_dep_name(), v) == toml_dep_at(t, runtime_dep_name(), v))
        &&& (toml_dep(t, primitive_dep_name()) ==> forall|v: Seq<char>|
            toml_dep_at(out, primitive_dep_name(), v) == toml_dep_at(
                t,
                primitive_dep_name(),
                v,
            ))
        &&& (toml_rendered(t) && toml_dep(t, runtime_dep_name()) && toml_dep(
            t,
            primitive_dep_name(),
        ) ==> out == t)
    })
}

/// Patches one manifest: adds the two version-pinned companion dependency
/// entries to a concrete manifest when they are absent, and leaves an
/// aggregate (virtual) manifest untouched.
pub fn patch_manifest_text(content: &str) -> (r: Result<String, ManifestPatchError>)
    ensures
        r is Ok <==> (toml_ok(content@) && (toml_has_package(content@) ==> toml_deps_ok(
            content@,
        ))),
        !toml_ok(content@) ==> r == Err::<String, ManifestPatchError>(ManifestPatchError::Parse),
        (toml_ok(content@) && toml_has_package(content@) && !toml_deps_ok(content@)) ==> r == Err::<
            String,
            ManifestPatchError,
        >(ManifestPatchError::DependenciesNotATable),
        r matches Ok(out) ==> patched_rel(content@, out@),
{
    let d = match parse_manifest(content) {
        None => {
            return Err(ManifestPatchError::Parse);
        },
        Some(d) => d,
    };
    if !doc_contains_package(&d) {
        return Ok(content.to_owned());
    }
    if !doc_deps_table_ok(&d) {
        return Err(ManifestPatchError::DependenciesNotATable);
    }
    let mut d = d;
    let ghost d0 = d;
    let has_runtime = doc_dep_present(&d, "rust_code_obfuscator");
    if !has_runtime {
        doc_insert_dep(&mut d, "rust_code_obfuscator", "0.2.6");
    }
    let ghost d1 = d;
    let has_primitive = doc_dep_present(&d, "cryptify");
    if !has_primitive {
        doc_insert_dep(&mut d, "cryptify", "3.1.1");
    }
    let ghost d2 = d;
    let out = doc_render(&d);
    proof {
        reveal_strlit("rust_code_obfuscator");
        reveal_strlit("cryptify");
        assert(runtime_dep_name().len() != primitive_dep_name().len());
        assert(runtime_dep_name() != primitive_dep_name());
        assert forall|n: Seq<char>|
            #[trigger] toml_dep(out@, n) == (toml_dep(content@, n) || n == runtime_dep_name() || n
                == primitive_dep_name()) by {
            assert(toml_dep(out@, n) == doc_dep(d2, n));
            assert(doc_dep(d0, n) == toml_dep(content@, n));
            if has_runtime {
                assert(d1 == d0);
                assert(toml_dep(content@, runtime_dep_name()));
            } else {
                assert(doc_dep(d1, n) == (doc_dep(d0, n) || n == runtime_dep_name()));
            }
            if has_primitive {
                assert(d2 == d1);
                assert(doc_dep(d1, primitive_dep_name()));
            } else {
                assert(doc_dep(d2, n) == (doc_dep(d1, n) || n == primitive_dep_name()));
            }
        }
        assert forall|n: Seq<char>, v: Seq<char>|
            (n != runtime_dep_name() && n != primitive_dep_name()) implies #[trigger] toml_dep_at(
                out@,
                n,
                v,
            ) == toml_dep_at(content@, n, v) by {
            assert(toml_dep_at(out@, n, v) == doc_dep_at(d2, n, v));
            assert(doc_dep_at(d0, n, v) == toml_dep_at(content@, n, v));
            if n != runtime_dep_name() && n != primitive_dep_name() {
                assert(doc_dep_at(d1, n, v) == doc_dep_at(d0, n, v));
                assert(doc_dep_at(d2, n, v) == doc_dep_at(d1, n, v));
            }
        }
        if !has_runtime {
            assert(doc_dep_at(d1, runtime_dep_name(), runtime_dep_version()));
            assert(doc_dep_at(d2, runtime_dep_name(), runtime_dep_version()));
        } else {
            assert(d1 == d0);
            assert forall|v: Seq<char>|
                #[trigger] toml_dep_at(out@, runtime_dep_name(), v) == toml_dep_at(
                    content@,
                    runtime_dep_name(),
                    v,
                ) by {
                assert(doc_dep_at(d2, runtime_dep_name(), v) == doc_dep_at(
                    d1,
                    runtime_dep_name(),
                    v,
                ));
            }
        }
        if !has_primitive {
            assert(doc_dep_at(d2, primitive_dep_name(), primitive_dep_version()));
        } else {
            assert(d2 == d1);
            assert forall|v: Seq<char>|
                #[trigger] toml_dep_at(out@, primitive_dep_name(), v) == toml_dep_at(
                    content@,
                    primitive_dep_name(),
                    v,
                ) by {
                assert(doc_dep_at(d1, primitive_dep_name(), v) == doc_dep_at(
                    d0,
                    primitive_dep_name(),
                    v,
                ));
            }
        }
        if has_runtime && has_primitive && toml_rendered(content@) {
            assert(d2 == d0);
            assert(out@ == content@);
        }
    }
    Ok(out)
}

/// Patching a manifest twice yields content identical to patching it once:
/// a concrete patched manifest is the editor's own rendering and holds
/// both companion entries, so the second patch inserts nothing and returns
/// it letter for letter; an aggregate one is returned letter for letter
/// both times.
pub proof fn lemma_patch_idempotent(t: Seq<char>, out: Seq<char>, out2: Seq<char>)
    requires
        patched_rel(t, out),
        patched_rel(out, out2),
    ensures
        out2 == out,
{
    if toml_has_package(t) {
        assert(toml_rendered(out));
        assert(toml_dep(out, runtime_dep_name()));
        assert(toml_dep(out, primitive_dep_name()));
    }
}

/// Whether a manifest describes a multi-package workspace: it holds a
/// `[workspace]` section.  Such aggregate manifests are never patched.
pub fn is_virtual_manifest(manifest: &str) -> (r: bool)
    ensures
        r == contains_sub(manifest@, "[workspace]"@),
{
    str_contains(manifest, "[workspace]")
}

} // verus!
