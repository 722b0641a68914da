use rustfuscator::manifest::{is_virtual_manifest, patch_manifest_text, ManifestPatchError};
use rustfuscator::derive_model::{
    derive_obfuscate, DataShape, DeriveError, DeriveInput, FieldDesc, FieldKind,
};

const SAMPLE_MANIFEST: &str = "[package]\nname = \"demo\"\nversion = \"0.1.0\"\n\n[dependencies]\nserde = \"1\"\n";

#[test]
fn patching_adds_both_companion_entries_once() {
    let patched = patch_manifest_text(SAMPLE_MANIFEST).unwrap();
    assert!(patched.contains("rust_code_obfuscator"));
    assert!(patched.contains("0.2.6"));
    assert!(patched.contains("cryptify"));
    assert!(patched.contains("3.1.1"));
    assert!(patched.contains("serde"));
    assert_eq!(patched.matches("cryptify").count(), 1);
    assert_eq!(patched.matches("rust_code_obfuscator").count(), 1);
}

#[test]
fn patching_twice_equals_patching_once() {
    let once = patch_manifest_text(SAMPLE_MANIFEST).unwrap();
    let twice = patch_manifest_text(&once).unwrap();
    assert_eq!(once, twice);
}

#[test]
fn virtual_manifests_are_left_untouched() {
    let workspace = "[workspace]\nmembers = [\"a\", \"b\"]\n";
    assert!(is_virtual_manifest(workspace));
    assert!(!is_virtual_manifest(SAMPLE_MANIFEST));
    let patched = patch_manifest_text(workspace).unwrap();
    assert_eq!(patched, workspace);
}

#[test]
fn manifests_without_dependency_section_gain_one() {
    let bare = "[package]\nname = \"demo\"\nversion = \"0.1.0\"\n";
    let patched = patch_manifest_text(bare).unwrap();
    assert!(patched.contains("[dependencies]"));
    assert!(patched.contains("cryptify"));
    assert!(patched.contains("rust_code_obfuscator"));
}

#[test]
fn pre_existing_companion_versions_are_kept() {
    let manifest =
        "[package]\nname = \"demo\"\nversion = \"0.1.0\"\n\n[dependencies]\ncryptify = \"9.9\"\n";
    let patched = patch_manifest_text(manifest).unwrap();
    assert!(patched.contains("cryptify = \"9.9\""));
    assert!(!patched.contains("3.1.1"));
    assert!(patched.contains("rust_code_obfuscator = \"0.2.6\""));
}

#[test]
fn broken_manifests_are_reported() {
    assert_eq!(
        patch_manifest_text("not = toml = at all"),
        Err(ManifestPatchError::Parse)
    );
    assert_eq!(
        patch_manifest_text("dependencies = 3\n[package]\nname = \"x\"\n"),
        Err(ManifestPatchError::DependenciesNotATable)
    );
}

#[test]
fn derive_plans_a_companion_for_supported_structs() {
    let input = DeriveInput {
        name: "Secrets".to_string(),
        shape: DataShape::NamedStruct {
            fields: vec![
                FieldDesc { name: "token".to_string(), kind: FieldKind::Text },
                FieldDesc { name: "attempts".to_string(), kind: FieldKind::Number },
            ],
        },
    };
    let plan = derive_obfuscate(input).unwrap();
    assert_eq!(plan.companion_name, "ObfuscatedSecrets");
    assert_eq!(plan.fields.len(), 2);
    assert_eq!(plan.fields[0].name, "token");
}

#[test]
fn derive_refuses_unsupported_declarations() {
    let not_a_struct = DeriveInput { name: "E".to_string(), shape: DataShape::NotAStruct };
    assert_eq!(derive_obfuscate(not_a_struct), Err(DeriveError::NotAStruct));

    let tuple = DeriveInput { name: "T".to_string(), shape: DataShape::UnnamedStruct };
    assert_eq!(derive_obfuscate(tuple), Err(DeriveError::UnnamedFields));

    let bad_field = DeriveInput {
        name: "S".to_string(),
        shape: DataShape::NamedStruct {
            fields: vec![
                FieldDesc { name: "ok".to_string(), kind: FieldKind::Text },
                FieldDesc { name: "flag".to_string(), kind: FieldKind::Unsupported },
            ],
        },
    };
    assert_eq!(
        derive_obfuscate(bad_field),
        Err(DeriveError::UnsupportedField { field: "flag".to_string() })
    );
}
