use rustfuscator::policy::{
    applies_to, build_transformer, default_config_text, ConfigError, IdentifiersSection,
    IncludeSection, ObfuscateConfig, ObfuscationSection,
};
use rustfuscator::diff::{detect_change, render_diff};
use rustfuscator::orchestrate::{plan_file_actions, plan_project};

fn cfg(
    strings: bool,
    min_str_len: Option<usize>,
    ignore_strings: Option<Vec<String>>,
    flow: bool,
    skip_files: Option<Vec<String>>,
    skip_attributes: Option<bool>,
) -> ObfuscateConfig {
    ObfuscateConfig {
        obfuscation: ObfuscationSection {
            strings,
            min_string_length: min_str_len,
            ignore_strings: ignore_strings,
            control_flow: flow,
            skip_files: skip_files,
            skip_attributes: skip_attributes,
        },
        identifiers: None,
        included: None,
    }
}

#[test]
fn skip_rule_always_wins() {
    let skipped_files = Some(vec![String::from("lib.rs")]);
    let config = cfg(true, None, None, false, skipped_files, None);
    assert_eq!(applies_to(&config, "/tmp/dir/lib.rs", "lib.rs"), Ok(false));
    assert_eq!(applies_to(&config, "/tmp/dir/other.rs", "other.rs"), Ok(true));
}

#[test]
fn include_and_exclude_globs_filter_files() {
    let mut config = cfg(true, None, None, false, None, None);
    config.included = Some(IncludeSection {
        files: Some(vec!["**/*.rs".to_string()]),
        exclude: Some(vec!["target/**".to_string()]),
    });
    assert_eq!(applies_to(&config, "src/lib.rs", "src/lib.rs"), Ok(true));
    assert_eq!(applies_to(&config, "target/out.rs", "target/out.rs"), Ok(false));
    assert_eq!(applies_to(&config, "notes.txt", "notes.txt"), Ok(false));
}

#[test]
fn include_section_without_files_includes_nothing() {
    let mut config = cfg(true, None, None, false, None, None);
    config.included = Some(IncludeSection { files: None, exclude: None });
    assert_eq!(applies_to(&config, "src/lib.rs", "src/lib.rs"), Ok(false));
}

#[test]
fn bad_glob_pattern_is_a_config_error() {
    let mut config = cfg(true, None, None, false, None, None);
    config.included = Some(IncludeSection {
        files: Some(vec!["a{".to_string()]),
        exclude: None,
    });
    assert_eq!(
        applies_to(&config, "src/lib.rs", "src/lib.rs"),
        Err(ConfigError::InvalidGlob { pattern: "a{".to_string() })
    );
}

#[test]
fn bad_exclude_pattern_is_found_behind_an_earlier_match() {
    // Every exclude pattern is compiled before any match settles the file:
    // a non-compiling exclude is a configuration error even when an
    // earlier exclude already matches, and even for a file the includes
    // would not pick up.
    let mut config = cfg(true, None, None, false, None, None);
    config.included = Some(IncludeSection {
        files: Some(vec!["**/*.rs".to_string()]),
        exclude: Some(vec!["**".to_string(), "a{".to_string()]),
    });
    assert_eq!(
        applies_to(&config, "src/lib.rs", "src/lib.rs"),
        Err(ConfigError::InvalidGlob { pattern: "a{".to_string() })
    );
    assert_eq!(
        applies_to(&config, "notes.txt", "notes.txt"),
        Err(ConfigError::InvalidGlob { pattern: "a{".to_string() })
    );
}

#[test]
fn resolving_fills_in_the_documented_defaults() {
    let config = cfg(true, Some(4), None, true, None, None);
    let t = build_transformer(&config);
    assert_eq!(t.obfuscate_strings, true);
    assert_eq!(t.obfuscate_flow, true);
    assert_eq!(t.min_string_length, Some(4));
    assert_eq!(t.rename_identifiers, false);
    assert_eq!(t.skip_attributes, false);
    assert!(t.preserve_idents.is_empty());
    assert!(t.obfuscated_vars.is_empty());

    let mut config2 = cfg(false, None, None, false, None, Some(true));
    config2.identifiers = Some(IdentifiersSection {
        rename: true,
        preserve: Some(vec!["main".to_string()]),
    });
    let t2 = build_transformer(&config2);
    assert_eq!(t2.rename_identifiers, true);
    assert_eq!(t2.skip_attributes, true);
    assert_eq!(t2.preserve_idents, vec!["main".to_string()]);
}

#[test]
fn default_config_names_every_section() {
    let text = default_config_text();
    assert!(text.contains("[obfuscation]"));
    assert!(text.contains("min_string_length = 4"));
    assert!(text.contains("[identifiers]"));
    assert!(text.contains("[include]"));
}

#[test]
fn change_detection_is_strict_inequality() {
    assert!(!detect_change("same", "same"));
    assert!(detect_change("before", "after"));
    assert!(detect_change("x", "x "));
}

#[test]
fn rendered_diff_carries_labels_and_both_sides() {
    let before = "line one\nline two\n";
    let after = "line one\nline 2\n";
    let diff = render_diff(before, after, 3, "src/lib.rs");
    assert!(diff.contains("src/lib.rs (before)"));
    assert!(diff.contains("src/lib.rs (after)"));
    assert!(diff.contains("-line two"));
    assert!(diff.contains("+line 2"));
}

#[test]
fn dry_run_performs_no_writes() {
    // Even for a changed file with a diff requested, a dry run writes
    // nothing, and a whole-project dry run copies, patches and formats
    // nothing.
    let p = plan_file_actions(true, true, Some(3));
    assert!(p.report_changed);
    assert!(p.render_diff);
    assert!(!p.write);
    let q = plan_project(true, true);
    assert!(!q.copy_tree && !q.patch_manifests && !q.format_after);
}

#[test]
fn unchanged_files_are_left_alone_and_real_runs_write() {
    let p = plan_file_actions(false, false, Some(3));
    assert!(!p.report_changed && !p.render_diff && !p.write);
    let q = plan_file_actions(true, false, None);
    assert!(q.write && !q.render_diff);
    let r = plan_project(false, false);
    assert!(r.copy_tree && r.patch_manifests && !r.format_after);
}
