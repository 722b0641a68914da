//! The policy model: the declarative configuration, its resolution into a
//! per-file engine, and the file filter that decides which files are
//! transformed at all.
//!
//! Glob matching is done by an outside matcher; whether a pattern parses
//! and compiles to a matcher, and whether it accepts a path, are functions
//! of pattern and path alone, named [`glob_ok`] and [`glob_matches`].

use vstd::prelude::*;
use vstd::string::*;
use crate::strutil::{ends_with, seq_views, str_ends_with};
use crate::transform::ObfuscationTransformer;

verus! {

/// The whole declarative configuration of a run.
#[derive(Debug)]
pub struct ObfuscateConfig {
    pub obfuscation: ObfuscationSection,
    pub identifiers: Option<IdentifiersSection>,
    pub included: Option<IncludeSection>,
}

/// The protection toggles and literal filters.
#[derive(Debug)]
pub struct ObfuscationSection {
    pub strings: bool,
    pub min_string_length: Option<usize>,
    pub ignore_strings: Option<Vec<String>>,
    pub control_flow: bool,
    pub skip_files: Option<Vec<String>>,
    pub skip_attributes: Option<bool>,
}

/// The identifier-renaming toggle and its preserve list.
#[derive(Debug)]
pub struct IdentifiersSection {
    pub rename: bool,
    pub preserve: Option<Vec<String>>,
}

/// Include and exclude glob lists.
#[derive(Debug)]
pub struct IncludeSection {
    pub files: Option<Vec<String>>,
    pub exclude: Option<Vec<String>>,
}

/// The command line of the tool around the library.
#[derive(Debug)]
pub struct Cli {
    pub input: String,
    pub output: Option<String>,
    pub as_project: bool,
    pub format: bool,
    pub init: bool,
    pub json: bool,
    pub dry_run: bool,
    pub verbose: bool,
    pub diff: Option<Option<usize>>,
}

/// A malformed configuration, found while resolving it.
#[derive(Debug, PartialEq, Eq)]
pub enum ConfigError {
    /// A glob pattern that does not compile.
    InvalidGlob { pattern: String },
}

/// Whether a glob pattern parses and compiles to a matcher.
pub uninterp spec fn glob_ok(pattern: Seq<char>) -> bool;

/// Whether a (compiling) glob pattern accepts a path.
pub uninterp spec fn glob_matches(pattern: Seq<char>, path: Seq<char>) -> bool;

/// Compiles `pattern` and matches it against `path`; nothing when the
/// pattern does not parse or does not compile to a matcher.
///
/// Relies on `globset::Glob` and `globset::GlobSetBuilder`: whether a
/// pattern parses and compiles, and whether the compiled matcher accepts a
/// path, depend on the pattern and the path alone.  Both steps report
/// failure as an error, never by panicking.
#[verifier::external_body]
fn glob_match_path(pattern: &str, path: &str) -> (r: Option<bool>)
    ensures
        r is Some <==> glob_ok(pattern@),
        r matches Some(b) ==> b == glob_matches(pattern@, path@),
{
    let glob = match globset::Glob::new(pattern) {
        Ok(g) => g,
        Err(_) => return None,
    };
    let mut builder = globset::GlobSetBuilder::new();
    builder.add(glob);
    match builder.build() {
        Ok(set) => Some(set.is_match(path)),
        Err(_) => None,
    }
}

impl ObfuscateConfig {
    /// The skip-file entries, as character sequences.
    pub open spec fn skip_list(&self) -> Seq<Seq<char>> {
        match self.obfuscation.skip_files {
            Some(v) => seq_views(v@),
            None => Seq::empty(),
        }
    }

    /// The include patterns; an include section without a file list
    /// includes nothing.
    pub open spec fn include_list(&self) -> Seq<Seq<char>> {
        match self.included {
            Some(inc) => match inc.files {
                Some(v) => seq_views(v@),
                None => Seq::empty(),
            },
            None => Seq::empty(),
        }
    }

    /// The exclude patterns.
    pub open spec fn exclude_list(&self) -> Seq<Seq<char>> {
        match self.included {
            Some(inc) => match inc.exclude {
                Some(v) => seq_views(v@),
                None => Seq::empty(),
            },
            None => Seq::empty(),
        }
    }
}

/// Whether some skip-file entry is a suffix of the file's relative name.
pub open spec fn skip_matched(skips: Seq<Seq<char>>, rel: Seq<char>) -> bool {
    exists|i: int| 0 <= i < skips.len() && ends_with(rel, #[trigger] skips[i])
}

/// The first include pattern that does not compile, if any; the include
/// set is built from all of them before any match is tried.
pub open spec fn first_bad_pattern(pats: Seq<Seq<char>>) -> Option<Seq<char>>
    decreases pats,
{
    if pats.len() == 0 {
        None
    } else if !glob_ok(pats[0]) {
        Some(pats[0])
    } else {
        first_bad_pattern(pats.subrange(1, pats.len() as int))
    }
}

/// Whether some pattern in the list accepts the path.
pub open spec fn some_glob_matches(pats: Seq<Seq<char>>, path: Seq<char>) -> bool {
    exists|i: int| 0 <= i < pats.len() && glob_matches(#[trigger] pats[i], path)
}

/// What the filter decides for one file.
pub ghost enum ApplyDecision {
    /// The file is transformed.
    Transform,
    /// The file is reported skipped and never transformed.
    Skip,
    /// The configuration is malformed: a glob pattern does not compile.
    BadPattern { pattern: Seq<char> },
}

/// The filter, in its fixed order: a skip-file suffix match wins; then,
/// when an include section exists, every include and exclude pattern must
/// compile — a non-compiling pattern is a malformed configuration, found
/// whether or not an earlier pattern would already have settled the file —
/// and the file must match some include pattern and no exclude pattern.
pub open spec fn applies_decision(
    skips: Seq<Seq<char>>,
    has_include: bool,
    includes: Seq<Seq<char>>,
    excludes: Seq<Seq<char>>,
    path: Seq<char>,
    rel: Seq<char>,
) -> ApplyDecision {
    if skip_matched(skips, rel) {
        ApplyDecision::Skip
    } else if !has_include {
        ApplyDecision::Transform
    } else {
        match first_bad_pattern(includes) {
            Some(p) => ApplyDecision::BadPattern { pattern: p },
            None => match first_bad_pattern(excludes) {
                Some(p) => ApplyDecision::BadPattern { pattern: p },
                None => {
                    if !some_glob_matches(includes, path) {
                        ApplyDecision::Skip
                    } else if some_glob_matches(excludes, path) {
                        ApplyDecision::Skip
                    } else {
                        ApplyDecision::Transform
                    }
                },
            },
        }
    }
}

impl ObfuscateConfig {
    /// The filter decision for this configuration on one file.
    pub open spec fn decision_for(&self, path: Seq<char>, rel: Seq<char>) -> ApplyDecision {
        applies_decision(
            self.skip_list(),
            self.included is Some,
            self.include_list(),
            self.exclude_list(),
            path,
            rel,
        )
    }
}

/// A prefix of all-compiling patterns has no bad pattern at its front.
proof fn lemma_first_bad_none(pats: Seq<Seq<char>>)
    requires
        forall|j: int| 0 <= j < pats.len() ==> glob_ok(#[trigger] pats[j]),
    ensures
        first_bad_pattern(pats) is None,
    decreases pats,
{
    if pats.len() > 0 {
        lemma_first_bad_none(pats.subrange(1, pats.len() as int));
    }
}

/// The first non-compiling pattern decides [`first_bad_pattern`].
proof fn lemma_first_bad_at(pats: Seq<Seq<char>>, i: int)
    requires
        0 <= i < pats.len(),
        !glob_ok(pats[i]),
        forall|j: int| 0 <= j < i ==> glob_ok(#[trigger] pats[j]),
    ensures
        first_bad_pattern(pats) == Some(pats[i]),
    decreases pats,
{
    if i > 0 {
        lemma_first_bad_at(pats.subrange(1, pats.len() as int), i - 1);
    }
}

/// Decides whether the policy lets a file be transformed: `Ok(false)` for
/// a skipped file, `Ok(true)` for one to transform, and an error naming
/// the first pattern, includes before excludes, that does not compile —
/// every pattern is compiled before any match settles the file.  A file
/// matched by a skip rule is never transformed, whatever the globs say.
pub fn applies_to(config: &ObfuscateConfig, path: &str, relative_name: &str) -> (r: Result<
    bool,
    ConfigError,
>)
    ensures
        config.decision_for(path@, relative_name@) matches ApplyDecision::Transform ==> r == Ok::<
            bool,
            ConfigError,
        >(true),
        config.decision_for(path@, relative_name@) matches ApplyDecision::Skip ==> r == Ok::<
            bool,
            ConfigError,
        >(false),
        config.decision_for(path@, relative_name@) matches ApplyDecision::BadPattern { pattern }
            ==> (r matches Err(e) && e matches ConfigError::InvalidGlob { pattern: ps } && ps@
            == pattern),
{
    let ghost sk = config.skip_list();
    if let Some(skips) = &config.obfuscation.skip_files {
        proof {
            assert(sk == seq_views(skips@));
        }
        let mut i: usize = 0;
        while i < skips.len()
            invariant
                0 <= i <= skips@.len(),
                sk == config.skip_list(),
                sk == seq_views(skips@),
                sk.len() == skips@.len(),
                forall|j: int| 0 <= j < i ==> !ends_with(relative_name@, #[trigger] sk[j]),
            decreases skips@.len() - i,
        {
            if str_ends_with(relative_name, skips[i].as_str()) {
                proof {
                    assert(ends_with(relative_name@, sk[i as int]));
                    assert(skip_matched(sk, relative_name@));
                }
                return Ok(false);
            }
            i = i + 1;
        }
        proof {
            assert(!skip_matched(sk, relative_name@));
        }
    } else {
        proof {
            assert(sk =~= Seq::<Seq<char>>::empty());
            assert(!skip_matched(sk, relative_name@));
        }
    }
    let inc_section = match &config.included {
        None => {
            return Ok(true);
        },
        Some(inc) => inc,
    };
    let ghost incs = config.include_list();
    let mut any_match: bool = false;
    if let Some(files) = &inc_section.files {
        let mut i: usize = 0;
        while i < files.len()
            invariant
                0 <= i <= files@.len(),
                incs == seq_views(files@),
                incs == config.include_list(),
                incs.len() == files@.len(),
                !skip_matched(config.skip_list(), relative_name@),
                config.included is Some,
                forall|j: int| 0 <= j < i ==> glob_ok(#[trigger] incs[j]),
                any_match == exists|j: int|
                    0 <= j < i && glob_matches(#[trigger] incs[j], path@),
            decreases files@.len() - i,
        {
            match glob_match_path(files[i].as_str(), path) {
                None => {
                    proof {
                        lemma_first_bad_at(incs, i as int);
                    }
                    return Err(ConfigError::InvalidGlob { pattern: files[i].clone() });
                },
                Some(hit) => {
                    proof {
                        assert(hit == glob_matches(incs[i as int], path@));
                    }
                    if hit {
                        any_match = true;
                    }
                },
            }
            i = i + 1;
        }
        proof {
            lemma_first_bad_none(incs);
        }
    } else {
        proof {
            assert(incs =~= Seq::<Seq<char>>::empty());
            lemma_first_bad_none(incs);
        }
    }
    proof {
        assert(any_match == some_glob_matches(incs, path@));
    }
    let ghost excs = config.exclude_list();
    let mut any_exclude: bool = false;
    if let Some(excludes) = &inc_section.exclude {
        let mut i: usize = 0;
        while i < excludes.len()
            invariant
                0 <= i <= excludes@.len(),
                excs == seq_views(excludes@),
                excs == config.exclude_list(),
                excs.len() == excludes@.len(),
                !skip_matched(config.skip_list(), relative_name@),
                config.included is Some,
                first_bad_pattern(config.include_list()) is None,
                any_match == some_glob_matches(config.include_list(), path@),
                forall|j: int| 0 <= j < i ==> glob_ok(#[trigger] excs[j]),
                any_exclude == exists|j: int|
                    0 <= j < i && glob_matches(#[trigger] excs[j], path@),
            decreases excludes@.len() - i,
        {
            match glob_match_path(excludes[i].as_str(), path) {
                None => {
                    proof {
                        lemma_first_bad_at(excs, i as int);
                    }
                    return Err(ConfigError::InvalidGlob { pattern: excludes[i].clone() });
                },
                Some(hit) => {
                    proof {
                        assert(hit == glob_matches(excs[i as int], path@));
                    }
                    if hit {
                        any_exclude = true;
                    }
                },
            }
            i = i + 1;
        }
        proof {
            lemma_first_bad_none(excs);
        }
    } else {
        proof {
            assert(excs =~= Seq::<Seq<char>>::empty());
            lemma_first_bad_none(excs);
        }
    }
    proof {
        assert(any_exclude == some_glob_matches(excs, path@));
    }
    if !any_match {
        return Ok(false);
    }
    if any_exclude {
        return Ok(false);
    }
    Ok(true)
}

/// Clones a list of strings, keeping its contents.
fn clone_string_vec(v: &Vec<String>) -> (r: Vec<String>)
    ensures
        seq_views(r@) == seq_views(v@),
{
    let mut out: Vec<String> = Vec::new();
    let mut i: usize = 0;
    while i < v.len()
        invariant
            0 <= i <= v@.len(),
            out@.len() == i,
            forall|j: int| 0 <= j < i ==> seq_views(out@)[j] == seq_views(v@)[j],
        decreases v@.len() - i,
    {
        out.push(v[i].clone());
        i = i + 1;
    }
    proof {
        assert(seq_views(out@) =~= seq_views(v@));
    }
    out
}

/// Resolves the declarative configuration into a per-file engine, with the
/// documented defaults for absent fields: renaming off, no preserved
/// names, attributes visited, and an empty protected-binding table.
pub fn build_transformer(config: &ObfuscateConfig) -> (t: ObfuscationTransformer)
    ensures
        t.cfg().strings == config.obfuscation.strings,
        t.cfg().flow == config.obfuscation.control_flow,
        t.cfg().skip_attrs == (config.obfuscation.skip_attributes matches Some(true)),
        t.cfg().min_len == (match config.obfuscation.min_string_length {
            Some(m) => Some(m as nat),
            None => None::<nat>,
        }),
        t.cfg().ignore == (match config.obfuscation.ignore_strings {
            Some(v) => seq_views(v@),
            None => Seq::<Seq<char>>::empty(),
        }),
        t.rename_identifiers == (config.identifiers matches Some(id) && id.rename),
        t.preserve() == (match config.identifiers {
            Some(id) => match id.preserve {
                Some(v) => seq_views(v@),
                None => Seq::<Seq<char>>::empty(),
            },
            None => Seq::<Seq<char>>::empty(),
        }),
        t.vars() == Seq::<Seq<char>>::empty(),
{
    let ignore_strings = match &config.obfuscation.ignore_strings {
        Some(v) => Some(clone_string_vec(v)),
        None => None,
    };
    let rename_identifiers = match &config.identifiers {
        Some(id) => id.rename,
        None => false,
    };
    let preserve_idents = match &config.identifiers {
        Some(id) => match &id.preserve {
            Some(v) => clone_string_vec(v),
            None => Vec::new(),
        },
        None => Vec::new(),
    };
    let skip_attributes = match config.obfuscation.skip_attributes {
        Some(b) => b,
        None => false,
    };
    let t = ObfuscationTransformer {
        min_string_length: config.obfuscation.min_string_length,
        ignore_strings,
        rename_identifiers,
        preserve_idents,
        obfuscate_strings: config.obfuscation.strings,
        obfuscate_flow: config.obfuscation.control_flow,
        skip_attributes,
        obfuscated_vars: Vec::new(),
    };
    proof {
        assert(t.vars() =~= Seq::<Seq<char>>::empty());
        assert(t.preserve() =~= (match config.identifiers {
            Some(id) => match id.preserve {
                Some(v) => seq_views(v@),
                None => Seq::<Seq<char>>::empty(),
            },
            None => Seq::<Seq<char>>::empty(),
        }));
    }
    t
}

/// The characters of the default declarative configuration.
pub open spec fn default_config_spec() -> Seq<char> {
    "[obfuscation]\nstrings = true\nmin_string_length = 4\nignore_strings = [\"DEBUG\", \"LOG\"]\ncontrol_flow = true\nskip_files = [\"src/main.rs\"]\n\n[identifiers]\nrename = false\npreserve = [\"main\"]\n\n[include]\nfiles = [\"**/*.rs\"]\nexclude = [\"target/**\", \"tests/**\"]\n"@
}

/// The default declarative configuration, written by the tool on request.
pub fn default_config_text() -> (r: String)
    ensures
        r@ == default_config_spec(),
{
    "[obfuscation]\nstrings = true\nmin_string_length = 4\nignore_strings = [\"DEBUG\", \"LOG\"]\ncontrol_flow = true\nskip_files = [\"src/main.rs\"]\n\n[identifiers]\nrename = false\npreserve = [\"main\"]\n\n[include]\nfiles = [\"**/*.rs\"]\nexclude = [\"target/**\", \"tests/**\"]\n".to_owned()
}

/// A file matched by a skip rule is never transformed: whatever the
/// include and exclude globs would say, the filter's decision is to skip
/// it, so it is reported unmodified and never handed to the engine.
pub proof fn lemma_skip_rule_wins(
    skips: Seq<Seq<char>>,
    has_include: bool,
    includes: Seq<Seq<char>>,
    excludes: Seq<Seq<char>>,
    path: Seq<char>,
    rel: Seq<char>,
)
    requires
        skip_matched(skips, rel),
    ensures
        applies_decision(skips, has_include, includes, excludes, path, rel)
            == ApplyDecision::Skip,
{
}

} // verus!
