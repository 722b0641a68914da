//! Small helpers: the random numeric suffix used by the identifier-renaming
//! pass, and the lookup of a package's version among the packages a
//! workspace reports.

use vstd::prelude::*;
use crate::strutil::str_eq;

verus! {

/// The (name, version) pairs of a package list, as character sequences.
pub open spec fn package_views(v: Seq<(String, String)>) -> Seq<(Seq<char>, Seq<char>)> {
    v.map_values(|p: (String, String)| (p.0@, p.1@))
}

/// The version paired with the first package called `name`, if any.
pub open spec fn version_of_spec(
    pkgs: Seq<(Seq<char>, Seq<char>)>,
    name: Seq<char>,
) -> Option<Seq<char>>
    decreases pkgs,
{
    if pkgs.len() == 0 {
        None
    } else if pkgs[0].0 == name {
        Some(pkgs[0].1)
    } else {
        version_of_spec(pkgs.subrange(1, pkgs.len() as int), name)
    }
}

/// The first matching package decides [`version_of_spec`].
proof fn lemma_version_of_at(pkgs: Seq<(Seq<char>, Seq<char>)>, name: Seq<char>, i: int)
    requires
        0 <= i < pkgs.len(),
        pkgs[i].0 == name,
        forall|j: int| 0 <= j < i ==> (#[trigger] pkgs[j]).0 != name,
    ensures
        version_of_spec(pkgs, name) == Some(pkgs[i].1),
    decreases pkgs,
{
    if i > 0 {
        lemma_version_of_at(pkgs.subrange(1, pkgs.len() as int), name, i - 1);
    }
}

/// A list with no matching package yields nothing.
proof fn lemma_version_of_none(pkgs: Seq<(Seq<char>, Seq<char>)>, name: Seq<char>)
    requires
        forall|j: int| 0 <= j < pkgs.len() ==> (#[trigger] pkgs[j]).0 != name,
    ensures
        version_of_spec(pkgs, name) is None,
    decreases pkgs,
{
    if pkgs.len() > 0 {
        lemma_version_of_none(pkgs.subrange(1, pkgs.len() as int), name);
    }
}

/// Looks a package's version up among `(name, version)` pairs: the version
/// of the first package called `name`, and nothing when no package is.
pub fn find_package_version(packages: &Vec<(String, String)>, name: &str) -> (r: Option<String>)
    ensures
        r matches Some(v) ==> version_of_spec(package_views(packages@), name@) == Some(v@),
        r is Some <==> version_of_spec(package_views(packages@), name@) is Some,
{
    let ghost pkgs = package_views(packages@);
    let mut i: usize = 0;
    while i < packages.len()
        invariant
            0 <= i <= packages@.len(),
            pkgs == package_views(packages@),
            pkgs.len() == packages@.len(),
            forall|j: int| 0 <= j < i ==> (#[trigger] pkgs[j]).0 != name@,
        decreases packages@.len() - i,
    {
        if str_eq(packages[i].0.as_str(), name) {
            proof {
                assert(pkgs[i as int].0 == name@);
                lemma_version_of_at(pkgs, name@, i as int);
            }
            return Some(packages[i].1.clone());
        }
        i = i + 1;
    }
    proof {
        lemma_version_of_none(pkgs, name@);
    }
    None
}

/// The smallest suffix the renaming pass may draw.
pub const MIN_SUFF_VALUE: u32 = 1000;

/// The largest suffix the renaming pass may draw.
pub const MAX_SUFF_VALUE: u32 = 9999;

/// Draws a random numeric suffix for an obfuscated name.
///
/// Relies on `rand::random_range` over `1000..=9999`: it samples uniformly
/// from the given inclusive range, so the result always has four digits.
#[verifier::external_body]
pub fn generate_obf_suffix() -> (r: u32)
    ensures
        MIN_SUFF_VALUE <= r <= MAX_SUFF_VALUE,
{
    rand::random_range(MIN_SUFF_VALUE..=MAX_SUFF_VALUE)
}

} // verus!
