//! The data model of one day's release manifest: packages, their
//! per-target availability, and the named package profiles.

use vstd::prelude::*;
use crate::date::Date;

verus! {

/// Availability of one package on one target.
#[derive(Clone, Debug)]
pub struct PackageInfo {
    pub available: bool,
}

/// One package's version string and its per-target availability entries,
/// keyed by target triple.
#[derive(Clone, Debug)]
pub struct PackageTargets {
    pub version: String,
    pub targets: Vec<(String, PackageInfo)>,
}

/// One day's published release metadata.
#[derive(Clone, Debug)]
pub struct Manifest {
    pub date: Date,
    pub packages: Vec<(String, PackageTargets)>,
    pub profiles: Vec<(String, Vec<String>)>,
}

/// The first value associated with `key` at or after position `i`.
pub open spec fn assoc_from<V>(s: Seq<(String, V)>, key: Seq<char>, i: int) -> Option<V>
    decreases s.len() - i,
{
    if i < 0 || i >= s.len() {
        None
    } else if s[i].0@ == key {
        Some(s[i].1)
    } else {
        assoc_from(s, key, i + 1)
    }
}

/// The first value associated with `key` in an association list.
pub open spec fn assoc<V>(s: Seq<(String, V)>, key: Seq<char>) -> Option<V> {
    assoc_from(s, key, 0)
}

/// The views of a list of names.
pub open spec fn names(v: Seq<String>) -> Seq<Seq<char>> {
    v.map_values(|s: String| s@)
}

/// This package's availability entry for `target`, if the manifest
/// published one.
pub fn lookup_target(pt: &PackageTargets, target: &String) -> (r: Option<bool>)
    ensures
        r == match assoc(pt.targets@, target@) {
            Some(info) => Some(info.available),
            None => None::<bool>,
        },
{
    let n = pt.targets.len();
    let mut i: usize = 0;
    while i < n
        invariant
            i <= n,
            n == pt.targets@.len(),
            assoc(pt.targets@, target@) == assoc_from(pt.targets@, target@, i as int),
        decreases n - i,
    {
        if pt.targets[i].0 == *target {
            return Some(pt.targets[i].1.available);
        }
        i += 1;
    }
    None
}

/// The entry for the package named `name`, if the manifest lists it.
pub fn find_package<'a>(m: &'a Manifest, name: &String) -> (r: Option<&'a PackageTargets>)
    ensures
        match assoc(m.packages@, name@) {
            Some(pt) => r matches Some(p) && *p == pt,
            None => r is None,
        },
{
    let n = m.packages.len();
    let mut i: usize = 0;
    while i < n
        invariant
            i <= n,
            n == m.packages@.len(),
            assoc(m.packages@, name@) == assoc_from(m.packages@, name@, i as int),
        decreases n - i,
    {
        if m.packages[i].0 == *name {
            return Some(&m.packages[i].1);
        }
        i += 1;
    }
    None
}

/// The position of the profile named `name` in the manifest's profile
/// table, if the manifest declares that profile.
pub fn find_profile_index(m: &Manifest, name: &String) -> (r: Option<usize>)
    ensures
        match r {
            Some(i) => i < m.profiles@.len() && assoc(m.profiles@, name@) == Some(
                m.profiles@[i as int].1,
            ),
            None => assoc(m.profiles@, name@) is None,
        },
{
    let n = m.profiles.len();
    let mut i: usize = 0;
    while i < n
        invariant
            i <= n,
            n == m.profiles@.len(),
            assoc(m.profiles@, name@) == assoc_from(m.profiles@, name@, i as int),
        decreases n - i,
    {
        if m.profiles[i].0 == *name {
            return Some(i);
        }
        i += 1;
    }
    None
}

/// The package list of the profile named `name`, if the manifest
/// declares that profile.
pub fn find_profile<'a>(m: &'a Manifest, name: &String) -> (r: Option<&'a Vec<String>>)
    ensures
        match assoc(m.profiles@, name@) {
            Some(pkgs) => r matches Some(p) && *p == pkgs,
            None => r is None,
        },
{
    let n = m.profiles.len();
    let mut i: usize = 0;
    while i < n
        invariant
            i <= n,
            n == m.profiles@.len(),
            assoc(m.profiles@, name@) == assoc_from(m.profiles@, name@, i as int),
        decreases n - i,
    {
        if m.profiles[i].0 == *name {
            return Some(&m.profiles[i].1);
        }
        i += 1;
    }
    None
}

} // verus!
