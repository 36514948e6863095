//! The availability filter: decides whether a manifest is viable for a
//! profile's packages, an ignored-package set, and a target set.
//!
//! A (package, target) pair with no published availability entry is
//! skipped: it contributes neither failure nor success.  A manifest is
//! viable exactly when every explicit entry found among the selected
//! pairs is marked available.

use vstd::prelude::*;
use crate::manifest::{Manifest, PackageTargets, assoc, names};

verus! {

/// A package takes part in the check when the profile lists it and the
/// ignored set does not.
pub open spec fn selected(name: Seq<char>, profile: Seq<Seq<char>>, ignored: Seq<Seq<char>>) -> bool {
    profile.contains(name) && !ignored.contains(name)
}

/// One (package, target) pair passes when it has no availability entry
/// at all, or its entry is marked available.
pub open spec fn pair_ok(pt: PackageTargets, target: Seq<char>) -> bool {
    match assoc(pt.targets@, target) {
        Some(info) => info.available,
        None => true,
    }
}

/// The manifest is viable: every selected package passes on every
/// target in scope.
pub open spec fn is_viable(
    m: Manifest,
    profile: Seq<Seq<char>>,
    ignored: Seq<Seq<char>>,
    targets: Seq<Seq<char>>,
) -> bool {
    forall|i: int, j: int|
        0 <= i < m.packages@.len() && 0 <= j < targets.len() && selected(
            m.packages@[i].0@,
            profile,
            ignored,
        ) ==> pair_ok(#[trigger] m.packages@[i].1, #[trigger] targets[j])
}

/// Whether any of `v` has the same characters as `name`.
fn contains_name(v: &Vec<String>, name: &String) -> (r: bool)
    ensures
        r == names(v@).contains(name@),
{
    let n = v.len();
    let mut i: usize = 0;
    while i < n
        invariant
            i <= n,
            n == v@.len(),
            forall|k: int| 0 <= k < i ==> names(v@)[k] != name@,
        decreases n - i,
    {
        if v[i] == *name {
            assert(names(v@)[i as int] == name@);
            return true;
        }
        i += 1;
    }
    assert(!names(v@).contains(name@));
    false
}

/// Evaluates the availability filter on a fetched manifest.
pub fn filter_manifest(
    m: &Manifest,
    profile: &Vec<String>,
    ignored: &Vec<String>,
    targets: &Vec<String>,
) -> (r: bool)
    ensures
        r == is_viable(*m, names(profile@), names(ignored@), names(targets@)),
{
    let np = m.packages.len();
    let nt = targets.len();
    let mut i: usize = 0;
    while i < np
        invariant
            i <= np,
            np == m.packages@.len(),
            nt == targets@.len(),
            forall|i0: int, j0: int|
                0 <= i0 < i && 0 <= j0 < targets@.len() && selected(
                    m.packages@[i0].0@,
                    names(profile@),
                    names(ignored@),
                ) ==> pair_ok(#[trigger] m.packages@[i0].1, #[trigger] names(targets@)[j0]),
        decreases np - i,
    {
        let name = &m.packages[i].0;
        if contains_name(profile, name) && !contains_name(ignored, name) {
            let pt = &m.packages[i].1;
            let mut j: usize = 0;
            while j < nt
                invariant
                    j <= nt,
                    nt == targets@.len(),
                    i < np,
                    np == m.packages@.len(),
                    pt == &m.packages@[i as int].1,
                    selected(m.packages@[i as int].0@, names(profile@), names(ignored@)),
                    forall|j0: int|
                        0 <= j0 < j ==> pair_ok(
                            m.packages@[i as int].1,
                            #[trigger] names(targets@)[j0],
                        ),
                decreases nt - j,
            {
                match crate::manifest::lookup_target(pt, &targets[j]) {
                    Some(false) => {
                        assert(!pair_ok(m.packages@[i as int].1, names(targets@)[j as int]));
                        assert(!is_viable(*m, names(profile@), names(ignored@), names(targets@)));
                        return false;
                    },
                    _ => {},
                }
                j += 1;
            }
        }
        i += 1;
    }
    true
}

/// A manifest with an empty selected-package set is always viable: when
/// every profile package is also ignored, nothing is checked.
pub proof fn lemma_empty_selection_viable(
    m: Manifest,
    profile: Seq<Seq<char>>,
    ignored: Seq<Seq<char>>,
    targets: Seq<Seq<char>>,
)
    requires
        forall|p: Seq<char>| profile.contains(p) ==> ignored.contains(p),
    ensures
        is_viable(m, profile, ignored, targets),
{
    assert forall|i: int, j: int|
        0 <= i < m.packages@.len() && 0 <= j < targets.len() && selected(
            m.packages@[i].0@,
            profile,
            ignored,
        ) implies pair_ok(m.packages@[i].1, targets[j]) by {
        assert(ignored.contains(m.packages@[i].0@));
    }
}

/// A target for which no package publishes an availability entry never
/// flips viability from true to false: adding it to the target set
/// keeps the manifest viable.
pub proof fn lemma_absent_target_keeps_viable(
    m: Manifest,
    profile: Seq<Seq<char>>,
    ignored: Seq<Seq<char>>,
    targets: Seq<Seq<char>>,
    t: Seq<char>,
)
    requires
        is_viable(m, profile, ignored, targets),
        forall|i: int| 0 <= i < m.packages@.len() ==> assoc(#[trigger] m.packages@[i].1.targets@, t) is None,
    ensures
        is_viable(m, profile, ignored, targets.push(t)),
{
    assert forall|i: int, j: int|
        0 <= i < m.packages@.len() && 0 <= j < targets.push(t).len() && selected(
            m.packages@[i].0@,
            profile,
            ignored,
        ) implies pair_ok(m.packages@[i].1, targets.push(t)[j]) by {
        if j < targets.len() {
            assert(targets.push(t)[j] == targets[j]);
            assert(pair_ok(m.packages@[i].1, targets[j]));
        } else {
            assert(targets.push(t)[j] == t);
            assert(assoc(m.packages@[i].1.targets@, t) is None);
        }
    }
}

/// The package list the filter works from is exactly the profile's
/// declared list minus the ignored set: filtering with any list whose
/// membership is that difference, and no ignored set, is equivalent.
pub proof fn lemma_selection_is_profile_minus_ignored(
    m: Manifest,
    profile: Seq<Seq<char>>,
    ignored: Seq<Seq<char>>,
    targets: Seq<Seq<char>>,
    sel: Seq<Seq<char>>,
)
    requires
        forall|p: Seq<char>| sel.contains(p) <==> (profile.contains(p) && !ignored.contains(p)),
    ensures
        is_viable(m, profile, ignored, targets) == is_viable(m, sel, Seq::<Seq<char>>::empty(), targets),
{
    assert forall|name: Seq<char>|
        selected(name, profile, ignored) == selected(name, sel, Seq::<Seq<char>>::empty()) by {
        assert(!Seq::<Seq<char>>::empty().contains(name));
    }
}

/// Ignored packages never affect viability, whatever their availability
/// entries say: two manifests that agree on every non-ignored package's
/// entries are equally viable.
pub proof fn lemma_ignored_packages_irrelevant(
    m1: Manifest,
    m2: Manifest,
    profile: Seq<Seq<char>>,
    ignored: Seq<Seq<char>>,
    targets: Seq<Seq<char>>,
)
    requires
        m1.packages@.len() == m2.packages@.len(),
        forall|i: int|
            0 <= i < m1.packages@.len() ==> #[trigger] m1.packages@[i].0@ == m2.packages@[i].0@,
        forall|i: int|
            0 <= i < m1.packages@.len() && !ignored.contains(m1.packages@[i].0@)
                ==> #[trigger] m1.packages@[i].1.targets@ == m2.packages@[i].1.targets@,
    ensures
        is_viable(m1, profile, ignored, targets) == is_viable(m2, profile, ignored, targets),
{
    if is_viable(m1, profile, ignored, targets) {
        assert forall|i: int, j: int|
            0 <= i < m2.packages@.len() && 0 <= j < targets.len() && selected(
                m2.packages@[i].0@,
                profile,
                ignored,
            ) implies pair_ok(m2.packages@[i].1, targets[j]) by {
            assert(m1.packages@[i].0@ == m2.packages@[i].0@);
            assert(pair_ok(m1.packages@[i].1, targets[j]));
            assert(m1.packages@[i].1.targets@ == m2.packages@[i].1.targets@);
        }
        assert(is_viable(m2, profile, ignored, targets));
    }
    if is_viable(m2, profile, ignored, targets) {
        assert forall|i: int, j: int|
            0 <= i < m1.packages@.len() && 0 <= j < targets.len() && selected(
                m1.packages@[i].0@,
                profile,
                ignored,
            ) implies pair_ok(m1.packages@[i].1, targets[j]) by {
            assert(pair_ok(m2.packages@[i].1, targets[j]));
            assert(m1.packages@[i].1.targets@ == m2.packages@[i].1.targets@);
        }
        assert(is_viable(m1, profile, ignored, targets));
    }
}

/// Repeated evaluation of the filter on the same manifest and inputs
/// yields the same boolean: the result is a function of the inputs.
pub proof fn lemma_viable_deterministic(
    m: Manifest,
    profile: Seq<Seq<char>>,
    ignored: Seq<Seq<char>>,
    targets: Seq<Seq<char>>,
    r1: bool,
    r2: bool,
)
    requires
        r1 == is_viable(m, profile, ignored, targets),
        r2 == is_viable(m, profile, ignored, targets),
    ensures
        r1 == r2,
{
}

} // verus!
