use viable_toolchain::date::Date;
use viable_toolchain::filter::filter_manifest;
use viable_toolchain::manifest::{Manifest, PackageInfo, PackageTargets};

fn pkg(version: &str, targets: &[(&str, bool)]) -> PackageTargets {
    PackageTargets {
        version: version.to_string(),
        targets: targets
            .iter()
            .map(|(t, a)| (t.to_string(), PackageInfo { available: *a }))
            .collect(),
    }
}

fn strings(v: &[&str]) -> Vec<String> {
    v.iter().map(|s| s.to_string()).collect()
}

fn sample_date() -> Date {
    Date { year: 2024, month: 1, day: 10 }
}

#[test]
fn empty_profile_is_always_viable() {
    let m = Manifest {
        date: sample_date(),
        packages: vec![("rustc".to_string(), pkg("1.75.0", &[("x", false), ("y", false)]))],
        profiles: vec![],
    };
    assert!(filter_manifest(&m, &strings(&[]), &strings(&[]), &strings(&["x", "y"])));
}

#[test]
fn fully_ignored_profile_is_viable() {
    let m = Manifest {
        date: sample_date(),
        packages: vec![("rustc".to_string(), pkg("1.75.0", &[("x", false)]))],
        profiles: vec![],
    };
    assert!(filter_manifest(
        &m,
        &strings(&["rustc"]),
        &strings(&["rustc"]),
        &strings(&["x"])
    ));
}

#[test]
fn absent_pair_is_skipped() {
    // "rustc" has no entry for target "y": that pair contributes nothing.
    let m = Manifest {
        date: sample_date(),
        packages: vec![("rustc".to_string(), pkg("1.75.0", &[("x", true)]))],
        profiles: vec![],
    };
    assert!(filter_manifest(
        &m,
        &strings(&["rustc"]),
        &strings(&[]),
        &strings(&["x", "y"])
    ));
}

#[test]
fn no_entries_at_all_is_vacuously_viable() {
    let m = Manifest {
        date: sample_date(),
        packages: vec![
            ("rustc".to_string(), pkg("1.75.0", &[])),
            ("cargo".to_string(), pkg("1.75.0", &[])),
        ],
        profiles: vec![],
    };
    assert!(filter_manifest(
        &m,
        &strings(&["rustc", "cargo"]),
        &strings(&[]),
        &strings(&["x", "y", "z"])
    ));
}

#[test]
fn explicit_unavailable_entry_fails() {
    let m = Manifest {
        date: sample_date(),
        packages: vec![("rustc".to_string(), pkg("1.75.0", &[("x", true), ("y", false)]))],
        profiles: vec![],
    };
    assert!(!filter_manifest(
        &m,
        &strings(&["rustc"]),
        &strings(&[]),
        &strings(&["x", "y"])
    ));
}

#[test]
fn ignored_package_never_affects_viability() {
    let m = Manifest {
        date: sample_date(),
        packages: vec![
            ("rustc".to_string(), pkg("1.75.0", &[("x", true)])),
            ("rust-mingw".to_string(), pkg("1.75.0", &[("x", false)])),
        ],
        profiles: vec![],
    };
    let profile = strings(&["rustc", "rust-mingw"]);
    // Ignored: the unavailable entry of "rust-mingw" does not count.
    assert!(filter_manifest(&m, &profile, &strings(&["rust-mingw"]), &strings(&["x"])));
    // Not ignored: the same entry now fails the filter.
    assert!(!filter_manifest(&m, &profile, &strings(&[]), &strings(&["x"])));
}

#[test]
fn package_outside_profile_never_affects_viability() {
    let m = Manifest {
        date: sample_date(),
        packages: vec![
            ("rustc".to_string(), pkg("1.75.0", &[("x", true)])),
            ("extra".to_string(), pkg("1.75.0", &[("x", false)])),
        ],
        profiles: vec![],
    };
    assert!(filter_manifest(&m, &strings(&["rustc"]), &strings(&[]), &strings(&["x"])));
}

#[test]
fn profile_package_missing_from_manifest_is_skipped() {
    let m = Manifest {
        date: sample_date(),
        packages: vec![("rustc".to_string(), pkg("1.75.0", &[("x", true)]))],
        profiles: vec![],
    };
    assert!(filter_manifest(
        &m,
        &strings(&["rustc", "not-published"]),
        &strings(&[]),
        &strings(&["x"])
    ));
}

#[test]
fn repeated_evaluation_is_idempotent() {
    let m = Manifest {
        date: sample_date(),
        packages: vec![("rustc".to_string(), pkg("1.75.0", &[("x", true), ("y", false)]))],
        profiles: vec![],
    };
    let profile = strings(&["rustc"]);
    let ignored = strings(&[]);
    let targets = strings(&["x", "y"]);
    let first = filter_manifest(&m, &profile, &ignored, &targets);
    let second = filter_manifest(&m, &profile, &ignored, &targets);
    assert_eq!(first, second);
    assert!(!first);
}

#[test]
fn empty_target_set_is_viable() {
    let m = Manifest {
        date: sample_date(),
        packages: vec![("rustc".to_string(), pkg("1.75.0", &[("x", false)]))],
        profiles: vec![],
    };
    assert!(filter_manifest(&m, &strings(&["rustc"]), &strings(&[]), &strings(&[])));
}
