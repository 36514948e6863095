use viable_toolchain::date::Date;
use viable_toolchain::manifest::{Manifest, PackageInfo, PackageTargets};
use viable_toolchain::platform::{TargetSelection, ignored_packages, selected_targets, tier1_targets};
use viable_toolchain::search::{FetchEvent, Outcome, Profile, Request, Resolver};

fn date(year: u32, month: u32, day: u32) -> Date {
    Date { year, month, day }
}

fn pkg_all_available(version: &str, targets: &[String]) -> PackageTargets {
    PackageTargets {
        version: version.to_string(),
        targets: targets
            .iter()
            .map(|t| (t.clone(), PackageInfo { available: true }))
            .collect(),
    }
}

fn default_profile_manifest(d: Date) -> Manifest {
    let targets = tier1_targets();
    Manifest {
        date: d,
        packages: vec![
            ("rustc".to_string(), pkg_all_available("1.75.0 (abcdef 2024-01-09)", &targets)),
            ("rust-std".to_string(), pkg_all_available("1.75.0 (abcdef 2024-01-09)", &targets)),
            ("cargo".to_string(), pkg_all_available("1.75.0 (abcdef 2024-01-09)", &targets)),
        ],
        profiles: vec![
            ("minimal".to_string(), vec!["rustc".to_string()]),
            (
                "default".to_string(),
                vec!["rustc".to_string(), "rust-std".to_string(), "cargo".to_string()],
            ),
        ],
    }
}

/// The latest manifest of scenario A: "rustc" is unavailable for
/// x86_64-unknown-linux-gnu on 2024-01-10.
fn broken_latest_manifest() -> Manifest {
    let mut m = default_profile_manifest(date(2024, 1, 10));
    for (name, pt) in m.packages.iter_mut() {
        if name == "rustc" {
            for (t, info) in pt.targets.iter_mut() {
                if t == "x86_64-unknown-linux-gnu" {
                    info.available = false;
                }
            }
        }
    }
    m
}

fn new_default_resolver(max_age: usize) -> Resolver {
    Resolver::new(
        Profile::Default,
        max_age,
        ignored_packages(TargetSelection::All, "x86_64-unknown-linux-gnu"),
        selected_targets(TargetSelection::All, "x86_64-unknown-linux-gnu"),
    )
}

#[test]
fn latest_viable_manifest_is_taken_at_once() {
    let mut r = new_default_resolver(90);
    assert_eq!(r.current_request(), Some(Request::Latest));
    let out = r.step(FetchEvent::Manifest(default_profile_manifest(date(2024, 1, 10))));
    match out {
        Some(Outcome::Viable(m)) => assert_eq!(m.date, date(2024, 1, 10)),
        _ => panic!("expected the latest manifest to be chosen"),
    }
    assert_eq!(r.current_request(), None);
}

#[test]
fn broken_latest_falls_back_one_day() {
    // Scenario: the 2024-01-10 manifest has "rustc" unavailable on one
    // Tier-1 target; 2024-01-09 is fully available.
    let mut r = new_default_resolver(90);
    let mut fetches: usize = 0;

    assert_eq!(r.current_request(), Some(Request::Latest));
    fetches += 1;
    let out = r.step(FetchEvent::Manifest(broken_latest_manifest()));
    assert!(out.is_none());

    assert_eq!(r.current_request(), Some(Request::Dated(date(2024, 1, 9))));
    fetches += 1;
    let out = r.step(FetchEvent::Manifest(default_profile_manifest(date(2024, 1, 9))));
    match out {
        Some(Outcome::Viable(m)) => assert_eq!(m.date, date(2024, 1, 9)),
        _ => panic!("expected the 2024-01-09 manifest to be chosen"),
    }

    // Short-circuit: no further request once a viable manifest is found;
    // in particular 2024-01-08 is never asked for.
    assert_eq!(r.current_request(), None);
    assert_eq!(fetches, 2);
}

#[test]
fn absent_date_is_skipped() {
    let mut r = new_default_resolver(90);
    let out = r.step(FetchEvent::Manifest(broken_latest_manifest()));
    assert!(out.is_none());
    assert_eq!(r.current_request(), Some(Request::Dated(date(2024, 1, 9))));
    let out = r.step(FetchEvent::Absent);
    assert!(out.is_none());
    assert_eq!(r.current_request(), Some(Request::Dated(date(2024, 1, 8))));
    let out = r.step(FetchEvent::Manifest(default_profile_manifest(date(2024, 1, 8))));
    match out {
        Some(Outcome::Viable(m)) => assert_eq!(m.date, date(2024, 1, 8)),
        _ => panic!("expected the 2024-01-08 manifest to be chosen"),
    }
}

#[test]
fn search_crosses_month_and_year_boundaries() {
    let mut r = new_default_resolver(90);
    let out = r.step(FetchEvent::Manifest({
        let mut m = broken_latest_manifest();
        m.date = date(2024, 1, 1);
        m
    }));
    assert!(out.is_none());
    assert_eq!(r.current_request(), Some(Request::Dated(date(2023, 12, 31))));
}

#[test]
fn no_viable_build_within_max_age() {
    // Scenario: nothing within max_age days of the anchor is viable.
    let mut r = new_default_resolver(3);
    let out = r.step(FetchEvent::Manifest(broken_latest_manifest()));
    assert!(out.is_none());
    let mut m9 = broken_latest_manifest();
    m9.date = date(2024, 1, 9);
    assert_eq!(r.current_request(), Some(Request::Dated(date(2024, 1, 9))));
    let out = r.step(FetchEvent::Manifest(m9));
    assert!(out.is_none());
    assert_eq!(r.current_request(), Some(Request::Dated(date(2024, 1, 8))));
    let out = r.step(FetchEvent::Absent);
    match out {
        Some(Outcome::NoViable) => {},
        _ => panic!("expected a negative result, not an error"),
    }
    assert_eq!(r.current_request(), None);
}

#[test]
fn max_age_one_checks_only_the_anchor() {
    let mut r = new_default_resolver(1);
    let out = r.step(FetchEvent::Manifest(broken_latest_manifest()));
    match out {
        Some(Outcome::NoViable) => {},
        _ => panic!("expected a negative result after the anchor alone"),
    }
}

#[test]
fn missing_latest_manifest_is_fatal() {
    // Scenario: the "latest" URL answers not-found.
    let mut r = new_default_resolver(90);
    let out = r.step(FetchEvent::Absent);
    match out {
        Some(Outcome::NoLatest) => {},
        _ => panic!("expected the missing latest manifest to be fatal"),
    }
    assert_eq!(r.current_request(), None);
}

#[test]
fn failed_fetch_aborts_the_search() {
    let mut r = new_default_resolver(90);
    let out = r.step(FetchEvent::Manifest(broken_latest_manifest()));
    assert!(out.is_none());
    let out = r.step(FetchEvent::Failed);
    match out {
        Some(Outcome::FetchFailed) => {},
        _ => panic!("expected a hard failure to abort the search"),
    }
    assert_eq!(r.current_request(), None);
}

#[test]
fn unknown_profile_is_fatal() {
    let mut r = Resolver::new(
        Profile::Complete,
        90,
        ignored_packages(TargetSelection::All, "x86_64-unknown-linux-gnu"),
        selected_targets(TargetSelection::All, "x86_64-unknown-linux-gnu"),
    );
    // The sample manifests declare only "minimal" and "default".
    let out = r.step(FetchEvent::Manifest(default_profile_manifest(date(2024, 1, 10))));
    match out {
        Some(Outcome::UnknownProfile) => {},
        _ => panic!("expected an unknown profile to be fatal"),
    }
}

#[test]
fn minimal_profile_ignores_other_packages() {
    // Only "rustc" belongs to "minimal": breaking "cargo" does not matter.
    let mut m = default_profile_manifest(date(2024, 1, 10));
    for (name, pt) in m.packages.iter_mut() {
        if name == "cargo" {
            for (_, info) in pt.targets.iter_mut() {
                info.available = false;
            }
        }
    }
    let mut r = Resolver::new(
        Profile::Minimal,
        90,
        ignored_packages(TargetSelection::All, "x86_64-unknown-linux-gnu"),
        selected_targets(TargetSelection::All, "x86_64-unknown-linux-gnu"),
    );
    let out = r.step(FetchEvent::Manifest(m));
    match out {
        Some(Outcome::Viable(found)) => assert_eq!(found.date, date(2024, 1, 10)),
        _ => panic!("expected the minimal profile to accept the manifest"),
    }
}

#[test]
fn current_target_mode_ignores_other_targets() {
    // "rustc" is broken on linux only; searching for the windows-msvc
    // target alone still accepts the manifest.
    let mut r = Resolver::new(
        Profile::Default,
        90,
        ignored_packages(TargetSelection::Current, "x86_64-pc-windows-msvc"),
        selected_targets(TargetSelection::Current, "x86_64-pc-windows-msvc"),
    );
    let out = r.step(FetchEvent::Manifest(broken_latest_manifest()));
    match out {
        Some(Outcome::Viable(m)) => assert_eq!(m.date, date(2024, 1, 10)),
        _ => panic!("expected the manifest to be viable for the current target"),
    }
}
