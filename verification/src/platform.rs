//! Static platform data: the Tier-1 target triples, and the base set
//! of globally-ignored packages, narrowed to the platforms where each
//! is actually expected to exist when only the current build target is
//! in scope.

use vstd::prelude::*;
use vstd::string::StringExecFns;
use crate::manifest::names;

verus! {

/// Which targets the filter considers: every Tier-1 platform, or only
/// the current build platform.
#[derive(Clone, Copy, PartialEq, Eq, Structural, Debug)]
pub enum TargetSelection {
    All,
    Current,
}

/// The officially supported Tier-1 target triples.
pub open spec fn tier1_spec() -> Seq<Seq<char>> {
    seq![
        "aarch64-apple-darwin"@,
        "aarch64-pc-windows-msvc"@,
        "aarch64-unknown-linux-gnu"@,
        "i686-pc-windows-msvc"@,
        "i686-unknown-linux-gnu"@,
        "x86_64-pc-windows-gnu"@,
        "x86_64-pc-windows-msvc"@,
        "x86_64-unknown-linux-gnu"@,
    ]
}

/// The Tier-1 target triples as owned strings.
pub fn tier1_targets() -> (r: Vec<String>)
    ensures
        names(r@) == tier1_spec(),
{
    let mut r: Vec<String> = Vec::new();
    r.push(String::from_str("aarch64-apple-darwin"));
    r.push(String::from_str("aarch64-pc-windows-msvc"));
    r.push(String::from_str("aarch64-unknown-linux-gnu"));
    r.push(String::from_str("i686-pc-windows-msvc"));
    r.push(String::from_str("i686-unknown-linux-gnu"));
    r.push(String::from_str("x86_64-pc-windows-gnu"));
    r.push(String::from_str("x86_64-pc-windows-msvc"));
    r.push(String::from_str("x86_64-unknown-linux-gnu"));
    proof {
        assert(names(r@) =~= tier1_spec());
    }
    r
}

/// The packages ignored by default: a debugger preview component and
/// the alternate MinGW packaging, which upstream publishes only for
/// some platforms.
pub open spec fn base_ignored_spec() -> Seq<Seq<char>> {
    seq!["lldb-preview"@, "rust-mingw"@]
}

/// The ignored-package set for a target selection: with every Tier-1
/// target in scope both base packages are ignored; with only the
/// current platform in scope, a package expected to exist there is no
/// longer ignored.
pub open spec fn ignored_spec(mode: TargetSelection, current: Seq<char>) -> Seq<Seq<char>> {
    match mode {
        TargetSelection::All => base_ignored_spec(),
        TargetSelection::Current => if current == "i686-apple-darwin"@ || current
            == "x86_64-apple-darwin"@ {
            seq!["rust-mingw"@]
        } else if current == "i686-pc-windows-gnu"@ || current == "x86_64-pc-windows-gnu"@ {
            seq!["lldb-preview"@]
        } else {
            base_ignored_spec()
        },
    }
}

/// Computes the ignored-package set for a target selection and the
/// current build target.
pub fn ignored_packages(mode: TargetSelection, current_target: &str) -> (r: Vec<String>)
    ensures
        names(r@) == ignored_spec(mode, current_target@),
{
    let lldb = String::from_str("lldb-preview");
    let mingw = String::from_str("rust-mingw");
    let ct = current_target.to_owned();
    let mut r: Vec<String> = Vec::new();
    match mode {
        TargetSelection::All => {
            r.push(lldb);
            r.push(mingw);
            proof {
                assert(names(r@) =~= base_ignored_spec());
            }
        },
        TargetSelection::Current => {
            if ct == String::from_str("i686-apple-darwin") || ct == String::from_str(
                "x86_64-apple-darwin",
            ) {
                r.push(mingw);
                proof {
                    assert(names(r@) =~= seq!["rust-mingw"@]);
                }
            } else if ct == String::from_str("i686-pc-windows-gnu") || ct == String::from_str(
                "x86_64-pc-windows-gnu",
            ) {
                r.push(lldb);
                proof {
                    assert(names(r@) =~= seq!["lldb-preview"@]);
                }
            } else {
                r.push(lldb);
                r.push(mingw);
                proof {
                    assert(names(r@) =~= base_ignored_spec());
                }
            }
        },
    }
    r
}

/// The targets the filter works over: every Tier-1 triple, or only the
/// current build target.
pub fn selected_targets(mode: TargetSelection, current_target: &str) -> (r: Vec<String>)
    ensures
        names(r@) == match mode {
            TargetSelection::All => tier1_spec(),
            TargetSelection::Current => seq![current_target@],
        },
{
    match mode {
        TargetSelection::All => tier1_targets(),
        TargetSelection::Current => {
            let mut r: Vec<String> = Vec::new();
            r.push(current_target.to_owned());
            proof {
                assert(names(r@) =~= seq![current_target@]);
            }
            r
        },
    }
}

} // verus!
