//! Deriving a toolchain name from the chosen manifest: a bare
//! `MAJOR.MINOR.PATCH` version for default stable lookups, and a
//! channel-plus-date identifier otherwise.

use vstd::prelude::*;
use vstd::string::StrSliceExecFns;
use vstd::string::StringExecFns;
use crate::date::{Date, valid_date};
use crate::manifest::{Manifest, assoc, find_package};

verus! {

pub open spec fn is_digit(c: char) -> bool {
    '0' <= c && c <= '9'
}

/// The position right after the maximal run of digits starting at `i`.
pub open spec fn digit_run_end(s: Seq<char>, i: int) -> int
    decreases s.len() - i,
{
    if i < 0 || i >= s.len() || !is_digit(s[i]) {
        i
    } else {
        digit_run_end(s, i + 1)
    }
}

/// Where the leading `MAJOR.MINOR.PATCH` pattern of a version string
/// ends, if the string starts with one: three nonempty digit runs
/// separated by dots, each run taken as long as possible.
pub open spec fn version_prefix_end(s: Seq<char>) -> Option<int> {
    let a = digit_run_end(s, 0);
    if a == 0 || a >= s.len() || s[a] != '.' {
        None
    } else {
        let b = digit_run_end(s, a + 1);
        if b == a + 1 || b >= s.len() || s[b] != '.' {
            None
        } else {
            let c = digit_run_end(s, b + 1);
            if c == b + 1 {
                None
            } else {
                Some(c)
            }
        }
    }
}

/// The leading numeric version of a version string, with any trailing
/// pre-release or build suffix discarded.
pub open spec fn version_prefix(s: Seq<char>) -> Option<Seq<char>> {
    match version_prefix_end(s) {
        Some(e) => Some(s.subrange(0, e)),
        None => None,
    }
}

/// Scans past the digits of `s` starting at `from`.
fn digit_run_end_exec(s: &str, from: usize, n: usize) -> (e: usize)
    requires
        from <= n,
        n == s@.len(),
    ensures
        from <= e <= n,
        e == digit_run_end(s@, from as int),
{
    let mut i: usize = from;
    while i < n
        invariant
            from <= i <= n,
            n == s@.len(),
            digit_run_end(s@, from as int) == digit_run_end(s@, i as int),
        decreases n - i,
    {
        let c = s.get_char(i);
        if !('0' <= c && c <= '9') {
            return i;
        }
        i += 1;
    }
    i
}

/// The leading `MAJOR.MINOR.PATCH` of a version string, if it starts
/// with one.
pub fn rust_version_prefix(s: &str) -> (r: Option<String>)
    ensures
        match version_prefix(s@) {
            Some(p) => r matches Some(v) && v@ == p,
            None => r is None,
        },
{
    let n: usize = s.unicode_len();
    let a: usize = digit_run_end_exec(s, 0, n);
    if a == 0 || a >= n || s.get_char(a) != '.' {
        return None;
    }
    let b: usize = digit_run_end_exec(s, a + 1, n);
    if b == a + 1 || b >= n || s.get_char(b) != '.' {
        return None;
    }
    let c: usize = digit_run_end_exec(s, b + 1, n);
    if c == b + 1 {
        return None;
    }
    let prefix = s.substring_char(0, c);
    Some(String::from_str(prefix))
}

/// The version the manifest's "rust" package carries, reduced to its
/// leading numeric pattern, if both exist.
pub open spec fn rust_version_of(m: Manifest) -> Option<Seq<char>> {
    match assoc(m.packages@, "rust"@) {
        Some(pt) => version_prefix(pt.version@),
        None => None,
    }
}

/// Looks up the "rust" package and extracts its numeric version.
pub fn get_rust_version(m: &Manifest) -> (r: Option<String>)
    ensures
        match rust_version_of(*m) {
            Some(p) => r matches Some(v) && v@ == p,
            None => r is None,
        },
{
    let key = String::from_str("rust");
    match find_package(m, &key) {
        Some(pt) => rust_version_prefix(pt.version.as_str()),
        None => None,
    }
}

pub open spec fn digit_char(d: int) -> char {
    if d == 0 {
        '0'
    } else if d == 1 {
        '1'
    } else if d == 2 {
        '2'
    } else if d == 3 {
        '3'
    } else if d == 4 {
        '4'
    } else if d == 5 {
        '5'
    } else if d == 6 {
        '6'
    } else if d == 7 {
        '7'
    } else if d == 8 {
        '8'
    } else {
        '9'
    }
}

/// The fixed-width ISO rendering of a date: `YYYY-MM-DD`.
pub open spec fn date_chars(d: Date) -> Seq<char> {
    seq![
        digit_char(d.year as int / 1000),
        digit_char((d.year as int / 100) % 10),
        digit_char((d.year as int / 10) % 10),
        digit_char(d.year as int % 10),
        '-',
        digit_char(d.month as int / 10),
        digit_char(d.month as int % 10),
        '-',
        digit_char(d.day as int / 10),
        digit_char(d.day as int % 10),
    ]
}

/// One decimal digit as a one-character string.
fn digit_str(d: u32) -> (r: &'static str)
    requires
        d <= 9,
    ensures
        r@ =~= seq![digit_char(d as int)],
{
    proof {
        reveal_strlit("0");
        reveal_strlit("1");
        reveal_strlit("2");
        reveal_strlit("3");
        reveal_strlit("4");
        reveal_strlit("5");
        reveal_strlit("6");
        reveal_strlit("7");
        reveal_strlit("8");
        reveal_strlit("9");
    }
    match d {
        0 => "0",
        1 => "1",
        2 => "2",
        3 => "3",
        4 => "4",
        5 => "5",
        6 => "6",
        7 => "7",
        8 => "8",
        _ => "9",
    }
}

/// Renders a date in its fixed-width ISO form.
pub fn render_date(d: Date) -> (r: String)
    requires
        valid_date(d),
    ensures
        r@ == date_chars(d),
{
    let mut out = String::new();
    out.append(digit_str(d.year / 1000));
    out.append(digit_str((d.year / 100) % 10));
    out.append(digit_str((d.year / 10) % 10));
    out.append(digit_str(d.year % 10));
    out.append("-");
    out.append(digit_str(d.month / 10));
    out.append(digit_str(d.month % 10));
    out.append("-");
    out.append(digit_str(d.day / 10));
    out.append(digit_str(d.day % 10));
    proof {
        reveal_strlit("-");
        assert(out@ =~= date_chars(d));
    }
    out
}

/// The name the resolver reports: the bare numeric version for a
/// default "stable" lookup whose manifest carries one, and
/// `channel-YYYY-MM-DD` otherwise.  Total: a missing version pattern
/// simply falls through to the date-stamped form.
pub open spec fn toolchain_name_spec(m: Manifest, channel: Seq<char>, force_date: bool) -> Seq<
    char,
> {
    if !force_date && channel == "stable"@ && rust_version_of(m) is Some {
        rust_version_of(m)->Some_0
    } else {
        channel + seq!['-'] + date_chars(m.date)
    }
}

/// Derives the toolchain name from a viable manifest.
pub fn make_toolchain_name(m: &Manifest, channel: &String, force_date: bool) -> (r: String)
    requires
        valid_date(m.date),
    ensures
        r@ == toolchain_name_spec(*m, channel@, force_date),
{
    let stable = String::from_str("stable");
    if !force_date && *channel == stable {
        if let Some(version) = get_rust_version(m) {
            return version;
        }
    }
    let mut out = String::from_str(channel.as_str());
    out.append("-");
    let date = render_date(m.date);
    out.append(date.as_str());
    proof {
        reveal_strlit("-");
        assert(out@ =~= channel@ + seq!['-'] + date_chars(m.date));
    }
    out
}

} // verus!
