//! The backward search over candidate dates, written as a step
//! machine: the resolver decides, the caller performs the fetches.
//!
//! The caller asks `current_request` which manifest to fetch, performs
//! the fetch, and hands the outcome back through `step`.  The search
//! starts at the channel's latest manifest, whose date anchors a walk
//! backward through the calendar, and stops at the first viable
//! manifest, newest first.

use vstd::prelude::*;
use crate::date::{Date, valid_date, prev_day_spec, prev_day};
use crate::filter::{is_viable, filter_manifest};
use crate::manifest::{Manifest, assoc, names, find_profile_index};

verus! {

/// A named bundle of packages expected together.
#[derive(Clone, Copy, PartialEq, Eq, Structural, Debug)]
pub enum Profile {
    Complete,
    Default,
    Minimal,
}

/// The profile's name as it appears in a manifest's profile table.
pub open spec fn profile_key(p: Profile) -> Seq<char> {
    match p {
        Profile::Complete => "complete"@,
        Profile::Default => "default"@,
        Profile::Minimal => "minimal"@,
    }
}

/// The profile's name as it appears in a manifest's profile table.
pub fn profile_name(p: Profile) -> (s: String)
    ensures
        s@ == profile_key(p),
{
    let key: &str = match p {
        Profile::Complete => "complete",
        Profile::Default => "default",
        Profile::Minimal => "minimal",
    };
    String::from_str(key)
}

/// What one fetch attempt came back with: a parsed manifest, a
/// "nothing published for that date" answer, or a hard failure
/// (network error, unexpected status, malformed body).
pub enum FetchEvent {
    Manifest(Manifest),
    Absent,
    Failed,
}

/// The fetch the resolver wants next: the channel's latest manifest,
/// or the manifest published on one specific date.
#[derive(Clone, Copy, PartialEq, Eq, Structural, Debug)]
pub enum Request {
    Latest,
    Dated(Date),
}

/// How the search ended.
pub enum Outcome {
    /// The most recent viable manifest.
    Viable(Manifest),
    /// Every candidate date was examined and none was viable; a normal
    /// negative result, not a defect.
    NoViable,
    /// The channel has no latest manifest at all.
    NoLatest,
    /// The latest manifest does not declare the requested profile.
    UnknownProfile,
    /// A fetch failed hard; the search aborts immediately.
    FetchFailed,
}

/// Where the search stands.
pub enum Phase {
    /// Waiting for the channel's latest manifest.
    AwaitLatest,
    /// Waiting for the manifest of `date`, which lies `age` days before
    /// the anchor; `pkgs` is the profile's package list, resolved once
    /// from the latest manifest.
    AwaitDated { pkgs: Vec<String>, date: Date, age: usize },
    /// The search is over.
    Finished,
}

/// The backward-search state machine.
pub struct Resolver {
    pub profile: Profile,
    pub max_age: usize,
    pub ignored: Vec<String>,
    pub targets: Vec<String>,
    pub phase: Phase,
}

/// A manifest handed to the resolver carries a valid calendar date.
pub open spec fn event_wf(e: FetchEvent) -> bool {
    e matches FetchEvent::Manifest(m) ==> valid_date(m.date)
}

/// Moving to the next (older) candidate date: ends the search with a
/// negative result once `max_age` dates are spent or the calendar runs
/// out, and otherwise awaits the previous day's manifest.
pub open spec fn advance(max_age: int, pkgs: Vec<String>, date: Date, age: int) -> (Phase, Option<
    Outcome,
>) {
    if age + 1 < max_age {
        match prev_day_spec(date) {
            Some(p) => (
                Phase::AwaitDated { pkgs, date: p, age: (age + 1) as usize },
                None::<Outcome>,
            ),
            None => (Phase::Finished, Some(Outcome::NoViable)),
        }
    } else {
        (Phase::Finished, Some(Outcome::NoViable))
    }
}

/// The whole transition relation of the search: the next phase and the
/// outcome, if the step ends the search.
pub open spec fn step_spec(r: Resolver, e: FetchEvent) -> (Phase, Option<Outcome>) {
    match r.phase {
        Phase::AwaitLatest => match e {
            FetchEvent::Absent => (Phase::Finished, Some(Outcome::NoLatest)),
            FetchEvent::Failed => (Phase::Finished, Some(Outcome::FetchFailed)),
            FetchEvent::Manifest(m) => match assoc(m.profiles@, profile_key(r.profile)) {
                None => (Phase::Finished, Some(Outcome::UnknownProfile)),
                Some(pkgs) => if is_viable(
                    m,
                    names(pkgs@),
                    names(r.ignored@),
                    names(r.targets@),
                ) {
                    (Phase::Finished, Some(Outcome::Viable(m)))
                } else {
                    advance(r.max_age as int, pkgs, m.date, 0)
                },
            },
        },
        Phase::AwaitDated { pkgs, date, age } => match e {
            FetchEvent::Failed => (Phase::Finished, Some(Outcome::FetchFailed)),
            FetchEvent::Absent => advance(r.max_age as int, pkgs, date, age as int),
            FetchEvent::Manifest(m) => if is_viable(
                m,
                names(pkgs@),
                names(r.ignored@),
                names(r.targets@),
            ) {
                (Phase::Finished, Some(Outcome::Viable(m)))
            } else {
                advance(r.max_age as int, pkgs, date, age as int)
            },
        },
        Phase::Finished => (Phase::Finished, None::<Outcome>),
    }
}

/// The fetch a phase calls for, if any.
pub open spec fn request_of(ph: Phase) -> Option<Request> {
    match ph {
        Phase::AwaitLatest => Some(Request::Latest),
        Phase::AwaitDated { date, .. } => Some(Request::Dated(date)),
        Phase::Finished => None,
    }
}

impl Resolver {
    /// The awaited date is always a valid calendar day within the age
    /// window.
    pub open spec fn inv(self) -> bool {
        self.phase matches Phase::AwaitDated { date, age, .. } ==> valid_date(date) && 1 <= age
            < self.max_age
    }

    pub open spec fn is_finished(self) -> bool {
        self.phase matches Phase::Finished
    }

    /// A fresh search: the first fetch it asks for is the channel's
    /// latest manifest.
    pub fn new(profile: Profile, max_age: usize, ignored: Vec<String>, targets: Vec<String>) -> (r:
        Resolver)
        ensures
            r.inv(),
            r.profile == profile,
            r.max_age == max_age,
            r.ignored == ignored,
            r.targets == targets,
            r.phase matches Phase::AwaitLatest,
    {
        Resolver { profile, max_age, ignored, targets, phase: Phase::AwaitLatest }
    }

    /// The fetch to perform next; `None` once the search is over, so a
    /// finished search never causes another request.
    pub fn current_request(&self) -> (r: Option<Request>)
        ensures
            r == request_of(self.phase),
    {
        match &self.phase {
            Phase::AwaitLatest => Some(Request::Latest),
            Phase::AwaitDated { date, .. } => Some(Request::Dated(*date)),
            Phase::Finished => None,
        }
    }

    /// Feeds the result of the requested fetch back into the search and
    /// takes one step of the transition relation.
    pub fn step(&mut self, e: FetchEvent) -> (out: Option<Outcome>)
        requires
            old(self).inv(),
            !old(self).is_finished(),
            event_wf(e),
        ensures
            final(self).inv(),
            final(self).profile == old(self).profile,
            final(self).max_age == old(self).max_age,
            final(self).ignored == old(self).ignored,
            final(self).targets == old(self).targets,
            final(self).phase == step_spec(*old(self), e).0,
            out == step_spec(*old(self), e).1,
            out is None ==> !final(self).is_finished(),
            out is Some ==> final(self).is_finished(),
    {
        let mut ph = Phase::Finished;
        core::mem::swap(&mut self.phase, &mut ph);
        match ph {
            Phase::AwaitLatest => match e {
                FetchEvent::Absent => Some(Outcome::NoLatest),
                FetchEvent::Failed => Some(Outcome::FetchFailed),
                FetchEvent::Manifest(m) => {
                    let key = profile_name(self.profile);
                    match find_profile_index(&m, &key) {
                        None => Some(Outcome::UnknownProfile),
                        Some(i) => {
                            if filter_manifest(&m, &m.profiles[i].1, &self.ignored, &self.targets) {
                                Some(Outcome::Viable(m))
                            } else {
                                let date = m.date;
                                let mut profiles = m.profiles;
                                let entry = profiles.remove(i);
                                self.advance_exec(entry.1, date, 0)
                            }
                        },
                    }
                },
            },
            Phase::AwaitDated { pkgs, date, age } => match e {
                FetchEvent::Failed => Some(Outcome::FetchFailed),
                FetchEvent::Absent => self.advance_exec(pkgs, date, age),
                FetchEvent::Manifest(m) => {
                    if filter_manifest(&m, &pkgs, &self.ignored, &self.targets) {
                        Some(Outcome::Viable(m))
                    } else {
                        self.advance_exec(pkgs, date, age)
                    }
                },
            },
            Phase::Finished => None,
        }
    }

    /// Steps to the next (older) candidate date, or ends the search
    /// with a negative result.
    fn advance_exec(&mut self, pkgs: Vec<String>, date: Date, age: usize) -> (out: Option<Outcome>)
        requires
            old(self).phase matches Phase::Finished,
            valid_date(date),
            age < old(self).max_age || age == 0,
        ensures
            final(self).profile == old(self).profile,
            final(self).max_age == old(self).max_age,
            final(self).ignored == old(self).ignored,
            final(self).targets == old(self).targets,
            final(self).phase == advance(old(self).max_age as int, pkgs, date, age as int).0,
            out == advance(old(self).max_age as int, pkgs, date, age as int).1,
            final(self).inv(),
    {
        if age + 1 < self.max_age {
            match prev_day(date) {
                Some(p) => {
                    self.phase = Phase::AwaitDated { pkgs, date: p, age: age + 1 };
                    proof {
                        crate::date::lemma_prev_day_valid(date);
                    }
                    None
                },
                None => Some(Outcome::NoViable),
            }
        } else {
            Some(Outcome::NoViable)
        }
    }
}

/// Short-circuit: once the search is waiting on a candidate date and a
/// viable manifest arrives, the step finishes with exactly that
/// manifest and the finished phase calls for no request, so no older
/// date is ever fetched afterwards.
pub proof fn lemma_short_circuit(r: Resolver, m: Manifest)
    requires
        r.inv(),
        r.phase matches Phase::AwaitDated { pkgs, .. } && is_viable(
            m,
            names(pkgs@),
            names(r.ignored@),
            names(r.targets@),
        ),
    ensures
        step_spec(r, FetchEvent::Manifest(m)).0 matches Phase::Finished,
        step_spec(r, FetchEvent::Manifest(m)).1 matches Some(o) && o matches Outcome::Viable(vm)
            && vm == m,
        request_of(step_spec(r, FetchEvent::Manifest(m)).0) is None,
{
}

/// The anchor itself is favored first: when the latest manifest is
/// already viable for its own profile table, the search finishes with
/// it at once, before any date-stamped fetch.
pub proof fn lemma_anchor_viable(r: Resolver, m: Manifest)
    requires
        r.inv(),
        r.phase matches Phase::AwaitLatest,
        assoc(m.profiles@, profile_key(r.profile)) matches Some(pkgs) && is_viable(
            m,
            names(pkgs@),
            names(r.ignored@),
            names(r.targets@),
        ),
    ensures
        step_spec(r, FetchEvent::Manifest(m)).0 matches Phase::Finished,
        step_spec(r, FetchEvent::Manifest(m)).1 matches Some(o) && o matches Outcome::Viable(vm)
            && vm == m,
        request_of(step_spec(r, FetchEvent::Manifest(m)).0) is None,
{
}

/// The search never passes over a viable manifest: if it goes on to an
/// older date after seeing a manifest, that manifest was not viable.
/// Together with the short-circuit law, the first result is always the
/// most recent viable date, never an older one.
pub proof fn lemma_never_skips_viable(r: Resolver, m: Manifest)
    requires
        r.inv(),
        r.phase matches Phase::AwaitDated { .. },
    ensures
        step_spec(r, FetchEvent::Manifest(m)).1 is None ==> (r.phase matches Phase::AwaitDated {
            pkgs,
            ..
        } && !is_viable(m, names(pkgs@), names(r.ignored@), names(r.targets@))),
{
}

/// Search ordering: when the latest manifest (date D) is not viable but
/// the manifest supplied for D-1 is, the resolver first asks for D-1
/// and then stops with the D-1 manifest; it never goes on to D-2.
pub proof fn lemma_search_ordering(r: Resolver, m0: Manifest, m1: Manifest)
    requires
        r.inv(),
        r.phase matches Phase::AwaitLatest,
        valid_date(m0.date),
        2 <= r.max_age,
        prev_day_spec(m0.date) is Some,
        assoc(m0.profiles@, profile_key(r.profile)) matches Some(pkgs) && !is_viable(
            m0,
            names(pkgs@),
            names(r.ignored@),
            names(r.targets@),
        ) && is_viable(m1, names(pkgs@), names(r.ignored@), names(r.targets@)),
    ensures
        step_spec(r, FetchEvent::Manifest(m0)).1 is None,
        request_of(step_spec(r, FetchEvent::Manifest(m0)).0) == Some(
            Request::Dated(prev_day_spec(m0.date)->Some_0),
        ),
        step_spec(
            Resolver { phase: step_spec(r, FetchEvent::Manifest(m0)).0, ..r },
            FetchEvent::Manifest(m1),
        ).0 matches Phase::Finished,
        step_spec(
            Resolver { phase: step_spec(r, FetchEvent::Manifest(m0)).0, ..r },
            FetchEvent::Manifest(m1),
        ).1 matches Some(o) && o matches Outcome::Viable(vm) && vm == m1,
{
}

} // verus!
