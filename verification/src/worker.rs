//! The background update worker.
//!
//! A worker is a long-lived task that polls the artifact repository on a
//! throttled schedule and publishes at most one eligible package per
//! mission on a rendezvous channel. The caller owns the thread, the
//! clock, the sleeps and the installer; the decisions — what to ask the
//! installer for, whether a result is eligible, when the next attempt is
//! due — live here as verified functions on plain values.
//!
//! A worker runs one of two missions:
//!
//! * *chase-latest*: ask for the best package matching the spec identity
//!   and emit it only if it is strictly newer than `current`;
//! * *fetch-exact*: install one exact fully qualified identity — the one
//!   the update leader has — and emit whatever was installed.

use crate::ident::{IdentView, PackageIdent};
use crate::period::{effective_period, spec_effective};
use crate::service::Service;
use vstd::prelude::*;

verus! {

/// What a worker is to do with its polling iterations.
#[derive(Debug)]
pub enum Mission {
    /// Poll for ever-newer packages matching the worker's spec identity.
    ChaseLatest,
    /// Install exactly this fully qualified identity, then stop.
    FetchExact(PackageIdent),
}

/// The mathematical value of a mission.
pub ghost enum MissionView {
    ChaseLatest,
    FetchExact(IdentView),
}

impl View for Mission {
    type V = MissionView;

    open spec fn view(&self) -> MissionView {
        match self {
            Mission::ChaseLatest => MissionView::ChaseLatest,
            Mission::FetchExact(ident) => MissionView::FetchExact(ident@),
        }
    }
}

/// The mathematical value of a worker.
#[verifier::ext_equal]
pub ghost struct WorkerView {
    pub current: IdentView,
    pub spec_ident: IdentView,
    pub builder_url: Seq<char>,
    pub channel: Seq<char>,
}

impl WorkerView {
    /// The same worker with another last-known installed identity.
    pub open spec fn with_current(self, ident: IdentView) -> WorkerView {
        WorkerView { current: ident, ..self }
    }

    /// The worker that watches `service`.
    pub open spec fn of_service(service: crate::service::ServiceView) -> WorkerView {
        WorkerView {
            current: service.pkg_ident,
            spec_ident: service.spec_ident,
            builder_url: service.bldr_url,
            channel: service.channel,
        }
    }
}

/// One update worker: the last-known installed identity, the identity it
/// follows, and where to look for new packages.
#[derive(Debug)]
pub struct Worker {
    pub current: PackageIdent,
    pub spec_ident: PackageIdent,
    pub builder_url: String,
    pub channel: String,
}

impl View for Worker {
    type V = WorkerView;

    open spec fn view(&self) -> WorkerView {
        WorkerView {
            current: self.current@,
            spec_ident: self.spec_ident@,
            builder_url: self.builder_url@,
            channel: self.channel@,
        }
    }
}

impl Worker {
    /// A worker for the given service, starting from what the service has
    /// installed.
    pub fn new(service: &Service) -> (w: Worker)
        ensures
            w@ == WorkerView::of_service(service@),
    {
        let w = Worker {
            current: service.pkg_ident.duplicate(),
            spec_ident: service.spec_ident.duplicate(),
            builder_url: service.bldr_url.clone(),
            channel: service.channel.clone(),
        };
        proof {
            assert(w@ =~= WorkerView::of_service(service@));
        }
        w
    }

    /// The polling period in force right now, in milliseconds, from the
    /// current values of the two environment variables: the period
    /// variable's value (`None` when unset) and whether the bypass
    /// variable is set. Re-read before every attempt so operator changes
    /// take effect.
    pub fn update_period(&self, period_var: Option<&str>, bypass_set: bool) -> (ms: u32)
        ensures
            ms == spec_effective(
                match period_var {
                    Some(s) => Some(s@),
                    None => None,
                },
                bypass_set,
            ),
    {
        effective_period(period_var, bypass_set)
    }

    /// One chase-latest iteration, given what the installer returned:
    /// the best package matching the spec identity, or `None` when the
    /// install attempt failed (failures are retried for ever).
    ///
    /// The package is emitted, and `current` advanced, exactly when it is
    /// strictly newer than `current`; an older or equal package is
    /// dropped and `current` is untouched.
    pub fn poll_step(&mut self, found: Option<PackageIdent>) -> (emit: Option<PackageIdent>)
        requires
            old(self)@.current.is_fully_qualified(),
            found matches Some(p) ==> p@.is_fully_qualified() && p@.same_base(
                old(self)@.current,
            ),
        ensures
            match found {
                Some(p) => {
                    if old(self)@.current.before(p@) {
                        &&& final(self)@ == old(self)@.with_current(p@)
                        &&& emit == found
                    } else {
                        &&& final(self)@ == old(self)@
                        &&& emit is None
                    }
                },
                None => {
                    &&& final(self)@ == old(self)@
                    &&& emit is None
                },
            },
    {
        match found {
            Some(p) => {
                if self.current.before(&p) {
                    self.current = p.duplicate();
                    proof {
                        assert(self@ =~= old(self)@.with_current(p@));
                    }
                    Some(p)
                } else {
                    None
                }
            },
            None => None,
        }
    }

    /// One fetch-exact iteration, given what the installer returned for
    /// the exact target identity: the installed package, or `None` when
    /// the install attempt failed (failures are retried for ever).
    ///
    /// Success is emitted unconditionally — the mission is to match the
    /// leader exactly, not to move forward — and `current` records it.
    pub fn fetch_exact_step(&mut self, installed: Option<PackageIdent>) -> (emit: Option<
        PackageIdent,
    >)
        ensures
            match installed {
                Some(p) => {
                    &&& final(self)@ == old(self)@.with_current(p@)
                    &&& emit == installed
                },
                None => {
                    &&& final(self)@ == old(self)@
                    &&& emit is None
                },
            },
    {
        match installed {
            Some(p) => {
                self.current = p.duplicate();
                proof {
                    assert(self@ =~= old(self)@.with_current(p@));
                }
                Some(p)
            },
            None => None,
        }
    }
}

/// When the attempt after one starting now is due: the attempt's start
/// plus the period, saturating at the far end of the clock.
pub fn next_period_start(now_ms: u64, period_ms: u32) -> (next: u64)
    ensures
        next == if now_ms + period_ms <= u64::MAX {
            now_ms + period_ms
        } else {
            u64::MAX as int
        },
{
    if now_ms <= u64::MAX - period_ms as u64 {
        now_ms + period_ms as u64
    } else {
        u64::MAX
    }
}

/// How long to sleep from `now_ms` until `next_ms`: never a negative
/// interval.
pub fn sleep_interval(now_ms: u64, next_ms: u64) -> (ms: u64)
    ensures
        ms == if next_ms > now_ms {
            next_ms - now_ms
        } else {
            0
        },
{
    if next_ms > now_ms {
        next_ms - now_ms
    } else {
        0
    }
}

} // verus!
