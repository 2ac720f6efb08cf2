//! How long ago the cache was last replaced.

use crate::cache::Cache;
use crate::error::TealdeerError;
use vstd::prelude::*;

verus! {

/// The nanoseconds of one second.
pub const NANOS_PER_SEC: u32 = 1_000_000_000;

/// A length of time, in whole seconds and the nanoseconds of the second
/// begun. A point in time is written as the time since the Unix epoch.
#[derive(Clone, Copy, Debug, PartialEq, Eq)]
pub struct TimeSpan {
    secs: u64,
    nanos: u32,
}

impl View for TimeSpan {
    type V = nat;

    /// The length in nanoseconds.
    closed spec fn view(&self) -> nat {
        (self.secs * NANOS_PER_SEC + self.nanos) as nat
    }
}

impl TimeSpan {
    #[verifier::type_invariant]
    spec fn well_formed(self) -> bool {
        self.nanos < NANOS_PER_SEC
    }

    /// The span of `secs` seconds and `nanos` nanoseconds, where `nanos`
    /// is less than a second.
    pub fn new(secs: u64, nanos: u32) -> (span: Option<TimeSpan>)
        ensures
            span is Some <==> nanos < NANOS_PER_SEC,
            span is Some ==> span->0@ == secs * NANOS_PER_SEC + nanos,
    {
        if nanos < NANOS_PER_SEC {
            Some(TimeSpan { secs, nanos })
        } else {
            None
        }
    }

    /// The whole seconds.
    pub fn secs(&self) -> (secs: u64)
        ensures
            secs == self@ / (NANOS_PER_SEC as nat),
    {
        proof {
            use_type_invariant(self);
        }
        self.secs
    }

    /// The nanoseconds of the second begun.
    pub fn subsec_nanos(&self) -> (nanos: u32)
        ensures
            nanos == self@ % (NANOS_PER_SEC as nat),
    {
        proof {
            use_type_invariant(self);
        }
        self.nanos
    }

    /// The time from `earlier` to `self`, or `None` where `earlier` is the
    /// later of the two.
    pub fn since(&self, earlier: &TimeSpan) -> (span: Option<TimeSpan>)
        ensures
            span is Some <==> earlier@ <= self@,
            span is Some ==> span->0@ == self@ - earlier@,
    {
        proof {
            use_type_invariant(self);
            use_type_invariant(earlier);
        }
        if self.secs < earlier.secs || (self.secs == earlier.secs && self.nanos < earlier.nanos) {
            None
        } else if self.nanos >= earlier.nanos {
            Some(TimeSpan { secs: self.secs - earlier.secs, nanos: self.nanos - earlier.nanos })
        } else {
            Some(
                TimeSpan {
                    secs: self.secs - earlier.secs - 1,
                    nanos: self.nanos + (NANOS_PER_SEC - earlier.nanos),
                },
            )
        }
    }
}

/// The age of the cache: the time from the last change of the unpacked
/// archive to now. There is none without a cache root, without a time of
/// change, or where that time lies after now.
pub open spec fn cache_age(located: bool, modified: Option<nat>, now: nat) -> Option<nat> {
    if located && modified is Some && modified->0 <= now {
        Some((now - modified->0) as nat)
    } else {
        None
    }
}

/// The length of an optional span.
pub open spec fn optional_span(s: Option<TimeSpan>) -> Option<nat> {
    match s {
        Some(s) => Some(s@),
        None => None,
    }
}

/// A cache that was never filled has no age, and one that was changed just
/// now has the age zero.
pub proof fn lemma_cache_age_edges(located: bool, now: nat)
    ensures
        cache_age(located, None, now) is None,
        cache_age(false, Some(now), now) is None,
        cache_age(true, Some(now), now) == Some(0nat),
{
}

impl Cache {
    /// The time since the cache was last replaced.
    ///
    /// `cache_dir` is the outcome of locating the cache; `modified` is when
    /// the directory that the archive unpacks to was last changed, or
    /// `None` where it does not exist or does not tell; `now` is the
    /// present. No failure is reported: there is an age or there is none.
    pub fn last_update<P>(
        cache_dir: &Result<P, TealdeerError>,
        modified: Option<TimeSpan>,
        now: TimeSpan,
    ) -> (age: Option<TimeSpan>)
        ensures
            optional_span(age) == cache_age(cache_dir is Ok, optional_span(modified), now@),
    {
        if cache_dir.is_err() {
            return None;
        }
        match modified {
            Some(modified) => now.since(&modified),
            None => None,
        }
    }
}

} // verus!
