//! The reporter: a fixed-cadence loop over the shared counters. Every tick
//! it renders the last-sampled windows and the lifetime totals; every 20
//! ticks (one second) it samples and resets the per-second request counter;
//! every 60th one-second boundary it samples and resets the per-minute
//! discovery counter. Lifetime totals are never reset.

use vstd::prelude::*;
use crate::stats::Stats;
use crate::text::status_line;
use crate::text::status_line_spec;

verus! {

/// Ticks per one-second boundary, at the fixed 50ms cadence.
pub const TICKS_PER_SECOND: u64 = 20;

/// One-second boundaries per one-minute boundary.
pub const SECONDS_PER_MINUTE: u64 = 60;

/// Whether a tick count lands on a one-second boundary.
pub open spec fn at_second_boundary(ticks: u64) -> bool {
    ticks % TICKS_PER_SECOND == 0
}

/// Whether a second count lands on a one-minute boundary.
pub open spec fn at_minute_boundary(seconds: u64) -> bool {
    seconds % SECONDS_PER_MINUTE == 0
}

/// The reporter's own state: elapsed time and the displayed window caches.
pub struct Reporter {
    /// Ticks taken so far.
    pub ticks: u64,
    /// One-second boundaries passed so far.
    pub elapsed_seconds: u64,
    /// The per-second request count sampled at the last one-second boundary.
    pub cached_requests_per_second: u64,
    /// The per-minute discovery count sampled at the last one-minute
    /// boundary.
    pub cached_found_per_minute: u64,
}

impl Reporter {
    /// A fresh reporter: no time elapsed, nothing sampled yet.
    pub fn new() -> (r: Self)
        ensures
            r.ticks == 0,
            r.elapsed_seconds == 0,
            r.cached_requests_per_second == 0,
            r.cached_found_per_minute == 0,
    {
        Reporter {
            ticks: 0,
            elapsed_seconds: 0,
            cached_requests_per_second: 0,
            cached_found_per_minute: 0,
        }
    }

    /// One 50ms tick. At a one-second boundary the per-second request
    /// counter is copied into the displayed cache and zeroed, so the display
    /// equals exactly the increments since the previous boundary; at a
    /// one-minute boundary the per-minute discovery counter is sampled the
    /// same way. Off a boundary, nothing changes but the tick count. The
    /// lifetime totals are never touched.
    pub fn tick(&mut self, stats: &mut Stats)
        requires
            old(self).ticks < u64::MAX,
            old(self).elapsed_seconds < u64::MAX,
        ensures
            final(self).ticks == old(self).ticks + 1,
            final(stats).total_requests == old(stats).total_requests,
            final(stats).total_found == old(stats).total_found,
            at_second_boundary(final(self).ticks) ==> {
                &&& final(self).elapsed_seconds == old(self).elapsed_seconds + 1
                &&& final(self).cached_requests_per_second == old(stats).requests_this_second
                &&& final(stats).requests_this_second == 0
            },
            !at_second_boundary(final(self).ticks) ==> {
                &&& final(self).elapsed_seconds == old(self).elapsed_seconds
                &&& final(self).cached_requests_per_second == old(
                    self,
                ).cached_requests_per_second
                &&& final(stats).requests_this_second == old(stats).requests_this_second
            },
            (at_second_boundary(final(self).ticks) && at_minute_boundary(
                final(self).elapsed_seconds,
            )) ==> {
                &&& final(self).cached_found_per_minute == old(stats).found_this_minute
                &&& final(stats).found_this_minute == 0
            },
            !(at_second_boundary(final(self).ticks) && at_minute_boundary(
                final(self).elapsed_seconds,
            )) ==> {
                &&& final(self).cached_found_per_minute == old(self).cached_found_per_minute
                &&& final(stats).found_this_minute == old(stats).found_this_minute
            },
    {
        self.ticks = self.ticks + 1;
        if self.ticks % TICKS_PER_SECOND == 0 {
            self.elapsed_seconds = self.elapsed_seconds + 1;
            if self.elapsed_seconds % SECONDS_PER_MINUTE == 0 {
                self.cached_found_per_minute = stats.sample_reset_minute();
            }
            self.cached_requests_per_second = stats.sample_reset_second();
        }
    }

    /// Renders the operator status line from the cached windows and the live
    /// lifetime totals.
    pub fn render(&self, stats: &Stats) -> (line: String)
        ensures
            line@ == status_line_spec(
                self.cached_requests_per_second,
                self.cached_found_per_minute,
                self.elapsed_seconds,
                stats.total_requests,
                stats.total_found,
            ),
    {
        status_line(
            self.cached_requests_per_second,
            self.cached_found_per_minute,
            self.elapsed_seconds,
            stats.total_requests,
            stats.total_found,
        )
    }
}

} // verus!
