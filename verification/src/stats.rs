//! Throughput counters shared by the probing work and sampled by the
//! reporter: requests in the current second, discoveries in the current
//! minute, and the two lifetime totals. Lifetime totals only grow; the two
//! windowed counters are zeroed only by the reporter's sample-and-reset.

use vstd::prelude::*;

verus! {

/// The mathematical value of the four counters.
pub struct StatsView {
    /// Requests counted since the last one-second reset.
    pub requests_this_second: nat,
    /// Discoveries counted since the last one-minute reset.
    pub found_this_minute: nat,
    /// Requests counted over the whole process lifetime.
    pub total_requests: nat,
    /// Discoveries counted over the whole process lifetime.
    pub total_found: nat,
}

/// The four throughput counters.
pub struct Stats {
    /// Requests counted since the last one-second reset.
    pub requests_this_second: u64,
    /// Discoveries counted since the last one-minute reset.
    pub found_this_minute: u64,
    /// Requests counted over the whole process lifetime.
    pub total_requests: u64,
    /// Discoveries counted over the whole process lifetime.
    pub total_found: u64,
}

impl View for Stats {
    type V = StatsView;

    open spec fn view(&self) -> StatsView {
        StatsView {
            requests_this_second: self.requests_this_second as nat,
            found_this_minute: self.found_this_minute as nat,
            total_requests: self.total_requests as nat,
            total_found: self.total_found as nat,
        }
    }
}

/// What one classified outcome does to the counters: every outcome counts as
/// one request, a successful one also as one discovery.
pub open spec fn record_one(s: StatsView, success: bool) -> StatsView {
    StatsView {
        requests_this_second: s.requests_this_second + 1,
        found_this_minute: s.found_this_minute + if success {
            1nat
        } else {
            0nat
        },
        total_requests: s.total_requests + 1,
        total_found: s.total_found + if success {
            1nat
        } else {
            0nat
        },
    }
}

/// The counters after a whole sequence of classified outcomes, oldest first.
pub open spec fn record_all(s: StatsView, outcomes: Seq<bool>) -> StatsView
    decreases outcomes.len(),
{
    if outcomes.len() == 0 {
        s
    } else {
        record_all(record_one(s, outcomes[0]), outcomes.drop_first())
    }
}

/// The number of successes in a sequence of classified outcomes.
pub open spec fn count_successes(outcomes: Seq<bool>) -> nat
    decreases outcomes.len(),
{
    if outcomes.len() == 0 {
        0nat
    } else {
        (if outcomes[0] {
            1nat
        } else {
            0nat
        }) + count_successes(outcomes.drop_first())
    }
}

impl Stats {
    /// All four counters start at zero.
    pub fn new() -> (s: Self)
        ensures
            s@ == (StatsView {
                requests_this_second: 0,
                found_this_minute: 0,
                total_requests: 0,
                total_found: 0,
            }),
    {
        Stats { requests_this_second: 0, found_this_minute: 0, total_requests: 0, total_found: 0 }
    }

    /// Counts one classified outcome: the request counters grow by exactly
    /// one, and the discovery counters grow by exactly one iff the outcome
    /// is a success. No counter ever decreases.
    pub fn record_outcome(&mut self, success: bool)
        requires
            old(self).requests_this_second < u64::MAX,
            old(self).total_requests < u64::MAX,
            old(self).found_this_minute < u64::MAX,
            old(self).total_found < u64::MAX,
        ensures
            final(self)@ == record_one(old(self)@, success),
    {
        self.requests_this_second = self.requests_this_second + 1;
        self.total_requests = self.total_requests + 1;
        if success {
            self.found_this_minute = self.found_this_minute + 1;
            self.total_found = self.total_found + 1;
        }
    }

    /// The reporter's one-second boundary: hands back the requests counted
    /// since the previous boundary and zeroes that window. The other three
    /// counters are untouched.
    pub fn sample_reset_second(&mut self) -> (sampled: u64)
        ensures
            sampled == old(self).requests_this_second,
            final(self).requests_this_second == 0,
            final(self).found_this_minute == old(self).found_this_minute,
            final(self).total_requests == old(self).total_requests,
            final(self).total_found == old(self).total_found,
    {
        let sampled = self.requests_this_second;
        self.requests_this_second = 0;
        sampled
    }

    /// The reporter's one-minute boundary: hands back the discoveries counted
    /// since the previous boundary and zeroes that window. The other three
    /// counters are untouched.
    pub fn sample_reset_minute(&mut self) -> (sampled: u64)
        ensures
            sampled == old(self).found_this_minute,
            final(self).found_this_minute == 0,
            final(self).requests_this_second == old(self).requests_this_second,
            final(self).total_requests == old(self).total_requests,
            final(self).total_found == old(self).total_found,
    {
        let sampled = self.found_this_minute;
        self.found_this_minute = 0;
        sampled
    }
}

/// Over any run of classified outcomes, each lifetime total grows by the
/// number of outcomes (requests) respectively the number of successes
/// (discoveries) — so neither lifetime total ever decreases.
pub proof fn lemma_lifetime_totals(s: StatsView, outcomes: Seq<bool>)
    ensures
        record_all(s, outcomes).total_requests == s.total_requests + outcomes.len(),
        record_all(s, outcomes).total_found == s.total_found + count_successes(outcomes),
        record_all(s, outcomes).total_requests >= s.total_requests,
        record_all(s, outcomes).total_found >= s.total_found,
    decreases outcomes.len(),
{
    if outcomes.len() > 0 {
        lemma_lifetime_totals(record_one(s, outcomes[0]), outcomes.drop_first());
    }
}

/// Between two reset boundaries the windowed counters are exact: starting
/// from a fresh window, the per-second counter equals the number of outcomes
/// counted since the reset, and the per-minute counter equals the number of
/// successes among them. A sample at the next boundary therefore displays
/// exactly the increments since the previous reset.
pub proof fn lemma_window_counts(s: StatsView, outcomes: Seq<bool>)
    requires
        s.requests_this_second == 0,
        s.found_this_minute == 0,
    ensures
        record_all(s, outcomes).requests_this_second == outcomes.len(),
        record_all(s, outcomes).found_this_minute == count_successes(outcomes),
{
    lemma_window_counts_from(s, outcomes);
}

/// The windowed counters grow by exactly the increments of the run, from any
/// starting value.
pub proof fn lemma_window_counts_from(s: StatsView, outcomes: Seq<bool>)
    ensures
        record_all(s, outcomes).requests_this_second == s.requests_this_second + outcomes.len(),
        record_all(s, outcomes).found_this_minute == s.found_this_minute + count_successes(
            outcomes,
        ),
    decreases outcomes.len(),
{
    if outcomes.len() > 0 {
        lemma_window_counts_from(record_one(s, outcomes[0]), outcomes.drop_first());
    }
}

} // verus!
