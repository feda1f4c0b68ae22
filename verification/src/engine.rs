//! The discovery engine's two steps, as the probing loop performs them:
//! admit one candidate under the concurrency bound, and classify one
//! completed check — counting it, and fanning a discovery out to the sinks.

use vstd::prelude::*;
use crate::candidate::Candidate;
use crate::candidate::UriGenerator;
use crate::fanout::DiscoveryView;
use crate::fanout::Discovery;
use crate::fanout::Fanout;
use crate::fanout::dispatch_one;
use crate::prober::Prober;
use crate::prober::classify;
use crate::prober::is_success_status;
use crate::stats::Stats;
use crate::stats::record_one;

verus! {

/// Admits one more outstanding check and draws the candidate it will probe.
/// Only callable below the concurrency bound, which therefore still holds.
pub fn begin_probe(prober: &mut Prober, generator: &UriGenerator) -> (c: Candidate)
    requires
        old(prober).wf(),
        old(prober).outstanding < old(prober).bound,
    ensures
        final(prober).bound == old(prober).bound,
        final(prober).outstanding == old(prober).outstanding + 1,
        final(prober).wf(),
        c.wf(generator.base_url@, generator.extension@),
{
    prober.issue();
    generator.next()
}

/// Retires one outstanding check and classifies it. Every completed check
/// counts as one request; a success — a response in the 2xx class — also
/// counts as one discovery and is dispatched, with the declared content
/// length if there was one, to every registered sink. A transport failure
/// (no status) or a non-success status changes nothing but the counters and
/// is never fatal. Returns the discovery, if there was one.
pub fn handle_completion(
    prober: &mut Prober,
    stats: &mut Stats,
    fanout: &mut Fanout,
    locator: String,
    status: Option<u16>,
    content_length: Option<u64>,
) -> (discovered: Option<Discovery>)
    requires
        old(prober).wf(),
        old(prober).outstanding > 0,
        old(stats).requests_this_second < u64::MAX,
        old(stats).total_requests < u64::MAX,
        old(stats).found_this_minute < u64::MAX,
        old(stats).total_found < u64::MAX,
    ensures
        final(prober).bound == old(prober).bound,
        final(prober).outstanding == old(prober).outstanding - 1,
        final(prober).wf(),
        final(stats)@ == record_one(
            old(stats)@,
            status is Some && is_success_status(status->0),
        ),
        (status is Some && is_success_status(status->0)) ==> {
            &&& final(fanout)@ == dispatch_one(
                old(fanout)@,
                DiscoveryView { locator: locator@, size: content_length },
            )
            &&& discovered is Some
            &&& discovered->0@ == (DiscoveryView { locator: locator@, size: content_length })
        },
        !(status is Some && is_success_status(status->0)) ==> {
            &&& final(fanout)@ == old(fanout)@
            &&& discovered is None
        },
{
    let outcome = classify(locator, status, content_length);
    prober.complete();
    stats.record_outcome(outcome.success);
    if outcome.success {
        let d = Discovery { locator: outcome.locator, size: outcome.content_length };
        fanout.dispatch(&d);
        Option::Some(d)
    } else {
        Option::None
    }
}

} // verus!
