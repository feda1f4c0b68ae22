//! The bounded prober: at most a configured number of existence checks are
//! outstanding at any instant, and every completed check is classified into
//! a probe outcome.

use vstd::prelude::*;

verus! {

/// A response status is a success exactly when it is in the 2xx class.
pub open spec fn is_success_status(status: u16) -> bool {
    200 <= status < 300
}

/// One completed existence check, classified.
pub struct ProbeOutcome {
    /// The locator that was probed.
    pub locator: String,
    /// Whether the response classified as a success.
    pub success: bool,
    /// The declared content length, forwarded only on success and only when
    /// the response declared one.
    pub content_length: Option<u64>,
}

/// Classifies one completed check: a transport failure carries no status and
/// is never a success; a response is a success exactly when its status is in
/// the 2xx class, and only then is a declared content length forwarded.
pub fn classify(locator: String, status: Option<u16>, content_length: Option<u64>) -> (o:
    ProbeOutcome)
    ensures
        o.locator@ == locator@,
        o.success == (status is Some && is_success_status(status->0)),
        o.content_length == if (status is Some && is_success_status(status->0)) {
            content_length
        } else {
            Option::<u64>::None
        },
{
    match status {
        Option::Some(code) => {
            let success = 200 <= code && code < 300;
            ProbeOutcome {
                locator,
                success,
                content_length: if success {
                    content_length
                } else {
                    Option::None
                },
            }
        },
        Option::None => ProbeOutcome { locator, success: false, content_length: Option::None },
    }
}

/// The prober's admission state: how many checks are outstanding against the
/// configured ceiling.
pub struct Prober {
    /// The configured ceiling on simultaneously outstanding checks.
    pub bound: usize,
    /// Checks issued and not yet classified.
    pub outstanding: usize,
}

impl Prober {
    /// At any instant the number of outstanding checks never exceeds the
    /// configured bound.
    pub open spec fn wf(self) -> bool {
        self.outstanding <= self.bound
    }

    /// A fresh prober with the given concurrency ceiling and no work in
    /// flight.
    pub fn new(bound: usize) -> (p: Self)
        ensures
            p.bound == bound,
            p.outstanding == 0,
            p.wf(),
    {
        Prober { bound, outstanding: 0 }
    }

    /// Whether another check may be issued without breaking the bound.
    pub fn can_issue(&self) -> (b: bool)
        ensures
            b == (self.outstanding < self.bound),
    {
        self.outstanding < self.bound
    }

    /// Admits one more outstanding check. Only callable below the bound, so
    /// the bound still holds afterwards.
    pub fn issue(&mut self)
        requires
            old(self).wf(),
            old(self).outstanding < old(self).bound,
        ensures
            final(self).bound == old(self).bound,
            final(self).outstanding == old(self).outstanding + 1,
            final(self).wf(),
    {
        self.outstanding = self.outstanding + 1;
    }

    /// Retires one outstanding check upon classification.
    pub fn complete(&mut self)
        requires
            old(self).wf(),
            old(self).outstanding > 0,
        ensures
            final(self).bound == old(self).bound,
            final(self).outstanding == old(self).outstanding - 1,
            final(self).wf(),
    {
        self.outstanding = self.outstanding - 1;
    }
}

} // verus!
