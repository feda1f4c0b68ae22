//! Fan-out of discoveries to independent sinks. Delivery is fire-and-forget
//! against per-sink unbounded queues: offering a discovery never blocks, and
//! no sink's state influences what another sink is offered. The unbounded
//! queue trades memory for prober progress: a permanently stalled sink grows
//! its queue without bound, and never stalls the prober or the other sinks.

use vstd::prelude::*;

verus! {

/// The mathematical value of one discovery.
pub struct DiscoveryView {
    /// The discovered locator.
    pub locator: Seq<char>,
    /// The size the response declared, when it declared one.
    pub size: Option<u64>,
}

/// A successful probe's locator, plus the size the response declared, if any.
pub struct Discovery {
    /// The discovered locator.
    pub locator: String,
    /// The size the response declared, when it declared one.
    pub size: Option<u64>,
}

impl View for Discovery {
    type V = DiscoveryView;

    open spec fn view(&self) -> DiscoveryView {
        DiscoveryView { locator: self.locator@, size: self.size }
    }
}

impl Clone for Discovery {
    /// A clone carries the same locator and size.
    fn clone(&self) -> (r: Self)
        ensures
            r@ == self@,
    {
        Discovery { locator: self.locator.clone(), size: self.size }
    }
}

/// The views of a queue's entries, in order.
pub open spec fn views_of(entries: Seq<Discovery>) -> Seq<DiscoveryView> {
    entries.map_values(|d: Discovery| d@)
}

/// The mathematical value of one sink's queue.
pub struct SinkQueueView {
    /// Whether the sink is registered.
    pub enabled: bool,
    /// The discoveries offered to the sink and not yet drained, in offer
    /// order.
    pub pending: Seq<DiscoveryView>,
}

/// One sink's inbound queue: discoveries are appended by the dispatcher and
/// drained, in order, by the sink's own consumer.
pub struct SinkQueue {
    /// Whether the sink is registered.
    pub enabled: bool,
    /// The discoveries offered to the sink and not yet drained, in offer
    /// order.
    pub pending: Vec<Discovery>,
}

impl View for SinkQueue {
    type V = SinkQueueView;

    open spec fn view(&self) -> SinkQueueView {
        SinkQueueView { enabled: self.enabled, pending: views_of(self.pending@) }
    }
}

/// What offering one discovery does to one sink's queue: appended when the
/// sink is registered, ignored otherwise.
pub open spec fn deliver_one(q: SinkQueueView, d: DiscoveryView) -> SinkQueueView {
    SinkQueueView {
        enabled: q.enabled,
        pending: if q.enabled {
            q.pending.push(d)
        } else {
            q.pending
        },
    }
}

/// One sink's queue after a whole sequence of discoveries, oldest first.
pub open spec fn deliver_all(q: SinkQueueView, ds: Seq<DiscoveryView>) -> SinkQueueView
    decreases ds.len(),
{
    if ds.len() == 0 {
        q
    } else {
        deliver_all(deliver_one(q, ds[0]), ds.drop_first())
    }
}

impl SinkQueue {
    /// A queue for a sink that is registered or not; nothing pending.
    pub fn new(enabled: bool) -> (q: Self)
        ensures
            q@.enabled == enabled,
            q@.pending == Seq::<DiscoveryView>::empty(),
    {
        let q = SinkQueue { enabled, pending: Vec::new() };
        proof {
            assert(q@.pending =~= Seq::<DiscoveryView>::empty());
        }
        q
    }

    /// Offers one discovery: appended exactly when the sink is registered.
    /// Total — offering never blocks and never fails.
    pub fn offer(&mut self, d: &Discovery)
        ensures
            final(self)@ == deliver_one(old(self)@, d@),
    {
        if self.enabled {
            self.pending.push(d.clone());
            proof {
                assert(self@.pending =~= old(self)@.pending.push(d@));
            }
        }
    }

    /// Hands the pending discoveries to the sink's consumer, in offer order,
    /// leaving the queue empty.
    pub fn drain(&mut self) -> (drained: Vec<Discovery>)
        ensures
            views_of(drained@) == old(self)@.pending,
            final(self)@.pending == Seq::<DiscoveryView>::empty(),
            final(self)@.enabled == old(self)@.enabled,
    {
        let mut drained: Vec<Discovery> = Vec::new();
        core::mem::swap(&mut drained, &mut self.pending);
        proof {
            assert(self@.pending =~= Seq::<DiscoveryView>::empty());
        }
        drained
    }
}

/// The mathematical value of the dispatcher's three sink queues.
pub struct FanoutView {
    /// The file-export sink's queue.
    pub export: SinkQueueView,
    /// The chat-relay A sink's queue.
    pub relay_a: SinkQueueView,
    /// The chat-relay B sink's queue.
    pub relay_b: SinkQueueView,
}

/// The dispatcher: one queue per sink. Each discovery is offered to every
/// registered sink, independently.
pub struct Fanout {
    /// The file-export sink's queue.
    pub export: SinkQueue,
    /// The chat-relay A sink's queue.
    pub relay_a: SinkQueue,
    /// The chat-relay B sink's queue.
    pub relay_b: SinkQueue,
}

impl View for Fanout {
    type V = FanoutView;

    open spec fn view(&self) -> FanoutView {
        FanoutView { export: self.export@, relay_a: self.relay_a@, relay_b: self.relay_b@ }
    }
}

/// All three queues after one dispatched discovery.
pub open spec fn dispatch_one(f: FanoutView, d: DiscoveryView) -> FanoutView {
    FanoutView {
        export: deliver_one(f.export, d),
        relay_a: deliver_one(f.relay_a, d),
        relay_b: deliver_one(f.relay_b, d),
    }
}

/// All three queues after a whole sequence of dispatched discoveries.
pub open spec fn dispatch_all(f: FanoutView, ds: Seq<DiscoveryView>) -> FanoutView {
    FanoutView {
        export: deliver_all(f.export, ds),
        relay_a: deliver_all(f.relay_a, ds),
        relay_b: deliver_all(f.relay_b, ds),
    }
}

impl Fanout {
    /// A dispatcher over the three sinks, each registered or not.
    pub fn new(export: bool, relay_a: bool, relay_b: bool) -> (f: Self)
        ensures
            f@.export.enabled == export,
            f@.relay_a.enabled == relay_a,
            f@.relay_b.enabled == relay_b,
            f@.export.pending == Seq::<DiscoveryView>::empty(),
            f@.relay_a.pending == Seq::<DiscoveryView>::empty(),
            f@.relay_b.pending == Seq::<DiscoveryView>::empty(),
    {
        Fanout {
            export: SinkQueue::new(export),
            relay_a: SinkQueue::new(relay_a),
            relay_b: SinkQueue::new(relay_b),
        }
    }

    /// Offers one discovery to every registered sink. Total — a stalled or
    /// absent sink never blocks the dispatch, and exactly one copy is
    /// offered per registered sink.
    pub fn dispatch(&mut self, d: &Discovery)
        ensures
            final(self)@ == dispatch_one(old(self)@, d@),
    {
        self.export.offer(d);
        self.relay_a.offer(d);
        self.relay_b.offer(d);
    }
}

/// A registered sink is offered every discovery of a run, in order, after
/// whatever it already held; an unregistered sink is offered nothing.
pub proof fn lemma_sink_deliveries(q: SinkQueueView, ds: Seq<DiscoveryView>)
    ensures
        deliver_all(q, ds).enabled == q.enabled,
        deliver_all(q, ds).pending == if q.enabled {
            q.pending + ds
        } else {
            q.pending
        },
    decreases ds.len(),
{
    if ds.len() == 0 {
        if q.enabled {
            assert(q.pending + ds =~= q.pending);
        }
    } else {
        lemma_sink_deliveries(deliver_one(q, ds[0]), ds.drop_first());
        if q.enabled {
            assert(q.pending.push(ds[0]) + ds.drop_first() =~= q.pending + ds);
        }
    }
}

/// Removing, disabling or stalling one sink never changes what another sink
/// is ultimately offered: after any run of discoveries, each sink's queue is
/// a function of that sink's own initial queue and the discovery sequence
/// alone, whatever the other two sinks' state.
pub proof fn lemma_sink_independence(f1: FanoutView, f2: FanoutView, ds: Seq<DiscoveryView>)
    ensures
        f1.export == f2.export ==> dispatch_all(f1, ds).export == dispatch_all(f2, ds).export,
        f1.relay_a == f2.relay_a ==> dispatch_all(f1, ds).relay_a == dispatch_all(f2, ds).relay_a,
        f1.relay_b == f2.relay_b ==> dispatch_all(f1, ds).relay_b == dispatch_all(f2, ds).relay_b,
{
}

} // verus!
