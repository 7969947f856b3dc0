//! The telemetry channel: a bounded FIFO between the sampling task and a
//! single registered consumer. Telemetry is best-effort: a sample offered
//! while no consumer is registered, or while the queue is full, is dropped.
use vstd::prelude::*;

verus! {

/// Number of samples the channel holds before it drops new ones.
pub const TELEMETRY_CAPACITY: usize = 16;

/// What became of an offered sample.
#[derive(Debug, Clone, Copy, PartialEq, Eq, Structural)]
pub enum Delivery {
    /// The sample waits in the queue for the consumer.
    Queued,
    /// No consumer is registered: the sample is dropped.
    NoSink,
    /// The queue is full: the sample is dropped.
    Full,
}

/// The state of a channel: whether a consumer is registered, and the
/// samples waiting for it, oldest first.
pub type ChannelModel<T> = (bool, Seq<T>);

pub open spec fn channel_wf<T>(s: ChannelModel<T>) -> bool {
    s.1.len() <= TELEMETRY_CAPACITY
}

/// The state after one sample is offered.
pub open spec fn offered<T>(s: ChannelModel<T>, sample: T) -> ChannelModel<T> {
    if s.0 && s.1.len() < TELEMETRY_CAPACITY {
        (s.0, s.1.push(sample))
    } else {
        s
    }
}

/// The state after each of `samples` is offered in turn.
pub open spec fn offered_all<T>(s: ChannelModel<T>, samples: Seq<T>) -> ChannelModel<T>
    decreases samples.len(),
{
    if samples.len() == 0 {
        s
    } else {
        offered(offered_all(s, samples.drop_last()), samples.last())
    }
}

/// The state after a consumer is registered: a new consumer starts with
/// an empty queue, whatever was there before.
pub open spec fn registered<T>(s: ChannelModel<T>) -> ChannelModel<T> {
    (true, Seq::empty())
}

pub struct TelemetryChannel<T> {
    sink_registered: bool,
    queue: Vec<T>,
}

impl<T> View for TelemetryChannel<T> {
    type V = ChannelModel<T>;

    closed spec fn view(&self) -> ChannelModel<T> {
        (self.sink_registered, self.queue@)
    }
}

impl<T> TelemetryChannel<T> {
    /// A channel with no consumer and nothing queued.
    pub fn new() -> (r: TelemetryChannel<T>)
        ensures
            r@ == (false, Seq::<T>::empty()),
    {
        TelemetryChannel { sink_registered: false, queue: Vec::new() }
    }

    /// Installs the consumer, replacing any earlier one; samples queued for
    /// an earlier consumer are discarded.
    pub fn register_sink(&mut self)
        ensures
            final(self)@ == registered(old(self)@),
    {
        self.sink_registered = true;
        self.queue = Vec::new();
    }

    pub fn has_sink(&self) -> (r: bool)
        ensures
            r == self@.0,
    {
        self.sink_registered
    }

    /// The number of samples waiting for the consumer.
    pub fn len(&self) -> (r: usize)
        ensures
            r == self@.1.len(),
    {
        self.queue.len()
    }

    /// Offers a sample without blocking. It is queued only when a consumer
    /// is registered and the queue has room; otherwise it is dropped.
    pub fn offer(&mut self, sample: T) -> (r: Delivery)
        requires
            channel_wf(old(self)@),
        ensures
            final(self)@ == offered(old(self)@, sample),
            channel_wf(final(self)@),
            r == (if !old(self)@.0 {
                Delivery::NoSink
            } else if old(self)@.1.len() >= TELEMETRY_CAPACITY {
                Delivery::Full
            } else {
                Delivery::Queued
            }),
    {
        if !self.sink_registered {
            Delivery::NoSink
        } else if self.queue.len() >= TELEMETRY_CAPACITY {
            Delivery::Full
        } else {
            self.queue.push(sample);
            Delivery::Queued
        }
    }

    /// Hands the oldest waiting sample to the consumer.
    pub fn take(&mut self) -> (r: Option<T>)
        requires
            channel_wf(old(self)@),
        ensures
            channel_wf(final(self)@),
            old(self)@.1.len() == 0 ==> r.is_none() && final(self)@ == old(self)@,
            old(self)@.1.len() > 0 ==> r == Some(old(self)@.1[0]) && final(self)@ == (
                old(self)@.0,
                old(self)@.1.subrange(1, old(self)@.1.len() as int),
            ),
    {
        if self.queue.len() == 0 {
            None
        } else {
            let sample = self.queue.remove(0);
            assert(self.queue@ =~= old(self)@.1.subrange(1, old(self)@.1.len() as int));
            Some(sample)
        }
    }
}

/// Samples offered while no consumer is registered leave the channel as it
/// was, so a consumer registered afterwards receives none of them.
pub proof fn absent_sink_buffers_nothing<T>(s: ChannelModel<T>, samples: Seq<T>)
    requires
        !s.0,
    ensures
        offered_all(s, samples) == s,
        registered(offered_all(s, samples)).1.len() == 0,
    decreases samples.len(),
{
    if samples.len() > 0 {
        absent_sink_buffers_nothing(s, samples.drop_last());
    }
}

/// However many samples are offered, the queue never holds more than the
/// channel's capacity, and the samples it holds keep the order in which
/// they were offered.
pub proof fn offers_stay_bounded<T>(s: ChannelModel<T>, samples: Seq<T>)
    requires
        channel_wf(s),
    ensures
        channel_wf(offered_all(s, samples)),
        offered_all(s, samples).0 == s.0,
        s.1.is_prefix_of(offered_all(s, samples).1),
    decreases samples.len(),
{
    if samples.len() > 0 {
        offers_stay_bounded(s, samples.drop_last());
    }
}

} // verus!
