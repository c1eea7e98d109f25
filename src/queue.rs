use vstd::prelude::*;

use crate::frame::{Event, Sample};

verus! {

/// Outcome of one poll of the queue by its consumer.
pub enum Polled<B> {
    /// An event was taken out of the queue. The consumer should wake itself
    /// again right away so that further queued events are drained.
    Ready(Event<B>),
    /// Nothing is queued: the consumer resumes when a push wakes it.
    Pending,
}

/// The state that decoder callbacks and the single consumer share, meant to
/// be kept behind one lock. `W` is the waker type of the consumer.
pub struct EventQueue<B, W> {
    /// The waker of the most recent poll, if no push has taken it since.
    pub waker: Option<W>,
    /// Events not yet handed to the consumer, oldest first.
    pub events: Vec<Event<B>>,
    /// Id of the stream this queue carries.
    pub stream_id: u64,
    /// Id the next decoded frame will get.
    pub next_sample_id: u64,
}

/// Frame ids of the queued events in `events`, in queue order, belong to
/// `stream_id`, are strictly increasing and all below `next`.
pub open spec fn frames_ordered<B>(events: Seq<Event<B>>, stream_id: u64, next: u64) -> bool {
    &&& forall|i: int|
        0 <= i < events.len() && (#[trigger] events[i]).is_frame() ==> {
            &&& events[i].frame_stream_id() == stream_id
            &&& events[i].frame_sample_id() < next
        }
    &&& forall|i: int, j: int|
        0 <= i < j < events.len() && (#[trigger] events[i]).is_frame() && (
        #[trigger] events[j]).is_frame() ==> events[i].frame_sample_id()
            < events[j].frame_sample_id()
}

/// The events that a metadata report of `resolution` and `duration` queues,
/// in order.
pub open spec fn metadata_events<B>(resolution: Option<(u32, u32)>, duration: Option<u64>) -> Seq<
    Event<B>,
> {
    let r = match resolution {
        Some((width, height)) => seq![Event::ResolutionChanged { width, height }],
        None => Seq::empty(),
    };
    let d = match duration {
        Some(seconds) => seq![Event::DurationChanged(seconds)],
        None => Seq::empty(),
    };
    r + d
}

impl<B, W> EventQueue<B, W> {
    /// Well-formedness: queued frames are ordered by id, and ids still to be
    /// handed out are above all of them.
    pub open spec fn wf(&self) -> bool {
        frames_ordered(self.events@, self.stream_id, self.next_sample_id)
    }

    /// `after` follows `self` by any operation of the queue: the stream is
    /// the same and no id has been taken back.
    pub open spec fn advances_to(&self, after: &EventQueue<B, W>) -> bool {
        &&& after.wf()
        &&& after.stream_id == self.stream_id
        &&& self.next_sample_id <= after.next_sample_id
    }

    /// An empty queue for the stream `stream_id`; its first frame gets id 0.
    pub fn new(stream_id: u64) -> (r: EventQueue<B, W>)
        ensures
            r.wf(),
            r.waker is None,
            r.events@.len() == 0,
            r.stream_id == stream_id,
            r.next_sample_id == 0,
    {
        EventQueue { waker: None, events: Vec::new(), stream_id, next_sample_id: 0 }
    }

    /// Appends `event` and takes the registered waker, which the caller must
    /// wake once it has let go of the lock.
    fn push(&mut self, event: Event<B>) -> (r: Option<W>)
        ensures
            final(self).events@ == old(self).events@.push(event),
            r == old(self).waker,
            final(self).waker is None,
            final(self).stream_id == old(self).stream_id,
            final(self).next_sample_id == old(self).next_sample_id,
    {
        self.events.push(event);
        self.waker.take()
    }

    /// Queues a frame decoded from this stream: the frame gets the next id,
    /// which is then used up. Returns the waker to wake, if one was registered.
    pub fn push_sample(&mut self, buffer: B, width: u32, height: u32, from_preroll: bool) -> (r:
        Option<W>)
        requires
            old(self).wf(),
            old(self).next_sample_id < u64::MAX,
        ensures
            old(self).advances_to(&*final(self)),
            final(self).next_sample_id == old(self).next_sample_id + 1,
            final(self).events@.len() == old(self).events@.len() + 1,
            final(self).events@.drop_last() == old(self).events@,
            ({
                let e = final(self).events@.last();
                &&& e matches Event::SampleReceived(s)
                &&& s.buffer == buffer
                &&& s.width == width
                &&& s.height == height
                &&& s.from_preroll == from_preroll
                &&& s.stream_id == old(self).stream_id
                &&& s.sample_id == old(self).next_sample_id
            }),
            r == old(self).waker,
            final(self).waker is None,
    {
        let sample = Sample {
            buffer,
            width,
            height,
            stream_id: self.stream_id,
            sample_id: self.next_sample_id,
            from_preroll,
        };
        self.next_sample_id = self.next_sample_id + 1;
        let ghost before = self.events@;
        let r = self.push(Event::SampleReceived(sample));
        proof {
            let evs = self.events@;
            assert(evs.drop_last() =~= before);
            assert forall|i: int|
                0 <= i < evs.len() && (#[trigger] evs[i]).is_frame() implies {
                &&& evs[i].frame_stream_id() == self.stream_id
                &&& evs[i].frame_sample_id() < self.next_sample_id
            } by {
                if i < before.len() {
                    assert(evs[i] == before[i]);
                }
            }
            assert forall|i: int, j: int|
                0 <= i < j < evs.len() && (#[trigger] evs[i]).is_frame() && (
                #[trigger] evs[j]).is_frame() implies evs[i].frame_sample_id()
                < evs[j].frame_sample_id() by {
                assert(evs[i] == before[i]);
                if j < before.len() {
                    assert(evs[j] == before[j]);
                }
            }
        }
        r
    }

    /// Queues a change of the media's resolution. Returns the waker to wake,
    /// if one was registered.
    pub fn push_resolution(&mut self, width: u32, height: u32) -> (r: Option<W>)
        requires
            old(self).wf(),
        ensures
            old(self).advances_to(&*final(self)),
            final(self).next_sample_id == old(self).next_sample_id,
            final(self).events@ == old(self).events@.push(
                Event::ResolutionChanged { width, height },
            ),
            r == old(self).waker,
            final(self).waker is None,
    {
        let ghost before = self.events@;
        let r = self.push(Event::ResolutionChanged { width, height });
        proof {
            lemma_push_metadata(before, self.events@.last(), self.stream_id, self.next_sample_id);
        }
        r
    }

    /// Queues a change of the media's duration, in seconds. Returns the waker
    /// to wake, if one was registered.
    pub fn push_duration(&mut self, seconds: u64) -> (r: Option<W>)
        requires
            old(self).wf(),
        ensures
            old(self).advances_to(&*final(self)),
            final(self).next_sample_id == old(self).next_sample_id,
            final(self).events@ == old(self).events@.push(Event::DurationChanged(seconds)),
            r == old(self).waker,
            final(self).waker is None,
    {
        let ghost before = self.events@;
        let r = self.push(Event::DurationChanged(seconds));
        proof {
            lemma_push_metadata(before, self.events@.last(), self.stream_id, self.next_sample_id);
        }
        r
    }

    /// Reports a change of the media's metadata, as far as the backend could
    /// read it: the resolution, then the duration in seconds, each queued if
    /// known. Returns the waker to wake, if one was registered.
    pub fn report_metadata(&mut self, resolution: Option<(u32, u32)>, duration: Option<u64>) -> (r:
        Option<W>)
        requires
            old(self).wf(),
        ensures
            old(self).advances_to(&*final(self)),
            final(self).next_sample_id == old(self).next_sample_id,
            final(self).events@ == old(self).events@ + metadata_events(resolution, duration),
            r == old(self).waker,
            final(self).waker is None,
    {
        let r = self.waker.take();
        match resolution {
            Some((width, height)) => {
                self.push_resolution(width, height);
            },
            None => {},
        }
        match duration {
            Some(seconds) => {
                self.push_duration(seconds);
            },
            None => {},
        }
        proof {
            assert(self.events@ =~= old(self).events@ + metadata_events(resolution, duration));
        }
        r
    }

    /// End of stream: queues nothing, but takes the registered waker so that
    /// the consumer gets to run once more.
    pub fn end_of_stream(&mut self) -> (r: Option<W>)
        requires
            old(self).wf(),
        ensures
            old(self).advances_to(&*final(self)),
            final(self).next_sample_id == old(self).next_sample_id,
            final(self).events@ == old(self).events@,
            r == old(self).waker,
            final(self).waker is None,
    {
        self.waker.take()
    }

    /// One poll by the consumer: `waker` replaces any registered waker. If an
    /// event is queued, the most recently pushed one is taken out and
    /// returned as `Ready`; otherwise the result is `Pending`.
    pub fn poll(&mut self, waker: W) -> (r: Polled<B>)
        requires
            old(self).wf(),
        ensures
            old(self).advances_to(&*final(self)),
            final(self).next_sample_id == old(self).next_sample_id,
            final(self).waker == Some(waker),
            old(self).events@.len() == 0 ==> r is Pending
                && final(self).events@ == old(self).events@,
            old(self).events@.len() > 0 ==> r == Polled::Ready(old(self).events@.last())
                && final(self).events@ == old(self).events@.drop_last(),
            r matches Polled::Ready(e) ==> (e.is_frame()
                ==> e.frame_sample_id() < final(self).next_sample_id),
    {
        self.waker = Some(waker);
        let ghost before = self.events@;
        match self.events.pop() {
            Some(event) => {
                proof {
                    let evs = self.events@;
                    assert(evs =~= before.drop_last());
                    assert forall|i: int|
                        0 <= i < evs.len() && (#[trigger] evs[i]).is_frame() implies {
                        &&& evs[i].frame_stream_id() == self.stream_id
                        &&& evs[i].frame_sample_id() < self.next_sample_id
                    } by {
                        assert(evs[i] == before[i]);
                    }
                    assert forall|i: int, j: int|
                        0 <= i < j < evs.len() && (#[trigger] evs[i]).is_frame() && (
                        #[trigger] evs[j]).is_frame() implies evs[i].frame_sample_id()
                        < evs[j].frame_sample_id() by {
                        assert(evs[i] == before[i]);
                        assert(evs[j] == before[j]);
                    }
                    assert(event == before[before.len() - 1]);
                }
                Polled::Ready(event)
            },
            None => Polled::Pending,
        }
    }
}

/// Ids handed out by the queue never go back along `trace`, a run of states
/// each of which follows the one before by an operation of the queue.
proof fn lemma_ids_grow<B, W>(trace: Seq<EventQueue<B, W>>, k: int)
    requires
        0 <= k < trace.len(),
        forall|i: int| 0 <= i < trace.len() - 1 ==> (#[trigger] trace[i]).advances_to(&trace[i + 1]),
    ensures
        trace[0].next_sample_id <= trace[k].next_sample_id,
    decreases k,
{
    if k > 0 {
        lemma_ids_grow(trace, k - 1);
        assert(trace[k - 1].advances_to(&trace[k]));
    }
}

/// Frames of a stream reach the consumer in the order of their ids as long
/// as it takes each one out before the next is pushed. A frame `taken` by a
/// poll of the first state of `trace` (a poll hands out only ids below the
/// queue's next id) comes before a frame `pushed` onto its last state, where
/// each state of `trace` follows the one before by an operation of the queue.
pub proof fn lemma_consumer_sees_increasing_ids<B, W>(
    trace: Seq<EventQueue<B, W>>,
    taken: Event<B>,
    pushed: Event<B>,
)
    requires
        trace.len() > 0,
        forall|i: int| 0 <= i < trace.len() - 1 ==> (#[trigger] trace[i]).advances_to(&trace[i + 1]),
        taken.is_frame(),
        taken.frame_sample_id() < trace[0].next_sample_id,
        pushed.is_frame(),
        pushed.frame_sample_id() == trace.last().next_sample_id,
    ensures
        taken.frame_sample_id() < pushed.frame_sample_id(),
{
    lemma_ids_grow(trace, trace.len() - 1);
}

/// Appending an event that carries no frame keeps the frame order.
proof fn lemma_push_metadata<B>(before: Seq<Event<B>>, e: Event<B>, stream_id: u64, next: u64)
    requires
        frames_ordered(before, stream_id, next),
        !e.is_frame(),
    ensures
        frames_ordered(before.push(e), stream_id, next),
{
    let after = before.push(e);
    assert forall|i: int|
        0 <= i < after.len() && (#[trigger] after[i]).is_frame() implies {
        &&& after[i].frame_stream_id() == stream_id
        &&& after[i].frame_sample_id() < next
    } by {
        assert(after[i] == before[i]);
    }
    assert forall|i: int, j: int|
        0 <= i < j < after.len() && (#[trigger] after[i]).is_frame() && (
        #[trigger] after[j]).is_frame() implies after[i].frame_sample_id()
        < after[j].frame_sample_id() by {
        assert(after[i] == before[i]);
        assert(after[j] == before[j]);
    }
}

} // verus!
