use vstd::prelude::*;

verus! {

/// A decoded frame: a handle to its pixel data plus the metadata that
/// identifies it. Two samples are the same frame when their stream id and
/// sample id agree, whatever their pixel handles hold.
#[derive(Clone, Debug)]
pub struct Sample<B> {
    /// Handle to the decoder-owned pixel buffer.
    pub buffer: B,
    /// Width of the frame in pixels.
    pub width: u32,
    /// Height of the frame in pixels.
    pub height: u32,
    /// Id of the stream the frame came from.
    pub stream_id: u64,
    /// Position of the frame in its stream's delivery order.
    pub sample_id: u64,
    /// Whether the frame was delivered as a preroll.
    pub from_preroll: bool,
}

/// The size of a frame as the decoder reports it, or `None` where a side is
/// negative.
pub fn frame_dimensions(width: i32, height: i32) -> (r: Option<(u32, u32)>)
    ensures
        r is Some <==> width >= 0 && height >= 0,
        r matches Some((w, h)) ==> w == width && h == height,
{
    if width < 0 || height < 0 {
        None
    } else {
        Some((width as u32, height as u32))
    }
}

impl<B> Sample<B> {
    /// The identity of a frame: its stream id and sample id.
    pub open spec fn key(&self) -> (u64, u64) {
        (self.stream_id, self.sample_id)
    }

    /// Whether `self` and `other` are the same frame.
    pub fn same_frame(&self, other: &Sample<B>) -> (r: bool)
        ensures
            r == (self.key() == other.key()),
    {
        self.stream_id == other.stream_id && self.sample_id == other.sample_id
    }

    /// The identity of this frame as a pair of stream id and sample id.
    pub fn identity(&self) -> (r: (u64, u64))
        ensures
            r == self.key(),
    {
        (self.stream_id, self.sample_id)
    }
}

/// What the decoder reports to the consumer.
#[derive(Clone, Debug)]
pub enum Event<B> {
    /// A new frame was decoded.
    SampleReceived(Sample<B>),
    /// The resolution of the media changed.
    ResolutionChanged {
        /// The new width.
        width: u32,
        /// The new height.
        height: u32,
    },
    /// The duration of the media changed, in seconds.
    DurationChanged(u64),
}

impl<B> Event<B> {
    /// Whether the event carries a frame.
    pub open spec fn is_frame(&self) -> bool {
        self is SampleReceived
    }

    /// The stream id of the frame an event carries.
    pub open spec fn frame_stream_id(&self) -> u64
        recommends
            self.is_frame(),
    {
        match self {
            Event::SampleReceived(s) => s.stream_id,
            _ => 0,
        }
    }

    /// The sample id of the frame an event carries.
    pub open spec fn frame_sample_id(&self) -> u64
        recommends
            self.is_frame(),
    {
        match self {
            Event::SampleReceived(s) => s.sample_id,
            _ => 0,
        }
    }
}

} // verus!
