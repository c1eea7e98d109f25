use vstd::prelude::*;

use std::collections::HashMap;

use crate::frame::Sample;

verus! {

/// The bookkeeping of one stream's GPU pipeline. `G` holds the GPU
/// resources of the stream (texture, bind group, copy worker), which the
/// render backend creates and tears down.
pub struct StreamSlot<G> {
    /// Width of the stream's texture in pixels.
    pub width: u32,
    /// Height of the stream's texture in pixels.
    pub height: u32,
    /// Identity of the frame most recently processed for this stream.
    pub last_frame: Option<(u64, u64)>,
    /// The stream's GPU resources.
    pub resources: G,
}

/// What has to happen before a frame of a given size can be drawn.
#[derive(PartialEq, Eq, Structural, Clone, Copy, Debug)]
pub enum Resolution {
    /// The stream has a pipeline of the right size.
    Reuse,
    /// The stream is seen for the first time: a pipeline must be created.
    Create,
    /// The stream's size changed: its pipeline must be torn down and created anew.
    Rebuild,
}

/// What the render pass does with one frame of a stream whose pipeline exists.
#[derive(PartialEq, Eq, Structural, Clone, Copy, Debug)]
pub struct FramePlan {
    /// Hand the frame's pixels to the background copy worker.
    pub copy_in_background: bool,
    /// Copy the frame's pixels right away, without the worker.
    pub upload_now: bool,
}

/// Sizes of the staging buffer that carries one frame of 4-byte pixels.
#[derive(PartialEq, Eq, Structural, Clone, Copy, Debug)]
pub struct UploadLayout {
    /// Bytes in one row of pixels.
    pub bytes_per_row: u32,
    /// Rows in one frame.
    pub rows: u32,
    /// Bytes in one frame.
    pub size: u64,
}

/// How a stream of `width` by `height` pixels stands in the registry `m`.
pub open spec fn resolution_of<G>(m: Map<u64, StreamSlot<G>>, stream_id: u64, width: u32, height: u32) -> Resolution {
    if !m.contains_key(stream_id) {
        Resolution::Create
    } else if m[stream_id].width == width && m[stream_id].height == height {
        Resolution::Reuse
    } else {
        Resolution::Rebuild
    }
}

/// The plan for frame `key`, preroll or not, on the pipeline `slot`: a frame
/// already processed is neither copied nor uploaded again; a new preroll
/// frame is uploaded at once.
pub open spec fn plan_of<G>(slot: StreamSlot<G>, key: (u64, u64), from_preroll: bool) -> FramePlan {
    let fresh = slot.last_frame != Some(key);
    FramePlan { copy_in_background: fresh, upload_now: fresh && from_preroll }
}

/// A frame met again after it was processed, as itself or as a clone with
/// the same identity, is neither copied nor uploaded a second time: each
/// frame costs at most one staging buffer and one worker hand-off.
pub proof fn lemma_resubmit_copies_once<G>(
    m: Map<u64, StreamSlot<G>>,
    stream_id: u64,
    key: (u64, u64),
    from_preroll: bool,
)
    requires
        m.contains_key(stream_id),
    ensures
        recorded(m, stream_id, key).contains_key(stream_id),
        !plan_of(recorded(m, stream_id, key)[stream_id], key, from_preroll).copy_in_background,
        !plan_of(recorded(m, stream_id, key)[stream_id], key, from_preroll).upload_now,
{
}

/// A change of a stream's size rebuilds its pipeline exactly once: the size
/// check asks for a rebuild, the pipeline installed in its place has the new
/// size and takes the next frame, and frames of that size go on reusing it.
pub proof fn lemma_resize_rebuilds_once<G>(
    m: Map<u64, StreamSlot<G>>,
    stream_id: u64,
    width: u32,
    height: u32,
    resources: G,
    key: (u64, u64),
    from_preroll: bool,
)
    requires
        m.contains_key(stream_id),
        m[stream_id].width != width || m[stream_id].height != height,
    ensures
        resolution_of(m, stream_id, width, height) == Resolution::Rebuild,
        ({
            let fresh = m.insert(
                stream_id,
                StreamSlot { width, height, last_frame: None, resources },
            );
            &&& fresh[stream_id].width == width
            &&& fresh[stream_id].height == height
            &&& resolution_of(fresh, stream_id, width, height) == Resolution::Reuse
            &&& plan_of(fresh[stream_id], key, from_preroll).copy_in_background
            &&& resolution_of(recorded(fresh, stream_id, key), stream_id, width, height)
                == Resolution::Reuse
        }),
{
}

/// A preroll frame not yet processed is copied synchronously, and that copy
/// is what reaches the texture in the same pass, whatever the worker has or
/// has not completed.
pub proof fn lemma_preroll_uploaded_at_once<G, T>(
    slot: StreamSlot<G>,
    key: (u64, u64),
    completed: Seq<T>,
    immediate: T,
)
    requires
        slot.last_frame != Some(key),
    ensures
        plan_of(slot, key, true).upload_now,
        upload_choice(completed, Some(immediate)) == Some(immediate),
{
}

/// The registry `m` after frame `key` was processed on stream `stream_id`.
pub open spec fn recorded<G>(m: Map<u64, StreamSlot<G>>, stream_id: u64, key: (u64, u64)) -> Map<
    u64,
    StreamSlot<G>,
> {
    let s = m[stream_id];
    m.insert(
        stream_id,
        StreamSlot {
            width: s.width,
            height: s.height,
            last_frame: Some(key),
            resources: s.resources,
        },
    )
}

/// The buffer whose contents end up in the texture: the one copied at once
/// if there is one, else the most recent completed by the worker.
pub open spec fn upload_choice<T>(completed: Seq<T>, immediate: Option<T>) -> Option<T> {
    if immediate is Some {
        immediate
    } else if completed.len() > 0 {
        Some(completed.last())
    } else {
        None
    }
}

/// Chooses what to copy into a stream's texture this pass. `completed` holds
/// the buffers the worker has filled since the last pass, oldest first;
/// only the newest counts. `immediate` is a buffer filled synchronously for a
/// preroll frame, which wins over any of them.
pub fn pick_upload<T>(completed: Vec<T>, immediate: Option<T>) -> (r: Option<T>)
    ensures
        r == upload_choice(completed@, immediate),
{
    match immediate {
        Some(b) => Some(b),
        None => {
            let mut completed = completed;
            completed.pop()
        },
    }
}

/// The staging buffer layout for a frame of `width` by `height` pixels of 4
/// bytes each, or `None` where a row or the whole frame does not fit the
/// integer widths the GPU takes.
pub fn upload_layout(width: u32, height: u32) -> (r: Option<UploadLayout>)
    ensures
        r is Some <==> 4 * width <= u32::MAX && 4 * width * height <= u64::MAX,
        r matches Some(l) ==> l.bytes_per_row == 4 * width && l.rows == height && l.size == 4
            * width * height,
{
    if width > u32::MAX / 4 {
        return None;
    }
    let bytes_per_row: u32 = 4 * width;
    let size = (bytes_per_row as u64).checked_mul(height as u64);
    match size {
        Some(size) => {
            assert(size == 4 * width * height);
            Some(UploadLayout { bytes_per_row, rows: height, size })
        },
        None => {
            assert(4 * width * height == (bytes_per_row as u64) * (height as u64));
            None
        },
    }
}

/// The per-stream pipelines of the render backend, keyed by stream id.
pub struct Registry<G> {
    pub streams: HashMap<u64, StreamSlot<G>>,
}

impl<G> Registry<G> {
    /// An empty registry.
    pub fn new() -> (r: Registry<G>)
        ensures
            r.streams@ == Map::<u64, StreamSlot<G>>::empty(),
    {
        Registry { streams: HashMap::new() }
    }

    /// Whether a frame of `width` by `height` pixels from `stream_id` can use
    /// the stream's pipeline as it is, needs one created, or needs it rebuilt.
    pub fn resolve(&self, stream_id: u64, width: u32, height: u32) -> (r: Resolution)
        ensures
            r == resolution_of(self.streams@, stream_id, width, height),
    {
        match self.streams.get(&stream_id) {
            None => Resolution::Create,
            Some(slot) => {
                if slot.width == width && slot.height == height {
                    Resolution::Reuse
                } else {
                    Resolution::Rebuild
                }
            },
        }
    }

    /// Installs a fresh pipeline of `width` by `height` pixels for
    /// `stream_id`, holding `resources`. The pipeline it replaces, if any, is
    /// handed back: the caller tears it down, joining its worker.
    pub fn install(&mut self, stream_id: u64, width: u32, height: u32, resources: G) -> (r: Option<
        StreamSlot<G>,
    >)
        ensures
            final(self).streams@ == old(self).streams@.insert(
                stream_id,
                (StreamSlot { width, height, last_frame: None, resources }),
            ),
            old(self).streams@.contains_key(stream_id) ==> r == Some(old(self).streams@[stream_id]),
            !old(self).streams@.contains_key(stream_id) ==> r is None,
    {
        self.streams.insert(stream_id, StreamSlot { width, height, last_frame: None, resources })
    }

    /// Takes the pipeline of `stream_id` out of the registry, for the caller to
    /// tear down.
    pub fn remove(&mut self, stream_id: u64) -> (r: Option<StreamSlot<G>>)
        ensures
            final(self).streams@ == old(self).streams@.remove(stream_id),
            old(self).streams@.contains_key(stream_id) ==> r == Some(old(self).streams@[stream_id]),
            !old(self).streams@.contains_key(stream_id) ==> r is None,
    {
        self.streams.remove(&stream_id)
    }

    /// The pipeline of `stream_id`, if there is one.
    pub fn slot(&self, stream_id: u64) -> (r: Option<&StreamSlot<G>>)
        ensures
            self.streams@.contains_key(stream_id) ==> r == Some(&self.streams@[stream_id]),
            !self.streams@.contains_key(stream_id) ==> r is None,
    {
        self.streams.get(&stream_id)
    }

    /// The plan for `sample` on its stream's pipeline: copy it in the
    /// background unless it is the frame last processed, and upload it at
    /// once if it is also a preroll frame.
    pub fn plan<B>(&self, sample: &Sample<B>) -> (r: FramePlan)
        requires
            self.streams@.contains_key(sample.stream_id),
        ensures
            r == plan_of(self.streams@[sample.stream_id], sample.key(), sample.from_preroll),
    {
        let slot = self.streams.get(&sample.stream_id).unwrap();
        let fresh = match slot.last_frame {
            Some(k) => !(k.0 == sample.stream_id && k.1 == sample.sample_id),
            None => true,
        };
        FramePlan { copy_in_background: fresh, upload_now: fresh && sample.from_preroll }
    }

    /// Notes that the frame `key` was processed on the pipeline of `stream_id`.
    pub fn record(&mut self, stream_id: u64, key: (u64, u64))
        requires
            old(self).streams@.contains_key(stream_id),
        ensures
            final(self).streams@ == recorded(old(self).streams@, stream_id, key),
    {
        let slot = self.streams.remove(&stream_id).unwrap();
        let StreamSlot { width, height, last_frame: _, resources } = slot;
        self.streams.insert(stream_id, StreamSlot { width, height, last_frame: Some(key), resources });
    }
}

} // verus!
