use vstd::prelude::*;

use crate::frame::Sample;

verus! {

/// How much room a widget asks for along one axis.
#[derive(PartialEq, Eq, Structural, Clone, Copy, Debug)]
pub enum Length {
    /// All the room there is.
    Fill,
    /// A share of the room, relative to the other filling widgets.
    FillPortion(u16),
    /// As little room as the contents need.
    Shrink,
    /// A fixed number of units.
    Units(u16),
}

/// The consumer side of a video player: the decoder and sink handles of the
/// backend, `H`, and the frame currently on display.
#[derive(Clone, Debug)]
pub struct Player<B, H> {
    /// Handles of the decoding backend.
    pub backend: H,
    /// The frame on display, set by the consumer of the player's events.
    pub sample: Option<Sample<B>>,
}

impl<B, H> Player<B, H> {
    /// A player over `backend` that shows no frame yet.
    pub fn from_backend(backend: H) -> (r: Player<B, H>)
        ensures
            r.backend == backend,
            r.sample is None,
    {
        Player { backend, sample: None }
    }

    /// Sets the frame to display; every `Video` made from this player after
    /// the call shows it.
    pub fn set_sample(&mut self, sample: Sample<B>)
        ensures
            final(self).sample == Some(sample),
            final(self).backend == old(self).backend,
    {
        self.sample = Some(sample);
    }
}

/// Whether `a` and `b` show the same frame of the same size, or both none.
pub open spec fn shows_same<B>(a: Option<Sample<B>>, b: Option<Sample<B>>) -> bool {
    match (a, b) {
        (None, None) => true,
        (Some(x), Some(y)) => x.key() == y.key() && x.width == y.width && x.height == y.height
            && x.from_preroll == y.from_preroll,
        _ => false,
    }
}

/// A widget that shows the current frame of a player.
#[derive(Clone, Debug)]
pub struct Video<B> {
    /// The frame to show.
    pub sample: Option<Sample<B>>,
    /// Room asked for horizontally.
    pub width: Length,
    /// Room asked for vertically.
    pub height: Length,
}

impl<B: Clone> Video<B> {
    /// A widget showing the current frame of `player`, asking for as little
    /// room as the frame needs.
    pub fn new<H>(player: &Player<B, H>) -> (r: Video<B>)
        ensures
            shows_same(r.sample, player.sample),
            r.width == Length::Shrink,
            r.height == Length::Shrink,
    {
        let sample = match &player.sample {
            Some(s) => Some(
                Sample {
                    buffer: s.buffer.clone(),
                    width: s.width,
                    height: s.height,
                    stream_id: s.stream_id,
                    sample_id: s.sample_id,
                    from_preroll: s.from_preroll,
                },
            ),
            None => None,
        };
        Video { sample, width: Length::Shrink, height: Length::Shrink }
    }
}

impl<B> Video<B> {
    /// Sets the room the widget asks for horizontally.
    pub fn width(self, width: Length) -> (r: Video<B>)
        ensures
            r.width == width,
            r.height == self.height,
            r.sample == self.sample,
    {
        let mut v = self;
        v.width = width;
        v
    }

    /// Sets the room the widget asks for vertically.
    pub fn height(self, height: Length) -> (r: Video<B>)
        ensures
            r.height == height,
            r.width == self.width,
            r.sample == self.sample,
    {
        let mut v = self;
        v.height = height;
        v
    }

    /// Hands the widget's frame to `renderer`, to be drawn in `bounds`.
    pub fn draw<R: Renderer<B>>(&self, renderer: &mut R, bounds: R::Bounds) -> R::Output {
        renderer.draw(&self.sample, bounds)
    }
}

/// What a render backend provides to draw a `Video`.
pub trait Renderer<B> {
    /// Where on the surface a frame goes.
    type Bounds;

    /// What drawing produces.
    type Output;

    /// Draws `sample`, if there is one, in `bounds`.
    fn draw(&mut self, sample: &Option<Sample<B>>, bounds: Self::Bounds) -> Self::Output;
}

} // verus!
