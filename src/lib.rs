//! Frame delivery for video playback: the queue that carries decoder events
//! to a single asynchronous consumer, and the per-stream bookkeeping that
//! decides when a frame's pixels are copied and uploaded to the GPU.

pub mod frame;
pub mod queue;
pub mod registry;
pub mod video;
