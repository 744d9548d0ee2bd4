//! Fixed-rate capture of a variable-rate render loop: the timing accumulators that map
//! irregular simulation steps onto an output frame and sample grid, the host/worker message
//! protocol, and frame-index bookkeeping for frame-bulk scripts.

mod arith;
mod frames;
mod protocol;
mod recorder;
mod worker;

pub use frames::{
    bulk_and_first_frame_idx, bulk_idx_and_is_last, line_first_frame_idx,
    line_idx_and_repeat_at_frame,
};
pub use protocol::{CaptureError, ExternalHandles, MainToThread, ThreadToMain};
pub use recorder::{Recorder, SoundCaptureMode, HALF_FRAME, NANOS_PER_SECOND, SOUND_LIMIT};
pub use worker::{WorkOutcome, Worker, WorkerAction};
