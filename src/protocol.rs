use vstd::prelude::*;

use color_eyre::eyre::Report;

verus! {

/// An error report from `eyre`; the library carries it from the worker to the host without
/// looking inside.
#[verifier::external_type_specification]
#[verifier::external_body]
pub struct ExReport(color_eyre::eyre::Report);

/// Handles that the GPU backend exports so that the render-capture backend can write into its
/// memory.
#[derive(Debug, Clone, Copy, PartialEq, Eq)]
pub struct ExternalHandles {
    /// Width of the exported image.
    pub width: u32,
    /// Height of the exported image.
    pub height: u32,
    /// Handle of the shared image memory.
    pub image_frame_memory: u64,
    /// Handle of the semaphore signalled after each capture.
    pub semaphore: u64,
}

/// Messages from the host's render thread to the worker.
#[derive(Debug)]
pub enum MainToThread {
    /// Stop processing and close the muxer.
    Finish,
    /// Reply with the exported handles.
    GiveExternalHandles,
    /// Acquire the next image and acknowledge it.
    AcquireImage,
    /// Convert the acquired image and write it `frames` times.
    Record { frames: usize },
    /// Write raw audio samples.
    Audio(Vec<u8>),
}

/// Messages from the worker to the host's render thread.
#[derive(Debug)]
pub enum ThreadToMain {
    /// The worker failed and stopped.
    Error(Report),
    /// The handles asked for by `GiveExternalHandles`.
    ExternalHandles(ExternalHandles),
    /// The image asked for by `AcquireImage` is acquired.
    AcquiredImage,
}

/// Errors of a capture session.
#[derive(Debug)]
pub enum CaptureError {
    /// The video width or height is odd.
    Validation { width: i32, height: i32 },
    /// The external encoder process could not be started.
    EncoderSpawn(Report),
    /// The muxer failed to start for another reason.
    MuxerInit(Report),
    /// The GPU or render-capture backend failed.
    Backend(Report),
    /// The worker stopped without leaving a report.
    WorkerTerminated,
    /// The worker answered a request with a reply of another kind.
    UnexpectedReply,
}

} // verus!
