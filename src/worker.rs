use vstd::prelude::*;

use color_eyre::eyre::Report;

use crate::protocol::{ExternalHandles, MainToThread, ThreadToMain};

verus! {

/// Work the worker performs for one message.
pub enum WorkerAction {
    /// Close the muxer and end the thread.
    CloseMuxer,
    /// Query the GPU backend for exportable handles.
    ExportHandles,
    /// Acquire the next image from the GPU backend.
    AcquireImage,
    /// Convert the acquired image and write it `frames` times.
    ConvertAndMux { frames: usize },
    /// Write raw audio samples.
    WriteAudio(Vec<u8>),
}

/// How the work for a message went.
pub enum WorkOutcome {
    /// Done, with nothing to report.
    Done,
    /// An image was acquired.
    Acquired,
    /// The backend exported these handles.
    Handles(ExternalHandles),
    /// The backend or the muxer failed.
    Failed(Report),
}

/// The action the worker takes for `message`; `None` is a closed channel.
pub open spec fn action_for(message: Option<MainToThread>) -> WorkerAction {
    match message {
        None => WorkerAction::CloseMuxer,
        Some(MainToThread::Finish) => WorkerAction::CloseMuxer,
        Some(MainToThread::GiveExternalHandles) => WorkerAction::ExportHandles,
        Some(MainToThread::AcquireImage) => WorkerAction::AcquireImage,
        Some(MainToThread::Record { frames }) => WorkerAction::ConvertAndMux { frames },
        Some(MainToThread::Audio(samples)) => WorkerAction::WriteAudio(samples),
    }
}

/// The reply the worker sends for an outcome.
pub open spec fn reply_for(outcome: WorkOutcome) -> Option<ThreadToMain> {
    match outcome {
        WorkOutcome::Done => None,
        WorkOutcome::Acquired => Some(ThreadToMain::AcquiredImage),
        WorkOutcome::Handles(h) => Some(ThreadToMain::ExternalHandles(h)),
        WorkOutcome::Failed(e) => Some(ThreadToMain::Error(e)),
    }
}

/// The dispatch state of the worker thread, which owns the GPU backend and the muxer. It
/// takes one message at a time, in order; a failure is terminal, and every way out closes the
/// muxer exactly once.
pub struct Worker {
    /// A failure was reported; no further message is taken.
    stopping: bool,
    /// The muxer was closed; the thread is done.
    closed: bool,
}

impl Worker {
    /// A failure was reported.
    pub closed spec fn is_stopping(&self) -> bool {
        self.stopping
    }

    /// The muxer was closed.
    pub closed spec fn is_closed(&self) -> bool {
        self.closed
    }

    /// A worker that has not started on any message.
    pub fn new() -> (w: Worker)
        ensures
            !w.is_stopping(),
            !w.is_closed(),
    {
        Worker { stopping: false, closed: false }
    }

    /// Whether the next step reads a message from the channel.
    pub fn wants_message(&self) -> (r: bool)
        ensures
            r == (!self.is_stopping() && !self.is_closed()),
    {
        !self.stopping && !self.closed
    }

    /// The action for the next message (`None` when the channel closed). After a failure the
    /// message is ignored and the muxer is closed. Closing happens once: afterwards the worker
    /// takes no further step.
    pub fn process_message(&mut self, message: Option<MainToThread>) -> (action: WorkerAction)
        requires
            !old(self).is_closed(),
        ensures
            action == (if old(self).is_stopping() {
                WorkerAction::CloseMuxer
            } else {
                action_for(message)
            }),
            final(self).is_closed() == (action is CloseMuxer),
            final(self).is_stopping() == old(self).is_stopping(),
    {
        if self.stopping {
            self.closed = true;
            return WorkerAction::CloseMuxer;
        }
        let action = match message {
            None => WorkerAction::CloseMuxer,
            Some(MainToThread::Finish) => WorkerAction::CloseMuxer,
            Some(MainToThread::GiveExternalHandles) => WorkerAction::ExportHandles,
            Some(MainToThread::AcquireImage) => WorkerAction::AcquireImage,
            Some(MainToThread::Record { frames }) => WorkerAction::ConvertAndMux { frames },
            Some(MainToThread::Audio(samples)) => WorkerAction::WriteAudio(samples),
        };
        if let WorkerAction::CloseMuxer = action {
            self.closed = true;
        }
        action
    }

    /// Takes the outcome of the work for the last message and returns the reply to send to
    /// the host. A failure is reported and stops the worker.
    pub fn finished(&mut self, outcome: WorkOutcome) -> (reply: Option<ThreadToMain>)
        requires
            !old(self).is_closed(),
        ensures
            reply == reply_for(outcome),
            final(self).is_stopping() == (old(self).is_stopping() || outcome is Failed),
            !final(self).is_closed(),
    {
        match outcome {
            WorkOutcome::Done => None,
            WorkOutcome::Acquired => Some(ThreadToMain::AcquiredImage),
            WorkOutcome::Handles(h) => Some(ThreadToMain::ExternalHandles(h)),
            WorkOutcome::Failed(e) => {
                self.stopping = true;
                Some(ThreadToMain::Error(e))
            },
        }
    }
}

} // verus!
