use vstd::prelude::*;

use color_eyre::eyre::Report;

use crate::arith::{ceil_div, floor_div};
use crate::protocol::{CaptureError, ExternalHandles, MainToThread, ThreadToMain};

verus! {

/// Nanoseconds in a second: the unit in which elapsed time is given.
pub const NANOS_PER_SECOND: u64 = 1_000_000_000;

/// Half an output frame, in billionths of a frame.
pub const HALF_FRAME: i128 = 500_000_000;

/// Bound on the audio accumulator, in its units (2 to the 95th: over a billion years at any
/// sample rate).
pub const SOUND_LIMIT: i128 = 39_614_081_257_132_168_796_771_975_168;

/// How `samples_to_capture` rounds.
pub enum SoundCaptureMode {
    /// Round down, so that no audio is read before it exists.
    Normal,
    /// Add `extra` nanoseconds and round up, to flush what is left at the end of a session.
    Remaining { extra: u64 },
}

/// Output frames owed for an accumulator of `v` billionths of a frame: `v` rounded half up.
pub open spec fn frames_for(v: int) -> int {
    (v + HALF_FRAME) / (NANOS_PER_SECOND as int)
}

/// The audio accumulator `rem`, kept at `from` samples per second, expressed at `to` samples
/// per second: exact when the rate is unchanged, else rounded down.
pub open spec fn rescaled(rem: int, from: int, to: int) -> int {
    if from == to {
        rem
    } else {
        (rem * to) / from
    }
}

/// The sample count that `samples_to_capture` returns for an accumulator of `rem`, kept at
/// `rate` samples per second: whole samples rounded down, or, with `extra` nanoseconds added,
/// rounded up.
pub open spec fn samples_for(rem: int, rate: int, mode: SoundCaptureMode) -> int {
    match mode {
        SoundCaptureMode::Normal => rem / (NANOS_PER_SECOND as int),
        SoundCaptureMode::Remaining { extra } => -((-(rem + extra * rate)) / (
        NANOS_PER_SECOND as int)),
    }
}

/// The sample count for an accumulator of `rem` kept at `rate` samples per second.
fn rounded_samples(rem: i128, rate: i128, mode: &SoundCaptureMode) -> (r: i128)
    requires
        -0x4000_0000_0000_0000_0000_0000_0000_0000 <= rem <= 0x4000_0000_0000_0000_0000_0000_0000_0000,
        0 < rate <= i32::MAX,
    ensures
        r == samples_for(rem as int, rate as int, *mode),
{
    let n = NANOS_PER_SECOND as i128;
    match mode {
        SoundCaptureMode::Normal => floor_div(rem, n),
        SoundCaptureMode::Remaining { extra } => {
            proof {
                assert(0 <= *extra * rate <= u64::MAX * 0x8000_0000) by (nonlinear_arith)
                    requires 0 < rate <= 0x8000_0000, 0 <= *extra <= u64::MAX;
            }
            ceil_div(rem + *extra as i128 * rate, n)
        },
    }
}

/// Rescales the accumulator `rem` from `from` to `to` samples per second.
fn rescale(rem: i128, from: i128, to: i128) -> (r: i128)
    requires
        -SOUND_LIMIT <= rem <= SOUND_LIMIT,
        0 < from <= i32::MAX,
        0 < to <= i32::MAX,
    ensures
        r == rescaled(rem as int, from as int, to as int),
        -0x4000_0000_0000_0000_0000_0000_0000_0000 <= r <= 0x4000_0000_0000_0000_0000_0000_0000_0000,
{
    if from == to {
        return rem;
    }
    proof {
        assert(-SOUND_LIMIT * 0x8000_0000 <= rem * to <= SOUND_LIMIT * 0x8000_0000)
            by (nonlinear_arith)
            requires -SOUND_LIMIT <= rem <= SOUND_LIMIT, 0 < to <= 0x8000_0000;
    }
    let q = floor_div(rem * to, from);
    proof {
        let a = rem * to;
        let fi = from as int;
        vstd::arithmetic::div_mod::lemma_fundamental_div_mod(a, fi);
        assert(q * fi <= a < q * fi + fi) by (nonlinear_arith)
            requires q == a / fi, a == fi * (a / fi) + a % fi, 0 <= a % fi < fi;
        assert(-0x4000_0000_0000_0000_0000_0000_0000_0000 <= q
            <= 0x4000_0000_0000_0000_0000_0000_0000_0000) by (nonlinear_arith)
            requires
                q * fi <= a < q * fi + fi,
                fi >= 1,
                -SOUND_LIMIT * 0x8000_0000 <= a <= SOUND_LIMIT * 0x8000_0000,
        ;
    }
    q
}

/// The host side of a capture session: timing accumulators and the state of the handshake
/// with the worker.
pub struct Recorder {
    /// Video width.
    width: i32,
    /// Video height.
    height: i32,
    /// Output frames per second.
    fps: u64,
    /// Game time not yet turned into video, in billionths of an output frame.
    video_remainder: i128,
    /// Game time not yet turned into audio, in units of one nanosecond divided by
    /// `sound_rate`: a whole number of them for any time a sample rate can express.
    sound_remainder: i128,
    /// The sample rate of the last `samples_to_capture`; 1 before the first.
    sound_rate: i128,
    /// Whether an image acquisition was requested and not yet used by `record`.
    acquired_image: bool,
    /// Whether the worker's acknowledgment of that acquisition already arrived, while the host
    /// waited for something else.
    image_acknowledged: bool,
    /// Whether the render-capture backend exists; it is dropped when the graphics context is
    /// lost and set up again on the next capture.
    has_render_capture: bool,
    /// Error from the worker, kept after it was found in a drain.
    thread_error: Option<Report>,
    /// All game time passed, in billionths of an output frame.
    video_passed: Ghost<int>,
    /// All output frames recorded.
    frames_recorded: Ghost<int>,
    /// All game time passed, in nanoseconds.
    sound_passed: Ghost<int>,
    /// Time the samples captured so far stand for, in seconds, as a fraction: this numerator
    /// over `consumed_den`.
    consumed_num: Ghost<int>,
    /// Denominator of `consumed_num`.
    consumed_den: Ghost<int>,
}

impl Recorder {
    /// Video width.
    pub closed spec fn spec_width(&self) -> int {
        self.width as int
    }

    /// Video height.
    pub closed spec fn spec_height(&self) -> int {
        self.height as int
    }

    /// Output frames per second.
    pub closed spec fn spec_fps(&self) -> int {
        self.fps as int
    }

    /// Game time not yet turned into video, in billionths of an output frame.
    pub closed spec fn spec_video_remainder(&self) -> int {
        self.video_remainder as int
    }

    /// Game time not yet turned into audio, in units of one nanosecond divided by the sample
    /// rate it is kept at.
    pub closed spec fn spec_sound_remainder(&self) -> int {
        self.sound_remainder as int
    }

    /// Whether an acquisition was requested and not yet acknowledged.
    pub closed spec fn spec_acquired_image(&self) -> bool {
        self.acquired_image
    }

    /// Whether the acknowledgment of the pending acquisition already arrived.
    pub closed spec fn spec_image_acknowledged(&self) -> bool {
        self.image_acknowledged
    }

    /// Whether the render-capture backend exists.
    pub closed spec fn spec_has_render_capture(&self) -> bool {
        self.has_render_capture
    }

    /// The worker's error kept from a drain.
    pub closed spec fn spec_thread_error(&self) -> Option<Report> {
        self.thread_error
    }

    /// All game time passed, in billionths of an output frame.
    pub closed spec fn video_passed(&self) -> int {
        self.video_passed@
    }

    /// All output frames taken by `record_last_frame`.
    pub closed spec fn frames_recorded(&self) -> int {
        self.frames_recorded@
    }

    /// All game time passed, in nanoseconds.
    pub closed spec fn sound_passed(&self) -> int {
        self.sound_passed@
    }

    /// Numerator of the time, in seconds, that the samples captured so far stand for.
    pub closed spec fn consumed_num(&self) -> int {
        self.consumed_num@
    }

    /// Denominator of `consumed_num`.
    pub closed spec fn consumed_den(&self) -> int {
        self.consumed_den@
    }

    /// The sample rate at which the audio accumulator is kept.
    pub closed spec fn spec_sound_rate(&self) -> int {
        self.sound_rate as int
    }

    /// Same dimensions and frame rate.
    pub open spec fn same_settings(&self, other: Recorder) -> bool {
        &&& self.spec_width() == other.spec_width()
        &&& self.spec_height() == other.spec_height()
        &&& self.spec_fps() == other.spec_fps()
    }

    /// Same settings, accumulators, handshake flag and totals.
    pub open spec fn same_timing(&self, other: Recorder) -> bool {
        &&& self.same_settings(other)
        &&& self.spec_video_remainder() == other.spec_video_remainder()
        &&& self.spec_sound_remainder() == other.spec_sound_remainder()
        &&& self.spec_acquired_image() == other.spec_acquired_image()
        &&& self.spec_image_acknowledged() == other.spec_image_acknowledged()
        &&& self.video_passed() == other.video_passed()
        &&& self.frames_recorded() == other.frames_recorded()
        &&& self.sound_passed() == other.sound_passed()
        &&& self.spec_sound_rate() == other.spec_sound_rate()
        &&& self.consumed_num() == other.consumed_num()
        &&& self.consumed_den() == other.consumed_den()
    }

    /// Same render-capture state.
    pub open spec fn same_capture(&self, other: Recorder) -> bool {
        self.spec_has_render_capture() == other.spec_has_render_capture()
    }

    /// Output frames that the next `record_last_frame` emits.
    pub open spec fn frames_due(&self) -> int {
        frames_for(self.spec_video_remainder())
    }

    /// The session's invariant: even dimensions, the video accumulator at least minus half a
    /// frame, a pending acquisition whenever a frame is due, and totals that account for every
    /// accumulator change.
    pub closed spec fn wf(&self) -> bool {
        &&& self.width % 2 == 0
        &&& self.height % 2 == 0
        &&& self.video_remainder >= -HALF_FRAME
        &&& self.frames_due() > 0 ==> self.acquired_image
        &&& self.image_acknowledged ==> self.acquired_image
        &&& -SOUND_LIMIT <= self.sound_remainder <= SOUND_LIMIT
        &&& self.frames_recorded@ * NANOS_PER_SECOND + self.video_remainder == self.video_passed@
        &&& 0 < self.sound_rate <= i32::MAX
        &&& self.consumed_den@ > 0
        &&& self.consumed_num@ * NANOS_PER_SECOND * self.sound_rate + self.sound_remainder
            * self.consumed_den@ <= self.sound_passed@ * self.sound_rate * self.consumed_den@
    }

    /// Starts a session of `width` × `height` video at `fps` frames per second.
    ///
    /// Odd dimensions are refused: the colour conversion subsamples chroma by two.
    pub fn init(width: i32, height: i32, fps: u64) -> (r: Result<Recorder, CaptureError>)
        ensures
            (width % 2 == 0 && height % 2 == 0) <==> r is Ok,
            r is Err ==> r == Err::<Recorder, CaptureError>(
                CaptureError::Validation { width, height },
            ),
            r matches Ok(rec) ==> {
                &&& rec.wf()
                &&& rec.spec_width() == width
                &&& rec.spec_height() == height
                &&& rec.spec_fps() == fps
                &&& rec.spec_video_remainder() == 0
                &&& rec.spec_sound_remainder() == 0
                &&& !rec.spec_acquired_image()
                &&& !rec.spec_image_acknowledged()
                &&& !rec.spec_has_render_capture()
                &&& rec.spec_thread_error() is None
                &&& rec.video_passed() == 0
                &&& rec.frames_recorded() == 0
                &&& rec.sound_passed() == 0
                &&& rec.spec_sound_rate() == 1
                &&& rec.consumed_num() == 0
                &&& rec.consumed_den() == 1
            },
    {
        if width % 2 != 0 || height % 2 != 0 {
            return Err(CaptureError::Validation { width, height });
        }
        Ok(Recorder {
            width,
            height,
            fps,
            video_remainder: 0,
            sound_remainder: 0,
            sound_rate: 1,
            acquired_image: false,
            image_acknowledged: false,
            has_render_capture: false,
            thread_error: None,
            video_passed: Ghost(0),
            frames_recorded: Ghost(0),
            sound_passed: Ghost(0),
            consumed_num: Ghost(0),
            consumed_den: Ghost(1),
        })
    }

    /// Accounts for `nanos` nanoseconds of game time. Returns the acquisition request to send
    /// to the worker when a frame has become due and none is pending.
    pub fn time_passed(&mut self, nanos: u64) -> (r: Option<MainToThread>)
        requires
            old(self).wf(),
            old(self).spec_video_remainder() + nanos * old(self).spec_fps() <= i128::MAX,
            old(self).spec_sound_remainder() + nanos * old(self).spec_sound_rate() <= SOUND_LIMIT,
        ensures
            final(self).wf(),
            final(self).spec_video_remainder() == old(self).spec_video_remainder() + nanos
                * old(self).spec_fps(),
            final(self).spec_sound_remainder() == old(self).spec_sound_remainder() + nanos
                * old(self).spec_sound_rate(),
            final(self).spec_sound_rate() == old(self).spec_sound_rate(),
            final(self).spec_acquired_image() == (old(self).spec_acquired_image()
                || final(self).frames_due() >= 1),
            r == (if !old(self).spec_acquired_image() && final(self).frames_due() >= 1 {
                Some(MainToThread::AcquireImage)
            } else {
                None::<MainToThread>
            }),
            final(self).spec_video_remainder() >= -HALF_FRAME,
            final(self).video_passed() == old(self).video_passed() + nanos * old(self).spec_fps(),
            final(self).sound_passed() == old(self).sound_passed() + nanos,
            final(self).frames_recorded() == old(self).frames_recorded(),
            final(self).consumed_num() == old(self).consumed_num(),
            final(self).consumed_den() == old(self).consumed_den(),
            final(self).spec_width() == old(self).spec_width(),
            final(self).spec_height() == old(self).spec_height(),
            final(self).spec_fps() == old(self).spec_fps(),
            final(self).spec_thread_error() == old(self).spec_thread_error(),
            final(self).spec_image_acknowledged() == old(self).spec_image_acknowledged(),
            final(self).same_capture(*old(self)),
    {
        proof {
            assert(0 <= nanos * self.fps <= u64::MAX * u64::MAX) by (nonlinear_arith)
                requires nanos <= u64::MAX, self.fps <= u64::MAX;
        }
        let step: u128 = (nanos as u128) * (self.fps as u128);
        if self.video_remainder >= 0 || step < HALF_FRAME as u128 {
            self.video_remainder = self.video_remainder + step as i128;
        } else {
            let deficit: u128 = (0 - self.video_remainder) as u128;
            self.video_remainder = (step - deficit) as i128;
        }
        proof {
            assert(0 <= nanos * self.sound_rate <= u64::MAX * 0x8000_0000) by (nonlinear_arith)
                requires nanos <= u64::MAX, 0 < self.sound_rate <= 0x8000_0000;
        }
        let ghost s0 = self.sound_remainder as int;
        self.sound_remainder = self.sound_remainder + nanos as i128 * self.sound_rate;
        proof {
            self.video_passed@ = self.video_passed@ + step;
            let p0 = self.sound_passed@;
            self.sound_passed@ = p0 + nanos;
            let cn = self.consumed_num@;
            let cd = self.consumed_den@;
            let r = self.sound_rate as int;
            let ni = NANOS_PER_SECOND as int;
            assert(cn * ni * r + (s0 + nanos * r) * cd <= (p0 + nanos) * r * cd)
                by (nonlinear_arith)
                requires cn * ni * r + s0 * cd <= p0 * r * cd;
        }
        self.acquire_image_if_needed()
    }

    fn acquire_image_if_needed(&mut self) -> (r: Option<MainToThread>)
        requires
            old(self).video_remainder >= -HALF_FRAME,
        ensures
            final(self).acquired_image == (old(self).acquired_image || old(self).frames_due()
                >= 1),
            r == (if !old(self).acquired_image && old(self).frames_due() >= 1 {
                Some(MainToThread::AcquireImage)
            } else {
                None::<MainToThread>
            }),
            *final(self) == (Recorder { acquired_image: final(self).acquired_image, ..*old(self) }),
    {
        if self.acquired_image {
            return None;
        }
        if self.video_remainder < HALF_FRAME {
            proof {
                lemma_no_frame_below_half(self.video_remainder as int);
            }
            return None;
        }
        proof {
            lemma_frame_from_half(self.video_remainder as int);
        }
        self.acquired_image = true;
        Some(MainToThread::AcquireImage)
    }

    /// Takes the frames that the game time so far has made due, rounding half up; what is left
    /// stays for the next call. When the result is positive, the caller waits for the worker's
    /// acknowledgment and passes it to `record`.
    pub fn record_last_frame(&mut self) -> (frames: usize)
        requires
            old(self).wf(),
            old(self).frames_due() <= usize::MAX,
        ensures
            final(self).wf(),
            frames == old(self).frames_due(),
            final(self).spec_video_remainder() == old(self).spec_video_remainder() - frames
                * NANOS_PER_SECOND,
            -HALF_FRAME <= final(self).spec_video_remainder() < HALF_FRAME,
            final(self).spec_video_remainder() == -HALF_FRAME <==> (
            old(self).spec_video_remainder() + HALF_FRAME) % (NANOS_PER_SECOND as int) == 0,
            final(self).frames_due() == 0,
            frames > 0 ==> final(self).spec_acquired_image(),
            final(self).frames_recorded() == old(self).frames_recorded() + frames,
            final(self).same_settings(*old(self)),
            final(self).spec_sound_remainder() == old(self).spec_sound_remainder(),
            final(self).spec_acquired_image() == old(self).spec_acquired_image(),
            final(self).spec_image_acknowledged() == old(self).spec_image_acknowledged(),
            final(self).same_capture(*old(self)),
            final(self).spec_thread_error() == old(self).spec_thread_error(),
            final(self).video_passed() == old(self).video_passed(),
            final(self).sound_passed() == old(self).sound_passed(),
            final(self).spec_sound_rate() == old(self).spec_sound_rate(),
            final(self).consumed_num() == old(self).consumed_num(),
            final(self).consumed_den() == old(self).consumed_den(),
    {
        let shifted: i128 = self.video_remainder + HALF_FRAME;
        let frames_wide: i128 = floor_div(shifted, NANOS_PER_SECOND as i128);
        let frames = frames_wide as usize;
        proof {
            let v = self.video_remainder as int;
            let f = frames as int;
            let n = NANOS_PER_SECOND as int;
            vstd::arithmetic::div_mod::lemma_fundamental_div_mod(v + HALF_FRAME, n);
            assert(f * n <= v + HALF_FRAME < f * n + n) by (nonlinear_arith)
                requires
                    v + HALF_FRAME == n * f + (v + HALF_FRAME) % n,
                    0 <= (v + HALF_FRAME) % n < n,
            ;
            lemma_no_frame_below_half(v - f * n);
        }
        self.video_remainder = self.video_remainder - frames_wide * (NANOS_PER_SECOND as i128);
        proof {
            let fr = self.frames_recorded@;
            self.frames_recorded@ = fr + frames;
            assert((fr + frames) * NANOS_PER_SECOND == fr * NANOS_PER_SECOND + frames
                * NANOS_PER_SECOND) by (nonlinear_arith);
        }
        frames
    }

    /// The worker's answer to a synchronous request, or `None` when the channel closed. An
    /// error report ends the wait with that report; a closed channel with the error found in an
    /// earlier drain, or with none.
    pub fn receive(&mut self, reply: Option<ThreadToMain>) -> (r: Result<
        ThreadToMain,
        CaptureError,
    >)
        ensures
            r == match reply {
                None => match old(self).spec_thread_error() {
                    Some(e) => Err(CaptureError::Backend(e)),
                    None => Err(CaptureError::WorkerTerminated),
                },
                Some(ThreadToMain::Error(e)) => Err(CaptureError::Backend(e)),
                Some(m) => Ok(m),
            },
            final(self).spec_thread_error() == (if reply is None {
                None
            } else {
                old(self).spec_thread_error()
            }),
            final(self).same_timing(*old(self)),
            final(self).same_capture(*old(self)),
            old(self).wf() ==> final(self).wf(),
    {
        match reply {
            None => match self.thread_error.take() {
                Some(e) => Err(CaptureError::Backend(e)),
                None => Err(CaptureError::WorkerTerminated),
            },
            Some(ThreadToMain::Error(e)) => Err(CaptureError::Backend(e)),
            Some(m) => Ok(m),
        }
    }
}


impl Recorder {
    /// Whether `record` needs the worker's acknowledgment of the pending acquisition: it did
    /// not arrive yet while the host waited for something else.
    pub fn awaits_acknowledgment(&self) -> (r: bool)
        ensures
            r == (self.spec_acquired_image() && !self.spec_image_acknowledged()),
    {
        self.acquired_image && !self.image_acknowledged
    }

    /// Called after `record_last_frame` returned `frames > 0`. When the acknowledgment of the
    /// acquisition was already kept, `reply` is not looked at and the caller does not wait;
    /// otherwise `reply` is the acknowledgment the caller waited for (`None` when the channel
    /// closed). On success, returns the message that asks the worker to write the image
    /// `frames` times.
    pub fn record(&mut self, frames: usize, reply: Option<ThreadToMain>) -> (r: Result<
        MainToThread,
        CaptureError,
    >)
        requires
            old(self).wf(),
            old(self).spec_acquired_image(),
            old(self).frames_due() == 0,
        ensures
            final(self).wf(),
            r == if old(self).spec_image_acknowledged() {
                Ok(MainToThread::Record { frames })
            } else {
                match reply {
                    None => match old(self).spec_thread_error() {
                        Some(e) => Err(CaptureError::Backend(e)),
                        None => Err(CaptureError::WorkerTerminated),
                    },
                    Some(ThreadToMain::Error(e)) => Err(CaptureError::Backend(e)),
                    Some(ThreadToMain::AcquiredImage) => Ok(MainToThread::Record { frames }),
                    Some(ThreadToMain::ExternalHandles(_)) => Err(CaptureError::UnexpectedReply),
                }
            },
            final(self).spec_acquired_image() == !(r is Ok),
            !final(self).spec_image_acknowledged(),
            final(self).spec_thread_error() == (if reply is None
                && !old(self).spec_image_acknowledged() {
                None
            } else {
                old(self).spec_thread_error()
            }),
            final(self).same_settings(*old(self)),
            final(self).same_capture(*old(self)),
            final(self).spec_video_remainder() == old(self).spec_video_remainder(),
            final(self).spec_sound_remainder() == old(self).spec_sound_remainder(),
            final(self).video_passed() == old(self).video_passed(),
            final(self).frames_recorded() == old(self).frames_recorded(),
            final(self).sound_passed() == old(self).sound_passed(),
            final(self).spec_sound_rate() == old(self).spec_sound_rate(),
            final(self).consumed_num() == old(self).consumed_num(),
            final(self).consumed_den() == old(self).consumed_den(),
    {
        if self.image_acknowledged {
            self.image_acknowledged = false;
            self.acquired_image = false;
            return Ok(MainToThread::Record { frames });
        }
        match self.receive(reply) {
            Ok(ThreadToMain::AcquiredImage) => {
                self.acquired_image = false;
                Ok(MainToThread::Record { frames })
            },
            Ok(_) => Err(CaptureError::UnexpectedReply),
            Err(e) => Err(e),
        }
    }

    /// Whether the next capture must first fetch the exported handles from the worker.
    pub fn needs_handles(&self) -> (r: bool)
        ensures
            r == !self.spec_has_render_capture(),
    {
        !self.has_render_capture
    }

    /// The reply the caller waited for after sending `GiveExternalHandles` (`None` when the
    /// channel closed). The handles come back as `Some`. An acknowledgment of the pending
    /// acquisition may arrive first, since that request went out earlier: it is kept for
    /// `record`, and `Ok(None)` tells the caller to wait again.
    pub fn handles_reply(&mut self, reply: Option<ThreadToMain>) -> (r: Result<
        Option<ExternalHandles>,
        CaptureError,
    >)
        requires
            old(self).wf(),
        ensures
            final(self).wf(),
            r == match reply {
                None => match old(self).spec_thread_error() {
                    Some(e) => Err(CaptureError::Backend(e)),
                    None => Err(CaptureError::WorkerTerminated),
                },
                Some(ThreadToMain::Error(e)) => Err(CaptureError::Backend(e)),
                Some(ThreadToMain::ExternalHandles(h)) => Ok(Some(h)),
                Some(ThreadToMain::AcquiredImage) => if old(self).spec_acquired_image()
                    && !old(self).spec_image_acknowledged() {
                    Ok(None)
                } else {
                    Err(CaptureError::UnexpectedReply)
                },
            },
            final(self).spec_image_acknowledged() == (old(self).spec_image_acknowledged() || r
                == Ok::<Option<ExternalHandles>, CaptureError>(None)),
            final(self).spec_thread_error() == (if reply is None {
                None
            } else {
                old(self).spec_thread_error()
            }),
            final(self).same_settings(*old(self)),
            final(self).same_capture(*old(self)),
            final(self).spec_acquired_image() == old(self).spec_acquired_image(),
            final(self).spec_video_remainder() == old(self).spec_video_remainder(),
            final(self).spec_sound_remainder() == old(self).spec_sound_remainder(),
            final(self).video_passed() == old(self).video_passed(),
            final(self).frames_recorded() == old(self).frames_recorded(),
            final(self).sound_passed() == old(self).sound_passed(),
            final(self).spec_sound_rate() == old(self).spec_sound_rate(),
            final(self).consumed_num() == old(self).consumed_num(),
            final(self).consumed_den() == old(self).consumed_den(),
    {
        match self.receive(reply) {
            Ok(ThreadToMain::ExternalHandles(h)) => Ok(Some(h)),
            Ok(ThreadToMain::AcquiredImage) => {
                if self.acquired_image && !self.image_acknowledged {
                    self.image_acknowledged = true;
                    Ok(None)
                } else {
                    Err(CaptureError::UnexpectedReply)
                }
            },
            Ok(ThreadToMain::Error(e)) => Err(CaptureError::Backend(e)),
            Err(e) => Err(e),
        }
    }

    /// Records that the render-capture backend was set up from the fetched handles.
    pub fn render_capture_ready(&mut self)
        ensures
            final(self).spec_has_render_capture(),
            final(self).same_timing(*old(self)),
            final(self).spec_thread_error() == old(self).spec_thread_error(),
            old(self).wf() ==> final(self).wf(),
    {
        self.has_render_capture = true;
    }

    /// Drops the render-capture backend, when the graphics context is lost; the next capture
    /// fetches the handles again.
    pub fn reset_render_capture(&mut self)
        ensures
            !final(self).spec_has_render_capture(),
            final(self).same_timing(*old(self)),
            final(self).spec_thread_error() == old(self).spec_thread_error(),
            old(self).wf() ==> final(self).wf(),
    {
        self.has_render_capture = false;
    }

    /// Takes a message found while draining the worker's channel after a failed send: an
    /// error report is kept for the next synchronous wait.
    pub fn note_drained(&mut self, message: ThreadToMain)
        ensures
            final(self).spec_thread_error() == match message {
                ThreadToMain::Error(e) => Some(e),
                _ => old(self).spec_thread_error(),
            },
            final(self).same_timing(*old(self)),
            final(self).same_capture(*old(self)),
            old(self).wf() ==> final(self).wf(),
    {
        if let ThreadToMain::Error(e) = message {
            self.thread_error = Some(e);
        }
    }

    /// The message that hands `samples` to the muxer.
    pub fn write_audio_frame(&self, samples: Vec<u8>) -> (r: MainToThread)
        ensures
            r == MainToThread::Audio(samples),
    {
        MainToThread::Audio(samples)
    }

    /// Ends the session, given every message drained from the worker after `Finish` was sent,
    /// in arrival order. Returns the last error report seen, for the caller to log.
    pub fn finish(self, drained: Vec<ThreadToMain>) -> (r: Option<Report>)
        ensures
            r == last_error(drained@, self.spec_thread_error()),
    {
        let mut rest = drained;
        loop
            invariant
                last_error(rest@, self.thread_error) == last_error(drained@, self.thread_error),
            decreases rest.len(),
        {
            match rest.pop() {
                None => {
                    return self.thread_error;
                },
                Some(ThreadToMain::Error(e)) => {
                    return Some(e);
                },
                Some(_) => {},
            }
        }
    }

    /// Samples of audio at `samples_per_second` to capture now. The accumulator is first
    /// expressed at that rate (exactly when the rate is the one of the last call, rounded down
    /// otherwise). `Normal` then rounds down, so the audio taken never runs ahead of game time;
    /// `Remaining { extra }` adds `extra` nanoseconds and rounds up, draining what is left.
    /// Exactly the time the samples stand for leaves the accumulator.
    pub fn samples_to_capture(&mut self, samples_per_second: i32, mode: SoundCaptureMode) -> (r:
        i32)
        requires
            old(self).wf(),
            samples_per_second > 0,
            i32::MIN <= samples_for(
                rescaled(
                    old(self).spec_sound_remainder(),
                    old(self).spec_sound_rate(),
                    samples_per_second as int,
                ),
                samples_per_second as int,
                mode,
            ) <= i32::MAX,
        ensures
            final(self).wf(),
            final(self).spec_sound_rate() == samples_per_second,
            r == samples_for(
                rescaled(
                    old(self).spec_sound_remainder(),
                    old(self).spec_sound_rate(),
                    samples_per_second as int,
                ),
                samples_per_second as int,
                mode,
            ),
            final(self).spec_sound_remainder() == rescaled(
                old(self).spec_sound_remainder(),
                old(self).spec_sound_rate(),
                samples_per_second as int,
            ) - r * NANOS_PER_SECOND,
            final(self).consumed_num() == old(self).consumed_num() * samples_per_second + r
                * old(self).consumed_den(),
            final(self).consumed_den() == old(self).consumed_den() * samples_per_second,
            mode is Normal ==> {
                &&& 0 <= final(self).spec_sound_remainder() < NANOS_PER_SECOND
                &&& final(self).consumed_num() * NANOS_PER_SECOND <= final(self).sound_passed()
                    * final(self).consumed_den()
            },
            mode matches SoundCaptureMode::Remaining { extra } ==> {
                &&& final(self).spec_sound_remainder() + extra * samples_per_second <= 0
                &&& final(self).spec_sound_remainder() + extra * samples_per_second
                    > -NANOS_PER_SECOND
            },
            final(self).same_settings(*old(self)),
            final(self).same_capture(*old(self)),
            final(self).spec_video_remainder() == old(self).spec_video_remainder(),
            final(self).spec_acquired_image() == old(self).spec_acquired_image(),
            final(self).spec_image_acknowledged() == old(self).spec_image_acknowledged(),
            final(self).spec_thread_error() == old(self).spec_thread_error(),
            final(self).video_passed() == old(self).video_passed(),
            final(self).frames_recorded() == old(self).frames_recorded(),
            final(self).sound_passed() == old(self).sound_passed(),
    {
        let rate = samples_per_second as i128;
        let n = NANOS_PER_SECOND as i128;
        let ghost s0 = self.sound_remainder as int;
        let ghost r0 = self.sound_rate as int;
        let s1 = rescale(self.sound_remainder, self.sound_rate, rate);
        let rounded = rounded_samples(s1, rate, &mode);
        let ghost ri = rounded as int;
        let ghost ratei = rate as int;
        let ghost ni = n as int;
        let ghost p = self.sound_passed@;
        let ghost cn = self.consumed_num@;
        let ghost cd = self.consumed_den@;
        proof {
            // The accounting survives the rescaling, which only ever drops time.
            if r0 != ratei {
                let a = s0 * ratei;
                vstd::arithmetic::div_mod::lemma_fundamental_div_mod(a, r0);
                assert(s1 * r0 <= a) by (nonlinear_arith)
                    requires s1 == a / r0, a == r0 * (a / r0) + a % r0, 0 <= a % r0 < r0;
                assert((cn * ni * ratei + s1 * cd) * r0 <= (p * ratei * cd) * r0)
                    by (nonlinear_arith)
                    requires
                        cn * ni * r0 + s0 * cd <= p * r0 * cd,
                        s1 * r0 <= s0 * ratei,
                        cd > 0,
                        ratei > 0,
                ;
                assert(cn * ni * ratei + s1 * cd <= p * ratei * cd) by (nonlinear_arith)
                    requires
                        (cn * ni * ratei + s1 * cd) * r0 <= (p * ratei * cd) * r0,
                        r0 > 0,
                ;
            }
            assert(cn * ni * ratei + s1 * cd <= p * ratei * cd);
            match mode {
                SoundCaptureMode::Normal => {
                    let si = s1 as int;
                    vstd::arithmetic::div_mod::lemma_fundamental_div_mod(si, ni);
                    assert(ri * ni <= si < ri * ni + ni) by (nonlinear_arith)
                        requires
                            ri == si / ni,
                            si == ni * (si / ni) + si % ni,
                            0 <= si % ni < ni,
                    ;
                },
                SoundCaptureMode::Remaining { extra } => {
                    assert(0 <= extra * ratei <= u64::MAX * 0x7fff_ffff) by (nonlinear_arith)
                        requires 0 < ratei <= 0x7fff_ffff, 0 <= extra <= u64::MAX;
                    assert(ri * ni >= s1 + extra * ratei && ri * ni < s1 + extra * ratei + ni);
                },
            }
        }
        self.sound_remainder = s1 - rounded * n;
        self.sound_rate = rate;
        proof {
            let s2 = self.sound_remainder as int;
            self.consumed_num@ = cn * ratei + ri * cd;
            self.consumed_den@ = cd * ratei;
            assert(self.consumed_den@ > 0) by (nonlinear_arith)
                requires cd > 0, ratei > 0, self.consumed_den@ == cd * ratei;
            assert((cn * ratei + ri * cd) * ni * ratei + s2 * (cd * ratei) <= p * ratei * (cd
                * ratei)) by (nonlinear_arith)
                requires
                    cn * ni * ratei + s1 * cd <= p * ratei * cd,
                    s2 == s1 - ri * ni,
                    ratei > 0,
            ;
            if mode is Normal {
                assert((cn * ratei + ri * cd) * ni <= p * (cd * ratei)) by (nonlinear_arith)
                    requires
                        (cn * ratei + ri * cd) * ni * ratei + s2 * (cd * ratei) <= p * ratei * (
                        cd * ratei),
                        s2 >= 0,
                        cd > 0,
                        ratei > 0,
                ;
            }
        }
        rounded as i32
    }

    /// Whether `samples_to_capture(samples_per_second, mode)` would return a count that fits
    /// in an `i32`.
    pub fn samples_fit(&self, samples_per_second: i32, mode: &SoundCaptureMode) -> (r: bool)
        requires
            self.wf(),
            samples_per_second > 0,
        ensures
            r == (i32::MIN <= samples_for(
                rescaled(
                    self.spec_sound_remainder(),
                    self.spec_sound_rate(),
                    samples_per_second as int,
                ),
                samples_per_second as int,
                *mode,
            ) <= i32::MAX),
    {
        let rate = samples_per_second as i128;
        let s1 = rescale(self.sound_remainder, self.sound_rate, rate);
        let rounded = rounded_samples(s1, rate, mode);
        i32::MIN as i128 <= rounded && rounded <= i32::MAX as i128
    }

    /// The sample rate at which the audio accumulator is kept.
    pub fn sound_rate(&self) -> (r: i128)
        ensures
            r == self.spec_sound_rate(),
    {
        self.sound_rate
    }

    /// Video width.
    pub fn width(&self) -> (r: i32)
        ensures
            r == self.spec_width(),
    {
        self.width
    }

    /// Video height.
    pub fn height(&self) -> (r: i32)
        ensures
            r == self.spec_height(),
    {
        self.height
    }

    /// Output frames per second; the time base is its inverse.
    pub fn fps(&self) -> (r: u64)
        ensures
            r == self.spec_fps(),
    {
        self.fps
    }

    /// Game time not yet turned into video, in billionths of an output frame.
    pub fn video_remainder(&self) -> (r: i128)
        ensures
            r == self.spec_video_remainder(),
    {
        self.video_remainder
    }

    /// Game time not yet turned into audio, in units of one nanosecond divided by
    /// `sound_rate()`.
    pub fn sound_remainder(&self) -> (r: i128)
        ensures
            r == self.spec_sound_remainder(),
    {
        self.sound_remainder
    }
}

/// The last error report in `s`, or `init` when it holds none.
pub open spec fn last_error(s: Seq<ThreadToMain>, init: Option<Report>) -> Option<Report>
    decreases s.len(),
{
    if s.len() == 0 {
        init
    } else {
        match s.last() {
            ThreadToMain::Error(e) => Some(e),
            _ => last_error(s.drop_last(), init),
        }
    }
}

/// What the session's invariant guarantees.
pub proof fn lemma_wf_facts(rec: Recorder)
    requires
        rec.wf(),
    ensures
        rec.spec_width() % 2 == 0,
        rec.spec_height() % 2 == 0,
        rec.spec_fps() >= 0,
        rec.spec_video_remainder() >= -HALF_FRAME,
        rec.frames_due() > 0 ==> rec.spec_acquired_image(),
        rec.spec_image_acknowledged() ==> rec.spec_acquired_image(),
        -SOUND_LIMIT <= rec.spec_sound_remainder() <= SOUND_LIMIT,
        rec.frames_recorded() * NANOS_PER_SECOND + rec.spec_video_remainder()
            == rec.video_passed(),
        0 < rec.spec_sound_rate() <= i32::MAX,
        rec.consumed_den() > 0,
        rec.consumed_num() * NANOS_PER_SECOND * rec.spec_sound_rate() + rec.spec_sound_remainder()
            * rec.consumed_den() <= rec.sound_passed() * rec.spec_sound_rate() * rec.consumed_den(),
{
}

/// After `record_last_frame`, the frames recorded over the whole session are the game time
/// passed, in output frames, rounded half up: per-step rounding never accumulates drift.
pub proof fn lemma_frames_follow_time(rec: Recorder)
    requires
        rec.wf(),
        rec.frames_due() == 0,
    ensures
        rec.frames_recorded() == frames_for(rec.video_passed()),
        -HALF_FRAME <= rec.video_passed() - rec.frames_recorded() * NANOS_PER_SECOND < HALF_FRAME,
{
    let v = rec.video_remainder as int;
    lemma_remainder_below_half(v);
    let f = rec.frames_recorded@;
    let n = NANOS_PER_SECOND as int;
    assert(f * n <= rec.video_passed@ + HALF_FRAME < f * n + n);
    crate::arith::lemma_div_unique(rec.video_passed@ + HALF_FRAME, n, f);
}

proof fn lemma_remainder_below_half(v: int)
    requires
        v >= -HALF_FRAME,
        frames_for(v) == 0,
    ensures
        v < HALF_FRAME,
{
    if v >= HALF_FRAME {
        lemma_frame_from_half(v);
    }
}

proof fn lemma_no_frame_below_half(v: int)
    requires
        -HALF_FRAME <= v < HALF_FRAME,
    ensures
        frames_for(v) == 0,
{
    crate::arith::lemma_div_unique(v + HALF_FRAME, NANOS_PER_SECOND as int, 0);
}

proof fn lemma_frame_from_half(v: int)
    requires
        v >= HALF_FRAME,
    ensures
        frames_for(v) >= 1,
{
    vstd::arithmetic::div_mod::lemma_div_is_ordered(
        NANOS_PER_SECOND as int,
        v + HALF_FRAME,
        NANOS_PER_SECOND as int,
    );
    vstd::arithmetic::div_mod::lemma_div_basics_2(NANOS_PER_SECOND as int);
}

} // verus!
