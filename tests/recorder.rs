use capture_sync::{
    CaptureError, ExternalHandles, MainToThread, Recorder, SoundCaptureMode, ThreadToMain, NANOS_PER_SECOND,
};
use color_eyre::eyre::Report;

const HALF: i128 = 500_000_000;

/// One host frame: time passes, the acquisition request goes out, the frame is recorded.
fn step(rec: &mut Recorder, nanos: u64) -> usize {
    let request = rec.time_passed(nanos);
    let frames = rec.record_last_frame();
    if frames > 0 {
        assert!(matches!(request, Some(MainToThread::AcquireImage)) || request.is_none());
        match rec.record(frames, Some(ThreadToMain::AcquiredImage)) {
            Ok(MainToThread::Record { frames: f }) => assert_eq!(f, frames),
            _ => panic!("expected a record request"),
        }
    }
    frames
}

#[test]
fn odd_width_is_refused() {
    match Recorder::init(641, 480, 60) {
        Err(CaptureError::Validation { width, height }) => {
            assert_eq!(width, 641);
            assert_eq!(height, 480);
        }
        _ => panic!("odd width accepted"),
    }
}

#[test]
fn odd_height_is_refused() {
    assert!(matches!(
        Recorder::init(640, 481, 60),
        Err(CaptureError::Validation { width: 640, height: 481 })
    ));
}

#[test]
fn init_keeps_settings() {
    let rec = Recorder::init(640, 480, 60).ok().unwrap();
    assert_eq!(rec.width(), 640);
    assert_eq!(rec.height(), 480);
    assert_eq!(rec.fps(), 60);
    assert_eq!(rec.video_remainder(), 0);
    assert_eq!(rec.sound_remainder(), 0);
}

#[test]
fn ten_frames_at_sixty_with_capture() {
    let mut rec = Recorder::init(640, 480, 60).ok().unwrap();
    let handles = ExternalHandles { width: 640, height: 480, image_frame_memory: 1, semaphore: 2 };
    let mut total = 0;
    for i in 0..10 {
        let request = rec.time_passed(16_666_667);
        assert!(matches!(request, Some(MainToThread::AcquireImage)));
        if i == 0 {
            // First capture: the acknowledgment of the acquisition comes before the handles.
            assert!(rec.needs_handles());
            assert!(matches!(rec.handles_reply(Some(ThreadToMain::AcquiredImage)), Ok(None)));
            match rec.handles_reply(Some(ThreadToMain::ExternalHandles(handles))) {
                Ok(Some(h)) => assert_eq!(h, handles),
                _ => panic!("expected the handles"),
            }
            rec.render_capture_ready();
        }
        assert!(!rec.needs_handles());
        let frames = rec.record_last_frame();
        assert_eq!(frames, 1);
        // The kept acknowledgment is used without waiting again.
        let reply = if rec.awaits_acknowledgment() {
            Some(ThreadToMain::AcquiredImage)
        } else {
            assert_eq!(i, 0);
            None
        };
        match rec.record(frames, reply) {
            Ok(MainToThread::Record { frames }) => total += frames,
            _ => panic!("expected a record request"),
        }
    }
    assert_eq!(total, 10);
}

#[test]
fn render_capture_reset_fetches_handles_again() {
    let mut rec = Recorder::init(2, 2, 60).ok().unwrap();
    assert!(rec.needs_handles());
    rec.render_capture_ready();
    assert!(!rec.needs_handles());
    rec.reset_render_capture();
    assert!(rec.needs_handles());
}

#[test]
fn handles_reply_errors() {
    let mut rec = Recorder::init(2, 2, 60).ok().unwrap();
    // No acquisition is pending, so an acknowledgment is out of place.
    assert!(matches!(
        rec.handles_reply(Some(ThreadToMain::AcquiredImage)),
        Err(CaptureError::UnexpectedReply)
    ));
    match rec.handles_reply(Some(ThreadToMain::Error(Report::msg("no export")))) {
        Err(CaptureError::Backend(e)) => assert_eq!(e.to_string(), "no export"),
        _ => panic!("expected the worker's error"),
    }
    assert!(matches!(rec.handles_reply(None), Err(CaptureError::WorkerTerminated)));
}

#[test]
fn ten_frames_at_sixty() {
    let mut rec = Recorder::init(640, 480, 60).ok().unwrap();
    let mut total = 0;
    for _ in 0..10 {
        let request = rec.time_passed(16_666_667);
        assert!(matches!(request, Some(MainToThread::AcquireImage)));
        let frames = rec.record_last_frame();
        assert_eq!(frames, 1);
        match rec.record(frames, Some(ThreadToMain::AcquiredImage)) {
            Ok(MainToThread::Record { frames }) => total += frames,
            _ => panic!("expected a record request"),
        }
    }
    assert_eq!(total, 10);
}

#[test]
fn one_second_at_sixty() {
    let mut rec = Recorder::init(640, 480, 60).ok().unwrap();
    assert!(rec.time_passed(NANOS_PER_SECOND).is_some());
    assert_eq!(rec.record_last_frame(), 60);
    let rem = rec.video_remainder();
    assert!(-HALF <= rem && rem < HALF);
    assert_eq!(rem, 0);
}

#[test]
fn remainder_stays_within_half_a_frame() {
    let mut rec = Recorder::init(2, 2, 60).ok().unwrap();
    let steps: [u64; 8] = [0, 1, 3_000_000, 8_333_333, 8_333_334, 40_000_000, 999, 16_666_667];
    for &dt in steps.iter().cycle().take(200) {
        rec.time_passed(dt);
        assert!(rec.video_remainder() >= -HALF);
        step(&mut rec, 0);
        let rem = rec.video_remainder();
        assert!(-HALF <= rem && rem < HALF);
    }
}

#[test]
fn half_frame_rounds_up() {
    // Half an output frame at 50 fps is 10 ms: it becomes one frame, leaving minus one half.
    let mut rec = Recorder::init(2, 2, 50).ok().unwrap();
    assert!(rec.time_passed(10_000_000).is_some());
    assert_eq!(rec.record_last_frame(), 1);
    assert_eq!(rec.video_remainder(), -HALF);
}

#[test]
fn slow_host_frames_skip_nothing_in_the_long_run() {
    // Ten seconds in uneven host steps give 600 frames at 60 fps.
    let mut rec = Recorder::init(2, 2, 60).ok().unwrap();
    let pattern: [u64; 5] = [7_000_000, 23_000_000, 16_666_667, 3_333_333, 50_000_000];
    let mut passed: u64 = 0;
    let mut total = 0;
    let mut i = 0;
    while passed < 10 * NANOS_PER_SECOND {
        let dt = pattern[i % pattern.len()].min(10 * NANOS_PER_SECOND - passed);
        passed += dt;
        total += step(&mut rec, dt);
        i += 1;
    }
    assert_eq!(passed, 10 * NANOS_PER_SECOND);
    assert_eq!(total, 600);
}

#[test]
fn fast_host_frames_are_skipped() {
    // At 30 fps a 60 Hz host only records every other frame.
    let mut rec = Recorder::init(2, 2, 30).ok().unwrap();
    let frames: Vec<usize> = (0..6).map(|_| step(&mut rec, 16_666_667)).collect();
    assert_eq!(frames, vec![1, 0, 1, 0, 1, 0]);
}

#[test]
fn no_second_acquisition_while_one_is_pending() {
    let mut rec = Recorder::init(2, 2, 60).ok().unwrap();
    assert!(rec.time_passed(16_666_667).is_some());
    assert!(rec.time_passed(16_666_667).is_none());
    assert_eq!(rec.record_last_frame(), 2);
}

#[test]
fn worker_error_reaches_record() {
    let mut rec = Recorder::init(2, 2, 60).ok().unwrap();
    rec.time_passed(NANOS_PER_SECOND);
    let frames = rec.record_last_frame();
    let reply = ThreadToMain::Error(Report::msg("image acquisition failed"));
    match rec.record(frames, Some(reply)) {
        Err(CaptureError::Backend(e)) => assert_eq!(e.to_string(), "image acquisition failed"),
        _ => panic!("expected the worker's error"),
    }
}

#[test]
fn closed_channel_gives_drained_error() {
    let mut rec = Recorder::init(2, 2, 60).ok().unwrap();
    rec.note_drained(ThreadToMain::AcquiredImage);
    rec.note_drained(ThreadToMain::Error(Report::msg("muxer failed")));
    match rec.receive(None) {
        Err(CaptureError::Backend(e)) => assert_eq!(e.to_string(), "muxer failed"),
        _ => panic!("expected the drained error"),
    }
    // The kept error was taken.
    assert!(matches!(rec.receive(None), Err(CaptureError::WorkerTerminated)));
}

#[test]
fn closed_channel_without_report() {
    let mut rec = Recorder::init(2, 2, 60).ok().unwrap();
    assert!(matches!(rec.receive(None), Err(CaptureError::WorkerTerminated)));
}

#[test]
fn unexpected_reply_is_reported() {
    let mut rec = Recorder::init(2, 2, 60).ok().unwrap();
    rec.time_passed(NANOS_PER_SECOND);
    let frames = rec.record_last_frame();
    let handles = capture_sync::ExternalHandles {
        width: 2,
        height: 2,
        image_frame_memory: 3,
        semaphore: 4,
    };
    assert!(matches!(
        rec.record(frames, Some(ThreadToMain::ExternalHandles(handles))),
        Err(CaptureError::UnexpectedReply)
    ));
}

#[test]
fn receive_passes_handles_through() {
    let mut rec = Recorder::init(2, 2, 60).ok().unwrap();
    let handles = capture_sync::ExternalHandles {
        width: 8,
        height: 6,
        image_frame_memory: 11,
        semaphore: 12,
    };
    match rec.receive(Some(ThreadToMain::ExternalHandles(handles))) {
        Ok(ThreadToMain::ExternalHandles(h)) => {
            assert_eq!((h.width, h.height, h.image_frame_memory, h.semaphore), (8, 6, 11, 12))
        }
        _ => panic!("expected the handles"),
    }
}

#[test]
fn finish_reports_last_error() {
    let mut rec = Recorder::init(2, 2, 60).ok().unwrap();
    rec.note_drained(ThreadToMain::Error(Report::msg("first")));
    let drained = vec![
        ThreadToMain::Error(Report::msg("second")),
        ThreadToMain::AcquiredImage,
    ];
    assert_eq!(rec.finish(drained).unwrap().to_string(), "second");
}

#[test]
fn finish_falls_back_to_kept_error() {
    let mut rec = Recorder::init(2, 2, 60).ok().unwrap();
    rec.note_drained(ThreadToMain::Error(Report::msg("kept")));
    assert_eq!(rec.finish(vec![ThreadToMain::AcquiredImage]).unwrap().to_string(), "kept");
}

#[test]
fn finish_without_error() {
    let rec = Recorder::init(2, 2, 60).ok().unwrap();
    assert!(rec.finish(Vec::new()).is_none());
}

#[test]
fn audio_message_carries_samples() {
    let rec = Recorder::init(2, 2, 60).ok().unwrap();
    match rec.write_audio_frame(vec![1, 2, 3]) {
        MainToThread::Audio(s) => assert_eq!(s, vec![1, 2, 3]),
        _ => panic!("expected audio"),
    }
}

#[test]
fn normal_samples_round_down() {
    let mut rec = Recorder::init(2, 2, 60).ok().unwrap();
    rec.time_passed(16_666_667);
    // 16_666_667 ns at 44_100 Hz is 735.0000147 samples.
    assert_eq!(rec.samples_to_capture(44_100, SoundCaptureMode::Normal), 735);
    assert_eq!(rec.sound_rate(), 44_100);
    // What is left is kept exactly, in units of 1/44_100 ns: 0.0000147 samples.
    assert_eq!(rec.sound_remainder(), 14_700);
    rec.time_passed(10_000_000);
    // 441 samples and the same fraction.
    assert_eq!(rec.samples_to_capture(44_100, SoundCaptureMode::Normal), 441);
    assert_eq!(rec.sound_remainder(), 14_700);
    rec.time_passed(10_000);
    // 0.441 samples.
    assert_eq!(rec.samples_to_capture(44_100, SoundCaptureMode::Normal), 0);
    assert_eq!(rec.sound_remainder(), 441_014_700);
}

#[test]
fn audio_remainder_is_exact() {
    let mut rec = Recorder::init(2, 2, 60).ok().unwrap();
    rec.time_passed(500_000_000);
    // Half a second at 3 Hz is 1.5 samples: one is taken, half a sample stays, exactly
    // 500_000_000 units of 1/3 ns (166_666_666.67 ns).
    assert_eq!(rec.samples_to_capture(3, SoundCaptureMode::Normal), 1);
    assert_eq!(rec.sound_remainder(), 500_000_000);
    assert_eq!(rec.sound_rate(), 3);
    // Another half second makes two whole samples; nothing was lost on the way.
    rec.time_passed(500_000_000);
    assert_eq!(rec.samples_to_capture(3, SoundCaptureMode::Normal), 2);
    assert_eq!(rec.sound_remainder(), 0);
}

#[test]
fn audio_remainder_follows_a_new_rate() {
    let mut rec = Recorder::init(2, 2, 60).ok().unwrap();
    rec.time_passed(500_000_000);
    assert_eq!(rec.samples_to_capture(3, SoundCaptureMode::Normal), 1);
    // Half a sample at 3 Hz is one sample at 6 Hz.
    assert_eq!(rec.samples_to_capture(6, SoundCaptureMode::Normal), 1);
    assert_eq!(rec.sound_remainder(), 0);
    rec.time_passed(100_000_000);
    // 0.6 samples at 6 Hz become 0.4 at 4 Hz: 600_000_000 * 4 / 6 exactly.
    assert_eq!(rec.samples_to_capture(4, SoundCaptureMode::Normal), 0);
    assert_eq!(rec.sound_remainder(), 400_000_000);
    // 0.4 samples at 4 Hz at 3 Hz: 0.3 samples, 300_000_000 units.
    assert_eq!(rec.samples_to_capture(3, SoundCaptureMode::Normal), 0);
    assert_eq!(rec.sound_remainder(), 300_000_000);
}

#[test]
fn normal_samples_never_run_ahead() {
    let mut rec = Recorder::init(2, 2, 60).ok().unwrap();
    let rate: i64 = 22_050;
    let mut passed: i128 = 0;
    let mut taken: i64 = 0;
    for i in 0..500u64 {
        let dt = 1_000_000 + (i * 7_919_117) % 30_000_000;
        rec.time_passed(dt);
        passed += dt as i128;
        taken += rec.samples_to_capture(rate as i32, SoundCaptureMode::Normal) as i64;
        // Samples taken, as time, never exceed the time passed.
        assert!((taken as i128) * (NANOS_PER_SECOND as i128) <= passed * rate as i128);
        let rem = rec.sound_remainder();
        assert!(rem >= 0);
        assert!(rem < NANOS_PER_SECOND as i128);
    }
}

#[test]
fn remaining_samples_round_up_with_extra() {
    let mut rec = Recorder::init(2, 2, 60).ok().unwrap();
    rec.time_passed(10_000);
    // 0.441 samples, plus 1 ms (44.1 samples): 44.541 rounds up to 45.
    let n = rec.samples_to_capture(44_100, SoundCaptureMode::Remaining { extra: 1_000_000 });
    assert_eq!(n, 45);
    // 0.441 - 45 samples are left, in units of 1/44_100 ns.
    assert_eq!(rec.sound_remainder(), 441_000_000 - 45 * NANOS_PER_SECOND as i128);
    let rem = rec.sound_remainder() + 1_000_000 * 44_100;
    assert!(rem <= 0);
    assert!(rem > -(NANOS_PER_SECOND as i128));
}

#[test]
fn remaining_flush_leaves_less_than_one_sample() {
    let mut rec = Recorder::init(2, 2, 60).ok().unwrap();
    rec.time_passed(142_857_143);
    // 1.000000001 samples at 7 Hz round up to 2.
    assert_eq!(rec.samples_to_capture(7, SoundCaptureMode::Remaining { extra: 0 }), 2);
    // Exactly 0.999999999 of a sample is owed back.
    assert_eq!(rec.sound_remainder(), -999_999_999);
}

#[test]
fn remaining_samples_drain_an_exact_remainder() {
    let mut rec = Recorder::init(2, 2, 60).ok().unwrap();
    rec.time_passed(20_000_000);
    assert_eq!(rec.samples_to_capture(48_000, SoundCaptureMode::Remaining { extra: 0 }), 960);
    assert_eq!(rec.sound_remainder(), 0);
}

#[test]
fn sample_count_range_is_checked() {
    let mut rec = Recorder::init(2, 2, 60).ok().unwrap();
    rec.time_passed(NANOS_PER_SECOND);
    assert!(rec.samples_fit(48_000, &SoundCaptureMode::Normal));
    // A day of audio at 48 kHz is more samples than an i32 holds.
    rec.time_passed(86_400 * NANOS_PER_SECOND);
    assert!(!rec.samples_fit(48_000, &SoundCaptureMode::Normal));
    assert!(!rec.samples_fit(48_000, &SoundCaptureMode::Remaining { extra: 0 }));
}

#[test]
fn exact_half_frame_leaves_minus_half_only_there() {
    let mut rec = Recorder::init(2, 2, 60).ok().unwrap();
    rec.time_passed(12_500_000); // 0.75 frame
    assert_eq!(rec.record_last_frame(), 1);
    assert_eq!(rec.video_remainder(), -250_000_000);
    assert!(rec.video_remainder() > -HALF);
}
