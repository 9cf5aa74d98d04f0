use moonshine::errno::{classify, ErrnoCodes, IoFailure};
use moonshine::float::fraction_of;
use moonshine::session::SessionShutdownReason;
use moonshine::stream::audio::audio_clock::{
    pipe_drain, ticker_next, timer_drain, ClockRead, Drain, TickerAction, TickerEvent,
};
use moonshine::stream::audio::frame::{decode_samples, AudioFrame, CAPTURE_SAMPLE_RATE};
use moonshine::stream::audio::oss_capture::{
    format_requests, int_request_result, open_failure, open_message, CaptureAction, CaptureEvent,
    ChunkLayout, DropNote, OpenCodes, OpenFailure, OssCapture, AFMT_S16_LE, DSP_LOOP_PATH,
    POLL_TIMEOUT_MS,
};

const READABLE: i16 = 1;

#[test]
fn errors_are_told_apart() {
    let codes = ErrnoCodes { eintr: 4, eagain: 11 };
    assert_eq!(classify(Some(4), &codes), IoFailure::Interrupted);
    assert_eq!(classify(Some(11), &codes), IoFailure::WouldBlock);
    assert_eq!(classify(Some(5), &codes), IoFailure::Other);
    assert_eq!(classify(None, &codes), IoFailure::Other);
}

#[test]
fn chunks_last_as_long_as_packets() {
    let five = ChunkLayout::new(2, 5);
    assert_eq!(five.clock_rate_hz, 200);
    assert_eq!(five.samples_per_chunk, 480);
    assert_eq!(five.bytes_per_chunk, 960);
    assert!(!five.fell_back);
    let ten = ChunkLayout::new(6, 10);
    assert_eq!(ten.clock_rate_hz, 100);
    assert_eq!(ten.samples_per_chunk, 480 * 6);
    assert_eq!(ten.bytes_per_chunk, 480 * 12);
    assert!(!ten.fell_back);
    for layout in [five, ten] {
        assert_eq!(CAPTURE_SAMPLE_RATE % layout.clock_rate_hz, 0);
    }
}

#[test]
fn other_durations_fall_back() {
    let unset = ChunkLayout::new(2, 0);
    assert_eq!(unset.clock_rate_hz, 200);
    assert!(!unset.fell_back);
    for duration in [1, 4, 6, 20, u32::MAX] {
        let layout = ChunkLayout::new(2, duration);
        assert_eq!(layout.clock_rate_hz, 200);
        assert_eq!(layout.samples_per_chunk, 480);
        assert!(layout.fell_back);
    }
    assert_eq!(ChunkLayout::new(0, 5).bytes_per_chunk, 0);
    assert_eq!(ChunkLayout::new(255, 10).bytes_per_chunk, 480 * 255 * 2);
}

#[test]
fn device_is_asked_for_the_wire_format() {
    let requests = format_requests(2);
    let asked: Vec<(u64, i32, &str)> =
        requests.iter().map(|request| (request.number, request.want, request.name)).collect();
    assert_eq!(asked, vec![
        (0xc004_5005, AFMT_S16_LE, "SNDCTL_DSP_SETFMT"),
        (0xc004_5006, 2, "SNDCTL_DSP_CHANNELS"),
        (0xc004_5002, 48000, "SNDCTL_DSP_SPEED"),
    ]);
    assert_eq!(AFMT_S16_LE, 0x10);
    assert_eq!(DSP_LOOP_PATH, "/dev/dsp.loop");
    assert_eq!(POLL_TIMEOUT_MS, 100);
}

#[test]
fn answers_to_int_requests() {
    let request = format_requests(2)[2];
    assert_eq!(int_request_result(&request, 0, 48000, ""), Ok(None));
    assert_eq!(int_request_result(&request, 0, 44100, ""), Ok(Some(44100)));
    assert_eq!(
        int_request_result(&request, -1, 48000, "Invalid argument (os error 22)"),
        Err("SNDCTL_DSP_SPEED ioctl failed: Invalid argument (os error 22)".to_string())
    );
}

#[test]
fn failures_to_open_are_told_apart() {
    let codes = OpenCodes { enoent: 2, enxio: 6, enodev: 19, ebusy: 16 };
    for missing in [2, 6, 19] {
        assert_eq!(open_failure(Some(missing), &codes), OpenFailure::Missing);
    }
    assert_eq!(open_failure(Some(16), &codes), OpenFailure::Busy);
    assert_eq!(open_failure(Some(13), &codes), OpenFailure::Other);
    assert_eq!(open_failure(None, &codes), OpenFailure::Other);
    assert_eq!(open_message("no such file"), "open(/dev/dsp.loop): no such file");
}

fn fraction(sample: i16) -> u32 {
    (sample as f32 / 32768.0).to_bits()
}

#[test]
fn samples_become_fractions() {
    for sample in i16::MIN..=i16::MAX {
        assert_eq!(fraction_of(sample), fraction(sample), "{sample}");
    }
    assert_eq!(f32::from_bits(fraction_of(i16::MIN)), -1.0);
    assert_eq!(f32::from_bits(fraction_of(16384)), 0.5);
    assert_eq!(fraction_of(0), 0);
}

#[test]
fn fractions_keep_the_order() {
    let mut last = f32::from_bits(fraction_of(i16::MIN));
    assert_eq!(last, -1.0);
    for sample in i16::MIN + 1..=i16::MAX {
        let next = f32::from_bits(fraction_of(sample));
        assert!(last < next && next < 1.0);
        last = next;
    }
}

#[test]
fn samples_are_little_endian() {
    assert_eq!(decode_samples(&[]), Vec::new());
    assert_eq!(
        decode_samples(&[0x00, 0x80, 0xff, 0x7f, 0xff, 0xff, 0x34, 0x12]),
        vec![fraction(-32768), fraction(32767), fraction(-1), fraction(0x1234)]
    );
    assert_eq!(decode_samples(&[1, 0, 2]), vec![fraction(1)]);
}

fn capture(channels: u8) -> OssCapture {
    OssCapture::new(&ChunkLayout::new(channels, 5))
}

fn ready(capture: &mut OssCapture) {
    assert_eq!(capture.action(), CaptureAction::CheckStop);
    assert_eq!(capture.report(CaptureEvent::Stop(false)), None);
    assert_eq!(capture.action(), CaptureAction::Poll);
    assert_eq!(capture.report(CaptureEvent::PollReady { events: READABLE, readable: READABLE }), None);
}

fn sent(buf: Vec<u32>) -> CaptureAction {
    CaptureAction::Send(AudioFrame { buf, capture_ts_ms: 77 })
}

fn read(capture: &mut OssCapture, bytes: Vec<u8>) {
    assert_eq!(capture.report(CaptureEvent::ReadBytes(bytes)), None);
    assert_eq!(capture.action(), CaptureAction::CheckStop);
}

fn acquire(capture: &mut OssCapture) {
    assert_eq!(capture.report(CaptureEvent::Stop(false)), None);
    assert_eq!(capture.action(), CaptureAction::Acquire);
    assert_eq!(capture.report(CaptureEvent::Acquired { at_ms: 77 }), None);
}

fn whole_chunk(capture: &mut OssCapture) {
    ready(capture);
    assert_eq!(capture.action(), CaptureAction::Read { max: 480 });
    read(capture, vec![0; 480]);
    acquire(capture);
    assert_eq!(capture.action(), sent(vec![0; 240]));
}

#[test]
fn frame_is_what_was_read() {
    let mut capture = capture(1);
    let bytes: Vec<u8> = (0..480).map(|i| (i % 251) as u8).collect();
    ready(&mut capture);
    assert_eq!(capture.action(), CaptureAction::Read { max: 480 });
    read(&mut capture, bytes[..1].to_vec());
    ready(&mut capture);
    assert_eq!(capture.action(), CaptureAction::Read { max: 479 });
    read(&mut capture, bytes[1..300].to_vec());
    ready(&mut capture);
    assert_eq!(capture.action(), CaptureAction::Read { max: 180 });
    read(&mut capture, bytes[300..].to_vec());
    acquire(&mut capture);
    assert_eq!(capture.action(), sent(decode_samples(&bytes)));
    assert_eq!(capture.report(CaptureEvent::Sent), None);
    assert_eq!(capture.action(), CaptureAction::CheckStop);
}

#[test]
fn frames_are_the_chunks_of_the_stream() {
    let stream: Vec<u8> = (0..480 * 7 + 100).map(|i: usize| (i * i % 253) as u8).collect();
    for step in [1usize, 7, 240, 479, 480, 1000] {
        let mut capture = capture(1);
        let mut at = 0;
        let mut frames: Vec<Vec<u32>> = Vec::new();
        loop {
            match capture.action() {
                CaptureAction::CheckStop => capture.report(CaptureEvent::Stop(false)),
                CaptureAction::Poll => {
                    capture.report(CaptureEvent::PollReady { events: READABLE, readable: READABLE })
                }
                CaptureAction::Read { max } => {
                    let count = step.min(max).min(stream.len() - at);
                    let event = if count == 0 {
                        CaptureEvent::ReadEnd
                    } else {
                        CaptureEvent::ReadBytes(stream[at..at + count].to_vec())
                    };
                    at += count;
                    capture.report(event)
                }
                CaptureAction::Acquire => capture.report(CaptureEvent::Acquired { at_ms: 77 }),
                CaptureAction::Send(frame) => {
                    frames.push(frame.buf);
                    capture.report(CaptureEvent::Sent)
                }
                CaptureAction::Finish => break,
                CaptureAction::Fail(message) => panic!("{message}"),
            };
        }
        assert_eq!(at, stream.len());
        assert_eq!(frames.len(), 7);
        for (frame, chunk) in frames.iter().zip(stream.chunks(480)) {
            assert_eq!(*frame, decode_samples(chunk));
        }
    }
}

#[test]
fn device_may_fall_silent_inside_a_chunk() {
    let mut capture = capture(1);
    ready(&mut capture);
    read(&mut capture, vec![3; 200]);
    for _ in 0..3 {
        assert_eq!(capture.action(), CaptureAction::CheckStop);
        capture.report(CaptureEvent::Stop(false));
        assert_eq!(capture.action(), CaptureAction::Poll);
        capture.report(CaptureEvent::PollTimedOut);
    }
    ready(&mut capture);
    assert_eq!(capture.action(), CaptureAction::Read { max: 280 });
    read(&mut capture, vec![3; 79]);
    capture.report(CaptureEvent::Stop(false));
    capture.report(CaptureEvent::PollTimedOut);
    assert_eq!(capture.action(), CaptureAction::CheckStop);
    capture.report(CaptureEvent::Stop(true));
    assert_eq!(capture.action(), CaptureAction::Finish);
}

#[test]
fn hang_up_inside_a_chunk_is_read_to_its_end() {
    let mut capture = capture(1);
    ready(&mut capture);
    read(&mut capture, vec![3; 200]);
    capture.report(CaptureEvent::Stop(false));
    capture.report(CaptureEvent::PollReady { events: 0x10, readable: READABLE });
    assert_eq!(capture.action(), CaptureAction::Read { max: 280 });
    capture.report(CaptureEvent::ReadEnd);
    assert_eq!(capture.action(), CaptureAction::Finish);
}

#[test]
fn frame_carries_its_time() {
    let mut capture = capture(1);
    for at_ms in [0u64, 5, u64::MAX] {
        ready(&mut capture);
        read(&mut capture, vec![0; 480]);
        capture.report(CaptureEvent::Stop(false));
        capture.report(CaptureEvent::Acquired { at_ms });
        assert_eq!(
            capture.action(),
            CaptureAction::Send(AudioFrame { buf: vec![0; 240], capture_ts_ms: at_ms })
        );
        capture.report(CaptureEvent::Sent);
    }
}

#[test]
fn session_ends_with_its_capture() {
    let reason = Some(SessionShutdownReason::PulseServerStopped);
    assert_eq!(CaptureAction::Finish.shutdown_reason(), reason);
    assert_eq!(CaptureAction::Fail("gone".to_string()).shutdown_reason(), reason);
    for action in [CaptureAction::CheckStop, CaptureAction::Poll, CaptureAction::Acquire] {
        assert_eq!(action.shutdown_reason(), None);
    }
    assert_eq!(CaptureAction::Read { max: 1 }.shutdown_reason(), None);
    assert_eq!(sent(Vec::new()).shutdown_reason(), None);
}

#[test]
fn signals_cost_nothing() {
    let interrupted = |error: &str| (IoFailure::Interrupted, error.to_string());
    let mut capture = capture(1);
    capture.report(CaptureEvent::Stop(false));
    let (failure, error) = interrupted("poll");
    capture.report(CaptureEvent::PollFailed { failure, error });
    ready(&mut capture);
    read(&mut capture, vec![7; 100]);
    ready(&mut capture);
    let (failure, error) = interrupted("read");
    capture.report(CaptureEvent::ReadFailed { failure, error });
    ready(&mut capture);
    assert_eq!(capture.action(), CaptureAction::Read { max: 380 });
    read(&mut capture, vec![7; 380]);
    acquire(&mut capture);
    assert_eq!(capture.action(), sent(vec![fraction(0x0707); 240]));
}

#[test]
fn short_chunk_is_given_up() {
    let mut capture = capture(1);
    ready(&mut capture);
    read(&mut capture, vec![1; 479]);
    ready(&mut capture);
    capture.report(CaptureEvent::ReadFailed {
        failure: IoFailure::WouldBlock,
        error: "try again".to_string(),
    });
    ready(&mut capture);
    assert_eq!(capture.action(), CaptureAction::Read { max: 480 });
    read(&mut capture, vec![2; 480]);
    acquire(&mut capture);
    assert_eq!(capture.action(), sent(vec![fraction(0x0202); 240]));
}

#[test]
fn quiet_device_is_polled_again() {
    let mut capture = capture(2);
    for _ in 0..3 {
        assert_eq!(capture.action(), CaptureAction::CheckStop);
        capture.report(CaptureEvent::Stop(false));
        assert_eq!(capture.action(), CaptureAction::Poll);
        capture.report(CaptureEvent::PollTimedOut);
    }
    assert_eq!(capture.action(), CaptureAction::CheckStop);
}

#[test]
fn shutdown_ends_the_capture() {
    let mut before = capture(1);
    before.report(CaptureEvent::Stop(true));
    assert_eq!(before.action(), CaptureAction::Finish);
    let mut amid = capture(1);
    ready(&mut amid);
    amid.report(CaptureEvent::ReadBytes(vec![0; 480]));
    amid.report(CaptureEvent::Stop(true));
    assert_eq!(amid.action(), CaptureAction::Finish);
}

#[test]
fn closed_loopback_ends_the_capture() {
    let mut capture = capture(1);
    ready(&mut capture);
    capture.report(CaptureEvent::ReadEnd);
    assert_eq!(capture.action(), CaptureAction::Finish);
}

#[test]
fn vanished_encoder_ends_the_capture() {
    let mut unsent = capture(1);
    whole_chunk(&mut unsent);
    unsent.report(CaptureEvent::SendDisconnected);
    assert_eq!(unsent.action(), CaptureAction::Finish);
    let mut frameless = capture(1);
    ready(&mut frameless);
    read(&mut frameless, vec![0; 480]);
    frameless.report(CaptureEvent::Stop(false));
    frameless.report(CaptureEvent::AcquireDisconnected);
    assert_eq!(frameless.action(), CaptureAction::Finish);
}

#[test]
fn failures_are_reported() {
    for failure in [IoFailure::Other, IoFailure::WouldBlock] {
        let mut poll = capture(1);
        poll.report(CaptureEvent::Stop(false));
        poll.report(CaptureEvent::PollFailed { failure, error: "bad fd".to_string() });
        assert_eq!(poll.action(), CaptureAction::Fail("poll(/dev/dsp.loop): bad fd".to_string()));
    }
    let mut read = capture(1);
    ready(&mut read);
    read.report(CaptureEvent::ReadFailed {
        failure: IoFailure::Other,
        error: "I/O error".to_string(),
    });
    assert_eq!(read.action(), CaptureAction::Fail("read(/dev/dsp.loop): I/O error".to_string()));
    for events in [0x10i16, 0x18, 0, -2, i16::MIN] {
        let mut gone = capture(1);
        gone.report(CaptureEvent::Stop(false));
        gone.report(CaptureEvent::PollReady { events, readable: READABLE });
        let message = format!("poll revents={events:#x} on /dev/dsp.loop");
        assert_eq!(gone.action(), CaptureAction::Fail(message));
    }
}

#[test]
fn readable_device_is_read_whatever_else_happened() {
    let mut capture = capture(1);
    capture.report(CaptureEvent::Stop(false));
    capture.report(CaptureEvent::PollReady { events: 0x11, readable: READABLE });
    assert_eq!(capture.action(), CaptureAction::Read { max: 480 });
}

#[test]
fn dropped_frames_are_told_of_twice() {
    let mut capture = capture(1);
    whole_chunk(&mut capture);
    assert_eq!(capture.report(CaptureEvent::Sent), None);
    for streak in [1u32, 2, 5] {
        for dropped in 0..streak {
            whole_chunk(&mut capture);
            let note = capture.report(CaptureEvent::SendFull);
            assert_eq!(note, if dropped == 0 { Some(DropNote::Started) } else { None });
        }
        whole_chunk(&mut capture);
        assert_eq!(capture.report(CaptureEvent::Sent), Some(DropNote::Ended(streak)));
    }
    whole_chunk(&mut capture);
    assert_eq!(capture.report(CaptureEvent::Sent), None);
}

#[test]
fn no_channels_give_empty_frames() {
    let mut capture = capture(0);
    ready(&mut capture);
    assert_eq!(capture.action(), CaptureAction::Acquire);
    capture.report(CaptureEvent::Acquired { at_ms: 77 });
    assert_eq!(capture.action(), sent(Vec::new()));
}

#[test]
fn timer_is_drained_by_one_read() {
    assert_eq!(timer_drain(ClockRead::Got(1)), Drain::Done);
    assert_eq!(timer_drain(ClockRead::Got(0)), Drain::Done);
    assert_eq!(timer_drain(ClockRead::Failed(IoFailure::WouldBlock)), Drain::Done);
    assert_eq!(timer_drain(ClockRead::Failed(IoFailure::Interrupted)), Drain::Failed);
    assert_eq!(timer_drain(ClockRead::Failed(IoFailure::Other)), Drain::Failed);
}

#[test]
fn pipe_is_drained_to_the_end() {
    assert_eq!(pipe_drain(ClockRead::Got(64)), Drain::Again);
    assert_eq!(pipe_drain(ClockRead::Got(1)), Drain::Again);
    assert_eq!(pipe_drain(ClockRead::Failed(IoFailure::Interrupted)), Drain::Again);
    assert_eq!(pipe_drain(ClockRead::Got(0)), Drain::Done);
    assert_eq!(pipe_drain(ClockRead::Failed(IoFailure::WouldBlock)), Drain::Done);
    assert_eq!(pipe_drain(ClockRead::Failed(IoFailure::Other)), Drain::Failed);
}

#[test]
fn ticker_runs_until_stopped() {
    assert_eq!(ticker_next(TickerEvent::Stop(false)), TickerAction::Sleep);
    assert_eq!(ticker_next(TickerEvent::Slept), TickerAction::Write);
    assert_eq!(ticker_next(TickerEvent::Stop(true)), TickerAction::Close);
    assert_eq!(ticker_next(TickerEvent::Written), TickerAction::CheckStop);
    assert_eq!(
        ticker_next(TickerEvent::WriteFailed(IoFailure::WouldBlock)),
        TickerAction::CheckStop
    );
    assert_eq!(ticker_next(TickerEvent::WriteFailed(IoFailure::Interrupted)), TickerAction::Close);
    assert_eq!(ticker_next(TickerEvent::WriteFailed(IoFailure::Other)), TickerAction::Close);
}
