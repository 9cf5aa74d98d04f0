//! What holds of every call that makes a stream's socket, captures sound or keeps
//! time, whatever it is called with.

use crate::errno::IoFailure;
use crate::float::is_fraction_of;
use crate::le::word16;
use crate::sequence::Sequence;
use crate::session::SessionShutdownReason;
use crate::stream::audio::audio_clock::{
    pipe_drain, ticker_next, timer_drain, ClockRead, Drain, TickerAction, TickerEvent,
};
use crate::stream::audio::frame::{
    are_sample, decode_samples, is_frame_of, samples_of,
};
use crate::stream::audio::oss_capture::{
    format_requests, int_request_result, open_failure, open_message, sndctl_dsp_channels,
    sndctl_dsp_setfmt, sndctl_dsp_speed, CaptureAction, CaptureEvent, ChunkLayout, DropNote,
    EventView, IntRequest, OpenCodes, OpenFailure, OssCapture, PhaseView, DSP_LOOP_PATH,
    POLL_TIMEOUT_MS,
};
use crate::stream::audio::oss_capture_laws::{
    law_a_capture_ends_for_a_reason, law_a_capture_goes_in_a_circle, law_messages_tell_what_failed,
    law_what_an_answer_changes, law_what_is_told,
};
use crate::stream::{
    address_message, bind_stream_socket, law_a_socket_is_bound_once, BindStep, StreamConfig,
};
use crate::text::{worth, written};
use vstd::prelude::*;

verus! {

/// The steps of making a socket: it is created of the address's family, opened to
/// IPv4 peers if it is an IPv6 one, bound and made nonblocking, in that order.
pub proof fn law_a_socket_is_made(ipv6: bool, sequence: Sequence<BindStep>)
    requires
        call_ensures(bind_stream_socket, (ipv6,), sequence),
    ensures
        sequence@.taken == 0 && !sequence@.failed,
        sequence@.left() == sequence@.steps,
        ipv6 ==> sequence@.steps == seq![
            BindStep::Create { ipv6: true },
            BindStep::AllowIpv4,
            BindStep::Bind,
            BindStep::SetNonblocking,
        ],
        !ipv6 ==> sequence@.steps == seq![
            BindStep::Create { ipv6: false },
            BindStep::Bind,
            BindStep::SetNonblocking,
        ],
{
    law_a_socket_is_bound_once(ipv6);
    assert(sequence@.left() =~= sequence@.steps);
}

/// Streams that are not configured listen on port 48010 and close after a minute.
pub proof fn law_streams_are_not_configured<Video: Default, Audio: Default, Control: Default>(
    config: StreamConfig<Video, Audio, Control>,
)
    requires
        call_ensures(StreamConfig::<Video, Audio, Control>::default, (), config),
    ensures
        config.port == 48010,
        config.timeout == 60,
        call_ensures(Video::default, (), config.video),
        call_ensures(Audio::default, (), config.audio),
        call_ensures(Control::default, (), config.control),
{
}

/// Messages tell what they are about and then, whole, why.
pub proof fn law_messages_end_in_the_reason(
    address: &str,
    error: &str,
    about_address: String,
    about_device: String,
)
    requires
        call_ensures(address_message, (address, error), about_address),
        call_ensures(open_message, (error,), about_device),
    ensures
        about_address@ == address@ + ": "@ + error@,
        about_device@ == "open("@ + "/dev/dsp.loop"@ + "): "@ + error@,
        DSP_LOOP_PATH@ == "/dev/dsp.loop"@,
        POLL_TIMEOUT_MS == 100,
{
    reveal_strlit("open(/dev/dsp.loop): ");
    reveal_strlit("open(");
    reveal_strlit("/dev/dsp.loop");
    reveal_strlit("): ");
    assert("open(/dev/dsp.loop): "@ =~= "open("@ + "/dev/dsp.loop"@ + "): "@);
}

/// A chunk holds the samples of all channels of five milliseconds, or of ten where
/// ten were asked for, two bytes each. It is told when something else was asked
/// for.
pub proof fn law_chunks_are_laid_out(channels: u8, packet_duration_ms: u32, layout: ChunkLayout)
    requires
        call_ensures(ChunkLayout::new, (channels, packet_duration_ms), layout),
    ensures
        layout.clock_rate_hz == (if packet_duration_ms == 10 {
            100int
        } else {
            200
        }),
        layout.samples_per_chunk == channels * (if packet_duration_ms == 10 {
            480int
        } else {
            240
        }),
        layout.bytes_per_chunk == channels * (if packet_duration_ms == 10 {
            960int
        } else {
            480
        }),
        layout.fell_back <==> packet_duration_ms != 0 && packet_duration_ms != 5
            && packet_duration_ms != 10,
{
}

/// A device is asked for 16-bit little-endian samples, for the channels and for 48
/// kHz, in that order.
pub proof fn law_the_format_is_asked_for(
    channels: u8,
    requests: Vec<IntRequest>,
    format: u64,
    count: u64,
    speed: u64,
)
    requires
        call_ensures(format_requests, (channels,), requests),
        call_ensures(sndctl_dsp_setfmt, (), format),
        call_ensures(sndctl_dsp_channels, (), count),
        call_ensures(sndctl_dsp_speed, (), speed),
    ensures
        format == 0xC004_5005 && count == 0xC004_5006 && speed == 0xC004_5002,
        requests@.len() == 3,
        requests@[0].number == format && requests@[0].want == 16 && requests@[0].name@
            == "SNDCTL_DSP_SETFMT"@,
        requests@[1].number == count && requests@[1].want == channels && requests@[1].name@
            == "SNDCTL_DSP_CHANNELS"@,
        requests@[2].number == speed && requests@[2].want == 48000 && requests@[2].name@
            == "SNDCTL_DSP_SPEED"@,
{
}

/// A request has failed when its answer is negative. A request that was granted
/// tells the value that was set if it is another than the one that was wanted.
pub proof fn law_requests_are_judged(
    request: IntRequest,
    answer: i32,
    value: i32,
    error: &str,
    result: Result<Option<i32>, String>,
)
    requires
        call_ensures(int_request_result, (&request, answer, value, error), result),
    ensures
        result is Err <==> answer < 0,
        result matches Err(message) ==> message@ == request.name@ + " ioctl failed: "@ + error@,
        result matches Ok(coerced) ==> (coerced is None <==> value == request.want),
        result matches Ok(Some(other)) ==> other == value,
{
}

/// A device is missing or busy if the system says so, and has failed otherwise.
pub proof fn law_a_device_does_not_open(
    errno: Option<i32>,
    codes: OpenCodes,
    failure: OpenFailure,
)
    requires
        call_ensures(open_failure, (errno, &codes), failure),
    ensures
        failure is Missing <==> errno is Some && (errno->0 == codes.enoent || errno->0
            == codes.enxio || errno->0 == codes.enodev),
        failure is Busy <==> errno is Some && errno->0 == codes.ebusy && !(failure is Missing),
{
}

/// Samples that were encoded as two little-endian bytes each come out of a decoded
/// frame in their places, each divided by 32768: every sample, however many. A last
/// single byte is left out.
pub proof fn law_samples_are_decoded(bytes: &[u8], frame: Vec<u32>, samples: Seq<i16>)
    requires
        call_ensures(decode_samples, (bytes,), frame),
        bytes@.len() == 2 * samples.len() || bytes@.len() == 2 * samples.len() + 1,
        forall|i: int|
            0 <= i < samples.len() ==> are_sample(
                bytes@[2 * i],
                bytes@[2 * i + 1],
                #[trigger] samples[i],
            ),
    ensures
        frame@.len() == samples.len(),
        forall|i: int| 0 <= i < samples.len() ==> is_fraction_of(#[trigger] frame@[i], samples[i]),
{
    assert forall|i: int| 0 <= i < samples.len() implies is_fraction_of(
        #[trigger] frame@[i],
        samples[i],
    ) by {
        assert(are_sample(bytes@[2 * i], bytes@[2 * i + 1], samples[i]));
        assert(samples_of(bytes@)[i] == samples[i]);
    }
}

/// A clock is drained by its reads: a timer by one, a pipe by one that finds
/// nothing more.
pub proof fn law_clocks_are_drained(read: ClockRead, timer: Drain, pipe: Drain)
    requires
        call_ensures(timer_drain, (read,), timer),
        call_ensures(pipe_drain, (read,), pipe),
    ensures
        timer is Done <==> read is Got || read == ClockRead::Failed(IoFailure::WouldBlock),
        timer is Failed <==> read == ClockRead::Failed(IoFailure::Interrupted) || read
            == ClockRead::Failed(IoFailure::Other),
        pipe is Again <==> read == ClockRead::Failed(IoFailure::Interrupted) || (
        read matches ClockRead::Got(count) && count > 0),
        pipe is Failed <==> read == ClockRead::Failed(IoFailure::Other),
{
}

/// The helper thread looks, sleeps, writes and looks again, until the clock was
/// dropped or its pipe has failed other than by being full.
pub proof fn law_the_ticker_goes_on(event: TickerEvent, action: TickerAction)
    requires
        call_ensures(ticker_next, (event,), action),
    ensures
        action is Sleep <==> event == TickerEvent::Stop(false),
        action is Write <==> event is Slept,
        action is CheckStop <==> event is Written || event == TickerEvent::WriteFailed(
            IoFailure::WouldBlock,
        ),
        action is Close <==> event == TickerEvent::Stop(true) || event
            == TickerEvent::WriteFailed(IoFailure::Interrupted) || event
            == TickerEvent::WriteFailed(IoFailure::Other),
{
}

/// A capture begins by looking for a shutdown, with nothing pending, nothing
/// dropped and the size of its chunks. What it waits for is what it asks the
/// system to do: it reads no more than the chunk lacks, and sends the samples that
/// it has read with the time at which the frame was had.
pub proof fn law_a_capture_asks_for_what_it_waits_for(
    layout: ChunkLayout,
    begun: OssCapture,
    capture: OssCapture,
    action: CaptureAction,
    reason: Option<SessionShutdownReason>,
)
    requires
        call_ensures(OssCapture::new, (&layout,), begun),
        capture@.wf(),
        call_ensures(OssCapture::action, (&capture,), action),
        call_ensures(CaptureAction::shutdown_reason, (&action,), reason),
    ensures
        begun@.chunk == layout.bytes_per_chunk && begun@.pending.len() == 0 && begun@.drop_streak
            == 0 && begun@.phase is CheckStop,
        action is CheckStop <==> capture@.phase is CheckStop,
        action is Poll <==> capture@.phase is Poll,
        action is Read <==> capture@.phase is Read,
        action matches CaptureAction::Read { max } ==> max + capture@.pending.len()
            == capture@.chunk,
        action is Acquire <==> capture@.phase is Acquire,
        action is Send <==> capture@.phase is Send,
        action matches CaptureAction::Send(frame) ==> is_frame_of(frame.buf@, capture@.pending)
            && capture@.phase == (PhaseView::Send { at_ms: frame.capture_ts_ms }),
        action is Finish <==> capture@.phase is Finished,
        action is Fail <==> capture@.phase is Failed,
        action matches CaptureAction::Fail(text) ==> capture@.phase == PhaseView::Failed(text@),
        reason is Some <==> capture@.phase is Finished || capture@.phase is Failed,
        reason is Some ==> reason->0 is PulseServerStopped,
{
}

/// What an answer of the system does to a capture.
pub proof fn law_a_capture_takes_its_answers(
    capture: &mut OssCapture,
    event: CaptureEvent,
    note: Option<DropNote>,
)
    requires
        old(capture)@.wf(),
        old(capture)@.awaits(event@),
        call_ensures(OssCapture::report, (capture, event), note),
    ensures
        final(capture)@.wf(),
        final(capture)@.chunk == old(capture)@.chunk,
        final(capture)@.pending == (match event {
            CaptureEvent::ReadBytes(bytes) => old(capture)@.pending + bytes@,
            CaptureEvent::Sent | CaptureEvent::SendFull | CaptureEvent::SendDisconnected => {
                Seq::empty()
            },
            CaptureEvent::ReadFailed { failure, .. } => if failure is WouldBlock {
                Seq::empty()
            } else {
                old(capture)@.pending
            },
            _ => old(capture)@.pending,
        }),
        final(capture)@.drop_streak == (match event {
            CaptureEvent::Sent => 0int,
            CaptureEvent::SendFull => if old(capture)@.drop_streak == u32::MAX {
                u32::MAX as int
            } else {
                old(capture)@.drop_streak + 1
            },
            _ => old(capture)@.drop_streak as int,
        }),
        note == Some(DropNote::Started) <==> event is SendFull && old(capture)@.drop_streak == 0,
        event is Sent && old(capture)@.drop_streak > 0 ==> note == Some(
            DropNote::Ended(old(capture)@.drop_streak),
        ),
        note is Some ==> (event is SendFull && old(capture)@.drop_streak == 0) || (event is Sent
            && old(capture)@.drop_streak > 0),
{
    law_what_an_answer_changes(old(capture)@, event@);
    law_what_is_told(old(capture)@, event@);
}

/// Where a capture goes after an answer: it ends well when it was asked to, when
/// the loopback was closed and when the encoder has gone; it ends with an error
/// when waiting or reading failed for good, and when the device has gone between
/// chunks; otherwise it goes on to what comes next.
pub proof fn law_a_capture_goes_on(
    capture: &mut OssCapture,
    event: CaptureEvent,
    note: Option<DropNote>,
)
    requires
        old(capture)@.wf(),
        old(capture)@.awaits(event@),
        call_ensures(OssCapture::report, (capture, event), note),
    ensures
        ({
            let before = old(capture)@;
            let phase = final(capture)@.phase;
            let over = phase is Finished || phase is Failed;
            &&& phase is Finished <==> event == CaptureEvent::Stop(true) || event is ReadEnd
                || event is AcquireDisconnected || event is SendDisconnected
            &&& phase is Failed <==> {
                ||| event matches CaptureEvent::PollFailed { failure, .. } && !(failure
                    is Interrupted)
                ||| event matches CaptureEvent::ReadFailed { failure, .. } && failure is Other
                ||| event matches CaptureEvent::PollReady { events, readable } && events & readable
                    == 0 && before.pending.len() == 0
            }
            &&& event matches CaptureEvent::PollFailed { failure, error } ==> (!(failure
                is Interrupted) ==> phase == PhaseView::Failed("poll(/dev/dsp.loop): "@ + error@))
            &&& event matches CaptureEvent::ReadFailed { failure, error } ==> (failure is Other
                ==> phase == PhaseView::Failed("read(/dev/dsp.loop): "@ + error@))
            &&& event matches CaptureEvent::PollReady { events, readable } ==> (events & readable
                == 0 && before.pending.len() == 0 ==> ({
                let digits = written(word16(events) as nat, 16);
                &&& (worth(digits, 16) - events) % 0x1_0000 == 0
                &&& phase == PhaseView::Failed(
                    "poll revents=0x"@ + digits + " on /dev/dsp.loop"@,
                )
            }))
            &&& !over ==> match event {
                CaptureEvent::Stop(_) => if before.chunk > 0 && before.pending.len()
                    == before.chunk {
                    phase is Acquire
                } else {
                    phase is Poll
                },
                CaptureEvent::PollReady { .. } => if before.chunk > 0 {
                    phase is Read
                } else {
                    phase is Acquire
                },
                CaptureEvent::Acquired { at_ms } => phase == (PhaseView::Send { at_ms }),
                _ => phase is CheckStop,
            }
        }),
{
    let before = old(capture)@;
    law_a_capture_ends_for_a_reason(before, event@);
    let phase = final(capture)@.phase;
    if !(phase is Finished) && !(phase is Failed) {
        law_a_capture_goes_in_a_circle(before, event@);
    }
    assert(event == CaptureEvent::Stop(true) <==> event@ == EventView::Stop(true));
    if let CaptureEvent::PollReady { events, .. } = event {
        law_messages_tell_what_failed(Seq::empty(), events);
    }
}

} // verus!
