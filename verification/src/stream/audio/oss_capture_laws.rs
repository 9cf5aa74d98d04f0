//! What holds of a capture from its beginning, whatever the system answers.

use crate::errno::IoFailure;
use crate::le::word16;
use crate::stream::audio::frame::{samples_of, CAPTURE_SAMPLE_RATE};
use crate::stream::audio::oss_capture::{
    clock_rate, events_message, frames_per_chunk, open_failure_of, poll_message, read_message,
    supported, CaptureEvent, CapturePhase, CaptureView, DropNote, EventView, OpenCodes, PhaseView,
};
use crate::text::{law_written_numbers_read_back, worth, written};
use vstd::prelude::*;

verus! {

/// A chunk lasts exactly as long as a packet: for a supported duration as long
/// as was asked for, for any other 5 ms. A whole number of chunks makes a second.
pub proof fn law_chunk_lasts_as_long_as_a_packet(packet_duration_ms: u32)
    ensures
        supported(packet_duration_ms) ==> 1000 * frames_per_chunk(packet_duration_ms)
            == CAPTURE_SAMPLE_RATE * packet_duration_ms,
        !supported(packet_duration_ms) ==> 1000 * frames_per_chunk(packet_duration_ms)
            == CAPTURE_SAMPLE_RATE * 5,
        clock_rate(packet_duration_ms) * frames_per_chunk(packet_duration_ms)
            == CAPTURE_SAMPLE_RATE,
{
    assert(1000u32 / 5u32 == 200 && 1000u32 / 10u32 == 100);
    assert(48000int / 200int == 240 && 48000int / 100int == 480);
    let rate = clock_rate(packet_duration_ms);
    let frames = frames_per_chunk(packet_duration_ms);
    assert(rate * frames == 48000) by (nonlinear_arith)
        requires
            (rate == 200 && frames == 240) || (rate == 100 && frames == 480),
    ;
}

/// The state of a capture after a list of events.
pub open spec fn run(start: CaptureView, events: Seq<EventView>) -> CaptureView
    decreases events.len(),
{
    if events.len() == 0 {
        start
    } else {
        run(start, events.drop_last()).after(events.last())
    }
}

/// Whether every event of a list answered what the capture waited for.
pub open spec fn answered(start: CaptureView, events: Seq<EventView>) -> bool
    decreases events.len(),
{
    events.len() == 0 || (answered(start, events.drop_last()) && run(
        start,
        events.drop_last(),
    ).awaits(events.last()))
}

/// The bytes read since a frame was last offered to the encoder or a chunk was
/// given up.
pub open spec fn read_since_cut(events: Seq<EventView>) -> Seq<u8>
    decreases events.len(),
{
    if events.len() == 0 {
        Seq::empty()
    } else {
        match events.last() {
            EventView::Sent | EventView::SendFull | EventView::SendDisconnected => Seq::empty(),
            EventView::ReadFailed { failure: IoFailure::WouldBlock, .. } => Seq::empty(),
            EventView::ReadBytes(bytes) => read_since_cut(events.drop_last()) + bytes,
            _ => read_since_cut(events.drop_last()),
        }
    }
}

/// All bytes that were read.
pub open spec fn all_read(events: Seq<EventView>) -> Seq<u8>
    decreases events.len(),
{
    if events.len() == 0 {
        Seq::empty()
    } else {
        match events.last() {
            EventView::ReadBytes(bytes) => all_read(events.drop_last()) + bytes,
            _ => all_read(events.drop_last()),
        }
    }
}

/// The chunks that were offered to the encoder as frames, in order.
pub open spec fn offered(events: Seq<EventView>) -> Seq<Seq<u8>>
    decreases events.len(),
{
    if events.len() == 0 {
        Seq::empty()
    } else {
        let earlier = events.drop_last();
        match events.last() {
            EventView::Sent | EventView::SendFull | EventView::SendDisconnected => offered(
                earlier,
            ).push(read_since_cut(earlier)),
            _ => offered(earlier),
        }
    }
}

/// Whether a chunk was given up because the rest of it was not to be had.
pub open spec fn gives_up(event: EventView) -> bool {
    event matches EventView::ReadFailed { failure, .. } && failure is WouldBlock
}

/// Whether the event tells how waiting for the device went.
pub open spec fn is_wait(event: EventView) -> bool {
    event is PollFailed || event is PollTimedOut || event is PollReady
}

/// How many frames were dropped since the encoder last took one.
pub open spec fn dropped_since_sent(events: Seq<EventView>) -> nat
    decreases events.len(),
{
    if events.len() == 0 {
        0
    } else {
        match events.last() {
            EventView::Sent => 0,
            EventView::SendFull => dropped_since_sent(events.drop_last()) + 1,
            _ => dropped_since_sent(events.drop_last()),
        }
    }
}

/// A count as far as 32 bits can hold it.
pub open spec fn saturated(count: nat) -> u32 {
    if count < u32::MAX {
        count as u32
    } else {
        u32::MAX
    }
}

/// A frame holds exactly what was read since the frame before it: one whole
/// chunk, nothing of the chunk before it, every byte in its place, however the
/// reads cut it and however often the device was waited for in between.
pub proof fn law_frame_is_what_was_read(chunk: nat, events: Seq<EventView>)
    requires
        answered(CaptureView::start(chunk), events),
        run(CaptureView::start(chunk), events).phase is Send,
    ensures
        run(CaptureView::start(chunk), events).pending == read_since_cut(events),
        read_since_cut(events).len() == chunk,
        samples_of(read_since_cut(events)).len() == chunk / 2,
{
    lemma_run(chunk, events);
}

/// The frames are the consecutive chunks of the stream, however reads cut it,
/// as long as no chunk was given up. Only what follows the last whole chunk is
/// left out: whenever the device is waited for, that is less than a chunk.
pub proof fn law_frames_are_the_chunks_of_the_stream(chunk: nat, events: Seq<EventView>)
    requires
        answered(CaptureView::start(chunk), events),
        forall|i: int| 0 <= i < events.len() ==> !gives_up(#[trigger] events[i]),
    ensures
        forall|k: int|
            0 <= k < offered(events).len() ==> #[trigger] offered(events)[k] == all_read(
                events,
            ).subrange(k * chunk, (k + 1) * chunk),
        offered(events).len() * chunk <= all_read(events).len() <= (offered(events).len() + 1)
            * chunk,
        chunk > 0 && run(CaptureView::start(chunk), events).phase is Poll ==> all_read(events).len()
            < (offered(events).len() + 1) * chunk,
{
    lemma_run(chunk, events);
    lemma_stream(chunk, events);
    let n = offered(events).len() as int;
    let c = chunk as int;
    assert((n + 1) * c == n * c + c) by (nonlinear_arith);
}

/// At any time the capture asks for no more bytes than the chunk still lacks,
/// and it asks for bytes only while some are lacking.
pub proof fn law_no_more_than_a_chunk_is_read(chunk: nat, events: Seq<EventView>)
    requires
        answered(CaptureView::start(chunk), events),
    ensures
        run(CaptureView::start(chunk), events).wf(),
        run(CaptureView::start(chunk), events).chunk == chunk,
        run(CaptureView::start(chunk), events).phase is Read ==> run(
            CaptureView::start(chunk),
            events,
        ).pending.len() == read_since_cut(events).len() < chunk,
{
    lemma_run(chunk, events);
}

/// The device is read only directly after a wait in which something happened to
/// it: it became readable, or it has gone inside a chunk. It is waited for only
/// directly after it was seen that no shutdown was asked for.
pub proof fn law_look_then_wait_then_read(chunk: nat, events: Seq<EventView>)
    requires
        answered(CaptureView::start(chunk), events),
    ensures
        run(CaptureView::start(chunk), events).phase is Read ==> events.len() > 0 && (
        events.last() matches EventView::PollReady { events: happened, readable } && (happened
            & readable != 0 || read_since_cut(events).len() > 0)),
        run(CaptureView::start(chunk), events).phase is Poll ==> events.len() > 0 && events.last()
            == EventView::Stop(false),
{
    lemma_run(chunk, events);
}

/// A loopback that is closed ends the capture without an error once reading
/// shows its end, also where waiting inside a chunk shows only that it has gone.
/// Between chunks a device that has gone is an error.
pub proof fn law_gone_device(state: CaptureView, events: i16, readable: i16)
    requires
        state.wf(),
        state.phase is Poll,
        state.chunk > 0,
        events & readable == 0,
    ensures
        ({
            let gone = state.after(EventView::PollReady { events, readable });
            if state.pending.len() > 0 {
                &&& gone == state.at(PhaseView::Read)
                &&& gone.after(EventView::ReadEnd).phase is Finished
            } else {
                gone.phase == PhaseView::Failed(events_message(events))
            }
        }),
{
}

/// A frame carries the time at which it was had.
pub proof fn law_frame_carries_its_time(chunk: nat, events: Seq<EventView>)
    requires
        answered(CaptureView::start(chunk), events),
    ensures
        run(CaptureView::start(chunk), events).phase matches PhaseView::Send { at_ms }
            ==> events.len() > 0 && events.last() == (EventView::Acquired { at_ms }),
{
}

/// Waiting for the device loses nothing of what was read.
pub proof fn law_waiting_keeps_what_was_read(state: CaptureView, event: EventView)
    requires
        is_wait(event),
    ensures
        state.after(event).pending == state.pending,
{
}

/// A shutdown is noticed after one wait at most, wherever in a chunk the device
/// falls silent: from one look for a shutdown to the next there are no more than
/// three answers of the system, of which only the first can be that of a wait.
pub proof fn law_shutdown_is_noticed_after_one_wait(state: CaptureView, events: Seq<EventView>)
    requires
        state.wf(),
        answered(state, events),
        events.len() > 0,
        events[0] is Stop,
        forall|i: int| 0 < i < events.len() ==> !((#[trigger] events[i]) is Stop),
    ensures
        events.len() <= 4,
        forall|i: int| 1 < i < events.len() ==> !is_wait(#[trigger] events[i]),
{
    lemma_between_looks(state, events);
}

proof fn lemma_between_looks(state: CaptureView, events: Seq<EventView>)
    requires
        answered(state, events),
        events.len() > 0,
        events[0] is Stop,
        forall|i: int| 0 < i < events.len() ==> !((#[trigger] events[i]) is Stop),
    ensures
        ({
            let phase = run(state, events).phase;
            let over = phase is Finished || phase is Failed;
            &&& events.len() <= 4
            &&& events.len() == 1 ==> over || phase is Poll || phase is Acquire
            &&& events.len() == 2 ==> over || phase is CheckStop || phase is Read || phase
                is Acquire || phase is Send
            &&& events.len() == 3 ==> over || phase is CheckStop || phase is Send
            &&& events.len() == 4 ==> over || phase is CheckStop
        }),
        forall|i: int| 1 < i < events.len() ==> !is_wait(#[trigger] events[i]),
    decreases events.len(),
{
    let earlier = events.drop_last();
    if events.len() > 1 {
        assert(earlier[0] == events[0]);
        assert forall|i: int| 0 < i < earlier.len() implies !((#[trigger] earlier[i]) is Stop) by {
            assert(earlier[i] == events[i]);
        }
        lemma_between_looks(state, earlier);
        assert(!(events[events.len() - 1] is Stop));
        assert forall|i: int| 1 < i < events.len() implies !is_wait(#[trigger] events[i]) by {
            if i < earlier.len() {
                assert(!is_wait(earlier[i]));
            }
        }
    } else {
        assert(events.last() == events[0]);
    }
}

/// The streak counts the frames dropped since the encoder last took one.
pub proof fn law_streak_counts_the_dropped_frames(chunk: nat, events: Seq<EventView>)
    requires
        answered(CaptureView::start(chunk), events),
    ensures
        run(CaptureView::start(chunk), events).drop_streak == saturated(
            dropped_since_sent(events),
        ),
{
    lemma_run(chunk, events);
}

/// Of a streak of dropped frames two things are told: its first frame, and its
/// length once the encoder takes a frame again. Nothing else is told.
pub proof fn law_a_streak_is_told_of_twice(chunk: nat, events: Seq<EventView>, event: EventView)
    requires
        answered(CaptureView::start(chunk), events.push(event)),
    ensures
        run(CaptureView::start(chunk), events).note(event) == match event {
            EventView::SendFull => if dropped_since_sent(events) == 0 {
                Some(DropNote::Started)
            } else {
                None
            },
            EventView::Sent => if dropped_since_sent(events) > 0 {
                Some(DropNote::Ended(saturated(dropped_since_sent(events))))
            } else {
                None
            },
            _ => None,
        },
{
    assert(events.push(event).drop_last() =~= events);
    lemma_run(chunk, events);
}

/// A chunk of which the rest was not to be had is given up: once the device is
/// readable again a whole chunk is asked for.
pub proof fn law_short_chunk_is_given_up(
    state: CaptureView,
    error: Seq<char>,
    events: i16,
    readable: i16,
)
    requires
        state.wf(),
        state.phase is Read,
        events & readable != 0,
    ensures
        ({
            let given_up = EventView::ReadFailed { failure: IoFailure::WouldBlock, error };
            let ready = EventView::PollReady { events, readable };
            let history = seq![given_up, EventView::Stop(false), ready];
            &&& answered(state, history)
            &&& run(state, history) == state.cleared().at(PhaseView::Read)
        }),
{
    let given_up = EventView::ReadFailed { failure: IoFailure::WouldBlock, error };
    let ready = EventView::PollReady { events, readable };
    let history = seq![given_up, EventView::Stop(false), ready];
    assert(history.drop_last() =~= seq![given_up, EventView::Stop(false)]);
    assert(history.drop_last().drop_last() =~= seq![given_up]);
    assert(history.drop_last().drop_last().drop_last() =~= Seq::<EventView>::empty());
    reveal_with_fuel(run, 4);
    reveal_with_fuel(answered, 4);
}

/// A signal in between costs nothing: what was read stays, and the capture goes
/// on once it has looked for a shutdown.
pub proof fn law_signals_cost_nothing(state: CaptureView, error: Seq<char>)
    ensures
        state.after(EventView::ReadFailed { failure: IoFailure::Interrupted, error }) == state.at(
            PhaseView::CheckStop,
        ),
        state.after(EventView::PollFailed { failure: IoFailure::Interrupted, error }) == state.at(
            PhaseView::CheckStop,
        ),
{
}

/// A capture that has ended stays ended: it waits for nothing.
pub proof fn law_the_end_is_final(state: CaptureView, event: EventView)
    requires
        state.phase is Finished || state.phase is Failed,
    ensures
        !state.awaits(event),
{
}

/// A shutdown ends the capture at once, without an error, and no frame is sent
/// any more.
pub proof fn law_shutdown_ends_the_capture(chunk: nat, events: Seq<EventView>)
    requires
        answered(CaptureView::start(chunk), events),
        events.contains(EventView::Stop(true)),
    ensures
        events.last() == EventView::Stop(true),
        run(CaptureView::start(chunk), events).phase is Finished,
    decreases events.len(),
{
    let start = CaptureView::start(chunk);
    if events.last() != EventView::Stop(true) {
        let k = choose|k: int| 0 <= k < events.len() && events[k] == EventView::Stop(true);
        let earlier = events.drop_last();
        assert(earlier[k] == EventView::Stop(true));
        law_shutdown_ends_the_capture(chunk, earlier);
        law_the_end_is_final(run(start, earlier), events.last());
    }
}

proof fn lemma_run(chunk: nat, events: Seq<EventView>)
    requires
        answered(CaptureView::start(chunk), events),
    ensures
        ({
            let state = run(CaptureView::start(chunk), events);
            &&& state.wf()
            &&& state.chunk == chunk
            &&& state.pending == read_since_cut(events)
            &&& state.drop_streak == saturated(dropped_since_sent(events))
        }),
    decreases events.len(),
{
    if events.len() > 0 {
        lemma_run(chunk, events.drop_last());
    }
}

proof fn lemma_chunk_bounds(k: int, n: int, c: int)
    requires
        0 <= k < n,
        0 <= c,
    ensures
        0 <= k * c <= (k + 1) * c <= n * c,
        (k + 1) * c == k * c + c,
{
    assert(0 <= k * c <= (k + 1) * c <= n * c && (k + 1) * c == k * c + c) by (nonlinear_arith)
        requires
            0 <= k < n,
            0 <= c,
    ;
}

/// What was read is the chunks that were offered, followed by what is pending.
proof fn lemma_stream(chunk: nat, events: Seq<EventView>)
    requires
        answered(CaptureView::start(chunk), events),
        forall|i: int| 0 <= i < events.len() ==> !gives_up(#[trigger] events[i]),
    ensures
        ({
            let whole = offered(events).len() * chunk;
            &&& all_read(events).len() == whole + read_since_cut(events).len()
            &&& all_read(events).skip(whole as int) == read_since_cut(events)
        }),
        forall|k: int|
            0 <= k < offered(events).len() ==> #[trigger] offered(events)[k] == all_read(
                events,
            ).subrange(k * chunk, (k + 1) * chunk),
    decreases events.len(),
{
    let c = chunk as int;
    if events.len() > 0 {
        let earlier = events.drop_last();
        assert forall|i: int| 0 <= i < earlier.len() implies !gives_up(#[trigger] earlier[i]) by {
            assert(earlier[i] == events[i]);
        }
        lemma_stream(chunk, earlier);
        lemma_run(chunk, earlier);
        assert(!gives_up(events[events.len() - 1]));
        let n = offered(earlier).len() as int;
        let stream = all_read(earlier);
        let rest = read_since_cut(earlier);
        match events.last() {
            EventView::Sent | EventView::SendFull | EventView::SendDisconnected => {
                assert((n + 1) * c == n * c + c) by (nonlinear_arith);
                assert(rest.len() == chunk);
                assert(stream.skip((n + 1) * c) =~= Seq::<u8>::empty());
                assert(stream.subrange(n * c, (n + 1) * c) =~= stream.skip(n * c));
                assert forall|k: int| 0 <= k < offered(events).len() implies #[trigger] offered(
                    events,
                )[k] == all_read(events).subrange(k * chunk, (k + 1) * chunk) by {
                    if k < n {
                        assert(offered(events)[k] == offered(earlier)[k]);
                    }
                }
            },
            EventView::ReadBytes(bytes) => {
                assert(0 <= n * c) by (nonlinear_arith)
                    requires
                        0 <= n,
                        0 <= c,
                ;
                assert(all_read(events).skip(n * c) =~= stream.skip(n * c) + bytes);
                assert forall|k: int| 0 <= k < offered(events).len() implies #[trigger] offered(
                    events,
                )[k] == all_read(events).subrange(k * chunk, (k + 1) * chunk) by {
                    lemma_chunk_bounds(k, n, c);
                    assert(offered(events)[k] == offered(earlier)[k]);
                    assert(all_read(events).subrange(k * c, (k + 1) * c) =~= stream.subrange(
                        k * c,
                        (k + 1) * c,
                    ));
                }
            },
            _ => {},
        }
    } else {
        assert(all_read(events).skip(0) =~= read_since_cut(events));
        assert(0 * c == 0);
    }
}

/// A chunk lasts 10 ms where that was asked for and 5 ms otherwise, at 48000
/// samples a second and channel.
pub proof fn law_a_chunk_lasts_five_or_ten_milliseconds(packet_duration_ms: u32)
    ensures
        1000 * frames_per_chunk(packet_duration_ms) == 48000 * (if packet_duration_ms == 10 {
            10int
        } else {
            5
        }),
        clock_rate(packet_duration_ms) == 200 || packet_duration_ms == 10,
        packet_duration_ms == 10 ==> clock_rate(packet_duration_ms) == 100,
        supported(packet_duration_ms) <==> packet_duration_ms == 5 || packet_duration_ms == 10,
{
    law_chunk_lasts_as_long_as_a_packet(packet_duration_ms);
}

/// Why a device could not be opened is told by the number alone.
pub proof fn law_open_failures_are_told_by_their_numbers(errno: Option<i32>, codes: OpenCodes)
    requires
        codes.ebusy != codes.enoent && codes.ebusy != codes.enxio && codes.ebusy != codes.enodev,
    ensures
        open_failure_of(errno, codes) is Missing <==> errno is Some && (errno->0 == codes.enoent
            || errno->0 == codes.enxio || errno->0 == codes.enodev),
        open_failure_of(errno, codes) is Busy <==> errno is Some && errno->0 == codes.ebusy,
{
}

/// The events of a device that has gone are told in hexadecimal, as the sixteen
/// bits they are. The text of a failure is told after the operation that failed.
pub proof fn law_messages_tell_what_failed(error: Seq<char>, events: i16)
    ensures
        poll_message(error) == "poll(/dev/dsp.loop): "@ + error,
        read_message(error) == "read(/dev/dsp.loop): "@ + error,
        ({
            let digits = written(word16(events) as nat, 16);
            &&& events_message(events) == "poll revents=0x"@ + digits + " on /dev/dsp.loop"@
            &&& (worth(digits, 16) - events) % 0x1_0000 == 0
        }),
{
    law_written_numbers_read_back(word16(events) as nat, 16);
}

/// What a capture waits for is answered by what belongs to it, and by nothing
/// else.
pub proof fn law_answers_fit_what_is_waited_for(state: CaptureView, event: EventView)
    ensures
        state.awaits(event) <==> match state.phase {
            PhaseView::CheckStop => event is Stop,
            PhaseView::Poll => is_wait(event),
            PhaseView::Read => event is ReadFailed || event is ReadEnd || (
            event matches EventView::ReadBytes(bytes) && 0 < bytes.len() && bytes.len()
                + state.pending.len() <= state.chunk),
            PhaseView::Acquire => event is Acquired || event is AcquireDisconnected,
            PhaseView::Send { .. } => event is Sent || event is SendFull || event
                is SendDisconnected,
            _ => false,
        },
{
}

/// A capture ends well when it was asked to, when the loopback was closed and
/// when the encoder has gone. It ends with an error when waiting or reading
/// failed for good, and when the device has gone between chunks. It ends for
/// nothing else.
pub proof fn law_a_capture_ends_for_a_reason(state: CaptureView, event: EventView)
    requires
        state.wf(),
        state.awaits(event),
    ensures
        state.after(event).phase is Finished <==> event == EventView::Stop(true) || event is ReadEnd
            || event is AcquireDisconnected || event is SendDisconnected,
        state.after(event).phase is Failed <==> {
            ||| event matches EventView::PollFailed { failure, .. } && !(failure is Interrupted)
            ||| event matches EventView::ReadFailed { failure, .. } && failure is Other
            ||| event matches EventView::PollReady { events, readable } && events & readable == 0
                && state.pending.len() == 0
        },
        event matches EventView::PollFailed { failure, error } ==> (!(failure is Interrupted)
            ==> state.after(event).phase == PhaseView::Failed("poll(/dev/dsp.loop): "@ + error)),
        event matches EventView::ReadFailed { failure, error } ==> (failure is Other
            ==> state.after(event).phase == PhaseView::Failed("read(/dev/dsp.loop): "@ + error)),
{
}

/// A capture that has not ended goes on in a circle: it looks for a shutdown,
/// waits for the device, reads, and looks again; once a chunk is whole it looks,
/// takes a frame, offers it, and looks again.
pub proof fn law_a_capture_goes_in_a_circle(state: CaptureView, event: EventView)
    requires
        state.wf(),
        state.awaits(event),
        !(state.after(event).phase is Finished) && !(state.after(event).phase is Failed),
    ensures
        match event {
            EventView::Stop(_) => if state.chunk > 0 && state.pending.len() == state.chunk {
                state.after(event).phase is Acquire
            } else {
                state.after(event).phase is Poll
            },
            EventView::PollReady { .. } => if state.chunk > 0 {
                state.after(event).phase is Read
            } else {
                state.after(event).phase is Acquire
            },
            EventView::Acquired { at_ms } => state.after(event).phase == (PhaseView::Send {
                at_ms,
            }),
            _ => state.after(event).phase is CheckStop,
        },
{
}

/// What an answer changes: bytes that were read are added to what is pending; a
/// frame that was offered, and a chunk that is given up, leave nothing pending; a
/// frame that was taken ends a streak, and one that was dropped adds to it. The
/// size of a chunk never changes, and nothing else does.
pub proof fn law_what_an_answer_changes(state: CaptureView, event: EventView)
    ensures
        state.after(event).chunk == state.chunk,
        state.after(event).pending == (match event {
            EventView::ReadBytes(bytes) => state.pending + bytes,
            EventView::Sent | EventView::SendFull | EventView::SendDisconnected => Seq::empty(),
            EventView::ReadFailed { failure, .. } => if failure is WouldBlock {
                Seq::empty()
            } else {
                state.pending
            },
            _ => state.pending,
        }),
        state.after(event).drop_streak == (match event {
            EventView::Sent => 0int,
            EventView::SendFull => if state.drop_streak == u32::MAX {
                u32::MAX as int
            } else {
                state.drop_streak + 1
            },
            _ => state.drop_streak as int,
        }),
{
}

/// A capture begins by looking for a shutdown, with nothing pending and nothing
/// dropped.
pub proof fn law_how_a_capture_begins(chunk: nat)
    ensures
        CaptureView::start(chunk).chunk == chunk,
        CaptureView::start(chunk).pending.len() == 0,
        CaptureView::start(chunk).drop_streak == 0,
        CaptureView::start(chunk).phase is CheckStop,
{
}

/// An answer of the system is taken for what it is, with every byte that was
/// read, and so is what a capture waits for.
pub proof fn law_answers_are_taken_for_what_they_are(event: CaptureEvent, phase: CapturePhase)
    ensures
        event@ == (match event {
            CaptureEvent::Stop(asked) => EventView::Stop(asked),
            CaptureEvent::PollFailed { failure, error } => EventView::PollFailed {
                failure,
                error: error@,
            },
            CaptureEvent::PollTimedOut => EventView::PollTimedOut,
            CaptureEvent::PollReady { events, readable } => EventView::PollReady {
                events,
                readable,
            },
            CaptureEvent::ReadFailed { failure, error } => EventView::ReadFailed {
                failure,
                error: error@,
            },
            CaptureEvent::ReadEnd => EventView::ReadEnd,
            CaptureEvent::ReadBytes(bytes) => EventView::ReadBytes(bytes@),
            CaptureEvent::Acquired { at_ms } => EventView::Acquired { at_ms },
            CaptureEvent::AcquireDisconnected => EventView::AcquireDisconnected,
            CaptureEvent::Sent => EventView::Sent,
            CaptureEvent::SendFull => EventView::SendFull,
            CaptureEvent::SendDisconnected => EventView::SendDisconnected,
        }),
        phase@ == (match phase {
            CapturePhase::CheckStop => PhaseView::CheckStop,
            CapturePhase::Poll => PhaseView::Poll,
            CapturePhase::Read => PhaseView::Read,
            CapturePhase::Acquire => PhaseView::Acquire,
            CapturePhase::Send { at_ms } => PhaseView::Send { at_ms },
            CapturePhase::Finished => PhaseView::Finished,
            CapturePhase::Failed(message) => PhaseView::Failed(message@),
        }),
{
}

/// Dropped frames are told of twice in a streak: when it starts and, with its
/// length, when it ends.
pub proof fn law_what_is_told(state: CaptureView, event: EventView)
    ensures
        state.note(event) == Some(DropNote::Started) <==> event is SendFull && state.drop_streak
            == 0,
        event is Sent && state.drop_streak > 0 ==> state.note(event) == Some(
            DropNote::Ended(state.drop_streak),
        ),
        state.note(event) is Some ==> (event is SendFull && state.drop_streak == 0) || (event
            is Sent && state.drop_streak > 0),
{
}

} // verus!
