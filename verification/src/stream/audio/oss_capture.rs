//! PCM capture from the `virtual_oss(8)` loopback device that games write to.
//!
//! The wire format is 48 kHz, 16-bit little-endian, channels interleaved. A
//! frame is one chunk of samples, which lasts as long as one packet of the
//! stream; [`OssCapture`] cuts the device's bytes into chunks and decides what
//! comes next, one outcome of the system at a time.

use crate::errno::IoFailure;
use crate::ioctl::{iowr_int, law_request_parts_do_not_overlap, IOC_INOUT};
use crate::le::word16;
use crate::session::SessionShutdownReason;
use crate::stream::audio::frame::{
    decode_samples, is_frame_of, AudioFrame, CAPTURE_SAMPLE_RATE,
};
use crate::text::{hexadecimal, joined, written};
use vstd::prelude::*;

verus! {

/// The loopback device.
pub const DSP_LOOP_PATH: &'static str = "/dev/dsp.loop";

/// Chunks per second where the packet duration asked for is not supported:
/// chunks of 5 ms.
pub const DEFAULT_CLOCK_RATE_HZ: u32 = 200;

/// The device's number for 16-bit little-endian samples.
pub const AFMT_S16_LE: i32 = 0x0000_0010;

/// How long to wait for the device, so that a shutdown is noticed in time even
/// if the device stops producing data, be it inside a chunk.
pub const POLL_TIMEOUT_MS: i32 = 100;

/// The group letter `P` of the sound requests.
pub const SOUND_GROUP: u8 = 0x50;

// ---------------------------------------------------------------------------
// Chunks
// ---------------------------------------------------------------------------

/// Whether packets of that duration can be produced.
pub open spec fn supported(packet_duration_ms: u32) -> bool {
    packet_duration_ms == 5 || packet_duration_ms == 10
}

/// Chunks per second for a packet duration.
pub open spec fn clock_rate(packet_duration_ms: u32) -> u32 {
    if supported(packet_duration_ms) {
        1000u32 / packet_duration_ms
    } else {
        DEFAULT_CLOCK_RATE_HZ
    }
}

/// Samples of one channel in a chunk.
pub open spec fn frames_per_chunk(packet_duration_ms: u32) -> int {
    CAPTURE_SAMPLE_RATE as int / clock_rate(packet_duration_ms) as int
}

/// How the captured bytes are cut up.
#[derive(Clone, Copy, Debug, PartialEq, Eq, Structural)]
pub struct ChunkLayout {
    /// Chunks per second.
    pub clock_rate_hz: u32,
    /// Samples in a chunk, over all channels.
    pub samples_per_chunk: usize,
    /// Bytes in a chunk.
    pub bytes_per_chunk: usize,
    /// Whether a packet duration was asked for that is not supported.
    pub fell_back: bool,
}

impl ChunkLayout {
    /// Lays the chunks out for a channel count and a packet duration, where a
    /// duration of zero stands for none in particular.
    pub fn new(channels: u8, packet_duration_ms: u32) -> (layout: ChunkLayout)
        ensures
            layout.clock_rate_hz == clock_rate(packet_duration_ms),
            layout.samples_per_chunk == frames_per_chunk(packet_duration_ms) * channels,
            layout.bytes_per_chunk == 2 * layout.samples_per_chunk,
            layout.fell_back <==> !supported(packet_duration_ms) && packet_duration_ms != 0,
            layout.clock_rate_hz == (if packet_duration_ms == 10 {
                100int
            } else {
                200
            }),
            layout.samples_per_chunk == (if packet_duration_ms == 10 {
                480int
            } else {
                240
            }) * channels,
            layout.fell_back <==> packet_duration_ms != 0 && packet_duration_ms != 5
                && packet_duration_ms != 10,
    {
        let clock_rate_hz: u32 = match packet_duration_ms {
            5 => 200,
            10 => 100,
            _ => DEFAULT_CLOCK_RATE_HZ,
        };
        let frames: usize = (CAPTURE_SAMPLE_RATE / clock_rate_hz) as usize;
        assert(clock_rate_hz == 200 || clock_rate_hz == 100);
        assert(48000int / 200int == 240 && 48000int / 100int == 480);
        assert(frames * channels <= 480 * 255) by (nonlinear_arith)
            requires
                0 <= frames <= 480,
                channels <= 255,
        ;
        let samples_per_chunk: usize = frames * (channels as usize);
        ChunkLayout {
            clock_rate_hz,
            samples_per_chunk,
            bytes_per_chunk: samples_per_chunk * 2,
            fell_back: packet_duration_ms != 0 && packet_duration_ms != 5 && packet_duration_ms
                != 10,
        }
    }
}

// ---------------------------------------------------------------------------
// Configuring the device
// ---------------------------------------------------------------------------

/// Sets the sample rate.
pub fn sndctl_dsp_speed() -> (request: u64)
    ensures
        request == 0xC004_5002,
{
    proof {
        law_request_parts_do_not_overlap(IOC_INOUT, SOUND_GROUP, 2, 4);
    }
    iowr_int(SOUND_GROUP, 2)
}

/// Sets the sample format.
pub fn sndctl_dsp_setfmt() -> (request: u64)
    ensures
        request == 0xC004_5005,
{
    proof {
        law_request_parts_do_not_overlap(IOC_INOUT, SOUND_GROUP, 5, 4);
    }
    iowr_int(SOUND_GROUP, 5)
}

/// Sets the number of channels.
pub fn sndctl_dsp_channels() -> (request: u64)
    ensures
        request == 0xC004_5006,
{
    proof {
        law_request_parts_do_not_overlap(IOC_INOUT, SOUND_GROUP, 6, 4);
    }
    iowr_int(SOUND_GROUP, 6)
}

/// An in-out int request.
#[derive(Clone, Copy, Debug)]
pub struct IntRequest {
    pub number: u64,
    /// What to ask for.
    pub want: i32,
    /// The request's name in messages.
    pub name: &'static str,
}

/// The requests that make an open device deliver the wire format, in order.
pub fn format_requests(channels: u8) -> (requests: Vec<IntRequest>)
    ensures
        requests@ == seq![
            (IntRequest { number: 0xC004_5005, want: AFMT_S16_LE, name: "SNDCTL_DSP_SETFMT" }),
            (IntRequest { number: 0xC004_5006, want: channels as i32, name: "SNDCTL_DSP_CHANNELS" }),
            (IntRequest {
                number: 0xC004_5002,
                want: CAPTURE_SAMPLE_RATE as i32,
                name: "SNDCTL_DSP_SPEED",
            }),
        ],
{
    vec![
        IntRequest { number: sndctl_dsp_setfmt(), want: AFMT_S16_LE, name: "SNDCTL_DSP_SETFMT" },
        IntRequest {
            number: sndctl_dsp_channels(),
            want: channels as i32,
            name: "SNDCTL_DSP_CHANNELS",
        },
        IntRequest {
            number: sndctl_dsp_speed(),
            want: CAPTURE_SAMPLE_RATE as i32,
            name: "SNDCTL_DSP_SPEED",
        },
    ]
}

/// The numbers that the host's C library has for the ways opening a device fails.
#[derive(Clone, Copy, Debug, PartialEq, Eq, Structural)]
pub struct OpenCodes {
    pub enoent: i32,
    pub enxio: i32,
    pub enodev: i32,
    pub ebusy: i32,
}

/// Why the device could not be opened.
#[derive(Clone, Copy, Debug, PartialEq, Eq, Structural)]
pub enum OpenFailure {
    /// There is no such device: `virtual_oss(8)` is not running.
    Missing,
    /// Another process holds the device.
    Busy,
    Other,
}

/// What an error number of opening the device means.
pub open spec fn open_failure_of(errno: Option<i32>, codes: OpenCodes) -> OpenFailure {
    if errno == Some(codes.enoent) || errno == Some(codes.enxio) || errno == Some(codes.enodev) {
        OpenFailure::Missing
    } else if errno == Some(codes.ebusy) {
        OpenFailure::Busy
    } else {
        OpenFailure::Other
    }
}

/// Tells why the device could not be opened.
pub fn open_failure(errno: Option<i32>, codes: &OpenCodes) -> (failure: OpenFailure)
    ensures
        failure == open_failure_of(errno, *codes),
{
    match errno {
        Some(number) => {
            if number == codes.enoent || number == codes.enxio || number == codes.enodev {
                OpenFailure::Missing
            } else if number == codes.ebusy {
                OpenFailure::Busy
            } else {
                OpenFailure::Other
            }
        },
        None => OpenFailure::Other,
    }
}

/// The message for a device that could not be opened.
pub fn open_message(error: &str) -> (message: String)
    ensures
        message@ == "open(/dev/dsp.loop): "@ + error@,
{
    joined("open(/dev/dsp.loop): ", error)
}

/// Judges the system's answer to an int request: what it returned, the value
/// that the device left behind, and the text of the error if there was one.
/// The request failed if the answer is negative. Otherwise it was granted, and
/// a value that differs from the one asked for is handed back.
pub fn int_request_result(request: &IntRequest, answer: i32, value: i32, error: &str) -> (result:
    Result<Option<i32>, String>)
    ensures
        match result {
            Err(message) => answer < 0 && message@ == request.name@ + " ioctl failed: "@ + error@,
            Ok(coerced) => answer >= 0 && coerced == (if value != request.want {
                Some(value)
            } else {
                None
            }),
        },
{
    if answer < 0 {
        let mut message = joined(request.name, " ioctl failed: ");
        message.append(error);
        Err(message)
    } else if value != request.want {
        Ok(Some(value))
    } else {
        Ok(None)
    }
}

// ---------------------------------------------------------------------------
// Capturing
// ---------------------------------------------------------------------------

/// What the capture waits for.
#[derive(Debug, PartialEq, Eq)]
pub enum CapturePhase {
    /// Whether a shutdown was asked for.
    CheckStop,
    /// The device to become readable.
    Poll,
    /// Bytes of the chunk.
    Read,
    /// A frame to put the samples of a whole chunk into.
    Acquire,
    /// The encoder to take the frame that was had at that time.
    Send { at_ms: u64 },
    /// Nothing: the capture is over.
    Finished,
    /// Nothing: the capture is over, for the reason given.
    Failed(String),
}

/// [`CapturePhase`], as specifications see it.
pub ghost enum PhaseView {
    CheckStop,
    Poll,
    Read,
    Acquire,
    Send { at_ms: u64 },
    Finished,
    Failed(Seq<char>),
}

impl View for CapturePhase {
    type V = PhaseView;

    open spec fn view(&self) -> PhaseView {
        match self {
            CapturePhase::CheckStop => PhaseView::CheckStop,
            CapturePhase::Poll => PhaseView::Poll,
            CapturePhase::Read => PhaseView::Read,
            CapturePhase::Acquire => PhaseView::Acquire,
            CapturePhase::Send { at_ms } => PhaseView::Send { at_ms: *at_ms },
            CapturePhase::Finished => PhaseView::Finished,
            CapturePhase::Failed(message) => PhaseView::Failed(message@),
        }
    }
}

/// What to do next. Every action but the last two is answered by an event.
#[derive(Debug, PartialEq, Eq)]
pub enum CaptureAction {
    /// Look whether a shutdown was asked for.
    CheckStop,
    /// Wait for the device to become readable, for at most [`POLL_TIMEOUT_MS`].
    Poll,
    /// Read at most that many bytes of what the device has, without waiting for
    /// more.
    Read { max: usize },
    /// Take a used frame back from the encoder, or make a new one.
    Acquire,
    /// Offer a frame to the encoder.
    Send(AudioFrame),
    /// End the capture.
    Finish,
    /// End the capture with an error.
    Fail(String),
}

impl CaptureAction {
    /// The reason with which the action ends the session, if it does: a session
    /// does not outlive its capture.
    pub fn shutdown_reason(&self) -> (reason: Option<SessionShutdownReason>)
        ensures
            reason == (if self is Finish || self is Fail {
                Some(SessionShutdownReason::PulseServerStopped)
            } else {
                None
            }),
    {
        match self {
            CaptureAction::Finish => Some(SessionShutdownReason::PulseServerStopped),
            CaptureAction::Fail(_) => Some(SessionShutdownReason::PulseServerStopped),
            _ => None,
        }
    }
}

/// How an action went.
#[derive(Debug, PartialEq, Eq)]
pub enum CaptureEvent {
    /// Whether a shutdown was asked for.
    Stop(bool),
    /// Waiting failed.
    PollFailed { failure: IoFailure, error: String },
    /// Nothing happened in time.
    PollTimedOut,
    /// Something happened: the device's events, and the bit among them that
    /// says that there is something to read.
    PollReady { events: i16, readable: i16 },
    /// Reading failed.
    ReadFailed { failure: IoFailure, error: String },
    /// The other side closed the loopback.
    ReadEnd,
    /// Some bytes were read.
    ReadBytes(Vec<u8>),
    /// There is a frame, had that many milliseconds after the process started.
    Acquired { at_ms: u64 },
    /// The encoder hands no frames back any more.
    AcquireDisconnected,
    /// The encoder took the frame.
    Sent,
    /// The encoder is behind, and the frame was dropped.
    SendFull,
    /// The encoder takes no frames any more.
    SendDisconnected,
}

/// [`CaptureEvent`], as specifications see it.
pub ghost enum EventView {
    Stop(bool),
    PollFailed { failure: IoFailure, error: Seq<char> },
    PollTimedOut,
    PollReady { events: i16, readable: i16 },
    ReadFailed { failure: IoFailure, error: Seq<char> },
    ReadEnd,
    ReadBytes(Seq<u8>),
    Acquired { at_ms: u64 },
    AcquireDisconnected,
    Sent,
    SendFull,
    SendDisconnected,
}

impl View for CaptureEvent {
    type V = EventView;

    open spec fn view(&self) -> EventView {
        match self {
            CaptureEvent::Stop(asked) => EventView::Stop(*asked),
            CaptureEvent::PollFailed { failure, error } => EventView::PollFailed {
                failure: *failure,
                error: error@,
            },
            CaptureEvent::PollTimedOut => EventView::PollTimedOut,
            CaptureEvent::PollReady { events, readable } => EventView::PollReady {
                events: *events,
                readable: *readable,
            },
            CaptureEvent::ReadFailed { failure, error } => EventView::ReadFailed {
                failure: *failure,
                error: error@,
            },
            CaptureEvent::ReadEnd => EventView::ReadEnd,
            CaptureEvent::ReadBytes(bytes) => EventView::ReadBytes(bytes@),
            CaptureEvent::Acquired { at_ms } => EventView::Acquired { at_ms: *at_ms },
            CaptureEvent::AcquireDisconnected => EventView::AcquireDisconnected,
            CaptureEvent::Sent => EventView::Sent,
            CaptureEvent::SendFull => EventView::SendFull,
            CaptureEvent::SendDisconnected => EventView::SendDisconnected,
        }
    }
}

/// What is worth telling about dropped frames.
#[derive(Clone, Copy, Debug, PartialEq, Eq, Structural)]
pub enum DropNote {
    /// The encoder has stopped taking frames.
    Started,
    /// The encoder takes frames again, after so many were dropped.
    Ended(u32),
}

/// A capture, as specifications see it.
pub ghost struct CaptureView {
    /// Bytes in a chunk.
    pub chunk: nat,
    /// The bytes of the chunk that were read so far.
    pub pending: Seq<u8>,
    /// Frames dropped since the encoder last took one.
    pub drop_streak: u32,
    pub phase: PhaseView,
}

/// The message for a failure to wait.
pub open spec fn poll_message(error: Seq<char>) -> Seq<char> {
    "poll(/dev/dsp.loop): "@ + error
}

/// The message for a device that has gone.
pub open spec fn events_message(events: i16) -> Seq<char> {
    "poll revents=0x"@ + written(word16(events) as nat, 16) + " on /dev/dsp.loop"@
}

/// The message for a failure to read.
pub open spec fn read_message(error: Seq<char>) -> Seq<char> {
    "read(/dev/dsp.loop): "@ + error
}

impl CaptureView {
    /// How a capture begins.
    pub open spec fn start(chunk: nat) -> CaptureView {
        CaptureView { chunk, pending: Seq::empty(), drop_streak: 0, phase: PhaseView::CheckStop }
    }

    /// At most a chunk is pending. It is whole where a frame is made of it, and
    /// never where the device is waited for, unless a chunk holds nothing.
    pub open spec fn wf(self) -> bool {
        match self.phase {
            PhaseView::Poll => self.pending.len() < self.chunk || self.pending.len() == self.chunk
                == 0,
            PhaseView::Read => self.pending.len() < self.chunk,
            PhaseView::Acquire | PhaseView::Send { .. } => self.pending.len() == self.chunk,
            _ => self.pending.len() <= self.chunk,
        }
    }

    /// Whether a chunk was read whole.
    pub open spec fn is_whole(self) -> bool {
        0 < self.chunk == self.pending.len()
    }

    /// The same capture, waiting for something else.
    pub open spec fn at(self, phase: PhaseView) -> CaptureView {
        CaptureView { phase, ..self }
    }

    /// The capture without the bytes that were pending, about to look for a
    /// shutdown and wait again.
    pub open spec fn cleared(self) -> CaptureView {
        CaptureView { pending: Seq::empty(), phase: PhaseView::CheckStop, ..self }
    }

    /// Whether the event answers what the capture waits for.
    pub open spec fn awaits(self, event: EventView) -> bool {
        match event {
            EventView::Stop(_) => self.phase is CheckStop,
            EventView::PollFailed { .. } | EventView::PollTimedOut | EventView::PollReady {
                ..
            } => self.phase is Poll,
            EventView::ReadFailed { .. } | EventView::ReadEnd => self.phase is Read,
            EventView::ReadBytes(bytes) => self.phase is Read && 0 < bytes.len() <= self.chunk
                - self.pending.len(),
            EventView::Acquired { .. } | EventView::AcquireDisconnected => self.phase is Acquire,
            EventView::Sent | EventView::SendFull | EventView::SendDisconnected => self.phase
                is Send,
        }
    }

    /// The capture after an event that it waited for. Bytes stay pending across
    /// any number of waits until the chunk is whole. A device that has gone is an
    /// error only between chunks: inside one, reading on tells how it ended.
    pub open spec fn after(self, event: EventView) -> CaptureView {
        match event {
            EventView::Stop(asked) => self.at(
                if asked {
                    PhaseView::Finished
                } else if self.is_whole() {
                    PhaseView::Acquire
                } else {
                    PhaseView::Poll
                },
            ),
            EventView::PollFailed { failure, error } => if failure is Interrupted {
                self.at(PhaseView::CheckStop)
            } else {
                self.at(PhaseView::Failed(poll_message(error)))
            },
            EventView::PollTimedOut => self.at(PhaseView::CheckStop),
            EventView::PollReady { events, readable } => self.at(
                if events & readable == 0 && self.pending.len() == 0 {
                    PhaseView::Failed(events_message(events))
                } else if self.pending.len() < self.chunk {
                    PhaseView::Read
                } else {
                    PhaseView::Acquire
                },
            ),
            EventView::ReadFailed { failure, error } => match failure {
                IoFailure::Interrupted => self.at(PhaseView::CheckStop),
                IoFailure::WouldBlock => self.cleared(),
                IoFailure::Other => self.at(PhaseView::Failed(read_message(error))),
            },
            EventView::ReadEnd => self.at(PhaseView::Finished),
            EventView::ReadBytes(bytes) => CaptureView {
                pending: self.pending + bytes,
                phase: PhaseView::CheckStop,
                ..self
            },
            EventView::Acquired { at_ms } => self.at(PhaseView::Send { at_ms }),
            EventView::AcquireDisconnected => self.at(PhaseView::Finished),
            EventView::Sent => CaptureView { drop_streak: 0, ..self.cleared() },
            EventView::SendFull => CaptureView {
                drop_streak: if self.drop_streak < u32::MAX {
                    (self.drop_streak + 1) as u32
                } else {
                    u32::MAX
                },
                ..self.cleared()
            },
            EventView::SendDisconnected => self.cleared().at(PhaseView::Finished),
        }
    }

    /// What the event gives to tell about dropped frames.
    pub open spec fn note(self, event: EventView) -> Option<DropNote> {
        match event {
            EventView::Sent => if self.drop_streak > 0 {
                Some(DropNote::Ended(self.drop_streak))
            } else {
                None
            },
            EventView::SendFull => if self.drop_streak == 0 {
                Some(DropNote::Started)
            } else {
                None
            },
            _ => None,
        }
    }
}

/// A running capture.
#[derive(Debug)]
pub struct OssCapture {
    chunk: usize,
    pending: Vec<u8>,
    drop_streak: u32,
    phase: CapturePhase,
}

impl View for OssCapture {
    type V = CaptureView;

    closed spec fn view(&self) -> CaptureView {
        CaptureView {
            chunk: self.chunk as nat,
            pending: self.pending@,
            drop_streak: self.drop_streak,
            phase: self.phase@,
        }
    }
}

impl OssCapture {
    /// Begins a capture.
    pub fn new(layout: &ChunkLayout) -> (capture: OssCapture)
        ensures
            capture@ == CaptureView::start(layout.bytes_per_chunk as nat),
            capture@.wf(),
    {
        OssCapture {
            chunk: layout.bytes_per_chunk,
            pending: Vec::new(),
            drop_streak: 0,
            phase: CapturePhase::CheckStop,
        }
    }

    /// Says what to do next.
    pub fn action(&self) -> (action: CaptureAction)
        requires
            self@.wf(),
        ensures
            match self@.phase {
                PhaseView::CheckStop => action is CheckStop,
                PhaseView::Poll => action is Poll,
                PhaseView::Read => action matches CaptureAction::Read { max } && max == self@.chunk
                    - self@.pending.len(),
                PhaseView::Acquire => action is Acquire,
                PhaseView::Send { at_ms } => action matches CaptureAction::Send(frame)
                    && is_frame_of(frame.buf@, self@.pending) && frame.capture_ts_ms == at_ms,
                PhaseView::Finished => action is Finish,
                PhaseView::Failed(message) => action matches CaptureAction::Fail(text) && text@
                    == message,
            },
    {
        match &self.phase {
            CapturePhase::CheckStop => CaptureAction::CheckStop,
            CapturePhase::Poll => CaptureAction::Poll,
            CapturePhase::Read => CaptureAction::Read { max: self.chunk - self.pending.len() },
            CapturePhase::Acquire => CaptureAction::Acquire,
            CapturePhase::Send { at_ms } => CaptureAction::Send(
                AudioFrame {
                    buf: decode_samples(self.pending.as_slice()),
                    capture_ts_ms: *at_ms,
                },
            ),
            CapturePhase::Finished => CaptureAction::Finish,
            CapturePhase::Failed(message) => CaptureAction::Fail(message.clone()),
        }
    }

    /// Gives up what is pending, to look for a shutdown and wait again.
    fn clear(&mut self)
        ensures
            final(self)@ == old(self)@.cleared(),
    {
        self.pending.clear();
        self.phase = CapturePhase::CheckStop;
    }

    /// Takes note of how the last action went.
    pub fn report(&mut self, event: CaptureEvent) -> (note: Option<DropNote>)
        requires
            old(self)@.wf(),
            old(self)@.awaits(event@),
        ensures
            final(self)@ == old(self)@.after(event@),
            final(self)@.wf(),
            note == old(self)@.note(event@),
    {
        let mut note: Option<DropNote> = None;
        match event {
            CaptureEvent::Stop(asked) => {
                self.phase = if asked {
                    CapturePhase::Finished
                } else if self.chunk > 0 && self.pending.len() == self.chunk {
                    CapturePhase::Acquire
                } else {
                    CapturePhase::Poll
                };
            },
            CaptureEvent::PollFailed { failure, error } => {
                if failure == IoFailure::Interrupted {
                    self.phase = CapturePhase::CheckStop;
                } else {
                    self.phase = CapturePhase::Failed(joined("poll(/dev/dsp.loop): ", &error));
                }
            },
            CaptureEvent::PollTimedOut => {
                self.phase = CapturePhase::CheckStop;
            },
            CaptureEvent::PollReady { events, readable } => {
                if events & readable == 0 && self.pending.len() == 0 {
                    assert(events >= 0 ==> (events as u16) == events) by (bit_vector);
                    assert(events < 0 ==> (events as u16) == events + 0x1_0000) by (bit_vector);
                    let digits = hexadecimal((events as u16) as u32);
                    let mut message = joined("poll revents=0x", &digits);
                    message.append(" on /dev/dsp.loop");
                    self.phase = CapturePhase::Failed(message);
                } else if self.pending.len() < self.chunk {
                    self.phase = CapturePhase::Read;
                } else {
                    self.phase = CapturePhase::Acquire;
                }
            },
            CaptureEvent::ReadFailed { failure, error } => {
                match failure {
                    IoFailure::Interrupted => {
                        self.phase = CapturePhase::CheckStop;
                    },
                    IoFailure::WouldBlock => {
                        self.clear();
                    },
                    IoFailure::Other => {
                        self.phase = CapturePhase::Failed(joined("read(/dev/dsp.loop): ", &error));
                    },
                }
            },
            CaptureEvent::ReadEnd => {
                self.phase = CapturePhase::Finished;
            },
            CaptureEvent::ReadBytes(bytes) => {
                let mut bytes = bytes;
                self.pending.append(&mut bytes);
                self.phase = CapturePhase::CheckStop;
            },
            CaptureEvent::Acquired { at_ms } => {
                self.phase = CapturePhase::Send { at_ms };
            },
            CaptureEvent::AcquireDisconnected => {
                self.phase = CapturePhase::Finished;
            },
            CaptureEvent::Sent => {
                if self.drop_streak > 0 {
                    note = Some(DropNote::Ended(self.drop_streak));
                    self.drop_streak = 0;
                }
                self.clear();
            },
            CaptureEvent::SendFull => {
                if self.drop_streak == 0 {
                    note = Some(DropNote::Started);
                }
                self.drop_streak = self.drop_streak.saturating_add(1);
                self.clear();
            },
            CaptureEvent::SendDisconnected => {
                self.clear();
                self.phase = CapturePhase::Finished;
            },
        }
        note
    }
}

} // verus!
