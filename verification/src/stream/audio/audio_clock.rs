//! The periodic clock that paces audio frames.
//!
//! On Linux the clock is a kernel timer. Elsewhere a helper thread sleeps and
//! writes one byte per tick into a pipe, whose read end wakes the reader. The
//! reader drains the clock after each wakeup.

use crate::errno::IoFailure;
use vstd::prelude::*;

verus! {

/// What came of reading the clock once.
#[derive(Clone, Copy, Debug, PartialEq, Eq, Structural)]
pub enum ClockRead {
    /// That many bytes or expirations were there.
    Got(u64),
    Failed(IoFailure),
}

/// How draining goes on.
#[derive(Clone, Copy, Debug, PartialEq, Eq, Structural)]
pub enum Drain {
    /// Read once more.
    Again,
    /// The clock is drained.
    Done,
    /// The clock has failed.
    Failed,
}

/// How draining a timer goes on after a read.
pub open spec fn timer_after(read: ClockRead) -> Drain {
    match read {
        ClockRead::Got(_) => Drain::Done,
        ClockRead::Failed(IoFailure::WouldBlock) => Drain::Done,
        ClockRead::Failed(_) => Drain::Failed,
    }
}

/// Judges a read of a timer. One read takes all expirations. A wakeup can race
/// its own drain and find none left, which is no failure: the tick is skipped.
pub fn timer_drain(read: ClockRead) -> (drain: Drain)
    ensures
        drain == timer_after(read),
{
    match read {
        ClockRead::Got(_) => Drain::Done,
        ClockRead::Failed(IoFailure::WouldBlock) => Drain::Done,
        ClockRead::Failed(_) => Drain::Failed,
    }
}

/// How draining a pipe goes on after a read.
pub open spec fn pipe_after(read: ClockRead) -> Drain {
    match read {
        ClockRead::Got(count) => if count > 0 {
            Drain::Again
        } else {
            Drain::Done
        },
        ClockRead::Failed(IoFailure::WouldBlock) => Drain::Done,
        ClockRead::Failed(IoFailure::Interrupted) => Drain::Again,
        ClockRead::Failed(IoFailure::Other) => Drain::Failed,
    }
}

/// Judges a read of a pipe, which is read until nothing is left.
pub fn pipe_drain(read: ClockRead) -> (drain: Drain)
    ensures
        drain == pipe_after(read),
{
    match read {
        ClockRead::Got(count) => {
            if count > 0 {
                Drain::Again
            } else {
                Drain::Done
            }
        },
        ClockRead::Failed(IoFailure::WouldBlock) => Drain::Done,
        ClockRead::Failed(IoFailure::Interrupted) => Drain::Again,
        ClockRead::Failed(IoFailure::Other) => Drain::Failed,
    }
}

/// What the helper thread does next.
#[derive(Clone, Copy, Debug, PartialEq, Eq, Structural)]
pub enum TickerAction {
    /// Look whether the clock was dropped.
    CheckStop,
    /// Sleep for the interval.
    Sleep,
    /// Write a byte.
    Write,
    /// Close the write end and end.
    Close,
}

/// What happened to the helper thread.
#[derive(Clone, Copy, Debug, PartialEq, Eq, Structural)]
pub enum TickerEvent {
    /// Whether the clock was dropped.
    Stop(bool),
    /// The interval has passed.
    Slept,
    /// The byte was written.
    Written,
    /// The byte was not written.
    WriteFailed(IoFailure),
}

/// What the helper thread does after an event.
pub open spec fn ticker_after(event: TickerEvent) -> TickerAction {
    match event {
        TickerEvent::Stop(dropped) => if dropped {
            TickerAction::Close
        } else {
            TickerAction::Sleep
        },
        TickerEvent::Slept => TickerAction::Write,
        TickerEvent::Written => TickerAction::CheckStop,
        TickerEvent::WriteFailed(failure) => if failure is WouldBlock {
            TickerAction::CheckStop
        } else {
            TickerAction::Close
        },
    }
}

/// Says what the helper thread does next. A pipe that is full only means that
/// the reader is behind already, so the missed byte does not matter; any other
/// failure ends the thread.
pub fn ticker_next(event: TickerEvent) -> (action: TickerAction)
    ensures
        action == ticker_after(event),
{
    match event {
        TickerEvent::Stop(dropped) => {
            if dropped {
                TickerAction::Close
            } else {
                TickerAction::Sleep
            }
        },
        TickerEvent::Slept => TickerAction::Write,
        TickerEvent::Written => TickerAction::CheckStop,
        TickerEvent::WriteFailed(IoFailure::WouldBlock) => TickerAction::CheckStop,
        TickerEvent::WriteFailed(_) => TickerAction::Close,
    }
}

/// No tick comes before its interval: a byte is written only directly after a
/// sleep, and every sleep follows a look whether the clock was dropped.
pub proof fn law_a_tick_follows_its_interval(event: TickerEvent)
    ensures
        ticker_after(event) is Write <==> event is Slept,
        ticker_after(event) is Sleep <==> event == TickerEvent::Stop(false),
        event is Written ==> ticker_after(event) is CheckStop,
{
}

/// Finding the clock empty is no failure, on either kind of clock.
pub proof fn law_an_empty_drain_succeeds()
    ensures
        timer_after(ClockRead::Failed(IoFailure::WouldBlock)) is Done,
        pipe_after(ClockRead::Failed(IoFailure::WouldBlock)) is Done,
{
}

/// Whether draining a pipe took exactly those reads: every one but the last
/// called for another.
pub open spec fn drains(reads: Seq<ClockRead>) -> bool {
    &&& reads.len() > 0
    &&& pipe_after(reads.last()) !is Again
    &&& forall|i: int| 0 <= i < reads.len() - 1 ==> pipe_after(#[trigger] reads[i]) is Again
}

/// A pipe is drained to the end: the drain stops only where nothing was left or
/// reading failed for good, and no bytes were left unread for a signal.
pub proof fn law_a_pipe_is_drained_to_the_end(reads: Seq<ClockRead>)
    requires
        drains(reads),
    ensures
        reads.last() == ClockRead::Got(0) || reads.last() == ClockRead::Failed(
            IoFailure::WouldBlock,
        ) || reads.last() == ClockRead::Failed(IoFailure::Other),
        pipe_after(reads.last()) is Failed <==> reads.contains(ClockRead::Failed(IoFailure::Other)),
{
    if reads.contains(ClockRead::Failed(IoFailure::Other)) {
        let i = choose|i: int|
            0 <= i < reads.len() && reads[i] == ClockRead::Failed(IoFailure::Other);
        if i < reads.len() - 1 {
            assert(pipe_after(reads[i]) is Again);
        }
    }
}

/// A timer is drained by one read. Only a failure other than finding nothing is a
/// failure of the clock.
pub proof fn law_a_timer_is_drained_by_one_read(read: ClockRead)
    ensures
        !(timer_after(read) is Again),
        timer_after(read) is Failed <==> read == ClockRead::Failed(IoFailure::Interrupted) || read
            == ClockRead::Failed(IoFailure::Other),
{
}

/// The helper thread ends when the clock was dropped, or when its pipe has failed
/// other than by being full. Otherwise it goes on.
pub proof fn law_the_ticker_ends_for_a_reason(event: TickerEvent)
    ensures
        ticker_after(event) is Close <==> event == TickerEvent::Stop(true) || event
            == TickerEvent::WriteFailed(IoFailure::Interrupted) || event
            == TickerEvent::WriteFailed(IoFailure::Other),
        ticker_after(event) is CheckStop <==> event is Written || event
            == TickerEvent::WriteFailed(IoFailure::WouldBlock),
{
}

/// Every read of a pipe that gave something, or that a signal cut short, is
/// followed by another; nothing else is.
pub proof fn law_a_pipe_is_read_again(read: ClockRead)
    ensures
        pipe_after(read) is Again <==> read == ClockRead::Failed(IoFailure::Interrupted) || (
        read matches ClockRead::Got(count) && count > 0),
        pipe_after(read) is Failed <==> read == ClockRead::Failed(IoFailure::Other),
{
}

} // verus!
