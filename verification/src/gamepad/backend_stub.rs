//! The gamepad of a platform without a virtual device: everything it is told is
//! dropped.

use crate::gamepad::{GamepadBattery, GamepadInfo, GamepadMotion, GamepadTouch, GamepadUpdate};
use crate::text::{decimal, law_written_numbers_read_back, worth, written};
use vstd::prelude::*;

verus! {

/// What is said when a gamepad is asked for.
pub open spec fn refusal(index: u8) -> Seq<char> {
    "Gamepad "@ + written(index as nat, 10)
        + " requested, but virtual-gamepad injection is not implemented on this platform; events will be dropped."@
}

/// What is said of something that was dropped.
pub open spec fn drop_warning(index: u8, what: Seq<char>) -> Seq<char> {
    "Dropping gamepad "@ + written(index as nat, 10) + " "@ + what
        + ": no virtual-gamepad backend on this platform."@
}

/// A gamepad that does nothing.
#[derive(Debug, PartialEq, Eq)]
pub struct Gamepad {
    pub index: u8,
    /// Whether the one warning of this gamepad was given, so that an active
    /// session does not flood the log.
    pub warned: bool,
}

impl Gamepad {
    /// The gamepad together with what is to be said about it. That is its one
    /// warning, so it gives no other.
    pub fn new(info: &GamepadInfo) -> (made: (Gamepad, String))
        ensures
            made.0 == (Gamepad { index: info.index, warned: true }),
            made.1@ == refusal(info.index),
    {
        let mut text = "Gamepad ".to_owned();
        text.append(decimal(info.index as u64).as_str());
        text.append(
            " requested, but virtual-gamepad injection is not implemented on this platform; events will be dropped.",
        );
        (Gamepad { index: info.index, warned: true }, text)
    }

    /// What dropping something does: the first time a warning is given, later
    /// nothing.
    pub open spec fn drops(self, after: Gamepad, what: Seq<char>, warning: Option<String>) -> bool {
        &&& after == (Gamepad { index: self.index, warned: true })
        &&& warning is Some <==> !self.warned
        &&& warning matches Some(text) ==> text@ == drop_warning(self.index, what)
    }

    /// The warning about something that was dropped, unless one was given before.
    pub fn warn_once(&mut self, what: &str) -> (warning: Option<String>)
        ensures
            old(self).drops(*final(self), what@, warning),
    {
        if self.warned {
            return None;
        }
        self.warned = true;
        let mut text = "Dropping gamepad ".to_owned();
        text.append(decimal(self.index as u64).as_str());
        text.append(" ");
        text.append(what);
        text.append(": no virtual-gamepad backend on this platform.");
        Some(text)
    }

    /// Drops the buttons.
    pub fn set_pressed(&mut self, _button_flags: u32) -> (warning: Option<String>)
        ensures
            old(self).drops(*final(self), "button state"@, warning),
    {
        self.warn_once("button state")
    }

    /// Drops sticks and triggers.
    pub fn apply_update(&mut self, _update: &GamepadUpdate) -> (warning: Option<String>)
        ensures
            old(self).drops(*final(self), "stick/trigger update"@, warning),
    {
        self.warn_once("stick/trigger update")
    }

    /// Drops a touchpad event.
    pub fn touch(&mut self, _touch: &GamepadTouch) -> (warning: Option<String>)
        ensures
            old(self).drops(*final(self), "touchpad event"@, warning),
    {
        self.warn_once("touchpad event")
    }

    /// Drops a motion event.
    pub fn set_motion(&mut self, _motion: &GamepadMotion) -> (warning: Option<String>)
        ensures
            old(self).drops(*final(self), "motion event"@, warning),
    {
        self.warn_once("motion event")
    }

    /// Drops a battery report.
    pub fn set_battery(&mut self, _gamepad_battery: &GamepadBattery) -> (warning: Option<String>)
        ensures
            old(self).drops(*final(self), "battery report"@, warning),
    {
        self.warn_once("battery report")
    }
}

/// Once a gamepad was announced it stays silent: whatever it drops, no warning
/// follows, and it stays as it is.
pub proof fn law_announced_gamepad_is_silent(
    info: GamepadInfo,
    after: Gamepad,
    what: Seq<char>,
    warning: Option<String>,
)
    requires
        (Gamepad { index: info.index, warned: true }).drops(after, what, warning),
    ensures
        warning is None,
        after == (Gamepad { index: info.index, warned: true }),
{
}

/// What a gamepad says names it by its number, and says what was dropped.
pub proof fn law_warnings_name_the_gamepad(index: u8, what: Seq<char>)
    ensures
        ({
            let digits = written(index as nat, 10);
            &&& worth(digits, 10) == index
            &&& refusal(index) == "Gamepad "@ + digits
                + " requested, but virtual-gamepad injection is not implemented on this platform; events will be dropped."@
            &&& drop_warning(index, what) == "Dropping gamepad "@ + digits + " "@ + what
                + ": no virtual-gamepad backend on this platform."@
        }),
{
    law_written_numbers_read_back(index as nat, 10);
}

/// A gamepad warns of the first thing it drops and of nothing after it, and
/// keeps its number.
pub proof fn law_the_first_drop_is_warned_of(
    first: Gamepad,
    second: Gamepad,
    third: Gamepad,
    what: Seq<char>,
    other: Seq<char>,
    warning: Option<String>,
    later: Option<String>,
)
    requires
        !first.warned,
        first.drops(second, what, warning),
        second.drops(third, other, later),
    ensures
        warning matches Some(text) && text@ == drop_warning(first.index, what),
        later is None,
        third.index == first.index && third.warned,
{
}

} // verus!
