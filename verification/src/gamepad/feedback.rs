//! What the host tells the client's gamepad to do.

use vstd::prelude::*;

verus! {

/// Sets the colour of the gamepad's light.
#[derive(Clone, Copy, Debug, PartialEq, Eq)]
pub struct SetLedCommand {
    pub id: u16,
    pub rgb: (u8, u8, u8),
}

/// Changes the resistance of the gamepad's triggers.
#[derive(Clone, Copy, Debug, PartialEq, Eq)]
pub struct TriggerEffectCommand {
    pub id: u16,
    pub trigger_event_flags: u8,
    pub type_left: u8,
    pub type_right: u8,
    pub left: [u8; 10],
    pub right: [u8; 10],
}

/// Asks the client to report a motion sensor.
#[derive(Clone, Copy, Debug, PartialEq, Eq)]
pub struct EnableMotionEventCommand {
    pub id: u16,
    pub report_rate: u16,
    pub motion_type: u8,
}

/// Runs the gamepad's rumble motors.
#[derive(Clone, Copy, Debug, PartialEq, Eq)]
pub struct RumbleCommand {
    pub id: u16,
    pub low_frequency: u16,
    pub high_frequency: u16,
}

/// A command to the client's gamepad.
#[derive(Clone, Copy, Debug, PartialEq, Eq)]
pub enum FeedbackCommand {
    SetLed(SetLedCommand),
    TriggerEffect(TriggerEffectCommand),
    EnableMotionEvent(EnableMotionEventCommand),
    Rumble(RumbleCommand),
}

} // verus!
