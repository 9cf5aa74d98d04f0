//! Why packets of the client are refused, in words.

use crate::gamepad::{
    BatteryState, GamepadBattery, GamepadInfo, GamepadKind, GamepadMotion, GamepadTouch,
    GamepadUpdate, MotionType, GAMEPAD_BATTERY_SIZE, GAMEPAD_INFO_SIZE, GAMEPAD_MOTION_SIZE,
    GAMEPAD_TOUCH_SIZE, GAMEPAD_UPDATE_SIZE,
};
use crate::text::{decimal, joined, optional_text, written};
use vstd::prelude::*;

verus! {

/// What is said of a packet that is too short.
pub open spec fn too_short(packet: Seq<char>, expected: nat, got: nat) -> Seq<char> {
    "Expected at least "@ + written(expected, 10) + " bytes for "@ + packet + ", got "@ + written(
        got,
        10,
    ) + " bytes."@
}

/// What is said of a number that names nothing.
pub open spec fn unknown(what: Seq<char>, value: u8) -> Seq<char> {
    "Unknown "@ + what + ": "@ + written(value as nat, 10)
}

/// What is said of a packet, if it is refused: that it is too short, or that the
/// number in its second byte names nothing.
pub open spec fn refusal(
    buffer: Seq<u8>,
    packet: Seq<char>,
    size: nat,
    what: Seq<char>,
    known: bool,
) -> Option<Seq<char>> {
    if buffer.len() < size {
        Some(too_short(packet, size, buffer.len()))
    } else if !known {
        Some(unknown(what, buffer[1]))
    } else {
        None
    }
}

/// What is said of an arrival packet, if it is refused.
pub open spec fn info_refusal_text(buffer: Seq<u8>) -> Option<Seq<char>> {
    refusal(
        buffer,
        "GamepadInfo"@,
        GAMEPAD_INFO_SIZE as nat,
        "gamepad kind"@,
        GamepadKind::of(buffer[1]) is Some,
    )
}

/// What is said of a touchpad packet, if it is refused.
pub open spec fn touch_refusal_text(buffer: Seq<u8>) -> Option<Seq<char>> {
    refusal(buffer, "GamepadTouch"@, GAMEPAD_TOUCH_SIZE as nat, Seq::empty(), true)
}

/// What is said of an input packet, if it is refused.
pub open spec fn update_refusal_text(buffer: Seq<u8>) -> Option<Seq<char>> {
    refusal(buffer, "GamepadUpdate"@, GAMEPAD_UPDATE_SIZE as nat, Seq::empty(), true)
}

/// What is said of a motion packet, if it is refused.
pub open spec fn motion_refusal_text(buffer: Seq<u8>) -> Option<Seq<char>> {
    refusal(
        buffer,
        "GamepadMotion"@,
        GAMEPAD_MOTION_SIZE as nat,
        "gamepad motion type"@,
        MotionType::of(buffer[1]) is Some,
    )
}

/// What is said of a battery packet, if it is refused.
pub open spec fn battery_refusal_text(buffer: Seq<u8>) -> Option<Seq<char>> {
    refusal(
        buffer,
        "GamepadBattery"@,
        GAMEPAD_BATTERY_SIZE as nat,
        "battery state"@,
        BatteryState::of(buffer[1]) is Some,
    )
}

fn too_short_text(packet: &str, expected: usize, got: usize) -> (text: String)
    ensures
        text@ == too_short(packet@, expected as nat, got as nat),
{
    let mut text = joined("Expected at least ", decimal(expected as u64).as_str());
    text.append(" bytes for ");
    text.append(packet);
    text.append(", got ");
    text.append(decimal(got as u64).as_str());
    text.append(" bytes.");
    text
}

fn unknown_text(what: &str, value: u8) -> (text: String)
    ensures
        text@ == unknown(what@, value),
{
    let mut text = joined("Unknown ", what);
    text.append(": ");
    text.append(decimal(value as u64).as_str());
    text
}

/// Says why an arrival packet is refused, if it is.
pub fn info_refusal(buffer: &[u8]) -> (text: Option<String>)
    ensures
        optional_text(text) == info_refusal_text(buffer@),
{
    if buffer.len() < GAMEPAD_INFO_SIZE {
        Some(too_short_text("GamepadInfo", GAMEPAD_INFO_SIZE, buffer.len()))
    } else if GamepadKind::from_repr(buffer[1]).is_none() {
        Some(unknown_text("gamepad kind", buffer[1]))
    } else {
        None
    }
}

/// Says why a touchpad packet is refused, if it is.
pub fn touch_refusal(buffer: &[u8]) -> (text: Option<String>)
    ensures
        optional_text(text) == touch_refusal_text(buffer@),
{
    if buffer.len() < GAMEPAD_TOUCH_SIZE {
        Some(too_short_text("GamepadTouch", GAMEPAD_TOUCH_SIZE, buffer.len()))
    } else {
        None
    }
}

/// Says why an input packet is refused, if it is.
pub fn update_refusal(buffer: &[u8]) -> (text: Option<String>)
    ensures
        optional_text(text) == update_refusal_text(buffer@),
{
    if buffer.len() < GAMEPAD_UPDATE_SIZE {
        Some(too_short_text("GamepadUpdate", GAMEPAD_UPDATE_SIZE, buffer.len()))
    } else {
        None
    }
}

/// Says why a motion packet is refused, if it is.
pub fn motion_refusal(buffer: &[u8]) -> (text: Option<String>)
    ensures
        optional_text(text) == motion_refusal_text(buffer@),
{
    if buffer.len() < GAMEPAD_MOTION_SIZE {
        Some(too_short_text("GamepadMotion", GAMEPAD_MOTION_SIZE, buffer.len()))
    } else if MotionType::from_repr(buffer[1]).is_none() {
        Some(unknown_text("gamepad motion type", buffer[1]))
    } else {
        None
    }
}

/// Says why a battery packet is refused, if it is.
pub fn battery_refusal(buffer: &[u8]) -> (text: Option<String>)
    ensures
        optional_text(text) == battery_refusal_text(buffer@),
{
    if buffer.len() < GAMEPAD_BATTERY_SIZE {
        Some(too_short_text("GamepadBattery", GAMEPAD_BATTERY_SIZE, buffer.len()))
    } else if BatteryState::from_repr(buffer[1]).is_none() {
        Some(unknown_text("battery state", buffer[1]))
    } else {
        None
    }
}

/// There is something to say of a packet exactly when it is refused.
pub proof fn law_refused_packets_are_told_of(buffer: Seq<u8>)
    ensures
        info_refusal_text(buffer) is Some <==> GamepadInfo::parse(buffer) is Err,
        touch_refusal_text(buffer) is Some <==> GamepadTouch::parse(buffer) is Err,
        update_refusal_text(buffer) is Some <==> GamepadUpdate::parse(buffer) is Err,
        motion_refusal_text(buffer) is Some <==> GamepadMotion::parse(buffer) is Err,
        battery_refusal_text(buffer) is Some <==> GamepadBattery::parse(buffer) is Err,
{
}

/// What is said of a refused packet names it, the size it should have and the
/// size it has, or the number that names nothing.
pub proof fn law_refusals_say_what_is_wrong(buffer: Seq<u8>)
    ensures
        ({
            let got = ", got "@ + written(buffer.len(), 10) + " bytes."@;
            let value = written(buffer[1] as nat, 10);
            &&& buffer.len() < 8 ==> info_refusal_text(buffer) == Some(
                "Expected at least "@ + written(8, 10) + " bytes for "@ + "GamepadInfo"@ + got,
            )
            &&& buffer.len() >= 8 && buffer[1] > 3 ==> info_refusal_text(buffer) == Some(
                "Unknown "@ + "gamepad kind"@ + ": "@ + value,
            )
            &&& buffer.len() < 20 ==> touch_refusal_text(buffer) == Some(
                "Expected at least "@ + written(20, 10) + " bytes for "@ + "GamepadTouch"@ + got,
            )
            &&& buffer.len() < 26 ==> update_refusal_text(buffer) == Some(
                "Expected at least "@ + written(26, 10) + " bytes for "@ + "GamepadUpdate"@ + got,
            )
            &&& buffer.len() < 16 ==> motion_refusal_text(buffer) == Some(
                "Expected at least "@ + written(16, 10) + " bytes for "@ + "GamepadMotion"@ + got,
            )
            &&& buffer.len() >= 16 && (buffer[1] == 0 || buffer[1] > 2) ==> motion_refusal_text(
                buffer,
            ) == Some("Unknown "@ + "gamepad motion type"@ + ": "@ + value)
            &&& buffer.len() < 4 ==> battery_refusal_text(buffer) == Some(
                "Expected at least "@ + written(4, 10) + " bytes for "@ + "GamepadBattery"@ + got,
            )
            &&& buffer.len() >= 4 && 5 < buffer[1] < 255 ==> battery_refusal_text(buffer) == Some(
                "Unknown "@ + "battery state"@ + ": "@ + value,
            )
        }),
{
    let n = buffer.len();
    lemma_too_short("GamepadInfo"@, 8, n);
    lemma_too_short("GamepadTouch"@, 20, n);
    lemma_too_short("GamepadUpdate"@, 26, n);
    lemma_too_short("GamepadMotion"@, 16, n);
    lemma_too_short("GamepadBattery"@, 4, n);
}

proof fn lemma_too_short(packet: Seq<char>, expected: nat, got: nat)
    ensures
        too_short(packet, expected, got) == "Expected at least "@ + written(expected, 10)
            + " bytes for "@ + packet + (", got "@ + written(got, 10) + " bytes."@),
{
    assert(too_short(packet, expected, got) =~= "Expected at least "@ + written(expected, 10)
        + " bytes for "@ + packet + (", got "@ + written(got, 10) + " bytes."@));
}

} // verus!
