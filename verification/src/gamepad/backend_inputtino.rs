//! A virtual gamepad on Linux, driven through inputtino joypads.
//!
//! This module decides which joypad stands for a client's gamepad, how it
//! introduces itself, what it is told, and how its callbacks are answered.

use crate::float::{exceeds, exceeds_half, HALF};
use crate::gamepad::feedback::{
    EnableMotionEventCommand, FeedbackCommand, RumbleCommand, SetLedCommand, TriggerEffectCommand,
};
use crate::gamepad::{
    BatteryState, GamepadBattery, GamepadInfo, GamepadKind, GamepadMotion, GamepadTouch,
    GamepadUpdate, MotionType,
};
use crate::le::word32;
use crate::text::{digit_char, digit_text, digit_worth, optional_text, worth};
use vstd::prelude::*;

verus! {

/// How often a motion sensor is to be reported, per second.
pub const MOTION_REPORT_RATE: u16 = 100;

/// Size in bytes of a trigger effect.
pub const TRIGGER_EFFECT_SIZE: usize = 10;

/// The joypads that inputtino offers.
#[derive(Clone, Copy, Debug, PartialEq, Eq, Structural)]
pub enum JoypadKind {
    XboxOne,
    PS5,
    Switch,
}

/// The charge states that a joypad can show.
#[derive(Clone, Copy, Debug, PartialEq, Eq, Structural)]
pub enum JoypadBattery {
    Discharging,
    Charging,
    Full,
}

/// A trigger of a joypad.
#[derive(Clone, Copy, Debug, PartialEq, Eq, Structural)]
pub enum Trigger {
    Left,
    Right,
}

/// How a joypad introduces itself.
#[derive(Debug, PartialEq, Eq)]
pub struct DeviceDefinition {
    pub name: String,
    pub vendor_id: u16,
    pub product_id: u16,
    pub version: u16,
    pub device_phys: String,
    pub device_uniq: String,
}

/// Sticks and triggers as a joypad takes them.
#[derive(Clone, Copy, Debug, PartialEq, Eq)]
pub struct JoypadUpdate {
    pub left_stick: (i16, i16),
    pub right_stick: (i16, i16),
    pub left_trigger: i16,
    pub right_trigger: i16,
}

/// What a joypad's touchpad is told. The position is in fractions of the
/// touchpad, as bit patterns of single-precision numbers.
#[derive(Clone, Copy, Debug, PartialEq, Eq, Structural)]
pub enum TouchCall {
    PlaceFinger { pointer_id: u32, x_bits: u32, y_bits: u32 },
    ReleaseFinger { pointer_id: u32 },
}

/// What a joypad's motion sensor is told. The axes are in degrees, as bit
/// patterns of single-precision numbers.
#[derive(Clone, Copy, Debug, PartialEq, Eq, Structural)]
pub struct MotionCall {
    pub motion_type: MotionType,
    pub x_bits: u32,
    pub y_bits: u32,
    pub z_bits: u32,
}

/// What a joypad's battery is told.
#[derive(Clone, Copy, Debug, PartialEq, Eq, Structural)]
pub struct BatteryCall {
    pub state: JoypadBattery,
    pub percentage: u8,
}

/// The joypad that stands for a make.
pub open spec fn joypad_for(kind: GamepadKind) -> JoypadKind {
    match kind {
        GamepadKind::Unknown | GamepadKind::Xbox => JoypadKind::XboxOne,
        GamepadKind::PlayStation => JoypadKind::PS5,
        GamepadKind::Nintendo => JoypadKind::Switch,
    }
}

/// The hardware address that the joypad of an index pretends.
pub open spec fn address(index: u8) -> Seq<char> {
    "00:11:22:33:"@ + seq![digit_char((index / 16) as nat), digit_char((index % 16) as nat)]
}

/// The low eight bits of an integer.
pub open spec fn low_byte(value: i32) -> u8 {
    (value as int % 256) as u8
}

/// The low sixteen bits of an integer.
pub open spec fn low_word(value: i32) -> u16 {
    (value as int % 0x1_0000) as u16
}

/// The two's complement reading of a 32-bit word.
pub open spec fn signed32(word: u32) -> i32 {
    (if word < 0x8000_0000 {
        word as int
    } else {
        word - 0x1_0000_0000
    }) as i32
}

/// The command that asks for reports of a motion sensor.
pub open spec fn enable_motion(index: u8, motion_type: MotionType) -> FeedbackCommand {
    FeedbackCommand::EnableMotionEvent(
        EnableMotionEventCommand {
            id: index as u16,
            report_rate: MOTION_REPORT_RATE,
            motion_type: motion_type.repr(),
        },
    )
}

/// The charge state that a joypad shows for a report, if it shows one.
pub open spec fn shown_battery(state: BatteryState) -> Option<JoypadBattery> {
    match state {
        BatteryState::Discharging => Some(JoypadBattery::Discharging),
        BatteryState::Charging => Some(JoypadBattery::Charging),
        BatteryState::Full => Some(JoypadBattery::Full),
        _ => None,
    }
}

fn address_text(index: u8) -> (text: String)
    ensures
        text@ == address(index),
{
    let mut text = "00:11:22:33:".to_owned();
    text.append(digit_text(index / 16));
    text.append(digit_text(index % 16));
    assert(text@ =~= address(index));
    text
}

/// How the joypad that stands for a gamepad introduces itself: by the name and
/// numbers of its make, under an address of its own.
pub fn definition(info: &GamepadInfo) -> (definition: DeviceDefinition)
    ensures
        definition.device_phys@ == address(info.index),
        definition.device_uniq@ == address(info.index),
        match joypad_for(info.kind) {
            JoypadKind::XboxOne => {
                &&& definition.name@ == "Moonshine XOne controller"@
                &&& definition.vendor_id == 0x045e
                &&& definition.product_id == 0x02dd
                &&& definition.version == 0x0100
            },
            JoypadKind::PS5 => {
                &&& definition.name@ == "Moonshine PS5 controller"@
                &&& definition.vendor_id == 0x054c
                &&& definition.product_id == 0x0ce6
                &&& definition.version == 0x8111
            },
            JoypadKind::Switch => {
                &&& definition.name@ == "Moonshine Switch controller"@
                &&& definition.vendor_id == 0x057e
                &&& definition.product_id == 0x2009
                &&& definition.version == 0x8111
            },
        },
{
    let device_phys = address_text(info.index);
    let device_uniq = address_text(info.index);
    match info.kind {
        GamepadKind::Unknown | GamepadKind::Xbox => DeviceDefinition {
            name: "Moonshine XOne controller".to_owned(),
            vendor_id: 0x045e,
            product_id: 0x02dd,
            version: 0x0100,
            device_phys,
            device_uniq,
        },
        GamepadKind::PlayStation => DeviceDefinition {
            name: "Moonshine PS5 controller".to_owned(),
            vendor_id: 0x054c,
            product_id: 0x0ce6,
            version: 0x8111,
            device_phys,
            device_uniq,
        },
        GamepadKind::Nintendo => DeviceDefinition {
            name: "Moonshine Switch controller".to_owned(),
            vendor_id: 0x057e,
            product_id: 0x2009,
            version: 0x8111,
            device_phys,
            device_uniq,
        },
    }
}

/// Answers a joypad whose light was set.
pub fn led_command(index: u8, red: i32, green: i32, blue: i32) -> (command: FeedbackCommand)
    ensures
        command == FeedbackCommand::SetLed(
            SetLedCommand {
                id: index as u16,
                rgb: (low_byte(red), low_byte(green), low_byte(blue)),
            },
        ),
{
    FeedbackCommand::SetLed(
        SetLedCommand {
            id: index as u16,
            rgb: (truncate_to_byte(red), truncate_to_byte(green), truncate_to_byte(blue)),
        },
    )
}

/// Answers a joypad whose trigger effects were set. Nothing is sent when an
/// effect does not have its size; the left one is looked at first.
pub fn trigger_effect_command(
    index: u8,
    trigger_event_flags: u8,
    type_left: u8,
    type_right: u8,
    left: &[u8],
    right: &[u8],
) -> (command: Result<FeedbackCommand, Trigger>)
    ensures
        match command {
            Ok(sent) => {
                &&& left@.len() == TRIGGER_EFFECT_SIZE && right@.len() == TRIGGER_EFFECT_SIZE
                &&& sent matches FeedbackCommand::TriggerEffect(effect) && effect.id == index
                    && effect.trigger_event_flags == trigger_event_flags && effect.type_left
                    == type_left && effect.type_right == type_right && effect.left@ == left@
                    && effect.right@ == right@
            },
            Err(Trigger::Left) => left@.len() != TRIGGER_EFFECT_SIZE,
            Err(Trigger::Right) => left@.len() == TRIGGER_EFFECT_SIZE && right@.len()
                != TRIGGER_EFFECT_SIZE,
        },
{
    if left.len() != TRIGGER_EFFECT_SIZE {
        return Err(Trigger::Left);
    }
    if right.len() != TRIGGER_EFFECT_SIZE {
        return Err(Trigger::Right);
    }
    let effect = TriggerEffectCommand {
        id: index as u16,
        trigger_event_flags,
        type_left,
        type_right,
        left: effect_bytes(left),
        right: effect_bytes(right),
    };
    Ok(FeedbackCommand::TriggerEffect(effect))
}

/// Answers a joypad whose rumble motors were set.
pub fn rumble_command(index: u8, low_frequency: i32, high_frequency: i32) -> (command:
    FeedbackCommand)
    ensures
        command == FeedbackCommand::Rumble(
            RumbleCommand {
                id: index as u16,
                low_frequency: low_word(low_frequency),
                high_frequency: low_word(high_frequency),
            },
        ),
{
    FeedbackCommand::Rumble(
        RumbleCommand {
            id: index as u16,
            low_frequency: truncate_to_word(low_frequency),
            high_frequency: truncate_to_word(high_frequency),
        },
    )
}

fn effect_bytes(bytes: &[u8]) -> (array: [u8; 10])
    requires
        bytes@.len() == TRIGGER_EFFECT_SIZE,
    ensures
        array@ == bytes@,
{
    let array: [u8; 10] = [
        bytes[0],
        bytes[1],
        bytes[2],
        bytes[3],
        bytes[4],
        bytes[5],
        bytes[6],
        bytes[7],
        bytes[8],
        bytes[9],
    ];
    assert(array@ =~= bytes@);
    array
}

fn truncate_to_byte(value: i32) -> (byte: u8)
    ensures
        byte == low_byte(value),
{
    assert((value as u8) == value % 256) by (bit_vector);
    value as u8
}

fn truncate_to_word(value: i32) -> (word: u16)
    ensures
        word == low_word(value),
{
    assert((value as u16) == value % 0x1_0000) by (bit_vector);
    value as u16
}

/// The state of a virtual gamepad.
#[derive(Clone, Copy, Debug, PartialEq, Eq, Structural)]
pub struct Gamepad {
    pub index: u8,
    pub joypad: JoypadKind,
}

impl Gamepad {
    /// The gamepad that stands for a client's.
    pub fn new(info: &GamepadInfo) -> (gamepad: Gamepad)
        ensures
            gamepad == (Gamepad { index: info.index, joypad: joypad_for(info.kind) }),
    {
        let joypad = match info.kind {
            GamepadKind::Unknown | GamepadKind::Xbox => JoypadKind::XboxOne,
            GamepadKind::PlayStation => JoypadKind::PS5,
            GamepadKind::Nintendo => JoypadKind::Switch,
        };
        Gamepad { index: info.index, joypad }
    }

    /// Whether the joypad calls back about its light and its trigger effects.
    pub fn has_light_and_effects(&self) -> (has: bool)
        ensures
            has == (self.joypad == JoypadKind::PS5),
    {
        self.joypad == JoypadKind::PS5
    }

    /// What the client is told when the gamepad was made: to report both motion
    /// sensors, if the joypad has them.
    pub fn greeting(&self) -> (commands: Vec<FeedbackCommand>)
        ensures
            commands@ == (if self.joypad == JoypadKind::PS5 {
                seq![
                    enable_motion(self.index, MotionType::Acceleration),
                    enable_motion(self.index, MotionType::Gyroscope),
                ]
            } else {
                seq![]
            }),
    {
        let mut commands: Vec<FeedbackCommand> = Vec::new();
        if self.joypad == JoypadKind::PS5 {
            commands.push(
                FeedbackCommand::EnableMotionEvent(
                    EnableMotionEventCommand {
                        id: self.index as u16,
                        report_rate: MOTION_REPORT_RATE,
                        motion_type: MotionType::Acceleration.to_repr(),
                    },
                ),
            );
            commands.push(
                FeedbackCommand::EnableMotionEvent(
                    EnableMotionEventCommand {
                        id: self.index as u16,
                        report_rate: MOTION_REPORT_RATE,
                        motion_type: MotionType::Gyroscope.to_repr(),
                    },
                ),
            );
        }
        commands
    }

    /// The buttons as the joypad takes them: the same bits in a signed word.
    pub fn set_pressed(&self, button_flags: u32) -> (word: i32)
        ensures
            word == signed32(button_flags),
    {
        assert(button_flags < 0x8000_0000 ==> (button_flags as i32) == button_flags) by (bit_vector);
        assert(button_flags >= 0x8000_0000 ==> (button_flags as i32) == button_flags
            - 0x1_0000_0000) by (bit_vector);
        button_flags as i32
    }

    /// Sticks and triggers as the joypad takes them.
    pub fn apply_update(&self, update: &GamepadUpdate) -> (call: JoypadUpdate)
        ensures
            call == (JoypadUpdate {
                left_stick: update.left_stick,
                right_stick: update.right_stick,
                left_trigger: update.left_trigger as i16,
                right_trigger: update.right_trigger as i16,
            }),
    {
        JoypadUpdate {
            left_stick: update.left_stick,
            right_stick: update.right_stick,
            left_trigger: update.left_trigger as i16,
            right_trigger: update.right_trigger as i16,
        }
    }

    /// What the touchpad is told of a finger, on a joypad that has one: the
    /// finger is down while its pressure is above one half.
    pub fn touch(&self, touch: &GamepadTouch) -> (call: Option<TouchCall>)
        ensures
            call == (if self.joypad != JoypadKind::PS5 {
                None
            } else if exceeds(touch.pressure_bits, HALF) {
                Some(
                    TouchCall::PlaceFinger {
                        pointer_id: touch.pointer_id,
                        x_bits: touch.x_bits,
                        y_bits: touch.y_bits,
                    },
                )
            } else {
                Some(TouchCall::ReleaseFinger { pointer_id: touch.pointer_id })
            }),
    {
        if self.joypad != JoypadKind::PS5 {
            None
        } else if exceeds_half(touch.pressure_bits) {
            Some(
                TouchCall::PlaceFinger {
                    pointer_id: touch.pointer_id,
                    x_bits: touch.x_bits,
                    y_bits: touch.y_bits,
                },
            )
        } else {
            Some(TouchCall::ReleaseFinger { pointer_id: touch.pointer_id })
        }
    }

    /// What the motion sensor is told, on a joypad that has one.
    pub fn set_motion(&self, motion: &GamepadMotion) -> (call: Option<MotionCall>)
        ensures
            call == (if self.joypad == JoypadKind::PS5 {
                Some(
                    MotionCall {
                        motion_type: motion.motion_type,
                        x_bits: motion.x_bits,
                        y_bits: motion.y_bits,
                        z_bits: motion.z_bits,
                    },
                )
            } else {
                None
            }),
    {
        if self.joypad == JoypadKind::PS5 {
            Some(
                MotionCall {
                    motion_type: motion.motion_type,
                    x_bits: motion.x_bits,
                    y_bits: motion.y_bits,
                    z_bits: motion.z_bits,
                },
            )
        } else {
            None
        }
    }

    /// What the battery is told, on a joypad that has one and for a state that
    /// it can show.
    pub fn set_battery(&self, gamepad_battery: &GamepadBattery) -> (call: Option<BatteryCall>)
        ensures
            call == (if self.joypad != JoypadKind::PS5 {
                None
            } else {
                match shown_battery(gamepad_battery.battery_state) {
                    Some(state) => Some(
                        BatteryCall { state, percentage: gamepad_battery.battery_percentage },
                    ),
                    None => None,
                }
            }),
    {
        if self.joypad != JoypadKind::PS5 {
            return None;
        }
        let state = match gamepad_battery.battery_state {
            BatteryState::Discharging => JoypadBattery::Discharging,
            BatteryState::Charging => JoypadBattery::Charging,
            BatteryState::Full => JoypadBattery::Full,
            BatteryState::NotPresent => return None,
            BatteryState::NotCharging => return None,
            BatteryState::Unknown => return None,
            BatteryState::PercentageUnknown => return None,
        };
        Some(BatteryCall { state, percentage: gamepad_battery.battery_percentage })
    }

    /// The warning about a charge state that a joypad with a battery does not
    /// know. States that it knows but does not show give none.
    pub fn battery_warning(&self, gamepad_battery: &GamepadBattery) -> (warning: Option<String>)
        ensures
            optional_text(warning) == (if self.joypad == JoypadKind::PS5
                && gamepad_battery.battery_state == BatteryState::PercentageUnknown {
                Some("Unknown battery state: PercentageUnknown"@)
            } else {
                None
            }),
    {
        if self.joypad == JoypadKind::PS5 && gamepad_battery.battery_state
            == BatteryState::PercentageUnknown {
            Some("Unknown battery state: PercentageUnknown".to_owned())
        } else {
            None
        }
    }
}

/// The joypad is told all 32 button bits: they can be read back from its word.
pub proof fn law_buttons_keep_their_bits(button_flags: u32)
    ensures
        word32(signed32(button_flags)) == button_flags,
{
}

/// Two gamepads pretend the same hardware address only if they are the same one.
pub proof fn law_addresses_are_distinct(a: u8, b: u8)
    requires
        address(a) == address(b),
    ensures
        a == b,
{
    let prefix = "00:11:22:33:"@.len() as int;
    assert(address(a)[prefix] == digit_char((a / 16) as nat));
    assert(address(b)[prefix] == digit_char((b / 16) as nat));
    assert(address(a)[prefix + 1] == digit_char((a % 16) as nat));
    assert(address(b)[prefix + 1] == digit_char((b % 16) as nat));
}

/// What is passed on of an integer is its low bits: it differs from the integer
/// by a multiple of the number of bytes, or words, there are.
pub proof fn law_low_bits_are_passed_on(value: i32)
    ensures
        (value - low_byte(value)) % 256 == 0,
        (value - low_word(value)) % 0x1_0000 == 0,
{
}

/// Both sensors are asked for a hundred reports a second, of the gamepad itself.
pub proof fn law_sensors_are_asked_for(index: u8)
    ensures
        enable_motion(index, MotionType::Acceleration) == FeedbackCommand::EnableMotionEvent(
            EnableMotionEventCommand { id: index as u16, report_rate: 100, motion_type: 1 },
        ),
        enable_motion(index, MotionType::Gyroscope) == FeedbackCommand::EnableMotionEvent(
            EnableMotionEventCommand { id: index as u16, report_rate: 100, motion_type: 2 },
        ),
{
}

/// Button flags as the joypad takes them differ from what was sent by a multiple
/// of the number of words there are.
pub proof fn law_button_word_is_what_was_sent(button_flags: u32)
    ensures
        (signed32(button_flags) - button_flags) % 0x1_0000_0000 == 0,
{
}

/// A joypad's address ends in the number of its gamepad, in two hexadecimal
/// digits.
pub proof fn law_address_ends_in_the_number(index: u8)
    ensures
        address(index).len() == 14,
        address(index).take(12) == "00:11:22:33:"@,
        worth(address(index).skip(12), 16) == index,
{
    reveal_strlit("00:11:22:33:");
    let digits = address(index).skip(12);
    assert(address(index).take(12) =~= "00:11:22:33:"@);
    assert(digits =~= seq![digit_char((index / 16) as nat), digit_char((index % 16) as nat)]);
    let first = digits.drop_last();
    assert(first.drop_last() =~= Seq::<char>::empty());
    assert(worth(first.drop_last(), 16) == 0);
    assert(worth(first, 16) == digit_worth(first.last()));
}

/// A make has its joypad, and a joypad shows the charge states it can.
pub proof fn law_joypads_stand_for_makes(kind: GamepadKind, state: BatteryState)
    ensures
        joypad_for(kind) is PS5 <==> kind is PlayStation,
        joypad_for(kind) is Switch <==> kind is Nintendo,
        joypad_for(kind) is XboxOne <==> kind is Xbox || kind is Unknown,
        shown_battery(state) == Some(JoypadBattery::Discharging) <==> state is Discharging,
        shown_battery(state) == Some(JoypadBattery::Charging) <==> state is Charging,
        shown_battery(state) == Some(JoypadBattery::Full) <==> state is Full,
        shown_battery(state) is None <==> !(state is Discharging || state is Charging || state
            is Full),
{
}

} // verus!
