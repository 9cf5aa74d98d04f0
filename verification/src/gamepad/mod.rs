//! Gamepad packets of the client, and the virtual devices that they drive.

pub mod backend_freebsd;
pub mod backend_freebsd_laws;
pub mod backend_inputtino;
pub mod backend_stub;
pub mod calls;
pub mod feedback;
pub mod laws;
pub mod refusals;

use crate::float::{clamp_to_unit, clamped_to_unit};
use crate::le::{i16_at, read_i16, read_u16, read_u32, u16_at, u32_at};
use vstd::prelude::*;

verus! {

/// Motion sensor kind reported by the client.
#[derive(Clone, Copy, Debug, PartialEq, Eq, Structural)]
pub enum MotionType {
    Acceleration,
    Gyroscope,
}

impl MotionType {
    /// The number of the sensor kind in the wire protocol.
    pub open spec fn repr(self) -> u8 {
        match self {
            MotionType::Acceleration => 1,
            MotionType::Gyroscope => 2,
        }
    }

    /// The sensor kind of a number, if it names one.
    pub open spec fn of(value: u8) -> Option<MotionType> {
        if value == 1 {
            Some(MotionType::Acceleration)
        } else if value == 2 {
            Some(MotionType::Gyroscope)
        } else {
            None
        }
    }

    /// Decodes a sensor kind.
    pub fn from_repr(value: u8) -> (kind: Option<MotionType>)
        ensures
            kind == MotionType::of(value),
    {
        match value {
            1 => Some(MotionType::Acceleration),
            2 => Some(MotionType::Gyroscope),
            _ => None,
        }
    }

    /// Encodes the sensor kind.
    pub fn to_repr(self) -> (value: u8)
        ensures
            value == self.repr(),
    {
        match self {
            MotionType::Acceleration => 1,
            MotionType::Gyroscope => 2,
        }
    }
}

/// The bit pattern of the double-precision number `0.5`.
pub const DOUBLE_HALF: u64 = 0x3fe0_0000_0000_0000;

/// Configuration for the hold-to-Home gamepad button remap.
///
/// When enabled, holding the Back/Select button for `hold_ms` emits the
/// Home/Guide button instead. A short tap (released early) still sends Back.
#[derive(Clone, Copy, Debug, PartialEq, Eq, Structural)]
pub struct HomeButtonConfig {
    /// How long (in milliseconds) the Back button must be held before the
    /// Home/Guide button is emitted instead. 0 disables the remap.
    pub hold_ms: u64,
    /// Duration (in milliseconds) of the rumble pulse fired when hold-to-Home
    /// activates. 0 disables the pulse.
    pub rumble_duration_ms: u64,
    /// Intensity of that pulse, between zero and one, as the bit pattern of a
    /// double-precision number.
    pub rumble_intensity_bits: u64,
    /// Whether a press of the physical Home/Guide button is dropped. The Home
    /// press that the remap generates is unaffected.
    pub suppress_home: bool,
}

impl Default for HomeButtonConfig {
    fn default() -> (config: Self)
        ensures
            config == (HomeButtonConfig {
                hold_ms: 0,
                rumble_duration_ms: 50,
                rumble_intensity_bits: DOUBLE_HALF,
                suppress_home: false,
            }),
    {
        HomeButtonConfig {
            hold_ms: 0,
            rumble_duration_ms: 50,
            rumble_intensity_bits: DOUBLE_HALF,
            suppress_home: false,
        }
    }
}

/// Configuration for gamepad input handling.
#[derive(Clone, Copy, Debug, PartialEq, Eq, Structural)]
pub struct GamepadConfig {
    /// Configuration for the hold-to-Home button remap.
    pub home_button: HomeButtonConfig,
}

impl Default for GamepadConfig {
    fn default() -> (config: Self)
        ensures
            config.home_button == (HomeButtonConfig {
                hold_ms: 0,
                rumble_duration_ms: 50,
                rumble_intensity_bits: DOUBLE_HALF,
                suppress_home: false,
            }),
    {
        GamepadConfig { home_button: HomeButtonConfig::default() }
    }
}

/// Make of controller that the client holds.
#[derive(Clone, Copy, Debug, PartialEq, Eq, Structural)]
pub enum GamepadKind {
    Unknown,
    Xbox,
    PlayStation,
    Nintendo,
}

impl GamepadKind {
    /// The number of the make in the wire protocol.
    pub open spec fn repr(self) -> u8 {
        match self {
            GamepadKind::Unknown => 0x00,
            GamepadKind::Xbox => 0x01,
            GamepadKind::PlayStation => 0x02,
            GamepadKind::Nintendo => 0x03,
        }
    }

    /// The make of a number, if it names one.
    pub open spec fn of(value: u8) -> Option<GamepadKind> {
        if value == 0x00 {
            Some(GamepadKind::Unknown)
        } else if value == 0x01 {
            Some(GamepadKind::Xbox)
        } else if value == 0x02 {
            Some(GamepadKind::PlayStation)
        } else if value == 0x03 {
            Some(GamepadKind::Nintendo)
        } else {
            None
        }
    }

    /// Decodes a make.
    pub fn from_repr(value: u8) -> (kind: Option<GamepadKind>)
        ensures
            kind == GamepadKind::of(value),
    {
        match value {
            0x00 => Some(GamepadKind::Unknown),
            0x01 => Some(GamepadKind::Xbox),
            0x02 => Some(GamepadKind::PlayStation),
            0x03 => Some(GamepadKind::Nintendo),
            _ => None,
        }
    }
}

/// A feature that the client's controller may have.
#[derive(Clone, Copy, Debug, PartialEq, Eq, Structural)]
pub enum GamepadCapability {
    /// Reports values between 0x00 and 0xFF for trigger axes.
    AnalogTriggers,
    /// Can rumble.
    Rumble,
    /// Can rumble triggers.
    TriggerRumble,
    /// Reports touchpad events.
    Touchpad,
    /// Can report accelerometer events.
    Acceleration,
    /// Can report gyroscope events.
    Gyro,
    /// Reports battery state.
    BatteryState,
    /// Can set RGB LED state.
    RgbLed,
}

impl GamepadCapability {
    /// The bit that announces the feature.
    pub open spec fn mask(self) -> u16 {
        match self {
            GamepadCapability::AnalogTriggers => 0x01,
            GamepadCapability::Rumble => 0x02,
            GamepadCapability::TriggerRumble => 0x04,
            GamepadCapability::Touchpad => 0x08,
            GamepadCapability::Acceleration => 0x10,
            GamepadCapability::Gyro => 0x20,
            GamepadCapability::BatteryState => 0x40,
            GamepadCapability::RgbLed => 0x80,
        }
    }

    /// The bit that announces the feature.
    pub fn bit(self) -> (bit: u16)
        ensures
            bit == self.mask(),
    {
        match self {
            GamepadCapability::AnalogTriggers => 0x01,
            GamepadCapability::Rumble => 0x02,
            GamepadCapability::TriggerRumble => 0x04,
            GamepadCapability::Touchpad => 0x08,
            GamepadCapability::Acceleration => 0x10,
            GamepadCapability::Gyro => 0x20,
            GamepadCapability::BatteryState => 0x40,
            GamepadCapability::RgbLed => 0x80,
        }
    }
}

/// Size in bytes of a gamepad arrival packet.
pub const GAMEPAD_INFO_SIZE: usize = 8;

/// A gamepad that arrived at the client.
#[derive(Clone, Copy, Debug, PartialEq, Eq, Structural)]
pub struct GamepadInfo {
    pub index: u8,
    pub kind: GamepadKind,
    pub capabilities: u16,
    pub supported_buttons: u32,
}

impl GamepadInfo {
    /// What the bytes of an arrival packet mean.
    pub open spec fn parse(buffer: Seq<u8>) -> Result<GamepadInfo, ()> {
        if buffer.len() < GAMEPAD_INFO_SIZE {
            Err(())
        } else {
            match GamepadKind::of(buffer[1]) {
                Some(kind) => Ok(
                    GamepadInfo {
                        index: buffer[0],
                        kind,
                        capabilities: u16_at(buffer, 2),
                        supported_buttons: u32_at(buffer, 4),
                    },
                ),
                None => Err(()),
            }
        }
    }

    /// Decodes an arrival packet. It is refused when it is too short or names
    /// an unknown make.
    pub fn from_bytes(buffer: &[u8]) -> (info: Result<GamepadInfo, ()>)
        ensures
            info == GamepadInfo::parse(buffer@),
    {
        if buffer.len() < GAMEPAD_INFO_SIZE {
            return Err(());
        }
        match GamepadKind::from_repr(buffer[1]) {
            Some(kind) => Ok(
                GamepadInfo {
                    index: buffer[0],
                    kind,
                    capabilities: read_u16(buffer, 2),
                    supported_buttons: read_u32(buffer, 4),
                },
            ),
            None => Err(()),
        }
    }

    /// The description of a gamepad that sent input without announcing itself.
    pub fn default_for_index(index: u8) -> (info: GamepadInfo)
        ensures
            info == (GamepadInfo {
                index,
                kind: GamepadKind::Unknown,
                capabilities: 0,
                supported_buttons: 0,
            }),
    {
        GamepadInfo { index, kind: GamepadKind::Unknown, capabilities: 0, supported_buttons: 0 }
    }

    /// Whether the gamepad announced a feature.
    pub fn has_capability(&self, capability: &GamepadCapability) -> (has: bool)
        ensures
            has == (self.capabilities & capability.mask() != 0),
    {
        (self.capabilities & capability.bit()) != 0
    }
}

/// Size in bytes of a touchpad packet.
pub const GAMEPAD_TOUCH_SIZE: usize = 20;

/// A finger on the touchpad of a gamepad. Position and pressure are bit
/// patterns of single-precision numbers between zero and one.
#[derive(Clone, Copy, Debug, PartialEq, Eq, Structural)]
pub struct GamepadTouch {
    pub index: u8,
    pub event_type: u8,
    pub pointer_id: u32,
    pub x_bits: u32,
    pub y_bits: u32,
    pub pressure_bits: u32,
}

impl GamepadTouch {
    /// What the bytes of a touchpad packet mean.
    pub open spec fn parse(buffer: Seq<u8>) -> Result<GamepadTouch, ()> {
        if buffer.len() < GAMEPAD_TOUCH_SIZE {
            Err(())
        } else {
            Ok(
                GamepadTouch {
                    index: buffer[0],
                    event_type: buffer[1],
                    pointer_id: u32_at(buffer, 4),
                    x_bits: clamped_to_unit(u32_at(buffer, 8)),
                    y_bits: clamped_to_unit(u32_at(buffer, 12)),
                    pressure_bits: clamped_to_unit(u32_at(buffer, 16)),
                },
            )
        }
    }

    /// Decodes a touchpad packet, bringing position and pressure into the unit
    /// interval. It is refused when it is too short.
    pub fn from_bytes(buffer: &[u8]) -> (touch: Result<GamepadTouch, ()>)
        ensures
            touch == GamepadTouch::parse(buffer@),
    {
        if buffer.len() < GAMEPAD_TOUCH_SIZE {
            return Err(());
        }
        Ok(
            GamepadTouch {
                index: buffer[0],
                event_type: buffer[1],
                pointer_id: read_u32(buffer, 4),
                x_bits: clamp_to_unit(read_u32(buffer, 8)),
                y_bits: clamp_to_unit(read_u32(buffer, 12)),
                pressure_bits: clamp_to_unit(read_u32(buffer, 16)),
            },
        )
    }
}

/// Size in bytes of an input packet.
pub const GAMEPAD_UPDATE_SIZE: usize = 26;

/// The buttons, triggers and sticks of a gamepad at one moment.
#[derive(Clone, Copy, Debug, PartialEq, Eq)]
pub struct GamepadUpdate {
    pub index: u16,
    pub active_gamepad_mask: u16,
    pub button_flags: u32,
    pub left_trigger: u8,
    pub right_trigger: u8,
    pub left_stick: (i16, i16),
    pub right_stick: (i16, i16),
}

impl GamepadUpdate {
    /// What the bytes of an input packet mean. The button flags come in two
    /// halves: the low word at 8, the high word at 22.
    pub open spec fn parse(buffer: Seq<u8>) -> Result<GamepadUpdate, ()> {
        if buffer.len() < GAMEPAD_UPDATE_SIZE {
            Err(())
        } else {
            Ok(
                GamepadUpdate {
                    index: u16_at(buffer, 2),
                    active_gamepad_mask: u16_at(buffer, 4),
                    button_flags: (u16_at(buffer, 8) + 0x1_0000 * u16_at(buffer, 22)) as u32,
                    left_trigger: buffer[10],
                    right_trigger: buffer[11],
                    left_stick: (i16_at(buffer, 12), i16_at(buffer, 14)),
                    right_stick: (i16_at(buffer, 16), i16_at(buffer, 18)),
                },
            )
        }
    }

    /// Decodes an input packet. It is refused when it is too short.
    pub fn from_bytes(buffer: &[u8]) -> (update: Result<GamepadUpdate, ()>)
        ensures
            update == GamepadUpdate::parse(buffer@),
    {
        if buffer.len() < GAMEPAD_UPDATE_SIZE {
            return Err(());
        }
        Ok(
            GamepadUpdate {
                index: read_u16(buffer, 2),
                active_gamepad_mask: read_u16(buffer, 4),
                button_flags: read_u16(buffer, 8) as u32 + 0x1_0000 * (read_u16(buffer, 22) as u32),
                left_trigger: buffer[10],
                right_trigger: buffer[11],
                left_stick: (read_i16(buffer, 12), read_i16(buffer, 14)),
                right_stick: (read_i16(buffer, 16), read_i16(buffer, 18)),
            },
        )
    }

    /// The buttons that are held.
    pub fn button_flags(&self) -> (flags: u32)
        ensures
            flags == self.button_flags,
    {
        self.button_flags
    }
}

/// Size in bytes of a motion packet.
pub const GAMEPAD_MOTION_SIZE: usize = 16;

/// A reading of a motion sensor. The axes are bit patterns of single-precision
/// numbers.
#[derive(Clone, Copy, Debug, PartialEq, Eq, Structural)]
pub struct GamepadMotion {
    pub index: u8,
    pub motion_type: MotionType,
    pub x_bits: u32,
    pub y_bits: u32,
    pub z_bits: u32,
}

impl GamepadMotion {
    /// What the bytes of a motion packet mean.
    pub open spec fn parse(buffer: Seq<u8>) -> Result<GamepadMotion, ()> {
        if buffer.len() < GAMEPAD_MOTION_SIZE {
            Err(())
        } else {
            match MotionType::of(buffer[1]) {
                Some(motion_type) => Ok(
                    GamepadMotion {
                        index: buffer[0],
                        motion_type,
                        x_bits: u32_at(buffer, 4),
                        y_bits: u32_at(buffer, 8),
                        z_bits: u32_at(buffer, 12),
                    },
                ),
                None => Err(()),
            }
        }
    }

    /// Decodes a motion packet. It is refused when it is too short or names an
    /// unknown sensor kind.
    pub fn from_bytes(buffer: &[u8]) -> (motion: Result<GamepadMotion, ()>)
        ensures
            motion == GamepadMotion::parse(buffer@),
    {
        if buffer.len() < GAMEPAD_MOTION_SIZE {
            return Err(());
        }
        match MotionType::from_repr(buffer[1]) {
            Some(motion_type) => Ok(
                GamepadMotion {
                    index: buffer[0],
                    motion_type,
                    x_bits: read_u32(buffer, 4),
                    y_bits: read_u32(buffer, 8),
                    z_bits: read_u32(buffer, 12),
                },
            ),
            None => Err(()),
        }
    }
}

/// Charge state of a gamepad's battery.
#[derive(Clone, Copy, Debug, PartialEq, Eq, Structural)]
pub enum BatteryState {
    Unknown,
    NotPresent,
    Discharging,
    Charging,
    NotCharging,
    Full,
    PercentageUnknown,
}

impl BatteryState {
    /// The number of the state in the wire protocol.
    pub open spec fn repr(self) -> u8 {
        match self {
            BatteryState::Unknown => 0x00,
            BatteryState::NotPresent => 0x01,
            BatteryState::Discharging => 0x02,
            BatteryState::Charging => 0x03,
            BatteryState::NotCharging => 0x04,
            BatteryState::Full => 0x05,
            BatteryState::PercentageUnknown => 0xFF,
        }
    }

    /// The state of a number, if it names one.
    pub open spec fn of(value: u8) -> Option<BatteryState> {
        if value == 0x00 {
            Some(BatteryState::Unknown)
        } else if value == 0x01 {
            Some(BatteryState::NotPresent)
        } else if value == 0x02 {
            Some(BatteryState::Discharging)
        } else if value == 0x03 {
            Some(BatteryState::Charging)
        } else if value == 0x04 {
            Some(BatteryState::NotCharging)
        } else if value == 0x05 {
            Some(BatteryState::Full)
        } else if value == 0xFF {
            Some(BatteryState::PercentageUnknown)
        } else {
            None
        }
    }

    /// Decodes a charge state.
    pub fn from_repr(value: u8) -> (state: Option<BatteryState>)
        ensures
            state == BatteryState::of(value),
    {
        match value {
            0x00 => Some(BatteryState::Unknown),
            0x01 => Some(BatteryState::NotPresent),
            0x02 => Some(BatteryState::Discharging),
            0x03 => Some(BatteryState::Charging),
            0x04 => Some(BatteryState::NotCharging),
            0x05 => Some(BatteryState::Full),
            0xFF => Some(BatteryState::PercentageUnknown),
            _ => None,
        }
    }
}

/// Size in bytes of a battery packet.
pub const GAMEPAD_BATTERY_SIZE: usize = 4;

/// A battery report of a gamepad.
#[derive(Clone, Copy, Debug, PartialEq, Eq, Structural)]
pub struct GamepadBattery {
    pub index: u8,
    pub battery_state: BatteryState,
    pub battery_percentage: u8,
}

impl GamepadBattery {
    /// What the bytes of a battery packet mean.
    pub open spec fn parse(buffer: Seq<u8>) -> Result<GamepadBattery, ()> {
        if buffer.len() < GAMEPAD_BATTERY_SIZE {
            Err(())
        } else {
            match BatteryState::of(buffer[1]) {
                Some(battery_state) => Ok(
                    GamepadBattery {
                        index: buffer[0],
                        battery_state,
                        battery_percentage: buffer[2],
                    },
                ),
                None => Err(()),
            }
        }
    }

    /// Decodes a battery packet. It is refused when it is too short or names an
    /// unknown charge state.
    pub fn from_bytes(buffer: &[u8]) -> (battery: Result<GamepadBattery, ()>)
        ensures
            battery == GamepadBattery::parse(buffer@),
    {
        if buffer.len() < GAMEPAD_BATTERY_SIZE {
            return Err(());
        }
        match BatteryState::from_repr(buffer[1]) {
            Some(battery_state) => Ok(
                GamepadBattery {
                    index: buffer[0],
                    battery_state,
                    battery_percentage: buffer[2],
                },
            ),
            None => Err(()),
        }
    }
}

} // verus!
