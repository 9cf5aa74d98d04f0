//! What holds of every packet of the wire protocol.

use crate::float::{is_nan, law_clamping_by_bits, order_key, ONE};
use crate::gamepad::{
    BatteryState, GamepadBattery, GamepadCapability, GamepadInfo, GamepadKind, GamepadMotion,
    GamepadTouch, GamepadUpdate, MotionType, GAMEPAD_BATTERY_SIZE, GAMEPAD_INFO_SIZE,
    GAMEPAD_MOTION_SIZE, GAMEPAD_TOUCH_SIZE, GAMEPAD_UPDATE_SIZE,
};
use crate::le::{u16_at, u16_bytes, u32_at, u32_bytes, word16};
use vstd::prelude::*;

verus! {

/// The packet that announces a gamepad.
pub open spec fn info_packet(info: GamepadInfo) -> Seq<u8> {
    seq![info.index, info.kind.repr()] + u16_bytes(info.capabilities) + u32_bytes(
        info.supported_buttons,
    )
}

/// The packet that reports a finger.
pub open spec fn touch_packet(touch: GamepadTouch) -> Seq<u8> {
    seq![touch.index, touch.event_type, 0u8, 0u8] + u32_bytes(touch.pointer_id) + u32_bytes(
        touch.x_bits,
    ) + u32_bytes(touch.y_bits) + u32_bytes(touch.pressure_bits)
}

/// The packet that reports the controls of a gamepad.
pub open spec fn update_packet(update: GamepadUpdate) -> Seq<u8> {
    seq![0u8, 0u8] + u16_bytes(update.index) + u16_bytes(update.active_gamepad_mask) + seq![0u8, 0u8]
        + u16_bytes((update.button_flags % 0x1_0000) as u16) + seq![
        update.left_trigger,
        update.right_trigger,
    ] + u16_bytes(word16(update.left_stick.0)) + u16_bytes(word16(update.left_stick.1)) + u16_bytes(
        word16(update.right_stick.0),
    ) + u16_bytes(word16(update.right_stick.1)) + seq![0u8, 0u8] + u16_bytes(
        (update.button_flags / 0x1_0000) as u16,
    ) + seq![0u8, 0u8]
}

/// The packet that reports a motion sensor.
pub open spec fn motion_packet(motion: GamepadMotion) -> Seq<u8> {
    seq![motion.index, motion.motion_type.repr(), 0u8, 0u8] + u32_bytes(motion.x_bits) + u32_bytes(
        motion.y_bits,
    ) + u32_bytes(motion.z_bits)
}

/// The packet that reports a battery.
pub open spec fn battery_packet(battery: GamepadBattery) -> Seq<u8> {
    seq![battery.index, battery.battery_state.repr(), battery.battery_percentage, 0u8]
}

/// A motion sensor kind has one number, and every other number is refused.
pub proof fn law_motion_type_numbers(kind: MotionType, value: u8)
    ensures
        MotionType::of(kind.repr()) == Some(kind),
        MotionType::of(value) == Some(kind) <==> value == kind.repr(),
        MotionType::of(value) is None <==> value != 1 && value != 2,
{
}

/// A make has one number, and every other number is refused.
pub proof fn law_gamepad_kind_numbers(kind: GamepadKind, value: u8)
    ensures
        GamepadKind::of(kind.repr()) == Some(kind),
        GamepadKind::of(value) == Some(kind) <==> value == kind.repr(),
        GamepadKind::of(value) is None <==> value > 3,
{
}

/// A charge state has one number, and every other number is refused.
pub proof fn law_battery_state_numbers(state: BatteryState, value: u8)
    ensures
        BatteryState::of(state.repr()) == Some(state),
        BatteryState::of(value) == Some(state) <==> value == state.repr(),
        BatteryState::of(value) is None <==> 5 < value < 255,
{
}

/// No two features share a bit.
pub proof fn law_capability_bits_are_distinct(a: GamepadCapability, b: GamepadCapability)
    requires
        a != b,
    ensures
        a.mask() & b.mask() == 0,
{
    let x = a.mask();
    let y = b.mask();
    assert(x & y == 0) by (bit_vector)
        requires
            x == 0x01u16 || x == 0x02u16 || x == 0x04u16 || x == 0x08u16 || x == 0x10u16 || x
                == 0x20u16 || x == 0x40u16 || x == 0x80u16,
            y == 0x01u16 || y == 0x02u16 || y == 0x04u16 || y == 0x08u16 || y == 0x10u16 || y
                == 0x20u16 || y == 0x40u16 || y == 0x80u16,
            x != y,
    ;
}

/// A gamepad that never announced itself has no feature.
pub proof fn law_unannounced_gamepad_has_no_capability(capability: GamepadCapability)
    ensures
        0u16 & capability.mask() == 0,
{
    let mask = capability.mask();
    assert(0u16 & mask == 0) by (bit_vector);
}

/// An arrival packet says what its first eight bytes say. What follows them is ignored.
pub proof fn law_info_ignores_what_follows(a: Seq<u8>, b: Seq<u8>)
    requires
        a.len() >= GAMEPAD_INFO_SIZE,
        b.len() >= GAMEPAD_INFO_SIZE,
        forall|i: int| 0 <= i < GAMEPAD_INFO_SIZE ==> a[i] == b[i],
    ensures
        GamepadInfo::parse(a) == GamepadInfo::parse(b),
{
}

/// A touchpad packet says what its fields say. The two reserved bytes and what
/// follows the packet are ignored.
pub proof fn law_touch_ignores_reserved_bytes(a: Seq<u8>, b: Seq<u8>)
    requires
        a.len() >= GAMEPAD_TOUCH_SIZE,
        b.len() >= GAMEPAD_TOUCH_SIZE,
        forall|i: int| 0 <= i < 2 || 4 <= i < GAMEPAD_TOUCH_SIZE ==> a[i] == b[i],
    ensures
        GamepadTouch::parse(a) == GamepadTouch::parse(b),
{
}

/// An input packet says what its fields say. The header, the filler words and
/// what follows the packet are ignored.
pub proof fn law_update_ignores_reserved_bytes(a: Seq<u8>, b: Seq<u8>)
    requires
        a.len() >= GAMEPAD_UPDATE_SIZE,
        b.len() >= GAMEPAD_UPDATE_SIZE,
        forall|i: int| 2 <= i < 6 || 8 <= i < 20 || 22 <= i < 24 ==> a[i] == b[i],
    ensures
        GamepadUpdate::parse(a) == GamepadUpdate::parse(b),
{
}

/// A motion packet says what its fields say. The two reserved bytes and what
/// follows the packet are ignored.
pub proof fn law_motion_ignores_reserved_bytes(a: Seq<u8>, b: Seq<u8>)
    requires
        a.len() >= GAMEPAD_MOTION_SIZE,
        b.len() >= GAMEPAD_MOTION_SIZE,
        forall|i: int| 0 <= i < 2 || 4 <= i < GAMEPAD_MOTION_SIZE ==> a[i] == b[i],
    ensures
        GamepadMotion::parse(a) == GamepadMotion::parse(b),
{
}

/// A battery packet says what its first three bytes say. The padding and what
/// follows the packet are ignored.
pub proof fn law_battery_ignores_padding(a: Seq<u8>, b: Seq<u8>)
    requires
        a.len() >= GAMEPAD_BATTERY_SIZE,
        b.len() >= GAMEPAD_BATTERY_SIZE,
        forall|i: int| 0 <= i < 3 ==> a[i] == b[i],
    ensures
        GamepadBattery::parse(a) == GamepadBattery::parse(b),
{
}

/// A sent arrival packet is understood as it was meant, whatever follows it.
pub proof fn law_info_round_trip(info: GamepadInfo, tail: Seq<u8>)
    ensures
        info_packet(info).len() == GAMEPAD_INFO_SIZE,
        GamepadInfo::parse(info_packet(info) + tail) == Ok::<GamepadInfo, ()>(info),
{
    let packet = info_packet(info) + tail;
    lemma_u16_in(packet, 2, info.capabilities);
    lemma_u32_in(packet, 4, info.supported_buttons);
}

/// Whether the bits are those of a number from 0.0 to 1.0, of minus zero, or of
/// none.
pub open spec fn needs_no_clamping(bits: u32) -> bool {
    &&& bits <= 0x3f80_0000 || bits > 0x7f80_0000
    &&& bits <= 0x8000_0000 || bits > 0xff80_0000
}

/// A sent touchpad packet is understood as it was meant, when its position and
/// pressure lie in the unit interval.
pub proof fn law_touch_round_trip(touch: GamepadTouch, tail: Seq<u8>)
    requires
        needs_no_clamping(touch.x_bits),
        needs_no_clamping(touch.y_bits),
        needs_no_clamping(touch.pressure_bits),
    ensures
        touch_packet(touch).len() == GAMEPAD_TOUCH_SIZE,
        GamepadTouch::parse(touch_packet(touch) + tail) == Ok::<GamepadTouch, ()>(touch),
{
    let packet = touch_packet(touch) + tail;
    lemma_u32_in(packet, 4, touch.pointer_id);
    lemma_u32_in(packet, 8, touch.x_bits);
    lemma_u32_in(packet, 12, touch.y_bits);
    lemma_u32_in(packet, 16, touch.pressure_bits);
    law_clamping_by_bits(touch.x_bits);
    law_clamping_by_bits(touch.y_bits);
    law_clamping_by_bits(touch.pressure_bits);
}

/// A sent input packet is understood as it was meant, whatever follows it.
pub proof fn law_update_round_trip(update: GamepadUpdate, tail: Seq<u8>)
    ensures
        update_packet(update).len() == GAMEPAD_UPDATE_SIZE,
        GamepadUpdate::parse(update_packet(update) + tail) == Ok::<GamepadUpdate, ()>(update),
{
    let packet = update_packet(update) + tail;
    lemma_u16_in(packet, 2, update.index);
    lemma_u16_in(packet, 4, update.active_gamepad_mask);
    lemma_u16_in(packet, 8, (update.button_flags % 0x1_0000) as u16);
    lemma_u16_in(packet, 22, (update.button_flags / 0x1_0000) as u16);
    lemma_u16_in(packet, 12, word16(update.left_stick.0));
    lemma_u16_in(packet, 14, word16(update.left_stick.1));
    lemma_u16_in(packet, 16, word16(update.right_stick.0));
    lemma_u16_in(packet, 18, word16(update.right_stick.1));
}

/// A sent motion packet is understood as it was meant, whatever follows it.
pub proof fn law_motion_round_trip(motion: GamepadMotion, tail: Seq<u8>)
    ensures
        motion_packet(motion).len() == GAMEPAD_MOTION_SIZE,
        GamepadMotion::parse(motion_packet(motion) + tail) == Ok::<GamepadMotion, ()>(motion),
{
    let packet = motion_packet(motion) + tail;
    lemma_u32_in(packet, 4, motion.x_bits);
    lemma_u32_in(packet, 8, motion.y_bits);
    lemma_u32_in(packet, 12, motion.z_bits);
}

/// A sent battery packet is understood as it was meant, whatever follows it.
pub proof fn law_battery_round_trip(battery: GamepadBattery, tail: Seq<u8>)
    ensures
        battery_packet(battery).len() == GAMEPAD_BATTERY_SIZE,
        GamepadBattery::parse(battery_packet(battery) + tail) == Ok::<GamepadBattery, ()>(battery),
{
}

/// The position and pressure of a decoded touch are NaN or lie between zero
/// and one.
pub proof fn law_touch_lies_in_the_unit_interval(buffer: Seq<u8>)
    ensures
        GamepadTouch::parse(buffer) matches Ok(touch) ==> {
            &&& is_nan(touch.x_bits) || 0 <= order_key(touch.x_bits) <= order_key(ONE)
            &&& is_nan(touch.y_bits) || 0 <= order_key(touch.y_bits) <= order_key(ONE)
            &&& is_nan(touch.pressure_bits) || 0 <= order_key(touch.pressure_bits) <= order_key(ONE)
        },
{
}

proof fn lemma_u16_in(bytes: Seq<u8>, at: int, word: u16)
    requires
        bytes[at] == u16_bytes(word)[0],
        bytes[at + 1] == u16_bytes(word)[1],
    ensures
        u16_at(bytes, at) == word,
{
}

proof fn lemma_u32_in(bytes: Seq<u8>, at: int, word: u32)
    requires
        bytes[at] == u32_bytes(word)[0],
        bytes[at + 1] == u32_bytes(word)[1],
        bytes[at + 2] == u32_bytes(word)[2],
        bytes[at + 3] == u32_bytes(word)[3],
    ensures
        u32_at(bytes, at) == word,
{
    let low = (word % 0x1_0000) as u16;
    let high = (word / 0x1_0000) as u16;
    assert(u32_bytes(word)[0] == u16_bytes(low)[0]);
    assert(u32_bytes(word)[1] == u16_bytes(low)[1]);
    assert(u32_bytes(word)[2] == u16_bytes(high)[0]);
    assert(u32_bytes(word)[3] == u16_bytes(high)[1]);
}

/// The number that the two bytes at `at` make, least significant byte first.
pub open spec fn two_bytes(buffer: Seq<u8>, at: int) -> int {
    buffer[at] + 0x100 * buffer[at + 1]
}

/// The number that the four bytes at `at` make, least significant byte first.
pub open spec fn four_bytes(buffer: Seq<u8>, at: int) -> int {
    buffer[at] + 0x100 * buffer[at + 1] + 0x1_0000 * buffer[at + 2] + 0x100_0000 * buffer[at + 3]
}

/// Whether a signed field is what the two bytes at `at` make in two's complement.
pub open spec fn is_signed(field: i16, buffer: Seq<u8>, at: int) -> bool {
    (field - two_bytes(buffer, at)) % 0x1_0000 == 0
}

/// Whether a field is the single-precision number in the four bytes at `at`,
/// brought into 0.0 to 1.0: bit for bit where it lies there, 0.0 where it is
/// negative, 1.0 where it is greater, unchanged where it is none.
pub open spec fn is_in_unit(field: u32, buffer: Seq<u8>, at: int) -> bool {
    let sent = four_bytes(buffer, at);
    if 0x3f80_0000 < sent <= 0x7f80_0000 {
        field == 0x3f80_0000
    } else if 0x8000_0000 < sent <= 0xff80_0000 {
        field == 0
    } else {
        field == sent
    }
}

/// A touchpad packet of twenty bytes or more is decoded with the bytes of each
/// field, and position and pressure are clamped and not otherwise changed. A
/// shorter one is refused.
pub proof fn law_touch_fields(buffer: Seq<u8>)
    ensures
        buffer.len() < 20 <==> GamepadTouch::parse(buffer) is Err,
        GamepadTouch::parse(buffer) matches Ok(touch) ==> {
            &&& touch.index == buffer[0]
            &&& touch.event_type == buffer[1]
            &&& touch.pointer_id == four_bytes(buffer, 4)
            &&& is_in_unit(touch.x_bits, buffer, 8)
            &&& is_in_unit(touch.y_bits, buffer, 12)
            &&& is_in_unit(touch.pressure_bits, buffer, 16)
        },
{
    law_clamping_by_bits(u32_at(buffer, 8));
    law_clamping_by_bits(u32_at(buffer, 12));
    law_clamping_by_bits(u32_at(buffer, 16));
}

/// An arrival packet of eight bytes or more that names one of the four makes is
/// decoded with the bytes of each field. Any other is refused.
pub proof fn law_info_fields(buffer: Seq<u8>)
    ensures
        GamepadInfo::parse(buffer) is Err <==> buffer.len() < 8 || buffer[1] > 3,
        GamepadInfo::parse(buffer) matches Ok(info) ==> {
            &&& info.index == buffer[0]
            &&& match info.kind {
                GamepadKind::Unknown => buffer[1] == 0,
                GamepadKind::Xbox => buffer[1] == 1,
                GamepadKind::PlayStation => buffer[1] == 2,
                GamepadKind::Nintendo => buffer[1] == 3,
            }
            &&& info.capabilities == two_bytes(buffer, 2)
            &&& info.supported_buttons == four_bytes(buffer, 4)
        },
{
}

/// An input packet of 26 bytes or more is decoded with the bytes of each field,
/// the button flags from two words that stand apart. A shorter one is refused.
pub proof fn law_update_fields(buffer: Seq<u8>)
    ensures
        GamepadUpdate::parse(buffer) is Err <==> buffer.len() < 26,
        GamepadUpdate::parse(buffer) matches Ok(update) ==> {
            &&& update.index == two_bytes(buffer, 2)
            &&& update.active_gamepad_mask == two_bytes(buffer, 4)
            &&& update.button_flags == two_bytes(buffer, 8) + 0x1_0000 * two_bytes(buffer, 22)
            &&& update.left_trigger == buffer[10]
            &&& update.right_trigger == buffer[11]
            &&& is_signed(update.left_stick.0, buffer, 12)
            &&& is_signed(update.left_stick.1, buffer, 14)
            &&& is_signed(update.right_stick.0, buffer, 16)
            &&& is_signed(update.right_stick.1, buffer, 18)
        },
{
}

/// A motion packet of sixteen bytes or more that names one of the two sensors is
/// decoded with the bytes of each field. Any other is refused.
pub proof fn law_motion_fields(buffer: Seq<u8>)
    ensures
        GamepadMotion::parse(buffer) is Err <==> buffer.len() < 16 || buffer[1] == 0 || buffer[1]
            > 2,
        GamepadMotion::parse(buffer) matches Ok(motion) ==> {
            &&& motion.index == buffer[0]
            &&& match motion.motion_type {
                MotionType::Acceleration => buffer[1] == 1,
                MotionType::Gyroscope => buffer[1] == 2,
            }
            &&& motion.x_bits == four_bytes(buffer, 4)
            &&& motion.y_bits == four_bytes(buffer, 8)
            &&& motion.z_bits == four_bytes(buffer, 12)
        },
{
}

/// A battery packet of four bytes or more that names one of the seven states is
/// decoded with the bytes of each field. Any other is refused.
pub proof fn law_battery_fields(buffer: Seq<u8>)
    ensures
        GamepadBattery::parse(buffer) is Err <==> buffer.len() < 4 || 5 < buffer[1] < 255,
        GamepadBattery::parse(buffer) matches Ok(battery) ==> {
            &&& battery.index == buffer[0]
            &&& match battery.battery_state {
                BatteryState::Unknown => buffer[1] == 0,
                BatteryState::NotPresent => buffer[1] == 1,
                BatteryState::Discharging => buffer[1] == 2,
                BatteryState::Charging => buffer[1] == 3,
                BatteryState::NotCharging => buffer[1] == 4,
                BatteryState::Full => buffer[1] == 5,
                BatteryState::PercentageUnknown => buffer[1] == 255,
            }
            &&& battery.battery_percentage == buffer[2]
        },
{
}

/// The number that decodes to a value is the number that the value encodes to,
/// for every sensor, make and state, and it is the one of the wire protocol.
pub proof fn law_numbers_are_those_of_the_wire(
    motion: MotionType,
    kind: GamepadKind,
    state: BatteryState,
)
    ensures
        motion.repr() == (match motion {
            MotionType::Acceleration => 1int,
            MotionType::Gyroscope => 2,
        }),
        kind.repr() == (match kind {
            GamepadKind::Unknown => 0int,
            GamepadKind::Xbox => 1,
            GamepadKind::PlayStation => 2,
            GamepadKind::Nintendo => 3,
        }),
        state.repr() == (match state {
            BatteryState::Unknown => 0int,
            BatteryState::NotPresent => 1,
            BatteryState::Discharging => 2,
            BatteryState::Charging => 3,
            BatteryState::NotCharging => 4,
            BatteryState::Full => 5,
            BatteryState::PercentageUnknown => 255,
        }),
{
}

} // verus!
