//! What holds of every call that decodes a packet or answers a gamepad, whatever
//! it is called with.

use crate::float::law_above_one_half_by_bits;
use crate::gamepad::backend_freebsd::{
    axis_map, button_map, button_report, setup, setup_requests, teardown, ui_abs_setup, ui_dev_create,
    ui_dev_destroy, ui_dev_setup, ui_set_absbit, ui_set_evbit, ui_set_keybit, views, Axis,
    InputEvent, Request, UinputAbsSetup, UinputSetup,
};
use crate::gamepad::backend_freebsd_laws::{
    holds_integer, holds_word, law_device_record_layout, law_each_axis_has_its_range,
    law_each_control_drives_its_axis, law_each_flag_drives_its_button, law_event_record_layout,
    law_range_record_layout, law_reports_are_closed_once, law_reports_are_in_order,
    law_the_dpad_drives_the_hats, law_warnings_name_the_gamepad, place,
};
use crate::gamepad::backend_inputtino::{
    definition, law_address_ends_in_the_number, led_command, rumble_command,
    trigger_effect_command, BatteryCall, DeviceDefinition, JoypadUpdate, MotionCall, TouchCall,
    Trigger,
};
use crate::gamepad::feedback::{EnableMotionEventCommand, FeedbackCommand};
use crate::gamepad::laws::{
    four_bytes, is_in_unit, is_signed, law_battery_fields, law_info_fields, law_motion_fields,
    law_touch_fields, law_update_fields, two_bytes,
};
use crate::gamepad::refusals::{
    battery_refusal, info_refusal, law_refusals_say_what_is_wrong, motion_refusal, touch_refusal,
    update_refusal,
};
use crate::gamepad::{
    backend_freebsd, backend_inputtino, backend_stub, BatteryState, GamepadBattery,
    GamepadCapability, GamepadConfig, GamepadInfo, GamepadKind, GamepadMotion, GamepadTouch,
    GamepadUpdate, HomeButtonConfig, MotionType,
};
use crate::text::{law_written_numbers_read_back, worth, written};
use vstd::prelude::*;

verus! {

// ---------------------------------------------------------------------------
// Packets
// ---------------------------------------------------------------------------

/// Decoding an arrival packet gives its bytes, field by field, or refuses it.
pub proof fn law_info_is_decoded(buffer: &[u8], result: Result<GamepadInfo, ()>)
    requires
        call_ensures(GamepadInfo::from_bytes, (buffer,), result),
    ensures
        result is Err <==> buffer@.len() < 8 || buffer@[1] > 3,
        result matches Ok(info) ==> info.index == buffer@[0] && info.capabilities == two_bytes(
            buffer@,
            2,
        ) && info.supported_buttons == four_bytes(buffer@, 4) && (info.kind is Unknown <==>
            buffer@[1] == 0) && (info.kind is Xbox <==> buffer@[1] == 1) && (info.kind
            is PlayStation <==> buffer@[1] == 2) && (info.kind is Nintendo <==> buffer@[1] == 3),
{
    law_info_fields(buffer@);
}

/// Decoding a touchpad packet gives its bytes, field by field, with position and
/// pressure brought into 0.0 to 1.0, or refuses it.
pub proof fn law_touch_is_decoded(buffer: &[u8], result: Result<GamepadTouch, ()>)
    requires
        call_ensures(GamepadTouch::from_bytes, (buffer,), result),
    ensures
        result is Err <==> buffer@.len() < 20,
        result matches Ok(touch) ==> touch.index == buffer@[0] && touch.event_type == buffer@[1]
            && touch.pointer_id == four_bytes(buffer@, 4) && is_in_unit(touch.x_bits, buffer@, 8)
            && is_in_unit(touch.y_bits, buffer@, 12) && is_in_unit(
            touch.pressure_bits,
            buffer@,
            16,
        ),
{
    law_touch_fields(buffer@);
}

/// Decoding an input packet gives its bytes, field by field, or refuses it.
pub proof fn law_update_is_decoded(buffer: &[u8], result: Result<GamepadUpdate, ()>)
    requires
        call_ensures(GamepadUpdate::from_bytes, (buffer,), result),
    ensures
        result is Err <==> buffer@.len() < 26,
        result matches Ok(update) ==> update.index == two_bytes(buffer@, 2)
            && update.active_gamepad_mask == two_bytes(buffer@, 4) && update.button_flags
            == two_bytes(buffer@, 8) + 0x1_0000 * two_bytes(buffer@, 22) && update.left_trigger
            == buffer@[10] && update.right_trigger == buffer@[11] && is_signed(
            update.left_stick.0,
            buffer@,
            12,
        ) && is_signed(update.left_stick.1, buffer@, 14) && is_signed(
            update.right_stick.0,
            buffer@,
            16,
        ) && is_signed(update.right_stick.1, buffer@, 18),
{
    law_update_fields(buffer@);
}

/// Decoding a motion packet gives its bytes, field by field, or refuses it.
pub proof fn law_motion_is_decoded(buffer: &[u8], result: Result<GamepadMotion, ()>)
    requires
        call_ensures(GamepadMotion::from_bytes, (buffer,), result),
    ensures
        result is Err <==> buffer@.len() < 16 || buffer@[1] == 0 || buffer@[1] > 2,
        result matches Ok(motion) ==> motion.index == buffer@[0] && (motion.motion_type
            is Acceleration <==> buffer@[1] == 1) && motion.x_bits == four_bytes(buffer@, 4)
            && motion.y_bits == four_bytes(buffer@, 8) && motion.z_bits == four_bytes(buffer@, 12),
{
    law_motion_fields(buffer@);
}

/// Decoding a battery packet gives its bytes, field by field, or refuses it.
pub proof fn law_battery_is_decoded(buffer: &[u8], result: Result<GamepadBattery, ()>)
    requires
        call_ensures(GamepadBattery::from_bytes, (buffer,), result),
    ensures
        result is Err <==> buffer@.len() < 4 || 5 < buffer@[1] < 255,
        result matches Ok(battery) ==> battery.index == buffer@[0] && battery.battery_percentage
            == buffer@[2] && (battery.battery_state is Discharging <==> buffer@[1] == 2) && (
        battery.battery_state is Charging <==> buffer@[1] == 3) && (battery.battery_state is Full
            <==> buffer@[1] == 5) && (battery.battery_state is NotPresent <==> buffer@[1] == 1) && (
        battery.battery_state is NotCharging <==> buffer@[1] == 4) && (battery.battery_state
            is Unknown <==> buffer@[1] == 0),
{
    law_battery_fields(buffer@);
}

/// A feature was announced exactly when its bit is set.
pub proof fn law_features_are_bits(info: GamepadInfo, capability: GamepadCapability, has: bool)
    requires
        call_ensures(GamepadInfo::has_capability, (&info, &capability), has),
    ensures
        has <==> match capability {
            GamepadCapability::AnalogTriggers => info.capabilities & 0x01 != 0,
            GamepadCapability::Rumble => info.capabilities & 0x02 != 0,
            GamepadCapability::TriggerRumble => info.capabilities & 0x04 != 0,
            GamepadCapability::Touchpad => info.capabilities & 0x08 != 0,
            GamepadCapability::Acceleration => info.capabilities & 0x10 != 0,
            GamepadCapability::Gyro => info.capabilities & 0x20 != 0,
            GamepadCapability::BatteryState => info.capabilities & 0x40 != 0,
            GamepadCapability::RgbLed => info.capabilities & 0x80 != 0,
        },
{
}

/// A gamepad that never announced itself is known by its index alone, and the
/// buttons of an update are those that it was sent with.
pub proof fn law_unannounced_and_held(
    index: u8,
    info: GamepadInfo,
    update: GamepadUpdate,
    flags: u32,
)
    requires
        call_ensures(GamepadInfo::default_for_index, (index,), info),
        call_ensures(GamepadUpdate::button_flags, (&update,), flags),
    ensures
        info.index == index && info.kind is Unknown && info.capabilities == 0
            && info.supported_buttons == 0,
        flags == update.button_flags,
{
}

/// Makes, sensors and charges are told by their numbers, and other numbers are
/// refused. A feature has its bit.
pub proof fn law_numbers_are_told_apart(
    value: u8,
    motion: Option<MotionType>,
    kind: Option<GamepadKind>,
    state: Option<BatteryState>,
    sensor: MotionType,
    number: u8,
    capability: GamepadCapability,
    bit: u16,
)
    requires
        call_ensures(MotionType::from_repr, (value,), motion),
        call_ensures(GamepadKind::from_repr, (value,), kind),
        call_ensures(BatteryState::from_repr, (value,), state),
        call_ensures(MotionType::to_repr, (sensor,), number),
        call_ensures(GamepadCapability::bit, (capability,), bit),
    ensures
        motion is None <==> value == 0 || value > 2,
        motion is Some ==> (motion->0 is Acceleration <==> value == 1),
        number == 1 <==> sensor is Acceleration,
        number == 2 <==> sensor is Gyroscope,
        kind is None <==> value > 3,
        kind matches Some(make) ==> (make is Unknown <==> value == 0) && (make is Xbox <==> value
            == 1) && (make is PlayStation <==> value == 2) && (make is Nintendo <==> value == 3),
        state is None <==> 5 < value < 255,
        state matches Some(charge) ==> (charge is Unknown <==> value == 0) && (charge is NotPresent
            <==> value == 1) && (charge is Discharging <==> value == 2) && (charge is Charging <==>
            value == 3) && (charge is NotCharging <==> value == 4) && (charge is Full <==> value
            == 5) && (charge is PercentageUnknown <==> value == 255),
        bit == (match capability {
            GamepadCapability::AnalogTriggers => 1int,
            GamepadCapability::Rumble => 2,
            GamepadCapability::TriggerRumble => 4,
            GamepadCapability::Touchpad => 8,
            GamepadCapability::Acceleration => 16,
            GamepadCapability::Gyro => 32,
            GamepadCapability::BatteryState => 64,
            GamepadCapability::RgbLed => 128,
        }),
{
}

/// A home button that is not configured is not held, not suppressed, and rumbles for
/// 50 ms at one half.
pub proof fn law_the_home_button_is_not_configured(
    button: HomeButtonConfig,
    config: GamepadConfig,
)
    requires
        call_ensures(HomeButtonConfig::default, (), button),
        call_ensures(GamepadConfig::default, (), config),
    ensures
        config.home_button == button,
        button.hold_ms == 0 && button.rumble_duration_ms == 50 && button.rumble_intensity_bits
            == 0x3fe0_0000_0000_0000 && !button.suppress_home,
{
}

/// A packet is refused, with a text that says why, exactly when it is not decoded.
pub proof fn law_refused_packets_are_told_of(
    buffer: &[u8],
    info: Option<String>,
    touch: Option<String>,
    update: Option<String>,
    motion: Option<String>,
    battery: Option<String>,
)
    requires
        call_ensures(info_refusal, (buffer,), info),
        call_ensures(touch_refusal, (buffer,), touch),
        call_ensures(update_refusal, (buffer,), update),
        call_ensures(motion_refusal, (buffer,), motion),
        call_ensures(battery_refusal, (buffer,), battery),
    ensures
        info is Some <==> buffer@.len() < 8 || buffer@[1] > 3,
        touch is Some <==> buffer@.len() < 20,
        update is Some <==> buffer@.len() < 26,
        motion is Some <==> buffer@.len() < 16 || buffer@[1] == 0 || buffer@[1] > 2,
        battery is Some <==> buffer@.len() < 4 || 5 < buffer@[1] < 255,
        ({
            let got = ", got "@ + written(buffer@.len(), 10) + " bytes."@;
            let value = written(buffer@[1] as nat, 10);
            let asked = "Expected at least "@;
            &&& info matches Some(text) ==> text@ == (if buffer@.len() < 8 {
                asked + written(8, 10) + " bytes for "@ + "GamepadInfo"@ + got
            } else {
                "Unknown "@ + "gamepad kind"@ + ": "@ + value
            })
            &&& touch matches Some(text) ==> text@ == asked + written(20, 10) + " bytes for "@
                + "GamepadTouch"@ + got
            &&& update matches Some(text) ==> text@ == asked + written(26, 10) + " bytes for "@
                + "GamepadUpdate"@ + got
            &&& motion matches Some(text) ==> text@ == (if buffer@.len() < 16 {
                asked + written(16, 10) + " bytes for "@ + "GamepadMotion"@ + got
            } else {
                "Unknown "@ + "gamepad motion type"@ + ": "@ + value
            })
            &&& battery matches Some(text) ==> text@ == (if buffer@.len() < 4 {
                asked + written(4, 10) + " bytes for "@ + "GamepadBattery"@ + got
            } else {
                "Unknown "@ + "battery state"@ + ": "@ + value
            })
        }),
{
    law_refusals_say_what_is_wrong(buffer@);
}

// ---------------------------------------------------------------------------
// FreeBSD
// ---------------------------------------------------------------------------

/// A press or release of the buttons is reported on the device: each button whose
/// flag changed, each hat of which a button changed, and the end of the report.
/// The pad then has the new buttons on record, and is otherwise unchanged.
pub proof fn law_buttons_are_reported(
    pad: &mut backend_freebsd::Gamepad,
    flags: u32,
    events: Vec<InputEvent>,
    value: i32,
)
    requires
        call_ensures(backend_freebsd::Gamepad::set_pressed, (pad, flags), events),
    ensures
        ({
            let was = old(pad).pressed;
            let held = if value == 1 {
                flags
            } else {
                was
            };
            &&& value == 0 || value == 1 ==> {
                let other = if value == 1 {
                    was
                } else {
                    flags
                };
                &&& events@.contains(InputEvent { type_: 1, code: 0x130, value }) <==> held & 0x1000
                    != 0 && other & 0x1000 == 0
                &&& events@.contains(InputEvent { type_: 1, code: 0x131, value }) <==> held & 0x2000
                    != 0 && other & 0x2000 == 0
                &&& events@.contains(InputEvent { type_: 1, code: 0x133, value }) <==> held & 0x4000
                    != 0 && other & 0x4000 == 0
                &&& events@.contains(InputEvent { type_: 1, code: 0x134, value }) <==> held & 0x8000
                    != 0 && other & 0x8000 == 0
                &&& events@.contains(InputEvent { type_: 1, code: 0x136, value }) <==> held & 0x100
                    != 0 && other & 0x100 == 0
                &&& events@.contains(InputEvent { type_: 1, code: 0x137, value }) <==> held & 0x200
                    != 0 && other & 0x200 == 0
                &&& events@.contains(InputEvent { type_: 1, code: 0x13a, value }) <==> held & 0x20
                    != 0 && other & 0x20 == 0
                &&& events@.contains(InputEvent { type_: 1, code: 0x13b, value }) <==> held & 0x10
                    != 0 && other & 0x10 == 0
                &&& events@.contains(InputEvent { type_: 1, code: 0x13c, value }) <==> held & 0x400
                    != 0 && other & 0x400 == 0
                &&& events@.contains(InputEvent { type_: 1, code: 0x13d, value }) <==> held & 0x40
                    != 0 && other & 0x40 == 0
                &&& events@.contains(InputEvent { type_: 1, code: 0x13e, value }) <==> held & 0x80
                    != 0 && other & 0x80 == 0
            }
        }),
        events@.last() == (InputEvent { type_: 0, code: 0, value: 0 }),
        final(pad).pressed == flags,
        final(pad).index == old(pad).index,
        final(pad).warned == old(pad).warned,
{
    law_each_flag_drives_its_button(old(pad).pressed, flags, value, 0);
    law_reports_are_closed_once(
        old(pad).pressed,
        flags,
        GamepadUpdate {
            index: 0,
            active_gamepad_mask: 0,
            button_flags: 0,
            left_trigger: 0,
            right_trigger: 0,
            left_stick: (0, 0),
            right_stick: (0, 0),
        },
    );
}

/// The buttons are reported in the order in which they were declared, before the
/// hats, and the vertical hat before the horizontal one. Nothing else is reported.
pub proof fn law_buttons_are_reported_in_order(
    pad: &mut backend_freebsd::Gamepad,
    flags: u32,
    events: Vec<InputEvent>,
    i: int,
    j: int,
)
    requires
        call_ensures(backend_freebsd::Gamepad::set_pressed, (pad, flags), events),
    ensures
        0 <= i < j < events@.len() ==> place(events@[i]) < place(events@[j]),
        events@.len() <= 14,
        0 <= i < events@.len() && events@[i].type_ == 3 ==> events@[i].code == 0x10
            || events@[i].code == 0x11,
{
    let n = events@.len() as int;
    if 0 <= i < j < n {
        law_reports_are_in_order(old(pad).pressed, flags, i, j);
    }
    if 0 <= i < n {
        assert(events@.contains(events@[i]));
        law_the_dpad_drives_the_hats(
            old(pad).pressed,
            flags,
            events@[i].value,
            events@[i].code,
        );
    }
    lemma_few_events(old(pad).pressed, flags, n);
}

/// Places rise from event to event, so there are no more events than places.
proof fn lemma_few_events(old_flags: u32, new_flags: u32, n: int)
    requires
        0 <= n <= button_report(old_flags, new_flags).len(),
    ensures
        n > 0 ==> place(button_report(old_flags, new_flags)[n - 1]) >= n - 1,
        n <= 14,
    decreases n,
{
    if n > 0 {
        lemma_few_events(old_flags, new_flags, n - 1);
        if n > 1 {
            law_reports_are_in_order(old_flags, new_flags, n - 2, n - 1);
        }
    }
}

/// The hats of the device follow the dpad.
pub proof fn law_the_dpad_is_reported(
    pad: &mut backend_freebsd::Gamepad,
    flags: u32,
    events: Vec<InputEvent>,
    value: i32,
)
    requires
        call_ensures(backend_freebsd::Gamepad::set_pressed, (pad, flags), events),
    ensures
        events@.contains(InputEvent { type_: 3, code: 0x11, value }) <==> ((old(pad).pressed & 1
            != 0) != (flags & 1 != 0) || (old(pad).pressed & 2 != 0) != (flags & 2 != 0)) && value
            == (if flags & 1 != 0 {
            -1int
        } else if flags & 2 != 0 {
            1
        } else {
            0
        }),
        events@.contains(InputEvent { type_: 3, code: 0x10, value }) <==> ((old(pad).pressed & 4
            != 0) != (flags & 4 != 0) || (old(pad).pressed & 8 != 0) != (flags & 8 != 0)) && value
            == (if flags & 4 != 0 {
            -1int
        } else if flags & 8 != 0 {
            1
        } else {
            0
        }),
{
    law_the_dpad_drives_the_hats(old(pad).pressed, flags, value, 0);
}

/// Sticks and triggers are reported each on its axis, and nothing else is.
pub proof fn law_axes_are_reported(
    pad: backend_freebsd::Gamepad,
    update: GamepadUpdate,
    events: Vec<InputEvent>,
    event: InputEvent,
)
    requires
        call_ensures(backend_freebsd::Gamepad::apply_update, (&pad, &update), events),
    ensures
        events@.len() == 7,
        events@[0].code == 0 && events@[1].code == 1 && events@[2].code == 3 && events@[3].code
            == 4 && events@[4].code == 2 && events@[5].code == 5,
        events@[6] == (InputEvent { type_: 0, code: 0, value: 0 }),
        events@.contains(event) <==> {
            ||| event.type_ == 3 && event.code == 0 && event.value == update.left_stick.0
            ||| event.type_ == 3 && event.code == 1 && event.value == -update.left_stick.1
            ||| event.type_ == 3 && event.code == 3 && event.value == update.right_stick.0
            ||| event.type_ == 3 && event.code == 4 && event.value == -update.right_stick.1
            ||| event.type_ == 3 && event.code == 2 && event.value == update.left_trigger
            ||| event.type_ == 3 && event.code == 5 && event.value == update.right_trigger
            ||| event.type_ == 0 && event.code == 0 && event.value == 0
        },
{
    law_each_control_drives_its_axis(update, event);
}

/// A new pad holds nothing, and bringing a device up makes the requests of the
/// setup, each once and in order. An open device is destroyed, another is not.
pub proof fn law_a_device_is_brought_up_and_taken_down(
    info: GamepadInfo,
    pad: backend_freebsd::Gamepad,
    requests: Vec<Request>,
    fd: i32,
    request: Option<Request>,
)
    requires
        call_ensures(backend_freebsd::Gamepad::new, (&info,), pad),
        call_ensures(setup, (), requests),
        call_ensures(teardown, (fd,), request),
    ensures
        pad.index == info.index && pad.pressed == 0 && !pad.warned,
        views(requests@) == setup_requests(),
        requests@.len() == 32,
        request is Some <==> fd >= 0,
        request matches Some(destroy) ==> destroy.number == 0x2000_5502 && destroy.argument
            is Nothing,
{
    law_each_axis_has_its_range();
}

/// The record of an event holds its fields at the places that the system has for
/// them.
pub proof fn law_events_are_laid_out(event: InputEvent, bytes: Vec<u8>)
    requires
        call_ensures(InputEvent::to_bytes, (&event,), bytes),
    ensures
        bytes@.len() == 24,
        forall|i: int| 0 <= i < 16 ==> bytes@[i] == 0,
        holds_word(bytes@, 16, event.type_ as int),
        holds_word(bytes@, 18, event.code as int),
        holds_integer(bytes@, 20, event.value as int),
{
    law_event_record_layout(event);
}

/// The record of an axis holds its fields at the places that the system has for
/// them.
pub proof fn law_ranges_are_laid_out(range: UinputAbsSetup, bytes: Vec<u8>)
    requires
        call_ensures(UinputAbsSetup::to_bytes, (&range,), bytes),
    ensures
        bytes@.len() == 28,
        holds_word(bytes@, 0, range.code as int),
        holds_word(bytes@, 2, 0),
        holds_integer(bytes@, 4, range.absinfo.value as int),
        holds_integer(bytes@, 8, range.absinfo.minimum as int),
        holds_integer(bytes@, 12, range.absinfo.maximum as int),
        holds_integer(bytes@, 16, range.absinfo.fuzz as int),
        holds_integer(bytes@, 20, range.absinfo.flat as int),
        holds_integer(bytes@, 24, range.absinfo.resolution as int),
{
    law_range_record_layout(range);
}

/// The record of a device holds its fields at the places that the system has for
/// them.
pub proof fn law_devices_are_laid_out(device: UinputSetup, bytes: Vec<u8>)
    requires
        device.wf(),
        call_ensures(UinputSetup::to_bytes, (&device,), bytes),
    ensures
        bytes@.len() == 92,
        holds_word(bytes@, 0, device.id.bustype as int),
        holds_word(bytes@, 2, device.id.vendor as int),
        holds_word(bytes@, 4, device.id.product as int),
        holds_word(bytes@, 6, device.id.version as int),
        forall|i: int| 0 <= i < 80 ==> bytes@[8 + i] == #[trigger] device.name@[i],
        holds_integer(bytes@, 88, device.ff_effects_max as int),
{
    law_device_record_layout(device);
}

/// The first request for something that a pad does not have gives a warning that
/// names the pad and what is missing. Later ones give none, and nothing else
/// changes.
pub proof fn law_a_pad_warns_once(
    pad: &mut backend_freebsd::Gamepad,
    anything: &str,
    touch: &GamepadTouch,
    motion: &GamepadMotion,
    battery: &GamepadBattery,
    what: Seq<char>,
    warning: Option<String>,
)
    requires
        (call_ensures(backend_freebsd::Gamepad::warn_once, (pad, anything), warning) && what
            == anything@) || (call_ensures(backend_freebsd::Gamepad::touch, (pad, touch), warning)
            && what == "touchpad events"@) || (call_ensures(
            backend_freebsd::Gamepad::set_motion,
            (pad, motion),
            warning,
        ) && what == "motion events"@) || (call_ensures(
            backend_freebsd::Gamepad::set_battery,
            (pad, battery),
            warning,
        ) && what == "battery reports"@),
    ensures
        warning is Some <==> !old(pad).warned,
        final(pad).warned,
        final(pad).pressed == old(pad).pressed,
        final(pad).index == old(pad).index,
        warning matches Some(text) ==> text@ == "Gamepad "@ + (written(old(pad).index as nat, 10)
            + " "@ + what + " not supported by the FreeBSD backend (core pad only)."@),
        worth(written(old(pad).index as nat, 10), 10) == old(pad).index,
{
    law_warnings_name_the_gamepad(old(pad).index, what);
    if let Some(text) = warning {
        reveal_strlit("Gamepad ");
        assert(text@ =~= text@.take(8) + text@.skip(8));
    }
}

/// The buttons and the axes of the pad, each once, and the range of each axis.
pub proof fn law_buttons_and_axes_are_mapped(
    map: Vec<(u32, u16)>,
    axes: Vec<Axis>,
    flag: u32,
    code: u16,
    axis: Axis,
)
    requires
        call_ensures(button_map, (), map),
        call_ensures(axis_map, (), axes),
    ensures
        map@.len() == 11,
        map@.contains((flag, code)) <==> {
            ||| flag == 0x10 && code == 0x13b
            ||| flag == 0x20 && code == 0x13a
            ||| flag == 0x40 && code == 0x13d
            ||| flag == 0x80 && code == 0x13e
            ||| flag == 0x100 && code == 0x136
            ||| flag == 0x200 && code == 0x137
            ||| flag == 0x400 && code == 0x13c
            ||| flag == 0x1000 && code == 0x130
            ||| flag == 0x2000 && code == 0x131
            ||| flag == 0x4000 && code == 0x133
            ||| flag == 0x8000 && code == 0x134
        },
        axes@.len() == 8,
        axes@.contains(axis) <==> {
            ||| (axis.code == 0x10 || axis.code == 0x11) && axis.minimum == -1 && axis.maximum == 1
                && axis.fuzz == 0 && axis.flat == 0
            ||| (axis.code == 0 || axis.code == 1 || axis.code == 3 || axis.code == 4)
                && axis.minimum == -32768 && axis.maximum == 32767 && axis.fuzz == 16 && axis.flat
                == 128
            ||| (axis.code == 2 || axis.code == 5) && axis.minimum == 0 && axis.maximum == 255
                && axis.fuzz == 0 && axis.flat == 0
        },
{
    assert(map@[0].0 > 0 && map@[1].0 > 0 && map@[2].0 > 0 && map@[3].0 > 0 && map@[4].0 > 0
        && map@[5].0 > 0 && map@[6].0 > 0 && map@[7].0 > 0 && map@[8].0 > 0 && map@[9].0 > 0
        && map@[10].0 > 0);
    assert(axes@[0].maximum > 0 && axes@[1].maximum > 0 && axes@[2].maximum > 0 && axes@[3].maximum
        > 0 && axes@[4].maximum > 0 && axes@[5].maximum > 0 && axes@[6].maximum > 0
        && axes@[7].maximum > 0);
}

/// The requests of a device belong to one group. Creating and destroying it take no
/// parameter, a record is handed in with its size, a bit with the size of an
/// integer.
pub proof fn law_requests_of_a_device_are_numbered(
    create: u64,
    destroy: u64,
    device: u64,
    range: u64,
    event_bit: u64,
    key_bit: u64,
    axis_bit: u64,
)
    requires
        call_ensures(ui_dev_create, (), create),
        call_ensures(ui_dev_destroy, (), destroy),
        call_ensures(ui_dev_setup, (), device),
        call_ensures(ui_abs_setup, (), range),
        call_ensures(ui_set_evbit, (), event_bit),
        call_ensures(ui_set_keybit, (), key_bit),
        call_ensures(ui_set_absbit, (), axis_bit),
    ensures
        create == 0x2000_0000 + 0x5500 + 1,
        destroy == 0x2000_0000 + 0x5500 + 2,
        device == 0x8000_0000 + 92 * 0x1_0000 + 0x5500 + 3,
        range == 0x8000_0000 + 28 * 0x1_0000 + 0x5500 + 4,
        event_bit == 0x2000_0000 + 4 * 0x1_0000 + 0x5500 + 100,
        key_bit == 0x2000_0000 + 4 * 0x1_0000 + 0x5500 + 101,
        axis_bit == 0x2000_0000 + 4 * 0x1_0000 + 0x5500 + 103,
{
}

// ---------------------------------------------------------------------------
// Linux
// ---------------------------------------------------------------------------

/// Callbacks of a joypad are answered with the gamepad's number and the low bits
/// of what they were called with.
pub proof fn law_callbacks_are_answered(
    index: u8,
    red: i32,
    green: i32,
    blue: i32,
    light: FeedbackCommand,
    low: i32,
    high: i32,
    rumble: FeedbackCommand,
)
    requires
        call_ensures(led_command, (index, red, green, blue), light),
        call_ensures(rumble_command, (index, low, high), rumble),
    ensures
        light matches FeedbackCommand::SetLed(led) && led.id == index && (red - led.rgb.0) % 256
            == 0 && (green - led.rgb.1) % 256 == 0 && (blue - led.rgb.2) % 256 == 0,
        rumble matches FeedbackCommand::Rumble(motors) && motors.id == index && (low
            - motors.low_frequency) % 0x1_0000 == 0 && (high - motors.high_frequency) % 0x1_0000
            == 0,
{
}

/// Trigger effects of ten bytes each are passed on whole; others are not, and the
/// left one is blamed first.
pub proof fn law_trigger_effects_are_passed_on(
    index: u8,
    flags: u8,
    type_left: u8,
    type_right: u8,
    left: &[u8],
    right: &[u8],
    result: Result<FeedbackCommand, Trigger>,
)
    requires
        call_ensures(
            trigger_effect_command,
            (index, flags, type_left, type_right, left, right),
            result,
        ),
    ensures
        result == Err::<FeedbackCommand, Trigger>(Trigger::Left) <==> left@.len() != 10,
        result == Err::<FeedbackCommand, Trigger>(Trigger::Right) <==> left@.len() == 10
            && right@.len() != 10,
        result matches Ok(sent) ==> (sent matches FeedbackCommand::TriggerEffect(effect)
            && effect.id == index && effect.trigger_event_flags == flags && effect.type_left
            == type_left && effect.type_right == type_right && effect.left@ == left@
            && effect.right@ == right@),
{
}

/// Buttons, sticks and triggers reach the joypad as they were sent.
pub proof fn law_controls_reach_the_joypad(
    gamepad: backend_inputtino::Gamepad,
    flags: u32,
    word: i32,
    update: GamepadUpdate,
    call: JoypadUpdate,
)
    requires
        call_ensures(backend_inputtino::Gamepad::set_pressed, (&gamepad, flags), word),
        call_ensures(backend_inputtino::Gamepad::apply_update, (&gamepad, &update), call),
    ensures
        (word - flags) % 0x1_0000_0000 == 0,
        call.left_stick == update.left_stick,
        call.right_stick == update.right_stick,
        call.left_trigger == update.left_trigger,
        call.right_trigger == update.right_trigger,
{
}

/// A finger is placed, where it was sent, while its pressure is above 0.5, and
/// released otherwise; motion and battery are passed on; all of it on a joypad
/// that stands for a PlayStation gamepad, and on no other.
pub proof fn law_touch_motion_and_battery_reach_the_joypad(
    gamepad: backend_inputtino::Gamepad,
    touch: GamepadTouch,
    touched: Option<TouchCall>,
    motion: GamepadMotion,
    moved: Option<MotionCall>,
    battery: GamepadBattery,
    charged: Option<BatteryCall>,
)
    requires
        call_ensures(backend_inputtino::Gamepad::touch, (&gamepad, &touch), touched),
        call_ensures(backend_inputtino::Gamepad::set_motion, (&gamepad, &motion), moved),
        call_ensures(backend_inputtino::Gamepad::set_battery, (&gamepad, &battery), charged),
    ensures
        touched is None <==> !(gamepad.joypad is PS5),
        touched matches Some(TouchCall::PlaceFinger { pointer_id, x_bits, y_bits }) ==> pointer_id
            == touch.pointer_id && x_bits == touch.x_bits && y_bits == touch.y_bits && 0x3f00_0000
            < touch.pressure_bits <= 0x7f80_0000,
        touched matches Some(TouchCall::ReleaseFinger { pointer_id }) ==> pointer_id
            == touch.pointer_id && !(0x3f00_0000 < touch.pressure_bits <= 0x7f80_0000),
        moved is None <==> !(gamepad.joypad is PS5),
        moved matches Some(call) ==> call.motion_type == motion.motion_type && call.x_bits
            == motion.x_bits && call.y_bits == motion.y_bits && call.z_bits == motion.z_bits,
        charged is Some <==> gamepad.joypad is PS5 && (battery.battery_state is Discharging
            || battery.battery_state is Charging || battery.battery_state is Full),
        charged matches Some(call) ==> call.percentage == battery.battery_percentage && (call.state
            is Discharging <==> battery.battery_state is Discharging) && (call.state is Full <==>
            battery.battery_state is Full),
{
    law_above_one_half_by_bits(touch.pressure_bits);
}

/// A charge that is not known is warned of on a joypad that would show it.
pub proof fn law_an_unknown_charge_is_warned_of(
    gamepad: backend_inputtino::Gamepad,
    battery: GamepadBattery,
    warning: Option<String>,
)
    requires
        call_ensures(backend_inputtino::Gamepad::battery_warning, (&gamepad, &battery), warning),
    ensures
        warning is Some <==> gamepad.joypad is PS5 && battery.battery_state is PercentageUnknown,
        warning matches Some(text) ==> text@ == "Unknown battery state: PercentageUnknown"@,
{
}

/// A gamepad is stood for by the joypad of its make, under its own number. Only a
/// PlayStation one calls back about light and effects, and asks for both motion
/// sensors.
pub proof fn law_a_gamepad_is_stood_for(
    info: GamepadInfo,
    gamepad: backend_inputtino::Gamepad,
    has: bool,
    commands: Vec<FeedbackCommand>,
    plan: DeviceDefinition,
)
    requires
        call_ensures(backend_inputtino::Gamepad::new, (&info,), gamepad),
        call_ensures(backend_inputtino::Gamepad::has_light_and_effects, (&gamepad,), has),
        call_ensures(backend_inputtino::Gamepad::greeting, (&gamepad,), commands),
        call_ensures(definition, (&info,), plan),
    ensures
        gamepad.index == info.index,
        gamepad.joypad is PS5 <==> info.kind is PlayStation,
        gamepad.joypad is Switch <==> info.kind is Nintendo,
        has <==> info.kind is PlayStation,
        !(info.kind is PlayStation) ==> commands@.len() == 0,
        info.kind is PlayStation ==> commands@ == seq![
            FeedbackCommand::EnableMotionEvent(
                EnableMotionEventCommand {
                    id: info.index as u16,
                    report_rate: 100,
                    motion_type: 1,
                },
            ),
            FeedbackCommand::EnableMotionEvent(
                EnableMotionEventCommand {
                    id: info.index as u16,
                    report_rate: 100,
                    motion_type: 2,
                },
            ),
        ],
        plan.device_phys@ == plan.device_uniq@,
        worth(plan.device_uniq@.skip(12), 16) == info.index,
        plan.device_uniq@.take(12) == "00:11:22:33:"@,
        match info.kind {
            GamepadKind::PlayStation => plan.name@ == "Moonshine PS5 controller"@ && plan.vendor_id
                == 0x054c && plan.product_id == 0x0ce6 && plan.version == 0x8111,
            GamepadKind::Nintendo => plan.name@ == "Moonshine Switch controller"@ && plan.vendor_id
                == 0x057e && plan.product_id == 0x2009 && plan.version == 0x8111,
            _ => plan.name@ == "Moonshine XOne controller"@ && plan.vendor_id == 0x045e
                && plan.product_id == 0x02dd && plan.version == 0x0100,
        },
{
    law_address_ends_in_the_number(info.index);
}

// ---------------------------------------------------------------------------
// Elsewhere
// ---------------------------------------------------------------------------

/// Where there are no virtual devices a gamepad is announced as dropped under its
/// number, and says nothing more, whatever it is told.
pub proof fn law_a_stub_is_announced_and_silent(
    info: GamepadInfo,
    made: (backend_stub::Gamepad, String),
)
    requires
        call_ensures(backend_stub::Gamepad::new, (&info,), made),
    ensures
        made.0.index == info.index && made.0.warned,
        made.1@ == "Gamepad "@ + written(info.index as nat, 10)
            + " requested, but virtual-gamepad injection is not implemented on this platform; events will be dropped."@,
        worth(written(info.index as nat, 10), 10) == info.index,
{
    law_written_numbers_read_back(info.index as nat, 10);
}

/// A stub that has not warned yet warns of what it drops, and a stub that has
/// does not. It keeps its number.
pub proof fn law_a_stub_warns_once(
    stub: &mut backend_stub::Gamepad,
    anything: &str,
    flags: u32,
    update: &GamepadUpdate,
    touch: &GamepadTouch,
    motion: &GamepadMotion,
    battery: &GamepadBattery,
    what: Seq<char>,
    warning: Option<String>,
)
    requires
        (call_ensures(backend_stub::Gamepad::warn_once, (stub, anything), warning) && what
            == anything@) || (call_ensures(
            backend_stub::Gamepad::set_pressed,
            (stub, flags),
            warning,
        ) && what == "button state"@) || (call_ensures(
            backend_stub::Gamepad::apply_update,
            (stub, update),
            warning,
        ) && what == "stick/trigger update"@) || (call_ensures(
            backend_stub::Gamepad::touch,
            (stub, touch),
            warning,
        ) && what == "touchpad event"@) || (call_ensures(
            backend_stub::Gamepad::set_motion,
            (stub, motion),
            warning,
        ) && what == "motion event"@) || (call_ensures(
            backend_stub::Gamepad::set_battery,
            (stub, battery),
            warning,
        ) && what == "battery report"@),
    ensures
        warning is Some <==> !old(stub).warned,
        final(stub).warned,
        final(stub).index == old(stub).index,
        warning matches Some(text) ==> text@ == "Dropping gamepad "@ + written(
            old(stub).index as nat,
            10,
        ) + " "@ + what + ": no virtual-gamepad backend on this platform."@,
{
}

} // verus!
