use moonshine::gamepad::backend_inputtino::{
    definition, led_command, rumble_command, trigger_effect_command, BatteryCall, Gamepad,
    JoypadBattery, JoypadKind, JoypadUpdate, MotionCall, TouchCall, Trigger,
};
use moonshine::gamepad::backend_stub;
use moonshine::gamepad::feedback::{
    EnableMotionEventCommand, FeedbackCommand, RumbleCommand, SetLedCommand, TriggerEffectCommand,
};
use moonshine::gamepad::{
    BatteryState, GamepadBattery, GamepadInfo, GamepadKind, GamepadMotion, GamepadTouch,
    GamepadUpdate, MotionType,
};

fn info(index: u8, kind: GamepadKind) -> GamepadInfo {
    GamepadInfo { index, kind, capabilities: 0, supported_buttons: 0 }
}

fn touch(pressure: f32) -> GamepadTouch {
    GamepadTouch {
        index: 0,
        event_type: 1,
        pointer_id: 9,
        x_bits: 0.25f32.to_bits(),
        y_bits: 0.75f32.to_bits(),
        pressure_bits: pressure.to_bits(),
    }
}

fn motion() -> GamepadMotion {
    GamepadMotion {
        index: 0,
        motion_type: MotionType::Gyroscope,
        x_bits: 1.0f32.to_bits(),
        y_bits: 2.0f32.to_bits(),
        z_bits: 3.0f32.to_bits(),
    }
}

fn battery(battery_state: BatteryState) -> GamepadBattery {
    GamepadBattery { index: 0, battery_state, battery_percentage: 42 }
}

fn update() -> GamepadUpdate {
    GamepadUpdate {
        index: 0,
        active_gamepad_mask: 1,
        button_flags: 0,
        left_trigger: 1,
        right_trigger: 255,
        left_stick: (-32768, 5),
        right_stick: (6, 32767),
    }
}

#[test]
fn every_make_has_its_joypad() {
    assert_eq!(Gamepad::new(&info(0, GamepadKind::Unknown)).joypad, JoypadKind::XboxOne);
    assert_eq!(Gamepad::new(&info(0, GamepadKind::Xbox)).joypad, JoypadKind::XboxOne);
    assert_eq!(Gamepad::new(&info(0, GamepadKind::PlayStation)).joypad, JoypadKind::PS5);
    assert_eq!(Gamepad::new(&info(0, GamepadKind::Nintendo)).joypad, JoypadKind::Switch);
    assert_eq!(Gamepad::new(&info(5, GamepadKind::Xbox)).index, 5);
}

#[test]
fn joypads_introduce_themselves() {
    let xbox = definition(&info(0x0a, GamepadKind::Unknown));
    assert_eq!(xbox.name, "Moonshine XOne controller");
    assert_eq!((xbox.vendor_id, xbox.product_id, xbox.version), (0x045e, 0x02dd, 0x0100));
    assert_eq!(xbox.device_phys, "00:11:22:33:0a");
    assert_eq!(xbox.device_uniq, "00:11:22:33:0a");
    let ps5 = definition(&info(0xff, GamepadKind::PlayStation));
    assert_eq!(ps5.name, "Moonshine PS5 controller");
    assert_eq!((ps5.vendor_id, ps5.product_id, ps5.version), (0x054c, 0x0ce6, 0x8111));
    assert_eq!(ps5.device_phys, "00:11:22:33:ff");
    let switch = definition(&info(0, GamepadKind::Nintendo));
    assert_eq!(switch.name, "Moonshine Switch controller");
    assert_eq!((switch.vendor_id, switch.product_id, switch.version), (0x057e, 0x2009, 0x8111));
    assert_eq!(switch.device_uniq, "00:11:22:33:00");
}

#[test]
fn addresses_are_distinct() {
    let mut addresses: Vec<String> = Vec::new();
    for index in 0..=255u8 {
        let address = definition(&info(index, GamepadKind::Xbox)).device_uniq;
        assert_eq!(address, format!("00:11:22:33:{index:02x}"));
        assert!(!addresses.contains(&address));
        addresses.push(address);
    }
}

#[test]
fn light_is_passed_on() {
    assert_eq!(
        led_command(3, 255, 256, -1),
        FeedbackCommand::SetLed(SetLedCommand { id: 3, rgb: (255, 0, 255) })
    );
}

#[test]
fn rumble_is_passed_on() {
    assert_eq!(
        rumble_command(4, 65535, 65537),
        FeedbackCommand::Rumble(RumbleCommand { id: 4, low_frequency: 65535, high_frequency: 1 })
    );
    assert_eq!(
        rumble_command(0, -1, -65536),
        FeedbackCommand::Rumble(RumbleCommand { id: 0, low_frequency: 65535, high_frequency: 0 })
    );
}

#[test]
fn trigger_effects_are_passed_on() {
    let left = [1u8, 2, 3, 4, 5, 6, 7, 8, 9, 10];
    let right = [10u8; 10];
    assert_eq!(
        trigger_effect_command(1, 0x0c, 2, 3, &left, &right),
        Ok(FeedbackCommand::TriggerEffect(TriggerEffectCommand {
            id: 1,
            trigger_event_flags: 0x0c,
            type_left: 2,
            type_right: 3,
            left,
            right,
        }))
    );
}

#[test]
fn trigger_effects_of_another_size_are_dropped() {
    let effect = [0u8; 10];
    assert_eq!(trigger_effect_command(1, 0, 0, 0, &effect[..9], &effect), Err(Trigger::Left));
    assert_eq!(trigger_effect_command(1, 0, 0, 0, &effect, &[0u8; 11]), Err(Trigger::Right));
    assert_eq!(trigger_effect_command(1, 0, 0, 0, &[], &[]), Err(Trigger::Left));
}

#[test]
fn only_a_ps5_joypad_asks_for_motion() {
    let ps5 = Gamepad::new(&info(6, GamepadKind::PlayStation));
    assert!(ps5.has_light_and_effects());
    assert_eq!(ps5.greeting(), vec![
        FeedbackCommand::EnableMotionEvent(EnableMotionEventCommand {
            id: 6,
            report_rate: 100,
            motion_type: 1,
        }),
        FeedbackCommand::EnableMotionEvent(EnableMotionEventCommand {
            id: 6,
            report_rate: 100,
            motion_type: 2,
        }),
    ]);
    for kind in [GamepadKind::Unknown, GamepadKind::Xbox, GamepadKind::Nintendo] {
        let other = Gamepad::new(&info(6, kind));
        assert!(!other.has_light_and_effects());
        assert_eq!(other.greeting(), Vec::new());
    }
}

#[test]
fn buttons_keep_their_bits() {
    let gamepad = Gamepad::new(&info(0, GamepadKind::Xbox));
    for flags in [0u32, 1, 0x7fff_ffff, 0x8000_0000, 0xffff_ffff, 0xabcd_1234] {
        assert_eq!(gamepad.set_pressed(flags) as u32, flags);
    }
    assert_eq!(gamepad.set_pressed(0xffff_ffff), -1);
}

#[test]
fn sticks_and_triggers_are_handed_on() {
    let gamepad = Gamepad::new(&info(0, GamepadKind::Xbox));
    assert_eq!(
        gamepad.apply_update(&update()),
        JoypadUpdate {
            left_stick: (-32768, 5),
            right_stick: (6, 32767),
            left_trigger: 1,
            right_trigger: 255,
        }
    );
}

#[test]
fn finger_is_down_above_half_pressure() {
    let ps5 = Gamepad::new(&info(0, GamepadKind::PlayStation));
    let placed = Some(TouchCall::PlaceFinger {
        pointer_id: 9,
        x_bits: 0.25f32.to_bits(),
        y_bits: 0.75f32.to_bits(),
    });
    let released = Some(TouchCall::ReleaseFinger { pointer_id: 9 });
    assert_eq!(ps5.touch(&touch(0.500_000_06)), placed);
    assert_eq!(ps5.touch(&touch(1.0)), placed);
    assert_eq!(ps5.touch(&touch(0.5)), released);
    assert_eq!(ps5.touch(&touch(0.0)), released);
    assert_eq!(ps5.touch(&touch(f32::NAN)), released);
    assert_eq!(Gamepad::new(&info(0, GamepadKind::Xbox)).touch(&touch(1.0)), None);
}

#[test]
fn motion_goes_to_a_ps5_joypad() {
    let ps5 = Gamepad::new(&info(0, GamepadKind::PlayStation));
    assert_eq!(
        ps5.set_motion(&motion()),
        Some(MotionCall {
            motion_type: MotionType::Gyroscope,
            x_bits: 1.0f32.to_bits(),
            y_bits: 2.0f32.to_bits(),
            z_bits: 3.0f32.to_bits(),
        })
    );
    assert_eq!(Gamepad::new(&info(0, GamepadKind::Nintendo)).set_motion(&motion()), None);
}

#[test]
fn battery_shows_what_it_can() {
    let ps5 = Gamepad::new(&info(0, GamepadKind::PlayStation));
    let shown = [
        (BatteryState::Discharging, JoypadBattery::Discharging),
        (BatteryState::Charging, JoypadBattery::Charging),
        (BatteryState::Full, JoypadBattery::Full),
    ];
    for (reported, state) in shown {
        assert_eq!(
            ps5.set_battery(&battery(reported)),
            Some(BatteryCall { state, percentage: 42 })
        );
    }
    let hidden = [
        BatteryState::Unknown,
        BatteryState::NotPresent,
        BatteryState::NotCharging,
        BatteryState::PercentageUnknown,
    ];
    for reported in hidden {
        assert_eq!(ps5.set_battery(&battery(reported)), None);
        let warning = ps5.battery_warning(&battery(reported));
        if reported == BatteryState::PercentageUnknown {
            assert_eq!(warning.as_deref(), Some("Unknown battery state: PercentageUnknown"));
        } else {
            assert_eq!(warning, None);
        }
    }
    assert_eq!(ps5.battery_warning(&battery(BatteryState::Full)), None);
    let xbox = Gamepad::new(&info(0, GamepadKind::Xbox));
    assert_eq!(xbox.battery_warning(&battery(BatteryState::PercentageUnknown)), None);
    assert_eq!(xbox.set_battery(&battery(BatteryState::Full)), None);
}

#[test]
fn announced_stub_gamepad_is_silent() {
    let (mut stub, text) = backend_stub::Gamepad::new(&info(12, GamepadKind::Xbox));
    assert_eq!(
        text,
        "Gamepad 12 requested, but virtual-gamepad injection is not implemented on this \
         platform; events will be dropped."
    );
    assert_eq!(stub.set_pressed(1), None);
    assert_eq!(stub.apply_update(&update()), None);
    assert_eq!(stub.touch(&touch(1.0)), None);
    assert_eq!(stub.set_motion(&motion()), None);
    assert_eq!(stub.set_battery(&battery(BatteryState::Full)), None);
    assert_eq!(stub, backend_stub::Gamepad { index: 12, warned: true });
}

#[test]
fn stub_gamepad_warns_at_most_once() {
    let fresh = || backend_stub::Gamepad { index: 255, warned: false };
    let mut stub = fresh();
    assert_eq!(
        stub.set_pressed(1).as_deref(),
        Some("Dropping gamepad 255 button state: no virtual-gamepad backend on this platform.")
    );
    assert_eq!(stub.set_pressed(1), None);
    assert_eq!(
        fresh().apply_update(&update()).as_deref(),
        Some(
            "Dropping gamepad 255 stick/trigger update: no virtual-gamepad backend on this platform."
        )
    );
    assert_eq!(
        fresh().touch(&touch(0.0)).as_deref(),
        Some("Dropping gamepad 255 touchpad event: no virtual-gamepad backend on this platform.")
    );
    assert_eq!(
        fresh().set_motion(&motion()).as_deref(),
        Some("Dropping gamepad 255 motion event: no virtual-gamepad backend on this platform.")
    );
    assert_eq!(
        fresh().set_battery(&battery(BatteryState::Full)).as_deref(),
        Some("Dropping gamepad 255 battery report: no virtual-gamepad backend on this platform.")
    );
}
