use moonshine::gamepad::backend_freebsd::{
    axis_map, button_map, setup, teardown, ui_abs_setup, ui_dev_create, ui_dev_destroy,
    ui_dev_setup, ui_set_absbit, ui_set_evbit, ui_set_keybit, Argument, Gamepad, InputEvent,
    ABS_HAT0X, ABS_HAT0Y, ABS_RX, ABS_RY, ABS_RZ, ABS_X, ABS_Y, ABS_Z, BTN_EAST, BTN_SOUTH,
    BTN_START, DPAD_DOWN, DPAD_LEFT, DPAD_RIGHT, DPAD_UP, EV_ABS, EV_KEY, EV_SYN, FLAG_A, FLAG_B,
    FLAG_START, INPUT_EVENT_SIZE, UINPUT_ABS_SETUP_SIZE, UINPUT_SETUP_SIZE,
};
use moonshine::gamepad::{
    BatteryState, GamepadBattery, GamepadInfo, GamepadMotion, GamepadTouch, GamepadUpdate,
    MotionType,
};
use moonshine::ioctl::{granted, io, ioc, iow, iowint, iowr_int, IOC_IN};

const END: InputEvent = InputEvent { type_: EV_SYN, code: 0, value: 0 };

fn pad() -> Gamepad {
    Gamepad::new(&GamepadInfo::default_for_index(2))
}

fn key(code: u16, value: i32) -> InputEvent {
    InputEvent { type_: EV_KEY, code, value }
}

fn axis(code: u16, value: i32) -> InputEvent {
    InputEvent { type_: EV_ABS, code, value }
}

#[test]
fn request_numbers_are_those_of_the_system() {
    assert_eq!(ui_dev_create(), 0x2000_5501);
    assert_eq!(ui_dev_destroy(), 0x2000_5502);
    assert_eq!(ui_dev_setup(), 0x805c_5503);
    assert_eq!(ui_abs_setup(), 0x801c_5504);
    assert_eq!(ui_set_evbit(), 0x2004_5564);
    assert_eq!(ui_set_keybit(), 0x2004_5565);
    assert_eq!(ui_set_absbit(), 0x2004_5567);
}

#[test]
fn request_numbers_hold_their_parts() {
    assert_eq!(io(b'U', 1), 0x2000_5501);
    assert_eq!(iow::<u64>(b'X', 9), 0x8008_5809);
    assert_eq!(iowint(b'U', 100), 0x2004_5564);
    assert_eq!(iowr_int(b'P', 2), 0xc004_5002);
    assert_eq!(ioc(IOC_IN, b'A', 0xff, 0x1fff), 0x9fff_41ff);
    // A length that needs more than thirteen bits is cut off.
    assert_eq!(ioc(IOC_IN, b'A', 0, 0x2001), 0x8001_4100);
}

#[test]
fn setup_declares_everything_and_creates_last() {
    let requests = setup();
    assert_eq!(requests.len(), 3 + 11 + 16 + 2);
    assert_eq!(requests[0].argument, Argument::Int(EV_KEY as i32));
    assert_eq!(requests[1].argument, Argument::Int(EV_ABS as i32));
    assert_eq!(requests[2].argument, Argument::Int(EV_SYN as i32));
    for (i, (_, code)) in button_map().iter().enumerate() {
        assert_eq!(requests[3 + i].number, ui_set_keybit());
        assert_eq!(requests[3 + i].argument, Argument::Int(*code as i32));
    }
    for (i, axis) in axis_map().iter().enumerate() {
        assert_eq!(requests[14 + 2 * i].number, ui_set_absbit());
        assert_eq!(requests[14 + 2 * i].argument, Argument::Int(axis.code as i32));
        assert_eq!(requests[15 + 2 * i].number, ui_abs_setup());
    }
    assert_eq!(requests[30].number, ui_dev_setup());
    assert_eq!(requests[31].number, ui_dev_create());
    assert_eq!(requests[31].argument, Argument::Nothing);
}

#[test]
fn stick_range_is_laid_out_as_the_system_has_it() {
    let requests = setup();
    let mut expected: Vec<u8> = Vec::new();
    expected.extend_from_slice(&ABS_X.to_le_bytes());
    expected.extend_from_slice(&[0, 0]);
    for field in [0i32, -32768, 32767, 16, 128, 0] {
        expected.extend_from_slice(&field.to_le_bytes());
    }
    assert_eq!(expected.len(), UINPUT_ABS_SETUP_SIZE);
    assert_eq!(requests[19].argument, Argument::Record(expected));
}

#[test]
fn hat_and_trigger_ranges() {
    let map = axis_map();
    let codes: Vec<u16> = map.iter().map(|axis| axis.code).collect();
    assert_eq!(codes, vec![ABS_HAT0X, ABS_HAT0Y, ABS_X, ABS_Y, ABS_RX, ABS_RY, ABS_Z, ABS_RZ]);
    assert_eq!((map[0].minimum, map[0].maximum, map[0].fuzz, map[0].flat), (-1, 1, 0, 0));
    assert_eq!((map[7].minimum, map[7].maximum, map[7].fuzz, map[7].flat), (0, 255, 0, 0));
}

#[test]
fn device_introduces_itself() {
    let requests = setup();
    let mut expected: Vec<u8> = Vec::new();
    for word in [0x03u16, 0x045e, 0x02dd, 0x0100] {
        expected.extend_from_slice(&word.to_le_bytes());
    }
    expected.extend_from_slice(b"Moonshine XOne controller");
    expected.resize(8 + 80, 0);
    expected.extend_from_slice(&0u32.to_le_bytes());
    assert_eq!(expected.len(), UINPUT_SETUP_SIZE);
    assert_eq!(requests[30].argument, Argument::Record(expected));
}

#[test]
fn event_record_layout() {
    let bytes = axis(ABS_RZ, -2).to_bytes();
    let mut expected = vec![0u8; 16];
    expected.extend_from_slice(&EV_ABS.to_le_bytes());
    expected.extend_from_slice(&ABS_RZ.to_le_bytes());
    expected.extend_from_slice(&(-2i32).to_le_bytes());
    assert_eq!(bytes, expected);
    assert_eq!(bytes.len(), INPUT_EVENT_SIZE);
}

#[test]
fn only_changed_buttons_are_reported() {
    let mut pad = pad();
    assert_eq!(pad.set_pressed(FLAG_A | FLAG_START), vec![
        key(BTN_START, 1),
        key(BTN_SOUTH, 1),
        END
    ]);
    assert_eq!(pad.set_pressed(FLAG_A | FLAG_B), vec![
        key(BTN_START, 0),
        key(BTN_EAST, 1),
        END
    ]);
    assert_eq!(pad.set_pressed(FLAG_A | FLAG_B), vec![END]);
    assert_eq!(pad.pressed, FLAG_A | FLAG_B);
    // Flags that stand for no button of the pad are taken over silently.
    assert_eq!(pad.set_pressed(FLAG_A | FLAG_B | 0x0800 | 0x10_0000), vec![END]);
}

#[test]
fn dpad_moves_the_hats() {
    let mut pad = pad();
    assert_eq!(pad.set_pressed(DPAD_UP), vec![axis(ABS_HAT0Y, -1), END]);
    assert_eq!(pad.set_pressed(DPAD_DOWN), vec![axis(ABS_HAT0Y, 1), END]);
    // Up wins over down, left over right.
    assert_eq!(pad.set_pressed(DPAD_UP | DPAD_DOWN), vec![axis(ABS_HAT0Y, -1), END]);
    assert_eq!(pad.set_pressed(DPAD_LEFT | DPAD_RIGHT), vec![
        axis(ABS_HAT0Y, 0),
        axis(ABS_HAT0X, -1),
        END
    ]);
    assert_eq!(pad.set_pressed(DPAD_RIGHT), vec![axis(ABS_HAT0X, 1), END]);
    assert_eq!(pad.set_pressed(0), vec![axis(ABS_HAT0X, 0), END]);
}

#[test]
fn replayed_reports_give_the_held_buttons() {
    let mut pad = pad();
    let map = button_map();
    let mut device: Vec<i32> = vec![0; map.len()];
    let mut flags: u32 = 0x9e37_79b9;
    for _ in 0..200 {
        for event in pad.set_pressed(flags) {
            if event.type_ == EV_KEY {
                let at = map.iter().position(|(_, code)| *code == event.code).unwrap();
                assert_ne!(device[at], event.value);
                device[at] = event.value;
            }
        }
        for (at, (flag, _)) in map.iter().enumerate() {
            assert_eq!(device[at] == 1, flags & flag != 0);
        }
        flags = flags.wrapping_mul(1_664_525).wrapping_add(1_013_904_223);
    }
}

#[test]
fn sticks_and_triggers_are_reported() {
    let update = GamepadUpdate {
        index: 0,
        active_gamepad_mask: 1,
        button_flags: 0,
        left_trigger: 7,
        right_trigger: 255,
        left_stick: (-32768, 32767),
        right_stick: (100, -200),
    };
    assert_eq!(pad().apply_update(&update), vec![
        axis(ABS_X, -32768),
        axis(ABS_Y, -32767),
        axis(ABS_RX, 100),
        axis(ABS_RY, 200),
        axis(ABS_Z, 7),
        axis(ABS_RZ, 255),
        END
    ]);
}

#[test]
fn lowest_stick_position_leaves_the_declared_range() {
    let update = GamepadUpdate {
        index: 0,
        active_gamepad_mask: 1,
        button_flags: 0,
        left_trigger: 0,
        right_trigger: 0,
        left_stick: (0, -32768),
        right_stick: (0, 0),
    };
    assert_eq!(pad().apply_update(&update)[1], axis(ABS_Y, 32768));
}

#[test]
fn unsupported_features_give_one_warning() {
    let touch = GamepadTouch {
        index: 2,
        event_type: 0,
        pointer_id: 0,
        x_bits: 0,
        y_bits: 0,
        pressure_bits: 0,
    };
    let motion = GamepadMotion {
        index: 2,
        motion_type: MotionType::Gyroscope,
        x_bits: 0,
        y_bits: 0,
        z_bits: 0,
    };
    let battery = GamepadBattery {
        index: 2,
        battery_state: BatteryState::Full,
        battery_percentage: 100,
    };
    let mut first = pad();
    assert_eq!(
        first.touch(&touch).as_deref(),
        Some("Gamepad 2 touchpad events not supported by the FreeBSD backend (core pad only).")
    );
    assert_eq!(first.touch(&touch), None);
    assert_eq!(first.set_motion(&motion), None);
    assert_eq!(first.set_battery(&battery), None);
    assert_eq!(
        pad().set_motion(&motion).as_deref(),
        Some("Gamepad 2 motion events not supported by the FreeBSD backend (core pad only).")
    );
    assert_eq!(
        pad().set_battery(&battery).as_deref(),
        Some("Gamepad 2 battery reports not supported by the FreeBSD backend (core pad only).")
    );
}

#[test]
fn open_device_is_destroyed() {
    let request = teardown(3).unwrap();
    assert_eq!(request.number, ui_dev_destroy());
    assert_eq!(request.argument, Argument::Nothing);
    assert!(teardown(0).is_some());
    assert_eq!(teardown(-1), None);
}

#[test]
fn negative_answers_are_refusals() {
    assert!(granted(0));
    assert!(granted(i32::MAX));
    assert!(!granted(-1));
    assert!(!granted(i32::MIN));
}
