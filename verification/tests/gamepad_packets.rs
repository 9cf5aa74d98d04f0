use moonshine::float::{clamp_to_unit, exceeds_half};
use moonshine::gamepad::refusals::{
    battery_refusal, info_refusal, motion_refusal, touch_refusal, update_refusal,
};
use moonshine::gamepad::{
    BatteryState, GamepadBattery, GamepadCapability, GamepadConfig, GamepadInfo, GamepadKind,
    GamepadMotion, GamepadTouch, GamepadUpdate, HomeButtonConfig, MotionType,
};

const CAPABILITIES: [GamepadCapability; 8] = [
    GamepadCapability::AnalogTriggers,
    GamepadCapability::Rumble,
    GamepadCapability::TriggerRumble,
    GamepadCapability::Touchpad,
    GamepadCapability::Acceleration,
    GamepadCapability::Gyro,
    GamepadCapability::BatteryState,
    GamepadCapability::RgbLed,
];

#[test]
fn arrival_packet_is_decoded() {
    let packet = [3u8, 0x02, 0x34, 0x12, 0x78, 0x56, 0x34, 0x12];
    assert_eq!(
        GamepadInfo::from_bytes(&packet),
        Ok(GamepadInfo {
            index: 3,
            kind: GamepadKind::PlayStation,
            capabilities: 0x1234,
            supported_buttons: 0x1234_5678,
        })
    );
}

#[test]
fn arrival_packet_may_be_longer() {
    let packet = [0u8, 0, 1, 0, 2, 0, 0, 0, 0xff, 0xff];
    let info = GamepadInfo::from_bytes(&packet).unwrap();
    assert_eq!(info.kind, GamepadKind::Unknown);
    assert_eq!(info.capabilities, 1);
    assert_eq!(info.supported_buttons, 2);
}

#[test]
fn short_arrival_packet_is_refused() {
    assert_eq!(GamepadInfo::from_bytes(&[0u8; 7]), Err(()));
    assert_eq!(GamepadInfo::from_bytes(&[]), Err(()));
}

#[test]
fn unknown_make_is_refused() {
    let mut packet = [0u8; 8];
    packet[1] = 4;
    assert_eq!(GamepadInfo::from_bytes(&packet), Err(()));
    packet[1] = 0xff;
    assert_eq!(GamepadInfo::from_bytes(&packet), Err(()));
}

#[test]
fn every_make_has_its_number() {
    assert_eq!(GamepadKind::from_repr(0), Some(GamepadKind::Unknown));
    assert_eq!(GamepadKind::from_repr(1), Some(GamepadKind::Xbox));
    assert_eq!(GamepadKind::from_repr(2), Some(GamepadKind::PlayStation));
    assert_eq!(GamepadKind::from_repr(3), Some(GamepadKind::Nintendo));
    assert_eq!(GamepadKind::from_repr(4), None);
}

#[test]
fn unannounced_gamepad_has_no_features() {
    let info = GamepadInfo::default_for_index(7);
    assert_eq!(
        info,
        GamepadInfo {
            index: 7,
            kind: GamepadKind::Unknown,
            capabilities: 0,
            supported_buttons: 0,
        }
    );
    for capability in &CAPABILITIES {
        assert!(!info.has_capability(capability));
    }
}

#[test]
fn capabilities_are_told_apart() {
    let mut info = GamepadInfo::default_for_index(0);
    for announced in 0..CAPABILITIES.len() {
        info.capabilities = CAPABILITIES[announced].bit();
        assert_eq!(info.capabilities, 1u16 << announced);
        for asked in 0..CAPABILITIES.len() {
            assert_eq!(info.has_capability(&CAPABILITIES[asked]), asked == announced);
        }
    }
    info.capabilities = 0xff;
    assert!(info.has_capability(&GamepadCapability::AnalogTriggers));
    assert!(info.has_capability(&GamepadCapability::RgbLed));
    info.capabilities = 0xff00;
    assert!(!info.has_capability(&GamepadCapability::RgbLed));
}

fn touch_packet(x: f32, y: f32, pressure: f32) -> Vec<u8> {
    let mut packet = vec![1u8, 2, 0xaa, 0xbb];
    packet.extend_from_slice(&0x0102_0304u32.to_le_bytes());
    packet.extend_from_slice(&x.to_le_bytes());
    packet.extend_from_slice(&y.to_le_bytes());
    packet.extend_from_slice(&pressure.to_le_bytes());
    packet
}

#[test]
fn touch_packet_is_decoded() {
    let touch = GamepadTouch::from_bytes(&touch_packet(0.25, 0.75, 1.0)).unwrap();
    assert_eq!(touch.index, 1);
    assert_eq!(touch.event_type, 2);
    assert_eq!(touch.pointer_id, 0x0102_0304);
    assert_eq!(f32::from_bits(touch.x_bits), 0.25);
    assert_eq!(f32::from_bits(touch.y_bits), 0.75);
    assert_eq!(f32::from_bits(touch.pressure_bits), 1.0);
}

#[test]
fn touch_is_brought_into_the_unit_interval() {
    let touch = GamepadTouch::from_bytes(&touch_packet(-3.5, 1.5, f32::INFINITY)).unwrap();
    assert_eq!(f32::from_bits(touch.x_bits), 0.0);
    assert_eq!(f32::from_bits(touch.y_bits), 1.0);
    assert_eq!(f32::from_bits(touch.pressure_bits), 1.0);
}

#[test]
fn short_touch_packet_is_refused() {
    assert_eq!(GamepadTouch::from_bytes(&[0u8; 19]), Err(()));
}

#[test]
fn clamping_agrees_with_the_machine() {
    let numbers: [f32; 20] = [
        0.0,
        -0.0,
        1.0,
        -1.0,
        0.5,
        0.499_999_97,
        0.500_000_06,
        1.000_000_1,
        0.999_999_94,
        2.0,
        -2.0,
        1.0e-40,
        -1.0e-40,
        f32::MIN_POSITIVE,
        f32::MAX,
        f32::MIN,
        f32::INFINITY,
        f32::NEG_INFINITY,
        1.0e30,
        -1.0e30,
    ];
    for number in numbers {
        let clamped = clamp_to_unit(number.to_bits());
        assert_eq!(clamped, number.clamp(0.0, 1.0).to_bits(), "{number}");
        assert_eq!(exceeds_half(number.to_bits()), number > 0.5, "{number}");
    }
    for bits in [0x7fc0_0000u32, 0xffc0_0000, 0x7f80_0001, 0xff80_0001, 0x7fff_ffff, 0xffff_ffff] {
        assert!(f32::from_bits(clamp_to_unit(bits)).is_nan());
        assert_eq!(clamp_to_unit(bits), bits);
        assert!(!exceeds_half(bits));
    }
}

#[test]
fn clamping_twice_changes_nothing() {
    let mut bits: u32 = 0;
    for _ in 0..4096 {
        let once = clamp_to_unit(bits);
        assert_eq!(clamp_to_unit(once), once);
        bits = bits.wrapping_add(0x0010_0403);
    }
}

#[test]
fn input_packet_is_decoded() {
    let mut packet = vec![0xeeu8; 26];
    packet[2..4].copy_from_slice(&5u16.to_le_bytes());
    packet[4..6].copy_from_slice(&0x0021u16.to_le_bytes());
    packet[8..10].copy_from_slice(&0x1234u16.to_le_bytes());
    packet[10] = 0x80;
    packet[11] = 0xff;
    packet[12..14].copy_from_slice(&(-32768i16).to_le_bytes());
    packet[14..16].copy_from_slice(&32767i16.to_le_bytes());
    packet[16..18].copy_from_slice(&(-1i16).to_le_bytes());
    packet[18..20].copy_from_slice(&256i16.to_le_bytes());
    packet[22..24].copy_from_slice(&0xabcdu16.to_le_bytes());
    let update = GamepadUpdate::from_bytes(&packet).unwrap();
    assert_eq!(
        update,
        GamepadUpdate {
            index: 5,
            active_gamepad_mask: 0x21,
            button_flags: 0xabcd_1234,
            left_trigger: 0x80,
            right_trigger: 0xff,
            left_stick: (-32768, 32767),
            right_stick: (-1, 256),
        }
    );
    assert_eq!(update.button_flags(), 0xabcd_1234);
}

#[test]
fn input_packet_ignores_its_reserved_bytes() {
    let zeros = vec![0u8; 26];
    let mut noisy = zeros.clone();
    for at in [0usize, 1, 6, 7, 20, 21, 24, 25] {
        noisy[at] = 0xff;
    }
    assert_eq!(GamepadUpdate::from_bytes(&zeros), GamepadUpdate::from_bytes(&noisy));
}

#[test]
fn short_input_packet_is_refused() {
    assert_eq!(GamepadUpdate::from_bytes(&[0u8; 25]), Err(()));
}

fn motion_packet(kind: u8, x: f32, y: f32, z: f32) -> Vec<u8> {
    let mut packet = vec![2u8, kind, 0x11, 0x22];
    packet.extend_from_slice(&x.to_le_bytes());
    packet.extend_from_slice(&y.to_le_bytes());
    packet.extend_from_slice(&z.to_le_bytes());
    packet
}

#[test]
fn motion_packet_is_decoded() {
    let motion = GamepadMotion::from_bytes(&motion_packet(2, 1.5, -2.5, 90.0)).unwrap();
    assert_eq!(motion.index, 2);
    assert_eq!(motion.motion_type, MotionType::Gyroscope);
    assert_eq!(f32::from_bits(motion.x_bits), 1.5);
    assert_eq!(f32::from_bits(motion.y_bits), -2.5);
    assert_eq!(f32::from_bits(motion.z_bits), 90.0);
    let motion = GamepadMotion::from_bytes(&motion_packet(1, 0.0, 0.0, 0.0)).unwrap();
    assert_eq!(motion.motion_type, MotionType::Acceleration);
}

#[test]
fn unknown_sensor_is_refused() {
    assert_eq!(GamepadMotion::from_bytes(&motion_packet(0, 0.0, 0.0, 0.0)), Err(()));
    assert_eq!(GamepadMotion::from_bytes(&motion_packet(3, 0.0, 0.0, 0.0)), Err(()));
}

#[test]
fn short_motion_packet_is_refused() {
    assert_eq!(GamepadMotion::from_bytes(&motion_packet(1, 0.0, 0.0, 0.0)[..15]), Err(()));
}

#[test]
fn sensor_numbers_round_trip() {
    for kind in [MotionType::Acceleration, MotionType::Gyroscope] {
        assert_eq!(MotionType::from_repr(kind.to_repr()), Some(kind));
    }
    assert_eq!(MotionType::Acceleration.to_repr(), 1);
    assert_eq!(MotionType::Gyroscope.to_repr(), 2);
    assert_eq!(MotionType::from_repr(0), None);
}

#[test]
fn battery_packet_is_decoded() {
    assert_eq!(
        GamepadBattery::from_bytes(&[4, 0x02, 77, 0xff]),
        Ok(GamepadBattery {
            index: 4,
            battery_state: BatteryState::Discharging,
            battery_percentage: 77,
        })
    );
    assert_eq!(
        GamepadBattery::from_bytes(&[0, 0xff, 0, 0]).unwrap().battery_state,
        BatteryState::PercentageUnknown
    );
}

#[test]
fn unknown_battery_state_is_refused() {
    assert_eq!(GamepadBattery::from_bytes(&[0, 6, 0, 0]), Err(()));
    assert_eq!(GamepadBattery::from_bytes(&[0, 0xfe, 0, 0]), Err(()));
}

#[test]
fn short_battery_packet_is_refused() {
    assert_eq!(GamepadBattery::from_bytes(&[0, 0, 0]), Err(()));
}

#[test]
fn every_battery_state_has_its_number() {
    assert_eq!(BatteryState::from_repr(0), Some(BatteryState::Unknown));
    assert_eq!(BatteryState::from_repr(1), Some(BatteryState::NotPresent));
    assert_eq!(BatteryState::from_repr(2), Some(BatteryState::Discharging));
    assert_eq!(BatteryState::from_repr(3), Some(BatteryState::Charging));
    assert_eq!(BatteryState::from_repr(4), Some(BatteryState::NotCharging));
    assert_eq!(BatteryState::from_repr(5), Some(BatteryState::Full));
    assert_eq!(BatteryState::from_repr(0xff), Some(BatteryState::PercentageUnknown));
    assert_eq!(BatteryState::from_repr(0x80), None);
}

#[test]
fn home_button_remap_is_off_by_default() {
    let config = HomeButtonConfig::default();
    assert_eq!(config.hold_ms, 0);
    assert_eq!(config.rumble_duration_ms, 50);
    assert_eq!(f64::from_bits(config.rumble_intensity_bits), 0.5);
    assert!(!config.suppress_home);
    assert_eq!(GamepadConfig::default().home_button, config);
}

#[test]
fn refused_packets_are_told_of() {
    assert_eq!(
        info_refusal(&[0u8; 7]).as_deref(),
        Some("Expected at least 8 bytes for GamepadInfo, got 7 bytes.")
    );
    assert_eq!(
        info_refusal(&[0, 4, 0, 0, 0, 0, 0, 0]).as_deref(),
        Some("Unknown gamepad kind: 4")
    );
    assert_eq!(info_refusal(&[0u8; 8]), None);
    assert_eq!(
        touch_refusal(&[0u8; 19]).as_deref(),
        Some("Expected at least 20 bytes for GamepadTouch, got 19 bytes.")
    );
    assert_eq!(touch_refusal(&[0u8; 20]), None);
    assert_eq!(
        update_refusal(&[]).as_deref(),
        Some("Expected at least 26 bytes for GamepadUpdate, got 0 bytes.")
    );
    assert_eq!(update_refusal(&[0u8; 26]), None);
    assert_eq!(
        motion_refusal(&[0u8; 15]).as_deref(),
        Some("Expected at least 16 bytes for GamepadMotion, got 15 bytes.")
    );
    assert_eq!(
        motion_refusal(&motion_packet(200, 0.0, 0.0, 0.0)).as_deref(),
        Some("Unknown gamepad motion type: 200")
    );
    assert_eq!(motion_refusal(&motion_packet(1, 0.0, 0.0, 0.0)), None);
    assert_eq!(
        battery_refusal(&[0u8; 3]).as_deref(),
        Some("Expected at least 4 bytes for GamepadBattery, got 3 bytes.")
    );
    assert_eq!(
        battery_refusal(&[0, 6, 0, 0]).as_deref(),
        Some("Unknown battery state: 6")
    );
    assert_eq!(battery_refusal(&[0, 0xff, 0, 0]), None);
}
