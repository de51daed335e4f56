use libstealthtech::characteristics::char_upstream;
use libstealthtech::characteristics::FirmwareComponentVersion;
use libstealthtech::commands::Command;
use libstealthtech::commands::ConfigShape;
use libstealthtech::commands::Input;
use libstealthtech::commands::ProtocolError;
use libstealthtech::commands::Response;
use libstealthtech::commands::SoundMode;
use libstealthtech::report::DeviceStateReport;
use libstealthtech::state::DeviceState;

#[test]
fn device_state_new_is_empty() {
    let state = DeviceState::new();
    assert_eq!(state.volume, None);
    assert_eq!(state.bass, None);
    assert_eq!(state.treble, None);
    assert_eq!(state.mute, None);
    assert_eq!(state.power, None);
    assert_eq!(state.input, None);
    assert_eq!(state.sound_mode, None);
    assert_eq!(state.firmware_update_available(), None);
}

#[test]
fn device_state_apply_volume() {
    let mut state = DeviceState::new();
    state.apply_response(&Response::Volume(18));
    assert_eq!(state.volume, Some(18));
}

#[test]
fn device_state_apply_multiple_responses() {
    let mut state = DeviceState::new();
    state.apply_response(&Response::Volume(18));
    state.apply_response(&Response::Bass(10));
    state.apply_response(&Response::Power(true));
    state.apply_response(&Response::CurrentInput(Input::Bluetooth));
    state.apply_response(&Response::CurrentSoundMode(SoundMode::Movies));
    assert_eq!(state.volume, Some(18));
    assert_eq!(state.bass, Some(10));
    assert_eq!(state.power, Some(true));
    assert_eq!(state.input, Some(Input::Bluetooth));
    assert_eq!(state.sound_mode, Some(SoundMode::Movies));
}

#[test]
fn device_state_apply_mute_and_quiet() {
    let mut state = DeviceState::new();
    state.apply_response(&Response::MuteState(true));
    state.apply_response(&Response::QuietMode(false));
    assert_eq!(state.mute, Some(true));
    assert_eq!(state.quiet_couch, Some(false));
}

#[test]
fn device_state_apply_firmware_version() {
    let mut state = DeviceState::new();
    state.apply_response(&Response::FirmwareVersion { fw_type: 1, major: 1, minor: 71 });
    assert_eq!(state.firmware_version, Some("MCU v1.71".to_string()));
    assert_eq!(state.mcu_version, Some(FirmwareComponentVersion::new(1, 71)));
    assert_eq!(state.dsp_version, None);
}

#[test]
fn device_state_apply_unknown_firmware_type() {
    let mut state = DeviceState::new();
    state.apply_response(&Response::FirmwareVersion { fw_type: 9, major: 2, minor: 5 });
    assert_eq!(state.firmware_version, Some("Unknown v2.5".to_string()));
    assert_eq!(state.mcu_version, None);
    assert_eq!(state.dsp_version, None);
    assert_eq!(state.eq_version, None);
}

#[test]
fn device_state_apply_subwoofer() {
    let mut state = DeviceState::new();
    state.apply_response(&Response::SubwooferConnected(true));
    assert_eq!(state.subwoofer_connected, Some(true));
}

#[test]
fn device_state_apply_rear_volume() {
    let mut state = DeviceState::new();
    state.apply_response(&Response::RearVolume(20));
    assert_eq!(state.rear_channel_volume, Some(20));
}

#[test]
fn device_state_apply_covering_and_arm() {
    let mut state = DeviceState::new();
    state.apply_response(&Response::Covering(3));
    state.apply_response(&Response::ArmType(1));
    assert_eq!(state.fabric, Some(3));
    assert_eq!(state.arm_type, Some(1));
}

#[test]
fn device_state_apply_layout() {
    let mut state = DeviceState::new();
    state.apply_response(&Response::Layout(2));
    assert_eq!(state.config_shape, Some(ConfigShape::UShape));
    assert_eq!(state.config_shape.unwrap().to_string(), "U-Shape");
    state.apply_response(&Response::Layout(9));
    assert_eq!(state.config_shape, None);
}

#[test]
fn device_state_apply_unknown_is_ignored() {
    let mut state = DeviceState::new();
    state.apply_response(&Response::Unknown {
        characteristic_uuid: char_upstream(),
        data: vec![1, 2, 3],
    });
    assert_eq!(state.volume, None);
}

#[test]
fn unknown_response_keeps_known_fields() {
    let mut state = DeviceState::new();
    state.apply_response(&Response::Volume(7));
    state.apply_response(&Response::Unknown {
        characteristic_uuid: char_upstream(),
        data: vec![1, 2, 3],
    });
    assert_eq!(state.volume, Some(7));
    assert_eq!(state.bass, None);
}

#[test]
fn roundtrip_encode_decode_state_update() {
    let (_, data) = Command::SetVolume(20).encode().unwrap();
    assert_eq!(data[4], 20);
    let notification = vec![0xCC, 0x05, 0xAA, 0x00, 0x01, 20];
    let decoded = Response::decode(char_upstream(), &notification);
    let mut state = DeviceState::new();
    state.apply_response(&decoded);
    assert_eq!(state.volume, Some(20));
}

#[test]
fn sent_command_and_its_echo_agree() {
    let commands = [
        Command::SetVolume(12),
        Command::SetBass(4),
        Command::SetTreble(6),
        Command::SetCenterVolume(8),
        Command::SetRearChannelVolume(9),
        Command::SetBalance(50),
        Command::SetMute(true),
        Command::SetQuietCouch(false),
        Command::SetPower(true),
        Command::SetPower(false),
        Command::SetInput(Input::Aux),
        Command::SetSoundMode(SoundMode::Tv),
        Command::SetConfigShape(ConfigShape::LShape),
        Command::SetFabric(2),
        Command::SetArmType(1),
    ];
    for c in commands {
        let mut recorded = DeviceState::new();
        recorded.record_sent_command(&c);
        assert!(recorded.volume.is_some()
            || recorded.bass.is_some()
            || recorded.treble.is_some()
            || recorded.center_volume.is_some()
            || recorded.rear_channel_volume.is_some()
            || recorded.balance.is_some()
            || recorded.mute.is_some()
            || recorded.quiet_couch.is_some()
            || recorded.power.is_some()
            || recorded.input.is_some()
            || recorded.sound_mode.is_some()
            || recorded.config_shape.is_some()
            || recorded.fabric.is_some()
            || recorded.arm_type.is_some());
    }
}

#[test]
fn record_sent_command_sets_the_field() {
    let mut state = DeviceState::new();
    state.record_sent_command(&Command::SetVolume(30));
    state.record_sent_command(&Command::SetSurroundEnabled(true));
    state.record_sent_command(&Command::GetState);
    state.record_sent_command(&Command::SetPlayPause(1));
    assert_eq!(state.volume, Some(30));
    assert_eq!(state.surround_enabled, Some(true));
    assert_eq!(state.bass, None);
}

#[test]
fn power_notification_is_inverted() {
    let mut state = DeviceState::new();
    state.apply_response(&Response::decode(char_upstream(), &[0xCC, 0x05, 0xAA, 0x00, 0x0A, 0x00]));
    assert_eq!(state.power, Some(true));
    state.apply_response(&Response::decode(char_upstream(), &[0xCC, 0x05, 0xAA, 0x00, 0x0A, 0x01]));
    assert_eq!(state.power, Some(false));
}

#[test]
fn firmware_update_available_compares_components() {
    let mut state = DeviceState::new();
    state.apply_response(&Response::FirmwareVersion { fw_type: 1, major: 1, minor: 71 });
    assert_eq!(state.firmware_update_available(), Some(false));
    state.apply_response(&Response::FirmwareVersion { fw_type: 2, major: 1, minor: 60 });
    assert_eq!(state.firmware_update_available(), Some(true));
    state.apply_response(&Response::FirmwareVersion { fw_type: 2, major: 2, minor: 0 });
    assert_eq!(state.firmware_update_available(), Some(false));
    state.apply_response(&Response::FirmwareVersion { fw_type: 3, major: 1, minor: 22 });
    assert_eq!(state.firmware_update_available(), Some(true));
}

#[test]
fn firmware_component_version_ordering() {
    let v = FirmwareComponentVersion::new(1, 71);
    assert!(v.is_at_least(&FirmwareComponentVersion::new(1, 71)));
    assert!(v.is_at_least(&FirmwareComponentVersion::new(1, 70)));
    assert!(v.is_at_least(&FirmwareComponentVersion::new(0, 99)));
    assert!(!v.is_at_least(&FirmwareComponentVersion::new(1, 72)));
    assert!(!v.is_at_least(&FirmwareComponentVersion::new(2, 0)));
    assert_eq!(v.to_string(), "v1.71");
}

#[test]
fn response_display_texts() {
    assert_eq!(Response::Volume(18).to_string(), "Volume: 18/36");
    assert_eq!(Response::Power(false).to_string(), "Power: standby");
    assert_eq!(Response::CurrentInput(Input::HdmiArc).to_string(), "Input: HDMI ARC");
    assert_eq!(Response::CurrentSoundMode(SoundMode::Tv).to_string(), "Sound Mode: TV");
    assert_eq!(Response::SubwooferConnected(false).to_string(), "Subwoofer: disconnected");
    assert_eq!(
        Response::FirmwareVersion { fw_type: 2, major: 1, minor: 68 }.to_string(),
        "Firmware DSP: v1.68"
    );
    assert_eq!(
        Response::Unknown { characteristic_uuid: char_upstream(), data: vec![0xab, 0x01] }
            .to_string(),
        "Unknown [65786365-6c70-6f69-6e74-2e636f6d0001]: ab01"
    );
}

#[test]
fn protocol_error_texts() {
    assert_eq!(ProtocolError::UnknownByte(0x0f).to_string(), "Unknown byte value: 0x0f");
    assert_eq!(
        ProtocolError::InvalidLength { expected: 4, actual: 2 }.to_string(),
        "Invalid payload length: expected 4, got 2"
    );
    assert_eq!(
        ProtocolError::OutOfRange { value: 37, min: 0, max: 36 }.to_string(),
        "Value out of range: 37 not in [0, 36]"
    );
    assert_eq!(
        Command::SetVolume(37).validate(),
        Err(ProtocolError::OutOfRange { value: 37, min: 0, max: 36 })
    );
}

#[test]
fn byte_maps_round_trip_and_reject() {
    for b in 0u8..=255 {
        match Input::from_byte(b) {
            Ok(i) => assert_eq!(i.to_byte(), b),
            Err(e) => {
                assert!(b > 3);
                assert_eq!(e, ProtocolError::UnknownByte(b));
            }
        }
        match ConfigShape::from_byte(b) {
            Ok(c) => assert_eq!(c.to_byte(), b),
            Err(e) => assert_eq!(e, ProtocolError::UnknownByte(b)),
        }
    }
    assert!(SoundMode::from_read_byte(4).is_err());
    assert_eq!(SoundMode::Manual.to_write_byte(), 9);
}

#[test]
fn report_from_state_carries_fields() {
    let mut state = DeviceState::new();
    state.apply_response(&Response::Volume(18));
    state.apply_response(&Response::CurrentInput(Input::Optical));
    state.apply_response(&Response::Layout(1));
    let report = DeviceStateReport::from_state(Some("StealthTech".to_string()), "AA:BB".to_string(), &state);
    assert!(report.connected);
    assert_eq!(report.volume, Some(18));
    assert_eq!(report.input, Some("Optical".to_string()));
    assert_eq!(report.config_shape, Some("L-Shape".to_string()));
    assert_eq!(report.address, Some("AA:BB".to_string()));
    assert!(report.firmware.is_none());

    state.apply_response(&Response::FirmwareVersion { fw_type: 1, major: 1, minor: 70 });
    let report = DeviceStateReport::from_state(None, "AA:BB".to_string(), &state);
    let fw = report.firmware.unwrap();
    assert!(fw.update_available);
    assert_eq!(fw.mcu.current, Some("v1.70".to_string()));
    assert_eq!(fw.mcu.latest, "v1.71".to_string());
    assert_eq!(fw.mcu.up_to_date, Some(false));
    assert_eq!(fw.dsp.current, None);
    assert_eq!(fw.dsp.latest, "v1.68".to_string());

    let off = DeviceStateReport::disconnected();
    assert!(!off.connected);
    assert!(off.volume.is_none());
}
