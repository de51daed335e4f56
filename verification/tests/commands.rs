use libstealthtech::characteristics::char_audio_path;
use libstealthtech::characteristics::char_device_info;
use libstealthtech::characteristics::char_eq_control;
use libstealthtech::characteristics::char_player_control;
use libstealthtech::characteristics::char_source;
use libstealthtech::characteristics::char_upstream;
use libstealthtech::characteristics::service_stealthtech;
use libstealthtech::commands::Command;
use libstealthtech::commands::Input;
use libstealthtech::commands::Response;
use libstealthtech::commands::SoundMode;

// --- Command encoding tests ---

#[test]
fn encode_set_volume() {
    let (uuid, data) = Command::SetVolume(18).encode().unwrap();
    assert_eq!(uuid, char_eq_control());
    assert_eq!(data, vec![0xAA, 0x03, 0x02, 0x01, 18]);
}

#[test]
fn encode_set_bass() {
    let (uuid, data) = Command::SetBass(10).encode().unwrap();
    assert_eq!(uuid, char_eq_control());
    assert_eq!(data, vec![0xAA, 0x03, 0x01, 0x01, 10]);
}

#[test]
fn encode_set_treble() {
    let (uuid, data) = Command::SetTreble(15).encode().unwrap();
    assert_eq!(uuid, char_eq_control());
    assert_eq!(data, vec![0xAA, 0x03, 0x00, 0x01, 15]);
}

#[test]
fn encode_set_center_volume() {
    let (uuid, data) = Command::SetCenterVolume(20).encode().unwrap();
    assert_eq!(uuid, char_eq_control());
    assert_eq!(data, vec![0xAA, 0x03, 0x03, 0x01, 20]);
}

#[test]
fn encode_set_rear_volume() {
    let (uuid, data) = Command::SetRearChannelVolume(25).encode().unwrap();
    assert_eq!(uuid, char_eq_control());
    assert_eq!(data, vec![0xAA, 0x03, 0x0A, 0x01, 25]);
}

#[test]
fn encode_set_mute() {
    let (uuid, data) = Command::SetMute(true).encode().unwrap();
    assert_eq!(uuid, char_eq_control());
    assert_eq!(data, vec![0xAA, 0x03, 0x09, 0x01, 1]);

    let (_, data) = Command::SetMute(false).encode().unwrap();
    assert_eq!(data, vec![0xAA, 0x03, 0x09, 0x01, 0]);
}

#[test]
fn encode_set_quiet_mode() {
    let (uuid, data) = Command::SetQuietCouch(true).encode().unwrap();
    assert_eq!(uuid, char_eq_control());
    assert_eq!(data, vec![0xAA, 0x03, 0x04, 0x01, 1]);
}

#[test]
fn encode_set_preset_movies() {
    let (uuid, data) = Command::SetSoundMode(SoundMode::Movies).encode().unwrap();
    assert_eq!(uuid, char_eq_control());
    assert_eq!(data, vec![0xAA, 0x03, 7, 0x00]);
}

#[test]
fn encode_set_preset_tv() {
    let (_, data) = Command::SetSoundMode(SoundMode::Tv).encode().unwrap();
    assert_eq!(data, vec![0xAA, 0x03, 5, 0x00]);
}

#[test]
fn encode_set_preset_music() {
    let (_, data) = Command::SetSoundMode(SoundMode::Music).encode().unwrap();
    assert_eq!(data, vec![0xAA, 0x03, 8, 0x00]);
}

#[test]
fn encode_set_preset_news() {
    let (_, data) = Command::SetSoundMode(SoundMode::News).encode().unwrap();
    assert_eq!(data, vec![0xAA, 0x03, 6, 0x00]);
}

#[test]
fn encode_set_balance() {
    let (uuid, data) = Command::SetBalance(50).encode().unwrap();
    assert_eq!(uuid, char_audio_path());
    assert_eq!(data, vec![0xAA, 0x04, 0x00, 0x01, 50]);
}

#[test]
fn encode_set_power_on() {
    let (uuid, data) = Command::SetPower(true).encode().unwrap();
    assert_eq!(uuid, char_audio_path());
    assert_eq!(data, vec![0xAA, 0x04, 0x01, 0x01, 1]);
}

#[test]
fn encode_set_power_off() {
    let (_, data) = Command::SetPower(false).encode().unwrap();
    assert_eq!(data, vec![0xAA, 0x04, 0x01, 0x01, 0]);
}

#[test]
fn encode_set_source() {
    let (uuid, data) = Command::SetInput(Input::HdmiArc).encode().unwrap();
    assert_eq!(uuid, char_source());
    assert_eq!(data, vec![0xAA, 0x07, 0, 0x00]);

    let (_, data) = Command::SetInput(Input::Bluetooth).encode().unwrap();
    assert_eq!(data, vec![0xAA, 0x07, 1, 0x00]);

    let (_, data) = Command::SetInput(Input::Aux).encode().unwrap();
    assert_eq!(data, vec![0xAA, 0x07, 2, 0x00]);

    let (_, data) = Command::SetInput(Input::Optical).encode().unwrap();
    assert_eq!(data, vec![0xAA, 0x07, 3, 0x00]);
}

#[test]
fn encode_get_state() {
    let (uuid, data) = Command::GetState.encode().unwrap();
    assert_eq!(uuid, char_device_info());
    assert_eq!(data, vec![0xAA, 0x01, 0x01, 0x00]);
}

#[test]
fn encode_get_firmware_version() {
    let (uuid, data) = Command::GetFirmwareVersion.encode().unwrap();
    assert_eq!(uuid, char_device_info());
    assert_eq!(data, vec![0xAA, 0x01, 0x01, 0x01]);
}

#[test]
fn encode_play_pause() {
    let (uuid, data) = Command::SetPlayPause(1).encode().unwrap();
    assert_eq!(uuid, char_player_control());
    assert_eq!(data, vec![0xAA, 0x05, 0x00, 0x01, 1]);
}

// --- Validation tests ---

#[test]
fn validate_volume_too_high() {
    assert!(Command::SetVolume(37).validate().is_err());
    assert!(Command::SetVolume(36).validate().is_ok());
}

#[test]
fn validate_bass_too_high() {
    assert!(Command::SetBass(21).validate().is_err());
    assert!(Command::SetBass(20).validate().is_ok());
}

#[test]
fn validate_treble_too_high() {
    assert!(Command::SetTreble(21).validate().is_err());
}

#[test]
fn validate_center_volume_too_high() {
    assert!(Command::SetCenterVolume(31).validate().is_err());
}

#[test]
fn validate_rear_volume_too_high() {
    assert!(Command::SetRearChannelVolume(31).validate().is_err());
}

#[test]
fn validate_balance_too_high() {
    assert!(Command::SetBalance(101).validate().is_err());
    assert!(Command::SetBalance(100).validate().is_ok());
}

// --- Response decoding tests ---

fn make_notification(code: u8, value: u8) -> Vec<u8> {
    vec![0xCC, 0x05, 0xAA, 0x00, code, value]
}

#[test]
fn decode_volume() {
    let data = make_notification(0x01, 18);
    assert_eq!(Response::decode(char_upstream(), &data), Response::Volume(18));
}

#[test]
fn decode_center_volume() {
    let data = make_notification(0x02, 15);
    assert_eq!(Response::decode(char_upstream(), &data), Response::CenterVolume(15));
}

#[test]
fn decode_treble() {
    let data = make_notification(0x03, 10);
    assert_eq!(Response::decode(char_upstream(), &data), Response::Treble(10));
}

#[test]
fn decode_bass() {
    let data = make_notification(0x04, 12);
    assert_eq!(Response::decode(char_upstream(), &data), Response::Bass(12));
}

#[test]
fn decode_mute_on() {
    let data = make_notification(0x05, 1);
    assert_eq!(Response::decode(char_upstream(), &data), Response::MuteState(true));
}

#[test]
fn decode_mute_off() {
    let data = make_notification(0x05, 0);
    assert_eq!(Response::decode(char_upstream(), &data), Response::MuteState(false));
}

#[test]
fn decode_quiet_mode() {
    let data = make_notification(0x06, 1);
    assert_eq!(Response::decode(char_upstream(), &data), Response::QuietMode(true));
}

#[test]
fn decode_balance() {
    let data = make_notification(0x07, 50);
    assert_eq!(Response::decode(char_upstream(), &data), Response::Balance(50));
}

#[test]
fn decode_source_hdmi() {
    let data = make_notification(0x09, 0);
    assert_eq!(
        Response::decode(char_upstream(), &data),
        Response::CurrentInput(Input::HdmiArc)
    );
}

#[test]
fn decode_source_optical() {
    let data = make_notification(0x09, 3);
    assert_eq!(
        Response::decode(char_upstream(), &data),
        Response::CurrentInput(Input::Optical)
    );
}

#[test]
fn decode_power_on_is_zero() {
    let data = make_notification(0x0A, 0);
    assert_eq!(Response::decode(char_upstream(), &data), Response::Power(true));
}

#[test]
fn decode_power_off_is_one() {
    let data = make_notification(0x0A, 1);
    assert_eq!(Response::decode(char_upstream(), &data), Response::Power(false));
}

#[test]
fn decode_preset_movies() {
    let data = make_notification(0x0B, 0);
    assert_eq!(
        Response::decode(char_upstream(), &data),
        Response::CurrentSoundMode(SoundMode::Movies)
    );
}

#[test]
fn decode_preset_music() {
    let data = make_notification(0x0B, 1);
    assert_eq!(
        Response::decode(char_upstream(), &data),
        Response::CurrentSoundMode(SoundMode::Music)
    );
}

#[test]
fn decode_preset_tv() {
    let data = make_notification(0x0B, 2);
    assert_eq!(
        Response::decode(char_upstream(), &data),
        Response::CurrentSoundMode(SoundMode::Tv)
    );
}

#[test]
fn decode_preset_news() {
    let data = make_notification(0x0B, 3);
    assert_eq!(
        Response::decode(char_upstream(), &data),
        Response::CurrentSoundMode(SoundMode::News)
    );
}

#[test]
fn decode_subwoofer_connected() {
    let data = make_notification(0x0E, 1);
    assert_eq!(
        Response::decode(char_upstream(), &data),
        Response::SubwooferConnected(true)
    );
}

#[test]
fn decode_rear_volume() {
    let data = make_notification(0x0F, 20);
    assert_eq!(Response::decode(char_upstream(), &data), Response::RearVolume(20));
}

#[test]
fn decode_firmware_version() {
    let data = vec![0xCC, 0x06, 0xAA, 0x01, 0x03, 0x01, 0x01, 0x47];
    assert_eq!(
        Response::decode(char_upstream(), &data),
        Response::FirmwareVersion { fw_type: 0x01, major: 0x01, minor: 0x47 }
    );
}

#[test]
fn decode_short_data_returns_unknown() {
    let data = vec![0xCC, 0x05, 0xAA];
    assert!(matches!(
        Response::decode(char_upstream(), &data),
        Response::Unknown { .. }
    ));
}

#[test]
fn decode_out_of_range_code_returns_unknown() {
    let data = make_notification(0xFF, 0x00);
    assert!(matches!(
        Response::decode(char_upstream(), &data),
        Response::Unknown { .. }
    ));
}

// --- SoundMode write/read roundtrip ---

#[test]
fn sound_mode_write_values_match_homebridge() {
    assert_eq!(SoundMode::Tv.to_write_byte(), 5);
    assert_eq!(SoundMode::News.to_write_byte(), 6);
    assert_eq!(SoundMode::Movies.to_write_byte(), 7);
    assert_eq!(SoundMode::Music.to_write_byte(), 8);
}

#[test]
fn sound_mode_read_values_match_homebridge() {
    assert_eq!(SoundMode::from_read_byte(0).unwrap(), SoundMode::Movies);
    assert_eq!(SoundMode::from_read_byte(1).unwrap(), SoundMode::Music);
    assert_eq!(SoundMode::from_read_byte(2).unwrap(), SoundMode::Tv);
    assert_eq!(SoundMode::from_read_byte(3).unwrap(), SoundMode::News);
}

#[test]
fn input_values_match_homebridge() {
    assert_eq!(Input::HdmiArc.to_byte(), 0);
    assert_eq!(Input::Bluetooth.to_byte(), 1);
    assert_eq!(Input::Aux.to_byte(), 2);
    assert_eq!(Input::Optical.to_byte(), 3);
}

// --- UUID tests ---

#[test]
fn service_uuid_encodes_excelpoint() {
    let bytes = service_stealthtech().as_bytes();
    let ascii: Vec<u8> = "excelpoint.com".bytes().collect();
    assert_eq!(&bytes[..14], &ascii[..]);
}

#[test]
fn characteristic_uuids_share_base() {
    let service_bytes = service_stealthtech().as_bytes();
    let upstream_bytes = char_upstream().as_bytes();
    assert_eq!(&service_bytes[..14], &upstream_bytes[..14]);
    assert_eq!(upstream_bytes[14], 0x00);
    assert_eq!(upstream_bytes[15], 0x01);
}
