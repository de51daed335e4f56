use libstealthtech::characteristics::char_eq_control;
use libstealthtech::characteristics::char_upstream;
use libstealthtech::characteristics::service_stealthtech;
use libstealthtech::characteristics::Uuid;
use libstealthtech::characteristics::MAX_BALANCE;
use libstealthtech::characteristics::MAX_BASS;
use libstealthtech::characteristics::MAX_CENTER_VOLUME;
use libstealthtech::characteristics::MAX_REAR_VOLUME;
use libstealthtech::characteristics::MAX_TREBLE;
use libstealthtech::characteristics::MAX_VOLUME;
use libstealthtech::command_json::encode_command;
use libstealthtech::command_json::encode_json_command;
use libstealthtech::command_json::parse_command_text;
use libstealthtech::command_json::parse_command;
use libstealthtech::command_json::CommandJsonError;
use libstealthtech::command_json::EncodeCommandError;
use libstealthtech::command_json::JsonNumber;
use libstealthtech::command_json::JsonValue;
use libstealthtech::commands::Command;
use libstealthtech::commands::ConfigShape;
use libstealthtech::commands::Input;
use libstealthtech::commands::ProtocolError;
use libstealthtech::commands::SoundMode;

fn object(key: &str, value: JsonValue) -> JsonValue {
    JsonValue::Object(vec![(key.to_string(), value)])
}

fn num(n: u64) -> JsonValue {
    JsonValue::Number(JsonNumber::PosInt(n))
}

fn text(s: &str) -> JsonValue {
    JsonValue::String(s.to_string())
}

#[test]
fn constants_match_protocol() {
    assert_eq!(MAX_VOLUME, 36);
    assert_eq!(MAX_BASS, 20);
    assert_eq!(MAX_TREBLE, 20);
    assert_eq!(MAX_CENTER_VOLUME, 30);
    assert_eq!(MAX_REAR_VOLUME, 30);
    assert_eq!(MAX_BALANCE, 100);
}

#[test]
fn service_uuid_is_valid() {
    let uuid_str = service_stealthtech().to_string();
    assert!(Uuid::parse_str(&uuid_str).is_some());
    assert!(uuid_str.contains("65786365"));
}

#[test]
fn uuid_text_is_hyphenated_lowercase() {
    assert_eq!(
        char_upstream().to_string(),
        "65786365-6c70-6f69-6e74-2e636f6d0001"
    );
    assert_eq!(
        service_stealthtech().to_string(),
        "65786365-6c70-6f69-6e74-2e636f6d0000"
    );
}

#[test]
fn uuid_text_parses_back() {
    let parsed = Uuid::parse_str("65786365-6c70-6f69-6e74-2e636f6d0001").unwrap();
    assert_eq!(parsed, char_upstream());
    assert_eq!(parsed.as_u128(), 0x6578_6365_6c70_6f69_6e74_2e63_6f6d_0001u128);
}

#[test]
fn decode_invalid_uuid_returns_error() {
    assert!(Uuid::parse_str("not-a-uuid").is_none());
}

#[test]
fn upstream_uuid_is_valid() {
    let uuid_str = char_upstream().to_string();
    assert!(Uuid::parse_str(&uuid_str).is_some());
}

#[test]
fn encode_set_volume_command() {
    let (uuid, data) = encode_command(r#"{"SetVolume": 18}"#).unwrap();
    assert_eq!(uuid, char_eq_control());
    assert_eq!(data[0], 0xAA);
    assert_eq!(data[4], 18);
}

#[test]
fn encode_set_input_command() {
    let (_, data) = encode_command(r#"{"SetInput": "HdmiArc"}"#).unwrap();
    assert_eq!(data[0], 0xAA);
    assert_eq!(data[1], 0x07);
    assert_eq!(data[2], 0);
}

#[test]
fn encode_set_sound_mode_command() {
    let (_, data) = encode_command(r#"{"SetSoundMode": "Movies"}"#).unwrap();
    assert_eq!(data[0], 0xAA);
    assert_eq!(data[2], 7);
}

#[test]
fn encode_get_state_command() {
    let (_, data) = encode_command(r#""GetState""#).unwrap();
    assert_eq!(data[0], 0xAA);
    assert_eq!(data[1], 0x01);
    assert_eq!(data[2], 0x01);
    assert_eq!(data[3], 0x00);
}

#[test]
fn encode_get_firmware_version_command() {
    let (_, data) = encode_command(r#""GetFirmwareVersion""#).unwrap();
    assert_eq!(data[0], 0xAA);
    assert_eq!(data[1], 0x01);
    assert_eq!(data[2], 0x01);
    assert_eq!(data[3], 0x01);
}

#[test]
fn encode_set_mute_command() {
    let (_, data) = encode_command(r#"{"SetMute": true}"#).unwrap();
    assert_eq!(data[4], 1);
}

#[test]
fn encode_set_power_command() {
    let (_, data) = encode_command(r#"{"SetPower": false}"#).unwrap();
    assert_eq!(data[4], 0);
}

#[test]
fn encode_set_config_shape_command() {
    let (_, data) = encode_command(r#"{"SetConfigShape": "UShape"}"#).unwrap();
    assert_eq!(data[2], 2);
}

#[test]
fn encode_invalid_json_returns_error() {
    assert!(encode_command("not valid json").is_err());
    match encode_command("not valid json") {
        Err(EncodeCommandError::InvalidJson(m)) => assert!(m.starts_with("invalid JSON: ")),
        _ => panic!("expected InvalidJson"),
    }
}

#[test]
fn encode_unknown_command_returns_error() {
    assert!(encode_command(r#""UnknownCommand""#).is_err());
    assert!(matches!(
        encode_command(r#""UnknownCommand""#),
        Err(EncodeCommandError::Parse(CommandJsonError::UnknownCommandString(ref s))) if s == "UnknownCommand"
    ));
}

#[test]
fn encode_volume_out_of_range_returns_error() {
    assert!(encode_command(r#"{"SetVolume": 255}"#).is_err());
    assert!(matches!(
        encode_command(r#"{"SetVolume": 255}"#),
        Err(EncodeCommandError::Protocol(ProtocolError::OutOfRange { value: 255, min: 0, max: 36 }))
    ));
}

#[test]
fn encode_wrong_value_type_returns_error() {
    assert!(encode_command(r#"{"SetVolume": "loud"}"#).is_err());
    assert!(matches!(
        encode_command(r#"{"SetVolume": "loud"}"#),
        Err(EncodeCommandError::Parse(CommandJsonError::ExpectedU8("SetVolume")))
    ));
}

#[test]
fn command_text_reader() {
    assert_eq!(parse_command_text(r#""GetState""#).unwrap().unwrap(), Command::GetState);
    assert_eq!(parse_command_text(r#"{"SetBass": 7}"#).unwrap().unwrap(), Command::SetBass(7));
    assert!(matches!(parse_command_text("42"), Ok(Err(CommandJsonError::NotStringOrObject))));
    assert!(matches!(
        parse_command_text(r#""getstate""#),
        Ok(Err(CommandJsonError::UnknownCommandString(_)))
    ));
    assert!(matches!(
        parse_command_text(r#"{"SetVolume": -1}"#),
        Ok(Err(CommandJsonError::ExpectedU8("SetVolume")))
    ));
    assert!(matches!(
        parse_command_text(r#"{"SetVolume": 1.5}"#),
        Ok(Err(CommandJsonError::ExpectedU8("SetVolume")))
    ));
    assert!(parse_command_text("{").is_err());
}

#[test]
fn encode_json_value_command() {
    let (uuid, data) = encode_json_command(&object("SetVolume", num(18))).unwrap();
    assert_eq!(uuid, char_eq_control());
    assert_eq!(data, vec![0xAA, 0x03, 0x02, 0x01, 18]);
}

#[test]
fn parse_every_argument_kind() {
    assert_eq!(parse_command(&object("SetBass", num(3))).unwrap(), Command::SetBass(3));
    assert_eq!(
        parse_command(&object("SetQuietCouch", JsonValue::Bool(true))).unwrap(),
        Command::SetQuietCouch(true)
    );
    assert_eq!(
        parse_command(&object("SetInput", text("Optical"))).unwrap(),
        Command::SetInput(Input::Optical)
    );
    assert_eq!(
        parse_command(&object("SetSoundMode", text("Manual"))).unwrap(),
        Command::SetSoundMode(SoundMode::Manual)
    );
    assert_eq!(
        parse_command(&object("SetConfigShape", text("Pit"))).unwrap(),
        Command::SetConfigShape(ConfigShape::Pit)
    );
}

#[test]
fn parse_u8_argument_bounds() {
    assert_eq!(parse_command(&object("SetVolume", num(255))).unwrap(), Command::SetVolume(255));
    assert!(matches!(
        parse_command(&object("SetVolume", num(256))),
        Err(CommandJsonError::ExpectedU8("SetVolume"))
    ));
    assert!(matches!(
        parse_command(&object("SetVolume", JsonValue::Number(JsonNumber::NegInt(-1)))),
        Err(CommandJsonError::ExpectedU8("SetVolume"))
    ));
    assert!(matches!(
        parse_command(&object("SetVolume", JsonValue::Number(JsonNumber::Float))),
        Err(CommandJsonError::ExpectedU8("SetVolume"))
    ));
}

#[test]
fn parse_error_variants() {
    assert!(matches!(
        parse_command(&JsonValue::Object(vec![])),
        Err(CommandJsonError::NotSingleKey)
    ));
    assert!(matches!(
        parse_command(&JsonValue::Object(vec![
            ("SetVolume".to_string(), num(1)),
            ("SetBass".to_string(), num(1)),
        ])),
        Err(CommandJsonError::NotSingleKey)
    ));
    assert!(matches!(
        parse_command(&object("Explode", num(1))),
        Err(CommandJsonError::UnknownCommandKey(ref s)) if s == "Explode"
    ));
    assert!(matches!(
        parse_command(&object("SetMute", num(1))),
        Err(CommandJsonError::ExpectedBool("SetMute"))
    ));
    assert!(matches!(
        parse_command(&object("SetInput", num(1))),
        Err(CommandJsonError::ExpectedString("SetInput"))
    ));
    assert!(matches!(
        parse_command(&object("SetInput", text("Vinyl"))),
        Err(CommandJsonError::UnknownInput(ref s)) if s == "Vinyl"
    ));
    assert!(matches!(
        parse_command(&object("SetSoundMode", text("Opera"))),
        Err(CommandJsonError::UnknownSoundMode(ref s)) if s == "Opera"
    ));
    assert!(matches!(
        parse_command(&object("SetConfigShape", text("Round"))),
        Err(CommandJsonError::UnknownConfigShape(ref s)) if s == "Round"
    ));
    assert!(matches!(parse_command(&num(42)), Err(CommandJsonError::NotStringOrObject)));
    assert!(matches!(parse_command(&JsonValue::Null), Err(CommandJsonError::NotStringOrObject)));
}

#[test]
fn command_error_messages() {
    let e = parse_command(&object("SetVolume", text("loud"))).unwrap_err();
    assert_eq!(e.to_string(), "SetVolume requires a u8 integer value");
    let e = parse_command(&object("SetInput", text("Vinyl"))).unwrap_err();
    assert_eq!(
        e.to_string(),
        "unknown input: Vinyl (expected HdmiArc, Bluetooth, Aux, or Optical)"
    );
    let e = parse_command(&num(1)).unwrap_err();
    assert_eq!(e.to_string(), "command must be a JSON string or object");
}

#[test]
fn variant_names_read_back() {
    for i in [Input::HdmiArc, Input::Bluetooth, Input::Aux, Input::Optical] {
        assert_eq!(parse_command(&object("SetInput", text(i.name()))).unwrap(), Command::SetInput(i));
    }
    for m in [SoundMode::Movies, SoundMode::Music, SoundMode::Tv, SoundMode::News, SoundMode::Manual] {
        assert_eq!(
            parse_command(&object("SetSoundMode", text(m.name()))).unwrap(),
            Command::SetSoundMode(m)
        );
    }
    for s in [ConfigShape::Straight, ConfigShape::LShape, ConfigShape::UShape, ConfigShape::Pit] {
        assert_eq!(
            parse_command(&object("SetConfigShape", text(s.name()))).unwrap(),
            Command::SetConfigShape(s)
        );
    }
}
