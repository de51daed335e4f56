//! The protocol's tables, stated entry by entry over all values: the command
//! encoding table, the JSON command names, the notification codes and the
//! state fields they set, the notification texts, and the names the REST API
//! accepts.

use vstd::prelude::*;

use crate::command_json::{command_from_json, json_u8, CommandParse, JsonNumber, JsonValue};
use crate::characteristics::{uuid_hyphenated, Uuid};
use crate::commands::{
    command_char_suffix, command_payload, decode_view, is_version_notification, Command,
    config_shape_text, input_text, protocol_error_text, response_text, validate_result, ProtocolError, sound_mode_text, ConfigShape, Input,
    ResponseView, SoundMode,
};
use crate::connection::{connection_state_text, ConnectionState};
use crate::serve::{
    input_by_request_name, mode_by_request_name, shape_by_request_name, static_path_spec,
    trim_leading_slashes,
};
use crate::laws::status_notification;
use crate::sniff::{padded, spaces};
use crate::state::{apply_view, record_view, update_available, DeviceStateView};
use crate::text::{ascii_lowercase, dec_digits, hex_byte, hex_lower, int_digits};

verus! {

/// The command encoding table: every command's characteristic (by its UUID
/// suffix) and its exact packet, for every value.
pub proof fn command_encoding_table(v: u8, on: bool)
    ensures
        command_char_suffix(Command::SetVolume(v)) == 0x0003
            && command_payload(Command::SetVolume(v)) == seq![0xAAu8, 0x03u8, 0x02u8, 0x01u8, v],
        command_char_suffix(Command::SetBass(v)) == 0x0003
            && command_payload(Command::SetBass(v)) == seq![0xAAu8, 0x03u8, 0x01u8, 0x01u8, v],
        command_char_suffix(Command::SetTreble(v)) == 0x0003
            && command_payload(Command::SetTreble(v)) == seq![0xAAu8, 0x03u8, 0x00u8, 0x01u8, v],
        command_char_suffix(Command::SetCenterVolume(v)) == 0x0003
            && command_payload(Command::SetCenterVolume(v)) == seq![0xAAu8, 0x03u8, 0x03u8, 0x01u8, v],
        command_char_suffix(Command::SetRearChannelVolume(v)) == 0x0003
            && command_payload(Command::SetRearChannelVolume(v)) == seq![0xAAu8, 0x03u8, 0x0Au8, 0x01u8, v],
        command_char_suffix(Command::SetMute(on)) == 0x0003
            && command_payload(Command::SetMute(on)) == seq![0xAAu8, 0x03u8, 0x09u8, 0x01u8, if on { 1u8 } else { 0u8 }],
        command_char_suffix(Command::SetQuietCouch(on)) == 0x0003
            && command_payload(Command::SetQuietCouch(on)) == seq![0xAAu8, 0x03u8, 0x04u8, 0x01u8, if on { 1u8 } else { 0u8 }],
        command_char_suffix(Command::SetArmType(v)) == 0x0003
            && command_payload(Command::SetArmType(v)) == seq![0xAAu8, 0x03u8, 0x0Du8, 0x01u8, v],
        command_char_suffix(Command::SetSurroundEnabled(on)) == 0x0003
            && command_payload(Command::SetSurroundEnabled(on)) == seq![0xAAu8, 0x03u8, 0x0Eu8, 0x01u8, if on { 1u8 } else { 0u8 }],
        command_char_suffix(Command::SetSoundMode(SoundMode::Tv)) == 0x0003
            && command_payload(Command::SetSoundMode(SoundMode::Tv)) == seq![0xAAu8, 0x03u8, 5u8, 0x00u8],
        command_payload(Command::SetSoundMode(SoundMode::News)) == seq![0xAAu8, 0x03u8, 6u8, 0x00u8],
        command_payload(Command::SetSoundMode(SoundMode::Movies)) == seq![0xAAu8, 0x03u8, 7u8, 0x00u8],
        command_payload(Command::SetSoundMode(SoundMode::Music)) == seq![0xAAu8, 0x03u8, 8u8, 0x00u8],
        command_payload(Command::SetSoundMode(SoundMode::Manual)) == seq![0xAAu8, 0x03u8, 9u8, 0x00u8],
        command_char_suffix(Command::SetBalance(v)) == 0x0004
            && command_payload(Command::SetBalance(v)) == seq![0xAAu8, 0x04u8, 0x00u8, 0x01u8, v],
        command_char_suffix(Command::SetPower(on)) == 0x0004
            && command_payload(Command::SetPower(on)) == seq![0xAAu8, 0x04u8, 0x01u8, 0x01u8, if on { 1u8 } else { 0u8 }],
        command_char_suffix(Command::SetPlayPause(v)) == 0x0005
            && command_payload(Command::SetPlayPause(v)) == seq![0xAAu8, 0x05u8, 0x00u8, 0x01u8, v],
        command_char_suffix(Command::SetSkip(v)) == 0x0005
            && command_payload(Command::SetSkip(v)) == seq![0xAAu8, 0x05u8, 0x01u8, 0x01u8, v],
        command_char_suffix(Command::SetConfigShape(ConfigShape::Straight)) == 0x0006
            && command_payload(Command::SetConfigShape(ConfigShape::Straight)) == seq![0xAAu8, 0x06u8, 0u8, 0x00u8],
        command_payload(Command::SetConfigShape(ConfigShape::LShape)) == seq![0xAAu8, 0x06u8, 1u8, 0x00u8],
        command_payload(Command::SetConfigShape(ConfigShape::UShape)) == seq![0xAAu8, 0x06u8, 2u8, 0x00u8],
        command_payload(Command::SetConfigShape(ConfigShape::Pit)) == seq![0xAAu8, 0x06u8, 3u8, 0x00u8],
        command_char_suffix(Command::SetInput(Input::HdmiArc)) == 0x0007
            && command_payload(Command::SetInput(Input::HdmiArc)) == seq![0xAAu8, 0x07u8, 0u8, 0x00u8],
        command_payload(Command::SetInput(Input::Bluetooth)) == seq![0xAAu8, 0x07u8, 1u8, 0x00u8],
        command_payload(Command::SetInput(Input::Aux)) == seq![0xAAu8, 0x07u8, 2u8, 0x00u8],
        command_payload(Command::SetInput(Input::Optical)) == seq![0xAAu8, 0x07u8, 3u8, 0x00u8],
        command_char_suffix(Command::SetFabric(v)) == 0x0008
            && command_payload(Command::SetFabric(v)) == seq![0xAAu8, 0x08u8, v, 0x00u8],
        command_char_suffix(Command::GetState) == 0x0002
            && command_payload(Command::GetState) == seq![0xAAu8, 0x01u8, 0x01u8, 0x00u8],
        command_char_suffix(Command::GetFirmwareVersion) == 0x0002
            && command_payload(Command::GetFirmwareVersion) == seq![0xAAu8, 0x01u8, 0x01u8, 0x01u8],
        forall|m: SoundMode| #[trigger] command_char_suffix(Command::SetSoundMode(m)) == 0x0003,
        forall|s: ConfigShape| #[trigger] command_char_suffix(Command::SetConfigShape(s)) == 0x0006,
        forall|i: Input| #[trigger] command_char_suffix(Command::SetInput(i)) == 0x0007,
{
}

/// Distinct commands encode to distinct packets: the packet determines the
/// command, value included.
pub proof fn distinct_commands_encode_differently(c1: Command, c2: Command)
    ensures
        command_payload(c1) == command_payload(c2) ==> c1 == c2,
{
    if command_payload(c1) == command_payload(c2) {
        let p = command_payload(c1);
        let q = command_payload(c2);
        assert(p.len() == q.len() && p[1] == q[1] && p[2] == q[2] && p[3] == q[3]);
        if p.len() == 5 {
            assert(p[4] == q[4]);
        }
    }
}

/// The single member of a JSON object with one member named `key`, if `v`
/// is such an object.
pub open spec fn single_member(v: JsonValue, key: Seq<char>) -> Option<JsonValue> {
    match v {
        JsonValue::Object(m) => if m@.len() == 1 && m@[0].0@ == key {
            Some(m@[0].1)
        } else {
            None
        },
        _ => None,
    }
}

/// The text of `v`, if it is a JSON string.
pub open spec fn string_value(v: JsonValue) -> Option<Seq<char>> {
    match v {
        JsonValue::String(t) => Some(t@),
        _ => None,
    }
}

/// The text of the single member named `key`, if it is a JSON string.
pub open spec fn member_text(v: JsonValue, key: Seq<char>) -> Option<Seq<char>> {
    match single_member(v, key) {
        Some(JsonValue::String(t)) => Some(t@),
        _ => None,
    }
}

/// Each JSON key with an integer value in 0..=255 reads as the command of
/// the same name with that value.
pub proof fn json_integer_commands_read_back(v: JsonValue, n: u8)
    ensures
        single_member(v, "SetVolume"@) == Some(JsonValue::Number(JsonNumber::PosInt(n as u64)))
            ==> command_from_json(v) == CommandParse::Parsed(Command::SetVolume(n)),
        single_member(v, "SetBass"@) == Some(JsonValue::Number(JsonNumber::PosInt(n as u64)))
            ==> command_from_json(v) == CommandParse::Parsed(Command::SetBass(n)),
        single_member(v, "SetTreble"@) == Some(JsonValue::Number(JsonNumber::PosInt(n as u64)))
            ==> command_from_json(v) == CommandParse::Parsed(Command::SetTreble(n)),
        single_member(v, "SetCenterVolume"@) == Some(JsonValue::Number(JsonNumber::PosInt(n as u64)))
            ==> command_from_json(v) == CommandParse::Parsed(Command::SetCenterVolume(n)),
        single_member(v, "SetRearChannelVolume"@) == Some(JsonValue::Number(JsonNumber::PosInt(n as u64)))
            ==> command_from_json(v) == CommandParse::Parsed(Command::SetRearChannelVolume(n)),
        single_member(v, "SetBalance"@) == Some(JsonValue::Number(JsonNumber::PosInt(n as u64)))
            ==> command_from_json(v) == CommandParse::Parsed(Command::SetBalance(n)),
        single_member(v, "SetFabric"@) == Some(JsonValue::Number(JsonNumber::PosInt(n as u64)))
            ==> command_from_json(v) == CommandParse::Parsed(Command::SetFabric(n)),
        single_member(v, "SetArmType"@) == Some(JsonValue::Number(JsonNumber::PosInt(n as u64)))
            ==> command_from_json(v) == CommandParse::Parsed(Command::SetArmType(n)),
        single_member(v, "SetPlayPause"@) == Some(JsonValue::Number(JsonNumber::PosInt(n as u64)))
            ==> command_from_json(v) == CommandParse::Parsed(Command::SetPlayPause(n)),
        single_member(v, "SetSkip"@) == Some(JsonValue::Number(JsonNumber::PosInt(n as u64)))
            ==> command_from_json(v) == CommandParse::Parsed(Command::SetSkip(n)),
{
    reveal_strlit("SetVolume");
    assert("SetVolume"@.len() == 9 && "SetVolume"@[0] == 'S' && "SetVolume"@[1] == 'e' && "SetVolume"@[2] == 't' && "SetVolume"@[3] == 'V' && "SetVolume"@[4] == 'o' && "SetVolume"@[5] == 'l');
    reveal_strlit("SetBass");
    assert("SetBass"@.len() == 7 && "SetBass"@[0] == 'S' && "SetBass"@[1] == 'e' && "SetBass"@[2] == 't' && "SetBass"@[3] == 'B' && "SetBass"@[4] == 'a' && "SetBass"@[5] == 's');
    reveal_strlit("SetTreble");
    assert("SetTreble"@.len() == 9 && "SetTreble"@[0] == 'S' && "SetTreble"@[1] == 'e' && "SetTreble"@[2] == 't' && "SetTreble"@[3] == 'T' && "SetTreble"@[4] == 'r' && "SetTreble"@[5] == 'e');
    reveal_strlit("SetCenterVolume");
    assert("SetCenterVolume"@.len() == 15 && "SetCenterVolume"@[0] == 'S' && "SetCenterVolume"@[1] == 'e' && "SetCenterVolume"@[2] == 't' && "SetCenterVolume"@[3] == 'C' && "SetCenterVolume"@[4] == 'e' && "SetCenterVolume"@[5] == 'n');
    reveal_strlit("SetRearChannelVolume");
    assert("SetRearChannelVolume"@.len() == 20 && "SetRearChannelVolume"@[0] == 'S' && "SetRearChannelVolume"@[1] == 'e' && "SetRearChannelVolume"@[2] == 't' && "SetRearChannelVolume"@[3] == 'R' && "SetRearChannelVolume"@[4] == 'e' && "SetRearChannelVolume"@[5] == 'a');
    reveal_strlit("SetMute");
    assert("SetMute"@.len() == 7 && "SetMute"@[0] == 'S' && "SetMute"@[1] == 'e' && "SetMute"@[2] == 't' && "SetMute"@[3] == 'M' && "SetMute"@[4] == 'u' && "SetMute"@[5] == 't');
    reveal_strlit("SetQuietCouch");
    assert("SetQuietCouch"@.len() == 13 && "SetQuietCouch"@[0] == 'S' && "SetQuietCouch"@[1] == 'e' && "SetQuietCouch"@[2] == 't' && "SetQuietCouch"@[3] == 'Q' && "SetQuietCouch"@[4] == 'u' && "SetQuietCouch"@[5] == 'i');
    reveal_strlit("SetSoundMode");
    assert("SetSoundMode"@.len() == 12 && "SetSoundMode"@[0] == 'S' && "SetSoundMode"@[1] == 'e' && "SetSoundMode"@[2] == 't' && "SetSoundMode"@[3] == 'S' && "SetSoundMode"@[4] == 'o' && "SetSoundMode"@[5] == 'u');
    reveal_strlit("SetBalance");
    assert("SetBalance"@.len() == 10 && "SetBalance"@[0] == 'S' && "SetBalance"@[1] == 'e' && "SetBalance"@[2] == 't' && "SetBalance"@[3] == 'B' && "SetBalance"@[4] == 'a' && "SetBalance"@[5] == 'l');
    reveal_strlit("SetPower");
    assert("SetPower"@.len() == 8 && "SetPower"@[0] == 'S' && "SetPower"@[1] == 'e' && "SetPower"@[2] == 't' && "SetPower"@[3] == 'P' && "SetPower"@[4] == 'o' && "SetPower"@[5] == 'w');
    reveal_strlit("SetInput");
    assert("SetInput"@.len() == 8 && "SetInput"@[0] == 'S' && "SetInput"@[1] == 'e' && "SetInput"@[2] == 't' && "SetInput"@[3] == 'I' && "SetInput"@[4] == 'n' && "SetInput"@[5] == 'p');
    reveal_strlit("SetFabric");
    assert("SetFabric"@.len() == 9 && "SetFabric"@[0] == 'S' && "SetFabric"@[1] == 'e' && "SetFabric"@[2] == 't' && "SetFabric"@[3] == 'F' && "SetFabric"@[4] == 'a' && "SetFabric"@[5] == 'b');
    reveal_strlit("SetConfigShape");
    assert("SetConfigShape"@.len() == 14 && "SetConfigShape"@[0] == 'S' && "SetConfigShape"@[1] == 'e' && "SetConfigShape"@[2] == 't' && "SetConfigShape"@[3] == 'C' && "SetConfigShape"@[4] == 'o' && "SetConfigShape"@[5] == 'n');
    reveal_strlit("SetArmType");
    assert("SetArmType"@.len() == 10 && "SetArmType"@[0] == 'S' && "SetArmType"@[1] == 'e' && "SetArmType"@[2] == 't' && "SetArmType"@[3] == 'A' && "SetArmType"@[4] == 'r' && "SetArmType"@[5] == 'm');
    reveal_strlit("SetPlayPause");
    assert("SetPlayPause"@.len() == 12 && "SetPlayPause"@[0] == 'S' && "SetPlayPause"@[1] == 'e' && "SetPlayPause"@[2] == 't' && "SetPlayPause"@[3] == 'P' && "SetPlayPause"@[4] == 'l' && "SetPlayPause"@[5] == 'a');
    reveal_strlit("SetSkip");
    assert("SetSkip"@.len() == 7 && "SetSkip"@[0] == 'S' && "SetSkip"@[1] == 'e' && "SetSkip"@[2] == 't' && "SetSkip"@[3] == 'S' && "SetSkip"@[4] == 'k' && "SetSkip"@[5] == 'i');
}

/// Each JSON key with a boolean value reads as the command of the same name
/// with that value.
pub proof fn json_boolean_commands_read_back(v: JsonValue, b: bool)
    ensures
        single_member(v, "SetMute"@) == Some(JsonValue::Bool(b))
            ==> command_from_json(v) == CommandParse::Parsed(Command::SetMute(b)),
        single_member(v, "SetQuietCouch"@) == Some(JsonValue::Bool(b))
            ==> command_from_json(v) == CommandParse::Parsed(Command::SetQuietCouch(b)),
        single_member(v, "SetPower"@) == Some(JsonValue::Bool(b))
            ==> command_from_json(v) == CommandParse::Parsed(Command::SetPower(b)),
{
    reveal_strlit("SetVolume");
    assert("SetVolume"@.len() == 9 && "SetVolume"@[0] == 'S' && "SetVolume"@[1] == 'e' && "SetVolume"@[2] == 't' && "SetVolume"@[3] == 'V' && "SetVolume"@[4] == 'o' && "SetVolume"@[5] == 'l');
    reveal_strlit("SetBass");
    assert("SetBass"@.len() == 7 && "SetBass"@[0] == 'S' && "SetBass"@[1] == 'e' && "SetBass"@[2] == 't' && "SetBass"@[3] == 'B' && "SetBass"@[4] == 'a' && "SetBass"@[5] == 's');
    reveal_strlit("SetTreble");
    assert("SetTreble"@.len() == 9 && "SetTreble"@[0] == 'S' && "SetTreble"@[1] == 'e' && "SetTreble"@[2] == 't' && "SetTreble"@[3] == 'T' && "SetTreble"@[4] == 'r' && "SetTreble"@[5] == 'e');
    reveal_strlit("SetCenterVolume");
    assert("SetCenterVolume"@.len() == 15 && "SetCenterVolume"@[0] == 'S' && "SetCenterVolume"@[1] == 'e' && "SetCenterVolume"@[2] == 't' && "SetCenterVolume"@[3] == 'C' && "SetCenterVolume"@[4] == 'e' && "SetCenterVolume"@[5] == 'n');
    reveal_strlit("SetRearChannelVolume");
    assert("SetRearChannelVolume"@.len() == 20 && "SetRearChannelVolume"@[0] == 'S' && "SetRearChannelVolume"@[1] == 'e' && "SetRearChannelVolume"@[2] == 't' && "SetRearChannelVolume"@[3] == 'R' && "SetRearChannelVolume"@[4] == 'e' && "SetRearChannelVolume"@[5] == 'a');
    reveal_strlit("SetMute");
    assert("SetMute"@.len() == 7 && "SetMute"@[0] == 'S' && "SetMute"@[1] == 'e' && "SetMute"@[2] == 't' && "SetMute"@[3] == 'M' && "SetMute"@[4] == 'u' && "SetMute"@[5] == 't');
    reveal_strlit("SetQuietCouch");
    assert("SetQuietCouch"@.len() == 13 && "SetQuietCouch"@[0] == 'S' && "SetQuietCouch"@[1] == 'e' && "SetQuietCouch"@[2] == 't' && "SetQuietCouch"@[3] == 'Q' && "SetQuietCouch"@[4] == 'u' && "SetQuietCouch"@[5] == 'i');
    reveal_strlit("SetSoundMode");
    assert("SetSoundMode"@.len() == 12 && "SetSoundMode"@[0] == 'S' && "SetSoundMode"@[1] == 'e' && "SetSoundMode"@[2] == 't' && "SetSoundMode"@[3] == 'S' && "SetSoundMode"@[4] == 'o' && "SetSoundMode"@[5] == 'u');
    reveal_strlit("SetBalance");
    assert("SetBalance"@.len() == 10 && "SetBalance"@[0] == 'S' && "SetBalance"@[1] == 'e' && "SetBalance"@[2] == 't' && "SetBalance"@[3] == 'B' && "SetBalance"@[4] == 'a' && "SetBalance"@[5] == 'l');
    reveal_strlit("SetPower");
    assert("SetPower"@.len() == 8 && "SetPower"@[0] == 'S' && "SetPower"@[1] == 'e' && "SetPower"@[2] == 't' && "SetPower"@[3] == 'P' && "SetPower"@[4] == 'o' && "SetPower"@[5] == 'w');
    reveal_strlit("SetInput");
    assert("SetInput"@.len() == 8 && "SetInput"@[0] == 'S' && "SetInput"@[1] == 'e' && "SetInput"@[2] == 't' && "SetInput"@[3] == 'I' && "SetInput"@[4] == 'n' && "SetInput"@[5] == 'p');
    reveal_strlit("SetFabric");
    assert("SetFabric"@.len() == 9 && "SetFabric"@[0] == 'S' && "SetFabric"@[1] == 'e' && "SetFabric"@[2] == 't' && "SetFabric"@[3] == 'F' && "SetFabric"@[4] == 'a' && "SetFabric"@[5] == 'b');
    reveal_strlit("SetConfigShape");
    assert("SetConfigShape"@.len() == 14 && "SetConfigShape"@[0] == 'S' && "SetConfigShape"@[1] == 'e' && "SetConfigShape"@[2] == 't' && "SetConfigShape"@[3] == 'C' && "SetConfigShape"@[4] == 'o' && "SetConfigShape"@[5] == 'n');
    reveal_strlit("SetArmType");
    assert("SetArmType"@.len() == 10 && "SetArmType"@[0] == 'S' && "SetArmType"@[1] == 'e' && "SetArmType"@[2] == 't' && "SetArmType"@[3] == 'A' && "SetArmType"@[4] == 'r' && "SetArmType"@[5] == 'm');
    reveal_strlit("SetPlayPause");
    assert("SetPlayPause"@.len() == 12 && "SetPlayPause"@[0] == 'S' && "SetPlayPause"@[1] == 'e' && "SetPlayPause"@[2] == 't' && "SetPlayPause"@[3] == 'P' && "SetPlayPause"@[4] == 'l' && "SetPlayPause"@[5] == 'a');
    reveal_strlit("SetSkip");
    assert("SetSkip"@.len() == 7 && "SetSkip"@[0] == 'S' && "SetSkip"@[1] == 'e' && "SetSkip"@[2] == 't' && "SetSkip"@[3] == 'S' && "SetSkip"@[4] == 'k' && "SetSkip"@[5] == 'i');
}

/// Each JSON key with a variant name reads as the command of the same name
/// with that variant; the strings `GetState` and `GetFirmwareVersion` read
/// as those requests.
pub proof fn json_named_commands_read_back(v: JsonValue)
    ensures
        member_text(v, "SetSoundMode"@) == Some("Movies"@)
            ==> command_from_json(v) == CommandParse::Parsed(Command::SetSoundMode(SoundMode::Movies)),
        member_text(v, "SetSoundMode"@) == Some("Music"@)
            ==> command_from_json(v) == CommandParse::Parsed(Command::SetSoundMode(SoundMode::Music)),
        member_text(v, "SetSoundMode"@) == Some("Tv"@)
            ==> command_from_json(v) == CommandParse::Parsed(Command::SetSoundMode(SoundMode::Tv)),
        member_text(v, "SetSoundMode"@) == Some("News"@)
            ==> command_from_json(v) == CommandParse::Parsed(Command::SetSoundMode(SoundMode::News)),
        member_text(v, "SetSoundMode"@) == Some("Manual"@)
            ==> command_from_json(v) == CommandParse::Parsed(Command::SetSoundMode(SoundMode::Manual)),
        member_text(v, "SetInput"@) == Some("HdmiArc"@)
            ==> command_from_json(v) == CommandParse::Parsed(Command::SetInput(Input::HdmiArc)),
        member_text(v, "SetInput"@) == Some("Bluetooth"@)
            ==> command_from_json(v) == CommandParse::Parsed(Command::SetInput(Input::Bluetooth)),
        member_text(v, "SetInput"@) == Some("Aux"@)
            ==> command_from_json(v) == CommandParse::Parsed(Command::SetInput(Input::Aux)),
        member_text(v, "SetInput"@) == Some("Optical"@)
            ==> command_from_json(v) == CommandParse::Parsed(Command::SetInput(Input::Optical)),
        member_text(v, "SetConfigShape"@) == Some("Straight"@)
            ==> command_from_json(v) == CommandParse::Parsed(Command::SetConfigShape(ConfigShape::Straight)),
        member_text(v, "SetConfigShape"@) == Some("LShape"@)
            ==> command_from_json(v) == CommandParse::Parsed(Command::SetConfigShape(ConfigShape::LShape)),
        member_text(v, "SetConfigShape"@) == Some("UShape"@)
            ==> command_from_json(v) == CommandParse::Parsed(Command::SetConfigShape(ConfigShape::UShape)),
        member_text(v, "SetConfigShape"@) == Some("Pit"@)
            ==> command_from_json(v) == CommandParse::Parsed(Command::SetConfigShape(ConfigShape::Pit)),
        (v matches JsonValue::String(t) && t@ == "GetState"@) ==> command_from_json(v)
            == CommandParse::Parsed(Command::GetState),
        (v matches JsonValue::String(t) && t@ == "GetFirmwareVersion"@) ==> command_from_json(v)
            == CommandParse::Parsed(Command::GetFirmwareVersion),
{
    reveal_strlit("SetVolume");
    assert("SetVolume"@.len() == 9 && "SetVolume"@[0] == 'S' && "SetVolume"@[1] == 'e' && "SetVolume"@[2] == 't' && "SetVolume"@[3] == 'V' && "SetVolume"@[4] == 'o' && "SetVolume"@[5] == 'l');
    reveal_strlit("SetBass");
    assert("SetBass"@.len() == 7 && "SetBass"@[0] == 'S' && "SetBass"@[1] == 'e' && "SetBass"@[2] == 't' && "SetBass"@[3] == 'B' && "SetBass"@[4] == 'a' && "SetBass"@[5] == 's');
    reveal_strlit("SetTreble");
    assert("SetTreble"@.len() == 9 && "SetTreble"@[0] == 'S' && "SetTreble"@[1] == 'e' && "SetTreble"@[2] == 't' && "SetTreble"@[3] == 'T' && "SetTreble"@[4] == 'r' && "SetTreble"@[5] == 'e');
    reveal_strlit("SetCenterVolume");
    assert("SetCenterVolume"@.len() == 15 && "SetCenterVolume"@[0] == 'S' && "SetCenterVolume"@[1] == 'e' && "SetCenterVolume"@[2] == 't' && "SetCenterVolume"@[3] == 'C' && "SetCenterVolume"@[4] == 'e' && "SetCenterVolume"@[5] == 'n');
    reveal_strlit("SetRearChannelVolume");
    assert("SetRearChannelVolume"@.len() == 20 && "SetRearChannelVolume"@[0] == 'S' && "SetRearChannelVolume"@[1] == 'e' && "SetRearChannelVolume"@[2] == 't' && "SetRearChannelVolume"@[3] == 'R' && "SetRearChannelVolume"@[4] == 'e' && "SetRearChannelVolume"@[5] == 'a');
    reveal_strlit("SetMute");
    assert("SetMute"@.len() == 7 && "SetMute"@[0] == 'S' && "SetMute"@[1] == 'e' && "SetMute"@[2] == 't' && "SetMute"@[3] == 'M' && "SetMute"@[4] == 'u' && "SetMute"@[5] == 't');
    reveal_strlit("SetQuietCouch");
    assert("SetQuietCouch"@.len() == 13 && "SetQuietCouch"@[0] == 'S' && "SetQuietCouch"@[1] == 'e' && "SetQuietCouch"@[2] == 't' && "SetQuietCouch"@[3] == 'Q' && "SetQuietCouch"@[4] == 'u' && "SetQuietCouch"@[5] == 'i');
    reveal_strlit("SetSoundMode");
    assert("SetSoundMode"@.len() == 12 && "SetSoundMode"@[0] == 'S' && "SetSoundMode"@[1] == 'e' && "SetSoundMode"@[2] == 't' && "SetSoundMode"@[3] == 'S' && "SetSoundMode"@[4] == 'o' && "SetSoundMode"@[5] == 'u');
    reveal_strlit("SetBalance");
    assert("SetBalance"@.len() == 10 && "SetBalance"@[0] == 'S' && "SetBalance"@[1] == 'e' && "SetBalance"@[2] == 't' && "SetBalance"@[3] == 'B' && "SetBalance"@[4] == 'a' && "SetBalance"@[5] == 'l');
    reveal_strlit("SetPower");
    assert("SetPower"@.len() == 8 && "SetPower"@[0] == 'S' && "SetPower"@[1] == 'e' && "SetPower"@[2] == 't' && "SetPower"@[3] == 'P' && "SetPower"@[4] == 'o' && "SetPower"@[5] == 'w');
    reveal_strlit("SetInput");
    assert("SetInput"@.len() == 8 && "SetInput"@[0] == 'S' && "SetInput"@[1] == 'e' && "SetInput"@[2] == 't' && "SetInput"@[3] == 'I' && "SetInput"@[4] == 'n' && "SetInput"@[5] == 'p');
    reveal_strlit("SetFabric");
    assert("SetFabric"@.len() == 9 && "SetFabric"@[0] == 'S' && "SetFabric"@[1] == 'e' && "SetFabric"@[2] == 't' && "SetFabric"@[3] == 'F' && "SetFabric"@[4] == 'a' && "SetFabric"@[5] == 'b');
    reveal_strlit("SetConfigShape");
    assert("SetConfigShape"@.len() == 14 && "SetConfigShape"@[0] == 'S' && "SetConfigShape"@[1] == 'e' && "SetConfigShape"@[2] == 't' && "SetConfigShape"@[3] == 'C' && "SetConfigShape"@[4] == 'o' && "SetConfigShape"@[5] == 'n');
    reveal_strlit("SetArmType");
    assert("SetArmType"@.len() == 10 && "SetArmType"@[0] == 'S' && "SetArmType"@[1] == 'e' && "SetArmType"@[2] == 't' && "SetArmType"@[3] == 'A' && "SetArmType"@[4] == 'r' && "SetArmType"@[5] == 'm');
    reveal_strlit("SetPlayPause");
    assert("SetPlayPause"@.len() == 12 && "SetPlayPause"@[0] == 'S' && "SetPlayPause"@[1] == 'e' && "SetPlayPause"@[2] == 't' && "SetPlayPause"@[3] == 'P' && "SetPlayPause"@[4] == 'l' && "SetPlayPause"@[5] == 'a');
    reveal_strlit("SetSkip");
    assert("SetSkip"@.len() == 7 && "SetSkip"@[0] == 'S' && "SetSkip"@[1] == 'e' && "SetSkip"@[2] == 't' && "SetSkip"@[3] == 'S' && "SetSkip"@[4] == 'k' && "SetSkip"@[5] == 'i');
    reveal_strlit("Movies");
    assert("Movies"@.len() == 6 && "Movies"@[0] == 'M' && "Movies"@[1] == 'o' && "Movies"@[2] == 'v' && "Movies"@[3] == 'i' && "Movies"@[4] == 'e' && "Movies"@[5] == 's');
    reveal_strlit("Music");
    assert("Music"@.len() == 5 && "Music"@[0] == 'M' && "Music"@[1] == 'u' && "Music"@[2] == 's' && "Music"@[3] == 'i' && "Music"@[4] == 'c');
    reveal_strlit("Tv");
    assert("Tv"@.len() == 2 && "Tv"@[0] == 'T' && "Tv"@[1] == 'v');
    reveal_strlit("News");
    assert("News"@.len() == 4 && "News"@[0] == 'N' && "News"@[1] == 'e' && "News"@[2] == 'w' && "News"@[3] == 's');
    reveal_strlit("Manual");
    assert("Manual"@.len() == 6 && "Manual"@[0] == 'M' && "Manual"@[1] == 'a' && "Manual"@[2] == 'n' && "Manual"@[3] == 'u' && "Manual"@[4] == 'a' && "Manual"@[5] == 'l');
    reveal_strlit("HdmiArc");
    assert("HdmiArc"@.len() == 7 && "HdmiArc"@[0] == 'H' && "HdmiArc"@[1] == 'd' && "HdmiArc"@[2] == 'm' && "HdmiArc"@[3] == 'i' && "HdmiArc"@[4] == 'A' && "HdmiArc"@[5] == 'r');
    reveal_strlit("Bluetooth");
    assert("Bluetooth"@.len() == 9 && "Bluetooth"@[0] == 'B' && "Bluetooth"@[1] == 'l' && "Bluetooth"@[2] == 'u' && "Bluetooth"@[3] == 'e' && "Bluetooth"@[4] == 't' && "Bluetooth"@[5] == 'o');
    reveal_strlit("Aux");
    assert("Aux"@.len() == 3 && "Aux"@[0] == 'A' && "Aux"@[1] == 'u' && "Aux"@[2] == 'x');
    reveal_strlit("Optical");
    assert("Optical"@.len() == 7 && "Optical"@[0] == 'O' && "Optical"@[1] == 'p' && "Optical"@[2] == 't' && "Optical"@[3] == 'i' && "Optical"@[4] == 'c' && "Optical"@[5] == 'a');
    reveal_strlit("Straight");
    assert("Straight"@.len() == 8 && "Straight"@[0] == 'S' && "Straight"@[1] == 't' && "Straight"@[2] == 'r' && "Straight"@[3] == 'a' && "Straight"@[4] == 'i' && "Straight"@[5] == 'g');
    reveal_strlit("LShape");
    assert("LShape"@.len() == 6 && "LShape"@[0] == 'L' && "LShape"@[1] == 'S' && "LShape"@[2] == 'h' && "LShape"@[3] == 'a' && "LShape"@[4] == 'p' && "LShape"@[5] == 'e');
    reveal_strlit("UShape");
    assert("UShape"@.len() == 6 && "UShape"@[0] == 'U' && "UShape"@[1] == 'S' && "UShape"@[2] == 'h' && "UShape"@[3] == 'a' && "UShape"@[4] == 'p' && "UShape"@[5] == 'e');
    reveal_strlit("Pit");
    assert("Pit"@.len() == 3 && "Pit"@[0] == 'P' && "Pit"@[1] == 'i' && "Pit"@[2] == 't');
    reveal_strlit("GetState");
    assert("GetState"@.len() == 8 && "GetState"@[0] == 'G' && "GetState"@[1] == 'e' && "GetState"@[2] == 't' && "GetState"@[3] == 'S' && "GetState"@[4] == 't' && "GetState"@[5] == 'a');
    reveal_strlit("GetFirmwareVersion");
    assert("GetFirmwareVersion"@.len() == 18 && "GetFirmwareVersion"@[0] == 'G' && "GetFirmwareVersion"@[1] == 'e' && "GetFirmwareVersion"@[2] == 't' && "GetFirmwareVersion"@[3] == 'F' && "GetFirmwareVersion"@[4] == 'i' && "GetFirmwareVersion"@[5] == 'r');
}

/// Each status notification sets the state field its response code names,
/// and nothing else: 0x01 volume, 0x02 center volume, 0x03 treble, 0x04
/// bass, 0x05 mute (1 = muted), 0x06 quiet mode (1 = on), 0x07 balance, 0x08
/// layout (config shape by byte), 0x09 source (0..=3), 0x0A power (0 = on),
/// 0x0B preset (read values 0..=3), 0x0C covering, 0x0D arm type, 0x0E
/// subwoofer (1 = connected), 0x0F rear volume. Other codes, and source or
/// preset values out of range, change nothing.
pub proof fn notification_sets_its_field(s: DeviceStateView, u: Uuid, code: u8, v: u8)
    ensures
        apply_view(s, decode_view(u, status_notification(0x01u8, v))) == (DeviceStateView { volume: Some(v), ..s }),
        apply_view(s, decode_view(u, status_notification(0x02u8, v))) == (DeviceStateView { center_volume: Some(v), ..s }),
        apply_view(s, decode_view(u, status_notification(0x03u8, v))) == (DeviceStateView { treble: Some(v), ..s }),
        apply_view(s, decode_view(u, status_notification(0x04u8, v))) == (DeviceStateView { bass: Some(v), ..s }),
        apply_view(s, decode_view(u, status_notification(0x05u8, v))) == (DeviceStateView { mute: Some(v == 1), ..s }),
        apply_view(s, decode_view(u, status_notification(0x06u8, v))) == (DeviceStateView { quiet_couch: Some(v == 1), ..s }),
        apply_view(s, decode_view(u, status_notification(0x07u8, v))) == (DeviceStateView { balance: Some(v), ..s }),
        apply_view(s, decode_view(u, status_notification(0x0Au8, v))) == (DeviceStateView { power: Some(v == 0), ..s }),
        apply_view(s, decode_view(u, status_notification(0x0Cu8, v))) == (DeviceStateView { fabric: Some(v), ..s }),
        apply_view(s, decode_view(u, status_notification(0x0Du8, v))) == (DeviceStateView { arm_type: Some(v), ..s }),
        apply_view(s, decode_view(u, status_notification(0x0Eu8, v))) == (DeviceStateView { subwoofer_connected: Some(v == 1), ..s }),
        apply_view(s, decode_view(u, status_notification(0x0Fu8, v))) == (DeviceStateView { rear_channel_volume: Some(v), ..s }),
        apply_view(s, decode_view(u, status_notification(0x08u8, v))) == (DeviceStateView {
            config_shape: if v == 0 {
                Some(ConfigShape::Straight)
            } else if v == 1 {
                Some(ConfigShape::LShape)
            } else if v == 2 {
                Some(ConfigShape::UShape)
            } else if v == 3 {
                Some(ConfigShape::Pit)
            } else {
                None
            },
            ..s
        }),
        apply_view(s, decode_view(u, status_notification(0x09u8, v))) == (if v == 0 {
            DeviceStateView { input: Some(Input::HdmiArc), ..s }
        } else if v == 1 {
            DeviceStateView { input: Some(Input::Bluetooth), ..s }
        } else if v == 2 {
            DeviceStateView { input: Some(Input::Aux), ..s }
        } else if v == 3 {
            DeviceStateView { input: Some(Input::Optical), ..s }
        } else {
            s
        }),
        apply_view(s, decode_view(u, status_notification(0x0Bu8, v))) == (if v == 0 {
            DeviceStateView { sound_mode: Some(SoundMode::Movies), ..s }
        } else if v == 1 {
            DeviceStateView { sound_mode: Some(SoundMode::Music), ..s }
        } else if v == 2 {
            DeviceStateView { sound_mode: Some(SoundMode::Tv), ..s }
        } else if v == 3 {
            DeviceStateView { sound_mode: Some(SoundMode::News), ..s }
        } else {
            s
        }),
        (code == 0 || code > 0x0F) ==> apply_view(s, decode_view(u, status_notification(code, v))) == s,
{
    assert forall|c: u8| #![auto] !is_version_notification(status_notification(c, v)) by {
        assert(status_notification(c, v)[3] == 0x00u8);
    }
}

/// Each sent command records the setting it makes in its own field, and
/// nothing else; media and request commands record nothing.
pub proof fn command_records_its_field(s: DeviceStateView, v: u8, on: bool, i: Input, m: SoundMode, c: ConfigShape)
    ensures
        record_view(s, Command::SetVolume(v)) == (DeviceStateView { volume: Some(v), ..s }),
        record_view(s, Command::SetBass(v)) == (DeviceStateView { bass: Some(v), ..s }),
        record_view(s, Command::SetTreble(v)) == (DeviceStateView { treble: Some(v), ..s }),
        record_view(s, Command::SetCenterVolume(v)) == (DeviceStateView { center_volume: Some(v), ..s }),
        record_view(s, Command::SetRearChannelVolume(v)) == (DeviceStateView { rear_channel_volume: Some(v), ..s }),
        record_view(s, Command::SetBalance(v)) == (DeviceStateView { balance: Some(v), ..s }),
        record_view(s, Command::SetFabric(v)) == (DeviceStateView { fabric: Some(v), ..s }),
        record_view(s, Command::SetArmType(v)) == (DeviceStateView { arm_type: Some(v), ..s }),
        record_view(s, Command::SetMute(on)) == (DeviceStateView { mute: Some(on), ..s }),
        record_view(s, Command::SetQuietCouch(on)) == (DeviceStateView { quiet_couch: Some(on), ..s }),
        record_view(s, Command::SetPower(on)) == (DeviceStateView { power: Some(on), ..s }),
        record_view(s, Command::SetSurroundEnabled(on)) == (DeviceStateView { surround_enabled: Some(on), ..s }),
        record_view(s, Command::SetInput(i)) == (DeviceStateView { input: Some(i), ..s }),
        record_view(s, Command::SetSoundMode(m)) == (DeviceStateView { sound_mode: Some(m), ..s }),
        record_view(s, Command::SetConfigShape(c)) == (DeviceStateView { config_shape: Some(c), ..s }),
        record_view(s, Command::SetPlayPause(v)) == s && record_view(s, Command::SetSkip(v)) == s,
        record_view(s, Command::GetState) == s && record_view(s, Command::GetFirmwareVersion) == s,
{
}

/// A firmware version notification records the component's version and the
/// text `<MCU|DSP|EQ> v<major>.<minor>` (`Unknown` for other types).
pub proof fn firmware_notification_text(s: DeviceStateView, t: u8, major: u8, minor: u8)
    ensures
        apply_view(s, ResponseView::FirmwareVersion { fw_type: t, major, minor }).firmware_version == Some(
            (if t == 1 {
                "MCU"@
            } else if t == 2 {
                "DSP"@
            } else if t == 3 {
                "EQ"@
            } else {
                "Unknown"@
            }) + " v"@ + dec_digits(major as nat) + "."@ + dec_digits(minor as nat),
        ),
{
}

/// The text of every notification, for every value: a level as
/// `<name>: <value>/<max>`, switches as on/off (power as on/standby, the
/// subwoofer as connected/disconnected), inputs and sound modes by their
/// display names, firmware versions as `Firmware <component>: v<major>.<minor>`.
pub proof fn notification_texts(v: u8, t: u8, major: u8, minor: u8, u: Uuid, d: Seq<u8>)
    ensures
        response_text(ResponseView::Volume(v)) == "Volume: "@ + dec_digits(v as nat) + "/36"@,
        response_text(ResponseView::CenterVolume(v)) == "Center: "@ + dec_digits(v as nat) + "/30"@,
        response_text(ResponseView::Treble(v)) == "Treble: "@ + dec_digits(v as nat) + "/20"@,
        response_text(ResponseView::Bass(v)) == "Bass: "@ + dec_digits(v as nat) + "/20"@,
        response_text(ResponseView::Balance(v)) == "Balance: "@ + dec_digits(v as nat) + "/100"@,
        response_text(ResponseView::RearVolume(v)) == "Rear: "@ + dec_digits(v as nat) + "/30"@,
        response_text(ResponseView::MuteState(true)) == "Mute: on"@,
        response_text(ResponseView::MuteState(false)) == "Mute: off"@,
        response_text(ResponseView::QuietMode(true)) == "Quiet Mode: on"@,
        response_text(ResponseView::QuietMode(false)) == "Quiet Mode: off"@,
        response_text(ResponseView::Power(true)) == "Power: on"@,
        response_text(ResponseView::Power(false)) == "Power: standby"@,
        response_text(ResponseView::SubwooferConnected(true)) == "Subwoofer: connected"@,
        response_text(ResponseView::SubwooferConnected(false)) == "Subwoofer: disconnected"@,
        response_text(ResponseView::Layout(v)) == "Layout: "@ + dec_digits(v as nat),
        response_text(ResponseView::Covering(v)) == "Covering: "@ + dec_digits(v as nat),
        response_text(ResponseView::ArmType(v)) == "Arm Type: "@ + dec_digits(v as nat),
        response_text(ResponseView::CurrentInput(Input::HdmiArc)) == "Input: HDMI ARC"@,
        response_text(ResponseView::CurrentInput(Input::Bluetooth)) == "Input: Bluetooth"@,
        response_text(ResponseView::CurrentInput(Input::Aux)) == "Input: AUX"@,
        response_text(ResponseView::CurrentInput(Input::Optical)) == "Input: Optical"@,
        response_text(ResponseView::CurrentSoundMode(SoundMode::Movies)) == "Sound Mode: Movies"@,
        response_text(ResponseView::CurrentSoundMode(SoundMode::Music)) == "Sound Mode: Music"@,
        response_text(ResponseView::CurrentSoundMode(SoundMode::Tv)) == "Sound Mode: TV"@,
        response_text(ResponseView::CurrentSoundMode(SoundMode::News)) == "Sound Mode: News"@,
        response_text(ResponseView::CurrentSoundMode(SoundMode::Manual)) == "Sound Mode: Manual"@,
        response_text(ResponseView::FirmwareVersion { fw_type: 1u8, major, minor }) == "Firmware MCU: v"@
            + dec_digits(major as nat) + "."@ + dec_digits(minor as nat),
        response_text(ResponseView::FirmwareVersion { fw_type: 2u8, major, minor }) == "Firmware DSP: v"@
            + dec_digits(major as nat) + "."@ + dec_digits(minor as nat),
        response_text(ResponseView::FirmwareVersion { fw_type: 3u8, major, minor }) == "Firmware EQ: v"@
            + dec_digits(major as nat) + "."@ + dec_digits(minor as nat),
        (t == 0 || t > 3) ==> response_text(ResponseView::FirmwareVersion { fw_type: t, major, minor }) == "Firmware Unknown: v"@
            + dec_digits(major as nat) + "."@ + dec_digits(minor as nat),
        response_text(ResponseView::Unknown { characteristic_uuid: u, data: d }) == "Unknown ["@ + uuid_hyphenated(
            u.value,
        ) + "]: "@ + hex_lower(d),
{
    reveal_with_fuel(dec_digits, 4);
    reveal_strlit(".");
    reveal_strlit("/");
    reveal_strlit("/100");
    reveal_strlit("/20");
    reveal_strlit("/30");
    reveal_strlit("/36");
    reveal_strlit(": v");
    reveal_strlit("AUX");
    reveal_strlit("Arm Type: ");
    reveal_strlit("Balance: ");
    reveal_strlit("Bass: ");
    reveal_strlit("Bluetooth");
    reveal_strlit("Center: ");
    reveal_strlit("Covering: ");
    reveal_strlit("DSP");
    reveal_strlit("EQ");
    reveal_strlit("Firmware ");
    reveal_strlit("Firmware DSP: v");
    reveal_strlit("Firmware EQ: v");
    reveal_strlit("Firmware MCU: v");
    reveal_strlit("Firmware Unknown: v");
    reveal_strlit("HDMI ARC");
    reveal_strlit("Input: ");
    reveal_strlit("Input: AUX");
    reveal_strlit("Input: Bluetooth");
    reveal_strlit("Input: HDMI ARC");
    reveal_strlit("Input: Optical");
    reveal_strlit("Layout: ");
    reveal_strlit("MCU");
    reveal_strlit("Manual");
    reveal_strlit("Movies");
    reveal_strlit("Music");
    reveal_strlit("Mute: ");
    reveal_strlit("Mute: off");
    reveal_strlit("Mute: on");
    reveal_strlit("News");
    reveal_strlit("Optical");
    reveal_strlit("Power: ");
    reveal_strlit("Power: on");
    reveal_strlit("Power: standby");
    reveal_strlit("Quiet Mode: ");
    reveal_strlit("Quiet Mode: off");
    reveal_strlit("Quiet Mode: on");
    reveal_strlit("Rear: ");
    reveal_strlit("Sound Mode: ");
    reveal_strlit("Sound Mode: Manual");
    reveal_strlit("Sound Mode: Movies");
    reveal_strlit("Sound Mode: Music");
    reveal_strlit("Sound Mode: News");
    reveal_strlit("Sound Mode: TV");
    reveal_strlit("Subwoofer: ");
    reveal_strlit("Subwoofer: connected");
    reveal_strlit("Subwoofer: disconnected");
    reveal_strlit("TV");
    reveal_strlit("Treble: ");
    reveal_strlit("Unknown");
    reveal_strlit("Unknown [");
    reveal_strlit("Volume: ");
    reveal_strlit("]: ");
    reveal_strlit("connected");
    reveal_strlit("disconnected");
    reveal_strlit("off");
    reveal_strlit("on");
    reveal_strlit("standby");
}

/// The names the REST API accepts, matched after lower-casing: each input,
/// sound mode and configuration shape is named exactly by the listed texts,
/// and the display name of each, lower-cased, is one of them.
pub proof fn request_names(s: Seq<char>)
    ensures
        input_by_request_name(s) == Some(Input::HdmiArc) <==> (s == "hdmi"@ || s == "hdmi_arc"@ || s == "hdmiarc"@ || s == "hdmi arc"@),
        input_by_request_name(s) == Some(Input::Bluetooth) <==> (s == "bluetooth"@ || s == "bt"@),
        input_by_request_name(s) == Some(Input::Aux) <==> (s == "aux"@ || s == "auxiliary"@),
        input_by_request_name(s) == Some(Input::Optical) <==> (s == "optical"@ || s == "toslink"@),
        forall|x: Input| #[trigger] input_by_request_name(ascii_lowercase(input_text(x))) == Some(x),
        mode_by_request_name(s) == Some(SoundMode::Movies) <==> (s == "movies"@ || s == "movie"@),
        mode_by_request_name(s) == Some(SoundMode::Music) <==> (s == "music"@),
        mode_by_request_name(s) == Some(SoundMode::Tv) <==> (s == "tv"@ || s == "television"@),
        mode_by_request_name(s) == Some(SoundMode::News) <==> (s == "news"@ || s == "dialog"@),
        mode_by_request_name(s) == Some(SoundMode::Manual) <==> (s == "manual"@),
        forall|x: SoundMode| #[trigger] mode_by_request_name(ascii_lowercase(sound_mode_text(x))) == Some(x),
        shape_by_request_name(s) == Some(ConfigShape::Straight) <==> (s == "straight"@),
        shape_by_request_name(s) == Some(ConfigShape::LShape) <==> (s == "lshape"@ || s == "l-shape"@),
        shape_by_request_name(s) == Some(ConfigShape::UShape) <==> (s == "ushape"@ || s == "u-shape"@),
        shape_by_request_name(s) == Some(ConfigShape::Pit) <==> (s == "pit"@),
        forall|x: ConfigShape| #[trigger] shape_by_request_name(ascii_lowercase(config_shape_text(x))) == Some(x),
{
    reveal_strlit("AUX");
    assert("AUX"@.len() == 3 && "AUX"@[0] == 'A' && "AUX"@[1] == 'U' && "AUX"@[2] == 'X');
    reveal_strlit("Bluetooth");
    assert("Bluetooth"@.len() == 9 && "Bluetooth"@[0] == 'B' && "Bluetooth"@[1] == 'l' && "Bluetooth"@[2] == 'u' && "Bluetooth"@[3] == 'e' && "Bluetooth"@[4] == 't' && "Bluetooth"@[5] == 'o' && "Bluetooth"@[6] == 'o' && "Bluetooth"@[7] == 't' && "Bluetooth"@[8] == 'h');
    reveal_strlit("HDMI ARC");
    assert("HDMI ARC"@.len() == 8 && "HDMI ARC"@[0] == 'H' && "HDMI ARC"@[1] == 'D' && "HDMI ARC"@[2] == 'M' && "HDMI ARC"@[3] == 'I' && "HDMI ARC"@[4] == ' ' && "HDMI ARC"@[5] == 'A' && "HDMI ARC"@[6] == 'R' && "HDMI ARC"@[7] == 'C');
    reveal_strlit("L-Shape");
    assert("L-Shape"@.len() == 7 && "L-Shape"@[0] == 'L' && "L-Shape"@[1] == '-' && "L-Shape"@[2] == 'S' && "L-Shape"@[3] == 'h' && "L-Shape"@[4] == 'a' && "L-Shape"@[5] == 'p' && "L-Shape"@[6] == 'e');
    reveal_strlit("Manual");
    assert("Manual"@.len() == 6 && "Manual"@[0] == 'M' && "Manual"@[1] == 'a' && "Manual"@[2] == 'n' && "Manual"@[3] == 'u' && "Manual"@[4] == 'a' && "Manual"@[5] == 'l');
    reveal_strlit("Movies");
    assert("Movies"@.len() == 6 && "Movies"@[0] == 'M' && "Movies"@[1] == 'o' && "Movies"@[2] == 'v' && "Movies"@[3] == 'i' && "Movies"@[4] == 'e' && "Movies"@[5] == 's');
    reveal_strlit("Music");
    assert("Music"@.len() == 5 && "Music"@[0] == 'M' && "Music"@[1] == 'u' && "Music"@[2] == 's' && "Music"@[3] == 'i' && "Music"@[4] == 'c');
    reveal_strlit("News");
    assert("News"@.len() == 4 && "News"@[0] == 'N' && "News"@[1] == 'e' && "News"@[2] == 'w' && "News"@[3] == 's');
    reveal_strlit("Optical");
    assert("Optical"@.len() == 7 && "Optical"@[0] == 'O' && "Optical"@[1] == 'p' && "Optical"@[2] == 't' && "Optical"@[3] == 'i' && "Optical"@[4] == 'c' && "Optical"@[5] == 'a' && "Optical"@[6] == 'l');
    reveal_strlit("Pit");
    assert("Pit"@.len() == 3 && "Pit"@[0] == 'P' && "Pit"@[1] == 'i' && "Pit"@[2] == 't');
    reveal_strlit("Straight");
    assert("Straight"@.len() == 8 && "Straight"@[0] == 'S' && "Straight"@[1] == 't' && "Straight"@[2] == 'r' && "Straight"@[3] == 'a' && "Straight"@[4] == 'i' && "Straight"@[5] == 'g' && "Straight"@[6] == 'h' && "Straight"@[7] == 't');
    reveal_strlit("TV");
    assert("TV"@.len() == 2 && "TV"@[0] == 'T' && "TV"@[1] == 'V');
    reveal_strlit("U-Shape");
    assert("U-Shape"@.len() == 7 && "U-Shape"@[0] == 'U' && "U-Shape"@[1] == '-' && "U-Shape"@[2] == 'S' && "U-Shape"@[3] == 'h' && "U-Shape"@[4] == 'a' && "U-Shape"@[5] == 'p' && "U-Shape"@[6] == 'e');
    reveal_strlit("aux");
    assert("aux"@.len() == 3 && "aux"@[0] == 'a' && "aux"@[1] == 'u' && "aux"@[2] == 'x');
    reveal_strlit("auxiliary");
    assert("auxiliary"@.len() == 9 && "auxiliary"@[0] == 'a' && "auxiliary"@[1] == 'u' && "auxiliary"@[2] == 'x' && "auxiliary"@[3] == 'i' && "auxiliary"@[4] == 'l' && "auxiliary"@[5] == 'i' && "auxiliary"@[6] == 'a' && "auxiliary"@[7] == 'r' && "auxiliary"@[8] == 'y');
    reveal_strlit("bluetooth");
    assert("bluetooth"@.len() == 9 && "bluetooth"@[0] == 'b' && "bluetooth"@[1] == 'l' && "bluetooth"@[2] == 'u' && "bluetooth"@[3] == 'e' && "bluetooth"@[4] == 't' && "bluetooth"@[5] == 'o' && "bluetooth"@[6] == 'o' && "bluetooth"@[7] == 't' && "bluetooth"@[8] == 'h');
    reveal_strlit("bt");
    assert("bt"@.len() == 2 && "bt"@[0] == 'b' && "bt"@[1] == 't');
    reveal_strlit("dialog");
    assert("dialog"@.len() == 6 && "dialog"@[0] == 'd' && "dialog"@[1] == 'i' && "dialog"@[2] == 'a' && "dialog"@[3] == 'l' && "dialog"@[4] == 'o' && "dialog"@[5] == 'g');
    reveal_strlit("hdmi");
    assert("hdmi"@.len() == 4 && "hdmi"@[0] == 'h' && "hdmi"@[1] == 'd' && "hdmi"@[2] == 'm' && "hdmi"@[3] == 'i');
    reveal_strlit("hdmi arc");
    assert("hdmi arc"@.len() == 8 && "hdmi arc"@[0] == 'h' && "hdmi arc"@[1] == 'd' && "hdmi arc"@[2] == 'm' && "hdmi arc"@[3] == 'i' && "hdmi arc"@[4] == ' ' && "hdmi arc"@[5] == 'a' && "hdmi arc"@[6] == 'r' && "hdmi arc"@[7] == 'c');
    reveal_strlit("hdmi_arc");
    assert("hdmi_arc"@.len() == 8 && "hdmi_arc"@[0] == 'h' && "hdmi_arc"@[1] == 'd' && "hdmi_arc"@[2] == 'm' && "hdmi_arc"@[3] == 'i' && "hdmi_arc"@[4] == '_' && "hdmi_arc"@[5] == 'a' && "hdmi_arc"@[6] == 'r' && "hdmi_arc"@[7] == 'c');
    reveal_strlit("hdmiarc");
    assert("hdmiarc"@.len() == 7 && "hdmiarc"@[0] == 'h' && "hdmiarc"@[1] == 'd' && "hdmiarc"@[2] == 'm' && "hdmiarc"@[3] == 'i' && "hdmiarc"@[4] == 'a' && "hdmiarc"@[5] == 'r' && "hdmiarc"@[6] == 'c');
    reveal_strlit("l-shape");
    assert("l-shape"@.len() == 7 && "l-shape"@[0] == 'l' && "l-shape"@[1] == '-' && "l-shape"@[2] == 's' && "l-shape"@[3] == 'h' && "l-shape"@[4] == 'a' && "l-shape"@[5] == 'p' && "l-shape"@[6] == 'e');
    reveal_strlit("lshape");
    assert("lshape"@.len() == 6 && "lshape"@[0] == 'l' && "lshape"@[1] == 's' && "lshape"@[2] == 'h' && "lshape"@[3] == 'a' && "lshape"@[4] == 'p' && "lshape"@[5] == 'e');
    reveal_strlit("manual");
    assert("manual"@.len() == 6 && "manual"@[0] == 'm' && "manual"@[1] == 'a' && "manual"@[2] == 'n' && "manual"@[3] == 'u' && "manual"@[4] == 'a' && "manual"@[5] == 'l');
    reveal_strlit("movie");
    assert("movie"@.len() == 5 && "movie"@[0] == 'm' && "movie"@[1] == 'o' && "movie"@[2] == 'v' && "movie"@[3] == 'i' && "movie"@[4] == 'e');
    reveal_strlit("movies");
    assert("movies"@.len() == 6 && "movies"@[0] == 'm' && "movies"@[1] == 'o' && "movies"@[2] == 'v' && "movies"@[3] == 'i' && "movies"@[4] == 'e' && "movies"@[5] == 's');
    reveal_strlit("music");
    assert("music"@.len() == 5 && "music"@[0] == 'm' && "music"@[1] == 'u' && "music"@[2] == 's' && "music"@[3] == 'i' && "music"@[4] == 'c');
    reveal_strlit("news");
    assert("news"@.len() == 4 && "news"@[0] == 'n' && "news"@[1] == 'e' && "news"@[2] == 'w' && "news"@[3] == 's');
    reveal_strlit("optical");
    assert("optical"@.len() == 7 && "optical"@[0] == 'o' && "optical"@[1] == 'p' && "optical"@[2] == 't' && "optical"@[3] == 'i' && "optical"@[4] == 'c' && "optical"@[5] == 'a' && "optical"@[6] == 'l');
    reveal_strlit("pit");
    assert("pit"@.len() == 3 && "pit"@[0] == 'p' && "pit"@[1] == 'i' && "pit"@[2] == 't');
    reveal_strlit("straight");
    assert("straight"@.len() == 8 && "straight"@[0] == 's' && "straight"@[1] == 't' && "straight"@[2] == 'r' && "straight"@[3] == 'a' && "straight"@[4] == 'i' && "straight"@[5] == 'g' && "straight"@[6] == 'h' && "straight"@[7] == 't');
    reveal_strlit("television");
    assert("television"@.len() == 10 && "television"@[0] == 't' && "television"@[1] == 'e' && "television"@[2] == 'l' && "television"@[3] == 'e' && "television"@[4] == 'v' && "television"@[5] == 'i' && "television"@[6] == 's' && "television"@[7] == 'i' && "television"@[8] == 'o' && "television"@[9] == 'n');
    reveal_strlit("toslink");
    assert("toslink"@.len() == 7 && "toslink"@[0] == 't' && "toslink"@[1] == 'o' && "toslink"@[2] == 's' && "toslink"@[3] == 'l' && "toslink"@[4] == 'i' && "toslink"@[5] == 'n' && "toslink"@[6] == 'k');
    reveal_strlit("tv");
    assert("tv"@.len() == 2 && "tv"@[0] == 't' && "tv"@[1] == 'v');
    reveal_strlit("u-shape");
    assert("u-shape"@.len() == 7 && "u-shape"@[0] == 'u' && "u-shape"@[1] == '-' && "u-shape"@[2] == 's' && "u-shape"@[3] == 'h' && "u-shape"@[4] == 'a' && "u-shape"@[5] == 'p' && "u-shape"@[6] == 'e');
    reveal_strlit("ushape");
    assert("ushape"@.len() == 6 && "ushape"@[0] == 'u' && "ushape"@[1] == 's' && "ushape"@[2] == 'h' && "ushape"@[3] == 'a' && "ushape"@[4] == 'p' && "ushape"@[5] == 'e');
    assert(ascii_lowercase(input_text(Input::HdmiArc)) =~= "hdmi arc"@);
    assert(ascii_lowercase(input_text(Input::Bluetooth)) =~= "bluetooth"@);
    assert(ascii_lowercase(input_text(Input::Aux)) =~= "aux"@);
    assert(ascii_lowercase(input_text(Input::Optical)) =~= "optical"@);
    assert(ascii_lowercase(sound_mode_text(SoundMode::Movies)) =~= "movies"@);
    assert(ascii_lowercase(sound_mode_text(SoundMode::Music)) =~= "music"@);
    assert(ascii_lowercase(sound_mode_text(SoundMode::Tv)) =~= "tv"@);
    assert(ascii_lowercase(sound_mode_text(SoundMode::News)) =~= "news"@);
    assert(ascii_lowercase(sound_mode_text(SoundMode::Manual)) =~= "manual"@);
    assert(ascii_lowercase(config_shape_text(ConfigShape::Straight)) =~= "straight"@);
    assert(ascii_lowercase(config_shape_text(ConfigShape::LShape)) =~= "l-shape"@);
    assert(ascii_lowercase(config_shape_text(ConfigShape::UShape)) =~= "u-shape"@);
    assert(ascii_lowercase(config_shape_text(ConfigShape::Pit)) =~= "pit"@);
}

/// The range of every ranged setting and the error for a value over it:
/// volume 0..=36, bass and treble 0..=20, center and rear volume 0..=30,
/// balance 0..=100; other values are not range-checked.
pub proof fn validation_ranges(v: u8)
    ensures
        validate_result(Command::SetVolume(v)) == (if v > 36 {
            Err(ProtocolError::OutOfRange { value: v as i32, min: 0, max: 36 })
        } else {
            Ok(())
        }),
        validate_result(Command::SetBass(v)) == (if v > 20 {
            Err(ProtocolError::OutOfRange { value: v as i32, min: 0, max: 20 })
        } else {
            Ok(())
        }),
        validate_result(Command::SetTreble(v)) == (if v > 20 {
            Err(ProtocolError::OutOfRange { value: v as i32, min: 0, max: 20 })
        } else {
            Ok(())
        }),
        validate_result(Command::SetCenterVolume(v)) == (if v > 30 {
            Err(ProtocolError::OutOfRange { value: v as i32, min: 0, max: 30 })
        } else {
            Ok(())
        }),
        validate_result(Command::SetRearChannelVolume(v)) == (if v > 30 {
            Err(ProtocolError::OutOfRange { value: v as i32, min: 0, max: 30 })
        } else {
            Ok(())
        }),
        validate_result(Command::SetBalance(v)) == (if v > 100 {
            Err(ProtocolError::OutOfRange { value: v as i32, min: 0, max: 100 })
        } else {
            Ok(())
        }),
        validate_result(Command::SetFabric(v)) == Ok::<(), ProtocolError>(()) && validate_result(Command::SetArmType(v)) == Ok::<(), ProtocolError>(()),
        validate_result(Command::SetPlayPause(v)) == Ok::<(), ProtocolError>(()) && validate_result(Command::SetSkip(v)) == Ok::<(), ProtocolError>(()),
{
}

/// The messages of protocol errors and of connection states.
pub proof fn error_and_state_texts(b: u8, e: usize, a: usize, x: i32, lo: i32, hi: i32, n: u32)
    ensures
        protocol_error_text(ProtocolError::UnknownByte(b)) == "Unknown byte value: 0x"@ + hex_byte(b),
        protocol_error_text(ProtocolError::InvalidLength { expected: e, actual: a })
            == "Invalid payload length: expected "@ + dec_digits(e as nat) + ", got "@ + dec_digits(a as nat),
        protocol_error_text(ProtocolError::OutOfRange { value: x, min: lo, max: hi })
            == "Value out of range: "@ + int_digits(x as int) + " not in ["@ + int_digits(lo as int) + ", "@
            + int_digits(hi as int) + "]"@,
        connection_state_text(ConnectionState::Disconnected) == "Disconnected"@,
        connection_state_text(ConnectionState::Connecting) == "Connecting"@,
        connection_state_text(ConnectionState::Connected) == "Connected"@,
        connection_state_text(ConnectionState::Reconnecting { attempt: n }) == "Reconnecting (attempt "@
            + dec_digits(n as nat) + ")"@,
{
}

/// Which embedded file a request path names: leading slashes do not
/// matter, the root names `index.html`, a directory path ending in '/'
/// names its `index.html`, and any other path names itself.
pub proof fn static_paths(p: Seq<char>)
    ensures
        static_path_spec(seq!['/'] + p) == static_path_spec(p),
        static_path_spec(Seq::empty()) == "index.html"@,
        static_path_spec(seq!['/']) == "index.html"@,
        (p.len() > 0 && p[0] != '/' && p.last() != '/') ==> static_path_spec(p) == p,
        (p.len() > 0 && p[0] != '/' && p.last() == '/') ==> static_path_spec(p) == p + "index.html"@,
{
    assert((seq!['/'] + p).skip(1) =~= p);
    assert(trim_leading_slashes(seq!['/'] + p) == trim_leading_slashes(p));
    let e = Seq::<char>::empty();
    assert(seq!['/'].skip(1) =~= e);
    assert(trim_leading_slashes(seq!['/']) == trim_leading_slashes(e));
    assert(trim_leading_slashes(e) == e);
}

/// Why JSON is not a command: a ranged or media key without an integer in
/// 0..=255, a switch key without a boolean, a named key without a string or
/// with an unknown name, an unknown key, an object without exactly one
/// member, an unknown request string, or neither a string nor an object.
pub proof fn json_command_errors(v: JsonValue, key: Seq<char>, t: Seq<char>)
    ensures
        (single_member(v, "SetVolume"@) matches Some(x) && json_u8(x) is None) ==> command_from_json(v)
            == CommandParse::ExpectedU8("SetVolume"@),
        (single_member(v, "SetBass"@) matches Some(x) && json_u8(x) is None) ==> command_from_json(v)
            == CommandParse::ExpectedU8("SetBass"@),
        (single_member(v, "SetTreble"@) matches Some(x) && json_u8(x) is None) ==> command_from_json(v)
            == CommandParse::ExpectedU8("SetTreble"@),
        (single_member(v, "SetCenterVolume"@) matches Some(x) && json_u8(x) is None) ==> command_from_json(v)
            == CommandParse::ExpectedU8("SetCenterVolume"@),
        (single_member(v, "SetRearChannelVolume"@) matches Some(x) && json_u8(x) is None) ==> command_from_json(v)
            == CommandParse::ExpectedU8("SetRearChannelVolume"@),
        (single_member(v, "SetBalance"@) matches Some(x) && json_u8(x) is None) ==> command_from_json(v)
            == CommandParse::ExpectedU8("SetBalance"@),
        (single_member(v, "SetFabric"@) matches Some(x) && json_u8(x) is None) ==> command_from_json(v)
            == CommandParse::ExpectedU8("SetFabric"@),
        (single_member(v, "SetArmType"@) matches Some(x) && json_u8(x) is None) ==> command_from_json(v)
            == CommandParse::ExpectedU8("SetArmType"@),
        (single_member(v, "SetPlayPause"@) matches Some(x) && json_u8(x) is None) ==> command_from_json(v)
            == CommandParse::ExpectedU8("SetPlayPause"@),
        (single_member(v, "SetSkip"@) matches Some(x) && json_u8(x) is None) ==> command_from_json(v)
            == CommandParse::ExpectedU8("SetSkip"@),
        (single_member(v, "SetMute"@) matches Some(x) && !(x is Bool)) ==> command_from_json(v)
            == CommandParse::ExpectedBool("SetMute"@),
        (single_member(v, "SetQuietCouch"@) matches Some(x) && !(x is Bool)) ==> command_from_json(v)
            == CommandParse::ExpectedBool("SetQuietCouch"@),
        (single_member(v, "SetPower"@) matches Some(x) && !(x is Bool)) ==> command_from_json(v)
            == CommandParse::ExpectedBool("SetPower"@),
        (single_member(v, "SetSoundMode"@) is Some && member_text(v, "SetSoundMode"@) is None) ==> command_from_json(v)
            == CommandParse::ExpectedString("SetSoundMode"@),
        (member_text(v, "SetSoundMode"@) == Some(t) && t != "Movies"@ && t != "Music"@ && t != "Tv"@ && t != "News"@ && t != "Manual"@) ==> command_from_json(v)
            == CommandParse::UnknownSoundMode(t),
        (single_member(v, "SetInput"@) is Some && member_text(v, "SetInput"@) is None) ==> command_from_json(v)
            == CommandParse::ExpectedString("SetInput"@),
        (member_text(v, "SetInput"@) == Some(t) && t != "HdmiArc"@ && t != "Bluetooth"@ && t != "Aux"@ && t != "Optical"@) ==> command_from_json(v)
            == CommandParse::UnknownInput(t),
        (single_member(v, "SetConfigShape"@) is Some && member_text(v, "SetConfigShape"@) is None) ==> command_from_json(v)
            == CommandParse::ExpectedString("SetConfigShape"@),
        (member_text(v, "SetConfigShape"@) == Some(t) && t != "Straight"@ && t != "LShape"@ && t != "UShape"@ && t != "Pit"@) ==> command_from_json(v)
            == CommandParse::UnknownConfigShape(t),
        (single_member(v, key) is Some && key != "SetVolume"@ && key != "SetBass"@ && key != "SetTreble"@ && key != "SetCenterVolume"@ && key != "SetRearChannelVolume"@ && key != "SetMute"@ && key != "SetQuietCouch"@ && key != "SetSoundMode"@ && key != "SetBalance"@ && key != "SetPower"@ && key != "SetInput"@ && key != "SetFabric"@ && key != "SetConfigShape"@ && key != "SetArmType"@ && key != "SetPlayPause"@ && key != "SetSkip"@)
            ==> command_from_json(v) == CommandParse::UnknownCommandKey(key),
        (v matches JsonValue::Object(m) && m@.len() != 1) ==> command_from_json(v) == CommandParse::NotSingleKey,
        (string_value(v) == Some(t) && t != "GetState"@ && t != "GetFirmwareVersion"@) ==> command_from_json(v)
            == CommandParse::UnknownCommandString(t),
        !(v is String || v is Object) ==> command_from_json(v) == CommandParse::NotStringOrObject,
{
    reveal_strlit("SetVolume");
    assert("SetVolume"@.len() == 9 && "SetVolume"@[0] == 'S' && "SetVolume"@[1] == 'e' && "SetVolume"@[2] == 't' && "SetVolume"@[3] == 'V' && "SetVolume"@[4] == 'o' && "SetVolume"@[5] == 'l');
    reveal_strlit("SetBass");
    assert("SetBass"@.len() == 7 && "SetBass"@[0] == 'S' && "SetBass"@[1] == 'e' && "SetBass"@[2] == 't' && "SetBass"@[3] == 'B' && "SetBass"@[4] == 'a' && "SetBass"@[5] == 's');
    reveal_strlit("SetTreble");
    assert("SetTreble"@.len() == 9 && "SetTreble"@[0] == 'S' && "SetTreble"@[1] == 'e' && "SetTreble"@[2] == 't' && "SetTreble"@[3] == 'T' && "SetTreble"@[4] == 'r' && "SetTreble"@[5] == 'e');
    reveal_strlit("SetCenterVolume");
    assert("SetCenterVolume"@.len() == 15 && "SetCenterVolume"@[0] == 'S' && "SetCenterVolume"@[1] == 'e' && "SetCenterVolume"@[2] == 't' && "SetCenterVolume"@[3] == 'C' && "SetCenterVolume"@[4] == 'e' && "SetCenterVolume"@[5] == 'n');
    reveal_strlit("SetRearChannelVolume");
    assert("SetRearChannelVolume"@.len() == 20 && "SetRearChannelVolume"@[0] == 'S' && "SetRearChannelVolume"@[1] == 'e' && "SetRearChannelVolume"@[2] == 't' && "SetRearChannelVolume"@[3] == 'R' && "SetRearChannelVolume"@[4] == 'e' && "SetRearChannelVolume"@[5] == 'a');
    reveal_strlit("SetMute");
    assert("SetMute"@.len() == 7 && "SetMute"@[0] == 'S' && "SetMute"@[1] == 'e' && "SetMute"@[2] == 't' && "SetMute"@[3] == 'M' && "SetMute"@[4] == 'u' && "SetMute"@[5] == 't');
    reveal_strlit("SetQuietCouch");
    assert("SetQuietCouch"@.len() == 13 && "SetQuietCouch"@[0] == 'S' && "SetQuietCouch"@[1] == 'e' && "SetQuietCouch"@[2] == 't' && "SetQuietCouch"@[3] == 'Q' && "SetQuietCouch"@[4] == 'u' && "SetQuietCouch"@[5] == 'i');
    reveal_strlit("SetSoundMode");
    assert("SetSoundMode"@.len() == 12 && "SetSoundMode"@[0] == 'S' && "SetSoundMode"@[1] == 'e' && "SetSoundMode"@[2] == 't' && "SetSoundMode"@[3] == 'S' && "SetSoundMode"@[4] == 'o' && "SetSoundMode"@[5] == 'u');
    reveal_strlit("SetBalance");
    assert("SetBalance"@.len() == 10 && "SetBalance"@[0] == 'S' && "SetBalance"@[1] == 'e' && "SetBalance"@[2] == 't' && "SetBalance"@[3] == 'B' && "SetBalance"@[4] == 'a' && "SetBalance"@[5] == 'l');
    reveal_strlit("SetPower");
    assert("SetPower"@.len() == 8 && "SetPower"@[0] == 'S' && "SetPower"@[1] == 'e' && "SetPower"@[2] == 't' && "SetPower"@[3] == 'P' && "SetPower"@[4] == 'o' && "SetPower"@[5] == 'w');
    reveal_strlit("SetInput");
    assert("SetInput"@.len() == 8 && "SetInput"@[0] == 'S' && "SetInput"@[1] == 'e' && "SetInput"@[2] == 't' && "SetInput"@[3] == 'I' && "SetInput"@[4] == 'n' && "SetInput"@[5] == 'p');
    reveal_strlit("SetFabric");
    assert("SetFabric"@.len() == 9 && "SetFabric"@[0] == 'S' && "SetFabric"@[1] == 'e' && "SetFabric"@[2] == 't' && "SetFabric"@[3] == 'F' && "SetFabric"@[4] == 'a' && "SetFabric"@[5] == 'b');
    reveal_strlit("SetConfigShape");
    assert("SetConfigShape"@.len() == 14 && "SetConfigShape"@[0] == 'S' && "SetConfigShape"@[1] == 'e' && "SetConfigShape"@[2] == 't' && "SetConfigShape"@[3] == 'C' && "SetConfigShape"@[4] == 'o' && "SetConfigShape"@[5] == 'n');
    reveal_strlit("SetArmType");
    assert("SetArmType"@.len() == 10 && "SetArmType"@[0] == 'S' && "SetArmType"@[1] == 'e' && "SetArmType"@[2] == 't' && "SetArmType"@[3] == 'A' && "SetArmType"@[4] == 'r' && "SetArmType"@[5] == 'm');
    reveal_strlit("SetPlayPause");
    assert("SetPlayPause"@.len() == 12 && "SetPlayPause"@[0] == 'S' && "SetPlayPause"@[1] == 'e' && "SetPlayPause"@[2] == 't' && "SetPlayPause"@[3] == 'P' && "SetPlayPause"@[4] == 'l' && "SetPlayPause"@[5] == 'a');
    reveal_strlit("SetSkip");
    assert("SetSkip"@.len() == 7 && "SetSkip"@[0] == 'S' && "SetSkip"@[1] == 'e' && "SetSkip"@[2] == 't' && "SetSkip"@[3] == 'S' && "SetSkip"@[4] == 'k' && "SetSkip"@[5] == 'i');
    reveal_strlit("Movies");
    assert("Movies"@.len() == 6 && "Movies"@[0] == 'M' && "Movies"@[1] == 'o' && "Movies"@[2] == 'v' && "Movies"@[3] == 'i' && "Movies"@[4] == 'e' && "Movies"@[5] == 's');
    reveal_strlit("Music");
    assert("Music"@.len() == 5 && "Music"@[0] == 'M' && "Music"@[1] == 'u' && "Music"@[2] == 's' && "Music"@[3] == 'i' && "Music"@[4] == 'c');
    reveal_strlit("Tv");
    assert("Tv"@.len() == 2 && "Tv"@[0] == 'T' && "Tv"@[1] == 'v');
    reveal_strlit("News");
    assert("News"@.len() == 4 && "News"@[0] == 'N' && "News"@[1] == 'e' && "News"@[2] == 'w' && "News"@[3] == 's');
    reveal_strlit("Manual");
    assert("Manual"@.len() == 6 && "Manual"@[0] == 'M' && "Manual"@[1] == 'a' && "Manual"@[2] == 'n' && "Manual"@[3] == 'u' && "Manual"@[4] == 'a' && "Manual"@[5] == 'l');
    reveal_strlit("HdmiArc");
    assert("HdmiArc"@.len() == 7 && "HdmiArc"@[0] == 'H' && "HdmiArc"@[1] == 'd' && "HdmiArc"@[2] == 'm' && "HdmiArc"@[3] == 'i' && "HdmiArc"@[4] == 'A' && "HdmiArc"@[5] == 'r');
    reveal_strlit("Bluetooth");
    assert("Bluetooth"@.len() == 9 && "Bluetooth"@[0] == 'B' && "Bluetooth"@[1] == 'l' && "Bluetooth"@[2] == 'u' && "Bluetooth"@[3] == 'e' && "Bluetooth"@[4] == 't' && "Bluetooth"@[5] == 'o');
    reveal_strlit("Aux");
    assert("Aux"@.len() == 3 && "Aux"@[0] == 'A' && "Aux"@[1] == 'u' && "Aux"@[2] == 'x');
    reveal_strlit("Optical");
    assert("Optical"@.len() == 7 && "Optical"@[0] == 'O' && "Optical"@[1] == 'p' && "Optical"@[2] == 't' && "Optical"@[3] == 'i' && "Optical"@[4] == 'c' && "Optical"@[5] == 'a');
    reveal_strlit("Straight");
    assert("Straight"@.len() == 8 && "Straight"@[0] == 'S' && "Straight"@[1] == 't' && "Straight"@[2] == 'r' && "Straight"@[3] == 'a' && "Straight"@[4] == 'i' && "Straight"@[5] == 'g');
    reveal_strlit("LShape");
    assert("LShape"@.len() == 6 && "LShape"@[0] == 'L' && "LShape"@[1] == 'S' && "LShape"@[2] == 'h' && "LShape"@[3] == 'a' && "LShape"@[4] == 'p' && "LShape"@[5] == 'e');
    reveal_strlit("UShape");
    assert("UShape"@.len() == 6 && "UShape"@[0] == 'U' && "UShape"@[1] == 'S' && "UShape"@[2] == 'h' && "UShape"@[3] == 'a' && "UShape"@[4] == 'p' && "UShape"@[5] == 'e');
    reveal_strlit("Pit");
    assert("Pit"@.len() == 3 && "Pit"@[0] == 'P' && "Pit"@[1] == 'i' && "Pit"@[2] == 't');
    reveal_strlit("GetState");
    assert("GetState"@.len() == 8 && "GetState"@[0] == 'G' && "GetState"@[1] == 'e' && "GetState"@[2] == 't' && "GetState"@[3] == 'S' && "GetState"@[4] == 't' && "GetState"@[5] == 'a');
    reveal_strlit("GetFirmwareVersion");
    assert("GetFirmwareVersion"@.len() == 18 && "GetFirmwareVersion"@[0] == 'G' && "GetFirmwareVersion"@[1] == 'e' && "GetFirmwareVersion"@[2] == 't' && "GetFirmwareVersion"@[3] == 'F' && "GetFirmwareVersion"@[4] == 'i' && "GetFirmwareVersion"@[5] == 'r');
}

/// A firmware update is available exactly when some known component is
/// older than its latest release: MCU 1.71, DSP 1.68, EQ 1.23 (older: a
/// smaller major, or the same major and a smaller minor).
pub proof fn firmware_update_rule(s: DeviceStateView)
    ensures
        update_available(s) == (if s.mcu_version is None && s.dsp_version is None && s.eq_version is None {
            None
        } else {
            Some(
                (s.mcu_version matches Some(m) && (m.major < 1 || (m.major == 1 && m.minor < 71)))
                || (s.dsp_version matches Some(d) && (d.major < 1 || (d.major == 1 && d.minor < 68)))
                || (s.eq_version matches Some(e) && (e.major < 1 || (e.major == 1 && e.minor < 23))),
            )
        }),
{
}

/// A padded column holds the text followed by spaces up to the width; a
/// text as wide as the column or wider is kept whole.
pub proof fn padded_columns(s: Seq<char>, w: nat)
    ensures
        padded(s, w).len() == (if s.len() >= w {
            s.len()
        } else {
            w
        }),
        padded(s, w).subrange(0, s.len() as int) == s,
        forall|i: int| s.len() <= i < padded(s, w).len() ==> #[trigger] padded(s, w)[i] == ' ',
    decreases w,
{
    if s.len() < w {
        lemma_spaces((w - s.len()) as nat);
        assert(padded(s, w).subrange(0, s.len() as int) =~= s);
    } else {
        assert(padded(s, w).subrange(0, s.len() as int) =~= s);
    }
}

proof fn lemma_spaces(m: nat)
    ensures
        spaces(m).len() == m,
        forall|i: int| 0 <= i < m ==> #[trigger] spaces(m)[i] == ' ',
    decreases m,
{
    if m > 0 {
        lemma_spaces((m - 1) as nat);
    }
}

} // verus!
