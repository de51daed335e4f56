//! Commands described as JSON values, as the Web Bluetooth UI sends them:
//! a unit command is a JSON string (`"GetState"`), any other command an
//! object with exactly one key naming the command (`{"SetVolume": 18}`,
//! `{"SetInput": "HdmiArc"}`).

use vstd::prelude::*;
use serde_json::Value;

use crate::commands::{Command, ConfigShape, Input, SoundMode};
use crate::text::{push_str, push_string, str_eq};

verus! {

/// A JSON number as the command parser sees it: a non-negative integer, a
/// negative integer, or a number with a fraction or exponent.
#[derive(Clone, Copy, Debug, PartialEq, Eq, Structural)]
pub enum JsonNumber {
    PosInt(u64),
    NegInt(i64),
    Float,
}

/// A parsed JSON value. Object members keep the order in which the parser
/// hands them out.
#[derive(Debug)]
pub enum JsonValue {
    Null,
    Bool(bool),
    Number(JsonNumber),
    String(String),
    Array(Vec<JsonValue>),
    Object(Vec<(String, JsonValue)>),
}

/// Why a JSON value is not a command.
#[derive(Clone, Debug)]
pub enum CommandJsonError {
    /// A JSON string that names no unit command.
    UnknownCommandString(String),
    /// An object with zero or several keys.
    NotSingleKey,
    /// An object whose key names no command.
    UnknownCommandKey(String),
    /// The command named by the field needs an integer in 0..=255.
    ExpectedU8(&'static str),
    /// The command named by the field needs a boolean.
    ExpectedBool(&'static str),
    /// The command named by the field needs a string.
    ExpectedString(&'static str),
    UnknownSoundMode(String),
    UnknownInput(String),
    UnknownConfigShape(String),
    /// Neither a JSON string nor a JSON object.
    NotStringOrObject,
}

/// The outcome of reading a command, with texts as character sequences.
pub enum CommandParse {
    Parsed(Command),
    UnknownCommandString(Seq<char>),
    NotSingleKey,
    UnknownCommandKey(Seq<char>),
    ExpectedU8(Seq<char>),
    ExpectedBool(Seq<char>),
    ExpectedString(Seq<char>),
    UnknownSoundMode(Seq<char>),
    UnknownInput(Seq<char>),
    UnknownConfigShape(Seq<char>),
    NotStringOrObject,
}

pub open spec fn parse_outcome(r: Result<Command, CommandJsonError>) -> CommandParse {
    match r {
        Ok(c) => CommandParse::Parsed(c),
        Err(e) => match e {
            CommandJsonError::UnknownCommandString(s) => CommandParse::UnknownCommandString(s@),
            CommandJsonError::NotSingleKey => CommandParse::NotSingleKey,
            CommandJsonError::UnknownCommandKey(s) => CommandParse::UnknownCommandKey(s@),
            CommandJsonError::ExpectedU8(f) => CommandParse::ExpectedU8(f@),
            CommandJsonError::ExpectedBool(f) => CommandParse::ExpectedBool(f@),
            CommandJsonError::ExpectedString(f) => CommandParse::ExpectedString(f@),
            CommandJsonError::UnknownSoundMode(s) => CommandParse::UnknownSoundMode(s@),
            CommandJsonError::UnknownInput(s) => CommandParse::UnknownInput(s@),
            CommandJsonError::UnknownConfigShape(s) => CommandParse::UnknownConfigShape(s@),
            CommandJsonError::NotStringOrObject => CommandParse::NotStringOrObject,
        },
    }
}

// ============================================================================
// Names
// ============================================================================

/// The variant name of an input source, as used in JSON.
pub open spec fn input_name(i: Input) -> Seq<char> {
    match i {
        Input::HdmiArc => "HdmiArc"@,
        Input::Bluetooth => "Bluetooth"@,
        Input::Aux => "Aux"@,
        Input::Optical => "Optical"@,
    }
}

/// The variant name of a sound mode, as used in JSON.
pub open spec fn sound_mode_name(m: SoundMode) -> Seq<char> {
    match m {
        SoundMode::Movies => "Movies"@,
        SoundMode::Music => "Music"@,
        SoundMode::Tv => "Tv"@,
        SoundMode::News => "News"@,
        SoundMode::Manual => "Manual"@,
    }
}

/// The variant name of a configuration shape, as used in JSON.
pub open spec fn config_shape_name(c: ConfigShape) -> Seq<char> {
    match c {
        ConfigShape::Straight => "Straight"@,
        ConfigShape::LShape => "LShape"@,
        ConfigShape::UShape => "UShape"@,
        ConfigShape::Pit => "Pit"@,
    }
}

pub open spec fn input_by_name(s: Seq<char>) -> Option<Input> {
    if s == "HdmiArc"@ {
        Some(Input::HdmiArc)
    } else if s == "Bluetooth"@ {
        Some(Input::Bluetooth)
    } else if s == "Aux"@ {
        Some(Input::Aux)
    } else if s == "Optical"@ {
        Some(Input::Optical)
    } else {
        None
    }
}

pub open spec fn sound_mode_by_name(s: Seq<char>) -> Option<SoundMode> {
    if s == "Movies"@ {
        Some(SoundMode::Movies)
    } else if s == "Music"@ {
        Some(SoundMode::Music)
    } else if s == "Tv"@ {
        Some(SoundMode::Tv)
    } else if s == "News"@ {
        Some(SoundMode::News)
    } else if s == "Manual"@ {
        Some(SoundMode::Manual)
    } else {
        None
    }
}

pub open spec fn config_shape_by_name(s: Seq<char>) -> Option<ConfigShape> {
    if s == "Straight"@ {
        Some(ConfigShape::Straight)
    } else if s == "LShape"@ {
        Some(ConfigShape::LShape)
    } else if s == "UShape"@ {
        Some(ConfigShape::UShape)
    } else if s == "Pit"@ {
        Some(ConfigShape::Pit)
    } else {
        None
    }
}

impl Input {
    /// The variant name, e.g. `HdmiArc`.
    pub fn name(&self) -> (r: &'static str)
        ensures
            r@ == input_name(*self),
    {
        match self {
            Input::HdmiArc => "HdmiArc",
            Input::Bluetooth => "Bluetooth",
            Input::Aux => "Aux",
            Input::Optical => "Optical",
        }
    }
}

impl SoundMode {
    /// The variant name, e.g. `Tv`.
    pub fn name(&self) -> (r: &'static str)
        ensures
            r@ == sound_mode_name(*self),
    {
        match self {
            SoundMode::Movies => "Movies",
            SoundMode::Music => "Music",
            SoundMode::Tv => "Tv",
            SoundMode::News => "News",
            SoundMode::Manual => "Manual",
        }
    }
}

impl ConfigShape {
    /// The variant name, e.g. `LShape`.
    pub fn name(&self) -> (r: &'static str)
        ensures
            r@ == config_shape_name(*self),
    {
        match self {
            ConfigShape::Straight => "Straight",
            ConfigShape::LShape => "LShape",
            ConfigShape::UShape => "UShape",
            ConfigShape::Pit => "Pit",
        }
    }
}

// ============================================================================
// Value extraction
// ============================================================================

/// The `u8` a JSON value holds: a non-negative integer no greater than 255.
pub open spec fn json_u8(v: JsonValue) -> Option<u8> {
    match v {
        JsonValue::Number(JsonNumber::PosInt(n)) => if n <= 255 {
            Some(n as u8)
        } else {
            None
        },
        _ => None,
    }
}

/// The text a JSON value holds.
pub open spec fn json_text(v: JsonValue) -> Option<Seq<char>> {
    match v {
        JsonValue::String(s) => Some(s@),
        _ => None,
    }
}

/// Extract a `u8` from a JSON value.
fn val_to_u8(val: &JsonValue, field: &'static str) -> (r: Result<u8, CommandJsonError>)
    ensures
        match json_u8(*val) {
            Some(n) => r matches Ok(m) && m == n,
            None => r matches Err(CommandJsonError::ExpectedU8(f)) && f@ == field@,
        },
{
    match val {
        JsonValue::Number(JsonNumber::PosInt(n)) => {
            if *n <= 255 {
                Ok(*n as u8)
            } else {
                Err(CommandJsonError::ExpectedU8(field))
            }
        },
        _ => Err(CommandJsonError::ExpectedU8(field)),
    }
}

/// Extract a `bool` from a JSON value.
fn val_to_bool(val: &JsonValue, field: &'static str) -> (r: Result<bool, CommandJsonError>)
    ensures
        match *val {
            JsonValue::Bool(b) => r matches Ok(c) && c == b,
            _ => r matches Err(CommandJsonError::ExpectedBool(f)) && f@ == field@,
        },
{
    match val {
        JsonValue::Bool(b) => Ok(*b),
        _ => Err(CommandJsonError::ExpectedBool(field)),
    }
}

/// Parse a `SoundMode` from a JSON string value.
fn val_to_sound_mode(val: &JsonValue) -> (r: Result<SoundMode, CommandJsonError>)
    ensures
        match json_text(*val) {
            None => r matches Err(CommandJsonError::ExpectedString(f)) && f@ == "SetSoundMode"@,
            Some(s) => match sound_mode_by_name(s) {
                Some(m) => r == Ok::<SoundMode, CommandJsonError>(m),
                None => r matches Err(CommandJsonError::UnknownSoundMode(t)) && t@ == s,
            },
        },
{
    match val {
        JsonValue::String(s) => {
            let t = s.as_str();
            if str_eq(t, "Movies") {
                Ok(SoundMode::Movies)
            } else if str_eq(t, "Music") {
                Ok(SoundMode::Music)
            } else if str_eq(t, "Tv") {
                Ok(SoundMode::Tv)
            } else if str_eq(t, "News") {
                Ok(SoundMode::News)
            } else if str_eq(t, "Manual") {
                Ok(SoundMode::Manual)
            } else {
                Err(CommandJsonError::UnknownSoundMode(s.clone()))
            }
        },
        _ => Err(CommandJsonError::ExpectedString("SetSoundMode")),
    }
}

/// Parse an `Input` from a JSON string value.
fn val_to_input(val: &JsonValue) -> (r: Result<Input, CommandJsonError>)
    ensures
        match json_text(*val) {
            None => r matches Err(CommandJsonError::ExpectedString(f)) && f@ == "SetInput"@,
            Some(s) => match input_by_name(s) {
                Some(i) => r == Ok::<Input, CommandJsonError>(i),
                None => r matches Err(CommandJsonError::UnknownInput(t)) && t@ == s,
            },
        },
{
    match val {
        JsonValue::String(s) => {
            let t = s.as_str();
            if str_eq(t, "HdmiArc") {
                Ok(Input::HdmiArc)
            } else if str_eq(t, "Bluetooth") {
                Ok(Input::Bluetooth)
            } else if str_eq(t, "Aux") {
                Ok(Input::Aux)
            } else if str_eq(t, "Optical") {
                Ok(Input::Optical)
            } else {
                Err(CommandJsonError::UnknownInput(s.clone()))
            }
        },
        _ => Err(CommandJsonError::ExpectedString("SetInput")),
    }
}

/// Parse a `ConfigShape` from a JSON string value.
fn val_to_config_shape(val: &JsonValue) -> (r: Result<ConfigShape, CommandJsonError>)
    ensures
        match json_text(*val) {
            None => r matches Err(CommandJsonError::ExpectedString(f)) && f@ == "SetConfigShape"@,
            Some(s) => match config_shape_by_name(s) {
                Some(c) => r == Ok::<ConfigShape, CommandJsonError>(c),
                None => r matches Err(CommandJsonError::UnknownConfigShape(t)) && t@ == s,
            },
        },
{
    match val {
        JsonValue::String(s) => {
            let t = s.as_str();
            if str_eq(t, "Straight") {
                Ok(ConfigShape::Straight)
            } else if str_eq(t, "LShape") {
                Ok(ConfigShape::LShape)
            } else if str_eq(t, "UShape") {
                Ok(ConfigShape::UShape)
            } else if str_eq(t, "Pit") {
                Ok(ConfigShape::Pit)
            } else {
                Err(CommandJsonError::UnknownConfigShape(s.clone()))
            }
        },
        _ => Err(CommandJsonError::ExpectedString("SetConfigShape")),
    }
}

// ============================================================================
// Commands
// ============================================================================

/// A command that takes a `u8`, read from the value.
pub open spec fn with_u8(val: JsonValue, key: Seq<char>, f: spec_fn(u8) -> Command) -> CommandParse {
    match json_u8(val) {
        Some(n) => CommandParse::Parsed(f(n)),
        None => CommandParse::ExpectedU8(key),
    }
}

/// A command that takes a `bool`, read from the value.
pub open spec fn with_bool(val: JsonValue, key: Seq<char>, f: spec_fn(bool) -> Command) -> CommandParse {
    match val {
        JsonValue::Bool(b) => CommandParse::Parsed(f(b)),
        _ => CommandParse::ExpectedBool(key),
    }
}

/// The command an object `{key: val}` describes.
pub open spec fn keyed_command(key: Seq<char>, val: JsonValue) -> CommandParse {
    if key == "SetVolume"@ {
        with_u8(val, key, |n: u8| Command::SetVolume(n))
    } else if key == "SetBass"@ {
        with_u8(val, key, |n: u8| Command::SetBass(n))
    } else if key == "SetTreble"@ {
        with_u8(val, key, |n: u8| Command::SetTreble(n))
    } else if key == "SetCenterVolume"@ {
        with_u8(val, key, |n: u8| Command::SetCenterVolume(n))
    } else if key == "SetRearChannelVolume"@ {
        with_u8(val, key, |n: u8| Command::SetRearChannelVolume(n))
    } else if key == "SetMute"@ {
        with_bool(val, key, |b: bool| Command::SetMute(b))
    } else if key == "SetQuietCouch"@ {
        with_bool(val, key, |b: bool| Command::SetQuietCouch(b))
    } else if key == "SetSoundMode"@ {
        match json_text(val) {
            None => CommandParse::ExpectedString(key),
            Some(s) => match sound_mode_by_name(s) {
                Some(m) => CommandParse::Parsed(Command::SetSoundMode(m)),
                None => CommandParse::UnknownSoundMode(s),
            },
        }
    } else if key == "SetBalance"@ {
        with_u8(val, key, |n: u8| Command::SetBalance(n))
    } else if key == "SetPower"@ {
        with_bool(val, key, |b: bool| Command::SetPower(b))
    } else if key == "SetInput"@ {
        match json_text(val) {
            None => CommandParse::ExpectedString(key),
            Some(s) => match input_by_name(s) {
                Some(i) => CommandParse::Parsed(Command::SetInput(i)),
                None => CommandParse::UnknownInput(s),
            },
        }
    } else if key == "SetFabric"@ {
        with_u8(val, key, |n: u8| Command::SetFabric(n))
    } else if key == "SetConfigShape"@ {
        match json_text(val) {
            None => CommandParse::ExpectedString(key),
            Some(s) => match config_shape_by_name(s) {
                Some(c) => CommandParse::Parsed(Command::SetConfigShape(c)),
                None => CommandParse::UnknownConfigShape(s),
            },
        }
    } else if key == "SetArmType"@ {
        with_u8(val, key, |n: u8| Command::SetArmType(n))
    } else if key == "SetPlayPause"@ {
        with_u8(val, key, |n: u8| Command::SetPlayPause(n))
    } else if key == "SetSkip"@ {
        with_u8(val, key, |n: u8| Command::SetSkip(n))
    } else {
        CommandParse::UnknownCommandKey(key)
    }
}

/// The command a JSON value describes.
pub open spec fn command_from_json(v: JsonValue) -> CommandParse {
    match v {
        JsonValue::String(s) => if s@ == "GetState"@ {
            CommandParse::Parsed(Command::GetState)
        } else if s@ == "GetFirmwareVersion"@ {
            CommandParse::Parsed(Command::GetFirmwareVersion)
        } else {
            CommandParse::UnknownCommandString(s@)
        },
        JsonValue::Object(m) => if m@.len() != 1 {
            CommandParse::NotSingleKey
        } else {
            keyed_command(m@[0].0@, m@[0].1)
        },
        _ => CommandParse::NotStringOrObject,
    }
}

/// Read a command from its JSON description: `"GetState"`,
/// `"GetFirmwareVersion"`, or an object with a single key naming the command
/// and holding its argument, e.g. `{"SetVolume": 18}`, `{"SetMute": true}`,
/// `{"SetSoundMode": "Movies"}`, `{"SetInput": "HdmiArc"}`,
/// `{"SetConfigShape": "LShape"}`.
pub fn parse_command(value: &JsonValue) -> (r: Result<Command, CommandJsonError>)
    ensures
        parse_outcome(r) == command_from_json(*value),
{
    match value {
        JsonValue::String(s) => {
            let t = s.as_str();
            if str_eq(t, "GetState") {
                Ok(Command::GetState)
            } else if str_eq(t, "GetFirmwareVersion") {
                Ok(Command::GetFirmwareVersion)
            } else {
                Err(CommandJsonError::UnknownCommandString(s.clone()))
            }
        },
        JsonValue::Object(map) => {
            if map.len() != 1 {
                return Err(CommandJsonError::NotSingleKey);
            }
            let entry = &map[0];
            let key = entry.0.as_str();
            let val = &entry.1;
            proof {
                assert(key@ == map@[0].0@);
            }
            if str_eq(key, "SetVolume") {
                match val_to_u8(val, "SetVolume") {
                    Ok(v) => Ok(Command::SetVolume(v)),
                    Err(e) => Err(e),
                }
            } else if str_eq(key, "SetBass") {
                match val_to_u8(val, "SetBass") {
                    Ok(v) => Ok(Command::SetBass(v)),
                    Err(e) => Err(e),
                }
            } else if str_eq(key, "SetTreble") {
                match val_to_u8(val, "SetTreble") {
                    Ok(v) => Ok(Command::SetTreble(v)),
                    Err(e) => Err(e),
                }
            } else if str_eq(key, "SetCenterVolume") {
                match val_to_u8(val, "SetCenterVolume") {
                    Ok(v) => Ok(Command::SetCenterVolume(v)),
                    Err(e) => Err(e),
                }
            } else if str_eq(key, "SetRearChannelVolume") {
                match val_to_u8(val, "SetRearChannelVolume") {
                    Ok(v) => Ok(Command::SetRearChannelVolume(v)),
                    Err(e) => Err(e),
                }
            } else if str_eq(key, "SetMute") {
                match val_to_bool(val, "SetMute") {
                    Ok(b) => Ok(Command::SetMute(b)),
                    Err(e) => Err(e),
                }
            } else if str_eq(key, "SetQuietCouch") {
                match val_to_bool(val, "SetQuietCouch") {
                    Ok(b) => Ok(Command::SetQuietCouch(b)),
                    Err(e) => Err(e),
                }
            } else if str_eq(key, "SetSoundMode") {
                match val_to_sound_mode(val) {
                    Ok(m) => Ok(Command::SetSoundMode(m)),
                    Err(e) => Err(e),
                }
            } else if str_eq(key, "SetBalance") {
                match val_to_u8(val, "SetBalance") {
                    Ok(v) => Ok(Command::SetBalance(v)),
                    Err(e) => Err(e),
                }
            } else if str_eq(key, "SetPower") {
                match val_to_bool(val, "SetPower") {
                    Ok(b) => Ok(Command::SetPower(b)),
                    Err(e) => Err(e),
                }
            } else if str_eq(key, "SetInput") {
                match val_to_input(val) {
                    Ok(i) => Ok(Command::SetInput(i)),
                    Err(e) => Err(e),
                }
            } else if str_eq(key, "SetFabric") {
                match val_to_u8(val, "SetFabric") {
                    Ok(v) => Ok(Command::SetFabric(v)),
                    Err(e) => Err(e),
                }
            } else if str_eq(key, "SetConfigShape") {
                match val_to_config_shape(val) {
                    Ok(c) => Ok(Command::SetConfigShape(c)),
                    Err(e) => Err(e),
                }
            } else if str_eq(key, "SetArmType") {
                match val_to_u8(val, "SetArmType") {
                    Ok(v) => Ok(Command::SetArmType(v)),
                    Err(e) => Err(e),
                }
            } else if str_eq(key, "SetPlayPause") {
                match val_to_u8(val, "SetPlayPause") {
                    Ok(v) => Ok(Command::SetPlayPause(v)),
                    Err(e) => Err(e),
                }
            } else if str_eq(key, "SetSkip") {
                match val_to_u8(val, "SetSkip") {
                    Ok(v) => Ok(Command::SetSkip(v)),
                    Err(e) => Err(e),
                }
            } else {
                Err(CommandJsonError::UnknownCommandKey(entry.0.clone()))
            }
        },
        _ => Err(CommandJsonError::NotStringOrObject),
    }
}

/// The message of a command-reading error.
pub open spec fn command_error_text(e: CommandParse) -> Seq<char> {
    match e {
        CommandParse::UnknownCommandString(s) => "unknown command string: "@ + s,
        CommandParse::NotSingleKey => "command object must have exactly one key"@,
        CommandParse::UnknownCommandKey(s) => "unknown command key: "@ + s,
        CommandParse::ExpectedU8(f) => f + " requires a u8 integer value"@,
        CommandParse::ExpectedBool(f) => f + " requires a boolean value"@,
        CommandParse::ExpectedString(f) => f + " requires a string value"@,
        CommandParse::UnknownSoundMode(s) => "unknown sound mode: "@ + s
            + " (expected Movies, Music, Tv, News, or Manual)"@,
        CommandParse::UnknownInput(s) => "unknown input: "@ + s
            + " (expected HdmiArc, Bluetooth, Aux, or Optical)"@,
        CommandParse::UnknownConfigShape(s) => "unknown config shape: "@ + s
            + " (expected Straight, LShape, UShape, or Pit)"@,
        CommandParse::NotStringOrObject => "command must be a JSON string or object"@,
        CommandParse::Parsed(_) => Seq::empty(),
    }
}

impl CommandJsonError {
    /// The error message, e.g. `SetVolume requires a u8 integer value`.
    pub fn to_string(&self) -> (r: String)
        ensures
            r@ == command_error_text(parse_outcome(Err(*self))),
    {
        let mut m = String::new();
        match self {
            CommandJsonError::UnknownCommandString(s) => {
                push_str(&mut m, "unknown command string: ");
                push_string(&mut m, s);
            },
            CommandJsonError::NotSingleKey => {
                push_str(&mut m, "command object must have exactly one key");
            },
            CommandJsonError::UnknownCommandKey(s) => {
                push_str(&mut m, "unknown command key: ");
                push_string(&mut m, s);
            },
            CommandJsonError::ExpectedU8(f) => {
                push_str(&mut m, f);
                push_str(&mut m, " requires a u8 integer value");
            },
            CommandJsonError::ExpectedBool(f) => {
                push_str(&mut m, f);
                push_str(&mut m, " requires a boolean value");
            },
            CommandJsonError::ExpectedString(f) => {
                push_str(&mut m, f);
                push_str(&mut m, " requires a string value");
            },
            CommandJsonError::UnknownSoundMode(s) => {
                push_str(&mut m, "unknown sound mode: ");
                push_string(&mut m, s);
                push_str(&mut m, " (expected Movies, Music, Tv, News, or Manual)");
            },
            CommandJsonError::UnknownInput(s) => {
                push_str(&mut m, "unknown input: ");
                push_string(&mut m, s);
                push_str(&mut m, " (expected HdmiArc, Bluetooth, Aux, or Optical)");
            },
            CommandJsonError::UnknownConfigShape(s) => {
                push_str(&mut m, "unknown config shape: ");
                push_string(&mut m, s);
                push_str(&mut m, " (expected Straight, LShape, UShape, or Pit)");
            },
            CommandJsonError::NotStringOrObject => {
                push_str(&mut m, "command must be a JSON string or object");
            },
        }
        assert(m@ =~= command_error_text(parse_outcome(Err(*self))));
        m
    }
}

/// Why a JSON command could not be encoded.
#[derive(Clone, Debug)]
pub enum EncodeCommandError {
    /// The text is not JSON; the message is the JSON parser's.
    InvalidJson(String),
    /// The value does not describe a command.
    Parse(CommandJsonError),
    /// The command's value is outside its protocol range.
    Protocol(crate::commands::ProtocolError),
}

/// Read a command from its JSON description and encode it for BLE
/// transmission: the target characteristic and the byte payload.
pub fn encode_json_command(value: &JsonValue) -> (r: Result<
    (crate::characteristics::Uuid, Vec<u8>),
    EncodeCommandError,
>)
    ensures
        match command_from_json(*value) {
            CommandParse::Parsed(c) => match crate::commands::validate_result(c) {
                Ok(_) => r matches Ok((u, d)) && u.value == crate::characteristics::STEALTHTECH_UUID_BASE
                    + crate::commands::command_char_suffix(c) && d@ == crate::commands::command_payload(c),
                Err(e) => r matches Err(EncodeCommandError::Protocol(e2)) && e2 == e,
            },
            other => r matches Err(EncodeCommandError::Parse(e)) && parse_outcome(Err(e)) == other,
        },
{
    match parse_command(value) {
        Ok(c) => match c.encode() {
            Ok(pair) => Ok(pair),
            Err(e) => Err(EncodeCommandError::Protocol(e)),
        },
        Err(e) => Err(EncodeCommandError::Parse(e)),
    }
}

// ============================================================================
// Command text
// ============================================================================

#[verifier::external_type_specification]
#[verifier::external_body]
pub struct ExSerdeJsonValue(Value);

/// What `serde_json::from_str` parses a text into, as a JSON value: `None`
/// when the text is not JSON. A function of the text alone.
pub uninterp spec fn json_text_value(text: Seq<char>) -> Option<JsonValue>;

/// The library's form of a parsed JSON value, member for member. Numbers are
/// told apart as serde_json distinguishes them: a non-negative integer, a
/// negative integer, or a float.
#[verifier::external_body]
fn json_from_serde(v: &Value) -> (r: JsonValue) {
    match v {
        Value::Null => JsonValue::Null,
        Value::Bool(b) => JsonValue::Bool(*b),
        Value::Number(n) => JsonValue::Number(match (n.as_u64(), n.as_i64()) {
            (Some(u), _) => JsonNumber::PosInt(u),
            (None, Some(i)) => JsonNumber::NegInt(i),
            _ => JsonNumber::Float,
        }),
        Value::String(t) => JsonValue::String(t.clone()),
        Value::Array(a) => JsonValue::Array(a.iter().map(json_from_serde).collect()),
        Value::Object(m) => JsonValue::Object(m.iter().map(|(k, x)| (k.clone(), json_from_serde(x))).collect()),
    }
}

/// Parses JSON text. Calls `serde_json::from_str` into a
/// `serde_json::Value` and converts it; the result is the named
/// `json_text_value` of the text. The error message (the parser's) is not
/// stated.
#[verifier::external_body]
fn parse_json_text(text: &str) -> (r: Result<JsonValue, String>)
    ensures
        match json_text_value(text@) {
            Some(v) => r matches Ok(x) && x == v,
            None => r is Err,
        },
{
    match serde_json::from_str::<Value>(text) {
        Ok(v) => Ok(json_from_serde(&v)),
        Err(e) => Err(e.to_string()),
    }
}

/// Read a command from its JSON text: the outer error when the text is not
/// JSON (with the parser's message), else what `parse_command` gives for
/// the parsed value.
pub fn parse_command_text(cmd_json: &str) -> (r: Result<Result<Command, CommandJsonError>, String>)
    ensures
        match json_text_value(cmd_json@) {
            None => r is Err,
            Some(v) => r matches Ok(x) && parse_outcome(x) == command_from_json(v),
        },
{
    match parse_json_text(cmd_json) {
        Ok(v) => Ok(parse_command(&v)),
        Err(m) => Err(m),
    }
}

/// Encode a command given as JSON text (`{"SetVolume": 18}`, `"GetState"`,
/// ...) for BLE transmission: the target characteristic and the payload.
/// Text that is not JSON gives `InvalidJson` with the message
/// `invalid JSON: <parser message>`.
pub fn encode_command(cmd_json: &str) -> (r: Result<
    (crate::characteristics::Uuid, Vec<u8>),
    EncodeCommandError,
>)
    ensures
        match json_text_value(cmd_json@) {
            None => r matches Err(EncodeCommandError::InvalidJson(_)),
            Some(v) => match command_from_json(v) {
                CommandParse::Parsed(c) => match crate::commands::validate_result(c) {
                    Ok(_) => r matches Ok((u, d)) && u.value == crate::characteristics::STEALTHTECH_UUID_BASE
                        + crate::commands::command_char_suffix(c) && d@ == crate::commands::command_payload(c),
                    Err(e) => r matches Err(EncodeCommandError::Protocol(e2)) && e2 == e,
                },
                other => r matches Err(EncodeCommandError::Parse(e)) && parse_outcome(Err(e)) == other,
            },
        },
{
    match parse_json_text(cmd_json) {
        Ok(v) => encode_json_command(&v),
        Err(m) => {
            let mut msg = String::new();
            push_str(&mut msg, "invalid JSON: ");
            push_string(&mut msg, &m);
            Err(EncodeCommandError::InvalidJson(msg))
        },
    }
}

} // verus!
