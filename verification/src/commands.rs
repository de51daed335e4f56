//! Command encoding and decoding for the StealthTech BLE protocol.
//!
//! Commands are written to GATT characteristics as short byte packets:
//!
//! - **Format A** (5 bytes): `AA <cmd_id> <sub_cmd_id> 01 <value>`, used for
//!   EQ, audio path and player control commands.
//! - **Format B** (4 bytes): `AA <cmd_id> <value> 00`, used for preset,
//!   source and device info commands.
//!
//! Notifications arrive on the UpStream characteristic as
//! `CC 05/06 AA ... <response_code> <value>`: the last two bytes are always
//! the response code and the value. Version notifications have the form
//! `CC 05/06 AA 01 03 <type> <major> <minor>`.

use vstd::prelude::*;

use crate::characteristics::{
    char_audio_path, char_covering, char_device_info, char_eq_control, char_player_control,
    char_source, char_system_layout, Uuid, STEALTHTECH_UUID_BASE, MAX_BALANCE, MAX_BASS,
    MAX_CENTER_VOLUME, MAX_REAR_VOLUME, MAX_TREBLE, MAX_VOLUME,
};
use crate::response_code;
use crate::text::{
    dec_digits, hex_byte, int_digits, push_decimal, push_hex_byte, push_signed_decimal,
    push_str, push_string, hex_encode, hex_lower,
};
use crate::characteristics::uuid_hyphenated;
use vstd::slice::slice_to_vec;

verus! {

// ============================================================================
// Errors
// ============================================================================

/// Errors that can occur during command encoding/decoding.
#[derive(Clone, Copy, Debug, PartialEq, Eq, Structural)]
pub enum ProtocolError {
    UnknownByte(u8),
    InvalidLength { expected: usize, actual: usize },
    OutOfRange { value: i32, min: i32, max: i32 },
}

/// The message of a protocol error.
pub open spec fn protocol_error_text(e: ProtocolError) -> Seq<char> {
    match e {
        ProtocolError::UnknownByte(b) => "Unknown byte value: 0x"@ + hex_byte(b),
        ProtocolError::InvalidLength { expected, actual } => "Invalid payload length: expected "@
            + dec_digits(expected as nat) + ", got "@ + dec_digits(actual as nat),
        ProtocolError::OutOfRange { value, min, max } => "Value out of range: "@ + int_digits(
            value as int,
        ) + " not in ["@ + int_digits(min as int) + ", "@ + int_digits(max as int) + "]"@,
    }
}

impl ProtocolError {
    /// The error message, e.g. `Value out of range: 37 not in [0, 36]`.
    pub fn to_string(&self) -> (r: String)
        ensures
            r@ == protocol_error_text(*self),
    {
        let mut s = String::new();
        match *self {
            ProtocolError::UnknownByte(b) => {
                push_str(&mut s, "Unknown byte value: 0x");
                push_hex_byte(&mut s, b);
            },
            ProtocolError::InvalidLength { expected, actual } => {
                push_str(&mut s, "Invalid payload length: expected ");
                push_decimal(&mut s, expected as u64);
                push_str(&mut s, ", got ");
                push_decimal(&mut s, actual as u64);
            },
            ProtocolError::OutOfRange { value, min, max } => {
                push_str(&mut s, "Value out of range: ");
                push_signed_decimal(&mut s, value);
                push_str(&mut s, " not in [");
                push_signed_decimal(&mut s, min);
                push_str(&mut s, ", ");
                push_signed_decimal(&mut s, max);
                push_str(&mut s, "]");
            },
        }
        assert(s@ =~= protocol_error_text(*self));
        s
    }
}

// ============================================================================
// Packet formats
// ============================================================================

/// Format A: `AA <cmd_id> <sub_cmd_id> 01 <value>`.
pub open spec fn format_a_bytes(cmd_id: u8, sub_cmd_id: u8, value: u8) -> Seq<u8> {
    seq![0xAAu8, cmd_id, sub_cmd_id, 0x01u8, value]
}

/// Format B: `AA <cmd_id> <value> 00`.
pub open spec fn format_b_bytes(cmd_id: u8, value: u8) -> Seq<u8> {
    seq![0xAAu8, cmd_id, value, 0x00u8]
}

/// Format A: `AA <cmd_id> <sub_cmd_id> 01 <value>` (5 bytes).
fn format_a(cmd_id: u8, sub_cmd_id: u8, value: u8) -> (r: Vec<u8>)
    ensures
        r@ == format_a_bytes(cmd_id, sub_cmd_id, value),
{
    let r = vec![0xAA, cmd_id, sub_cmd_id, 0x01, value];
    assert(r@ =~= format_a_bytes(cmd_id, sub_cmd_id, value));
    r
}

/// Format B: `AA <cmd_id> <value> 00` (4 bytes).
fn format_b(cmd_id: u8, value: u8) -> (r: Vec<u8>)
    ensures
        r@ == format_b_bytes(cmd_id, value),
{
    let r = vec![0xAA, cmd_id, value, 0x00];
    assert(r@ =~= format_b_bytes(cmd_id, value));
    r
}

// ============================================================================
// Enums
// ============================================================================

/// Audio input source selection (byte values: HDMI ARC 0, Bluetooth 1,
/// AUX 2, Optical 3; the same for reading and writing).
#[derive(Clone, Copy, Debug, PartialEq, Eq, Structural)]
pub enum Input {
    /// HDMI ARC from TV.
    HdmiArc,
    /// Bluetooth A2DP streaming.
    Bluetooth,
    /// 3.5mm auxiliary input.
    Aux,
    /// Optical TOSLINK input.
    Optical,
}

pub open spec fn input_byte(i: Input) -> u8 {
    match i {
        Input::HdmiArc => 0,
        Input::Bluetooth => 1,
        Input::Aux => 2,
        Input::Optical => 3,
    }
}

pub open spec fn input_from_byte(b: u8) -> Option<Input> {
    if b == 0 {
        Some(Input::HdmiArc)
    } else if b == 1 {
        Some(Input::Bluetooth)
    } else if b == 2 {
        Some(Input::Aux)
    } else if b == 3 {
        Some(Input::Optical)
    } else {
        None
    }
}

pub open spec fn input_text(i: Input) -> Seq<char> {
    match i {
        Input::HdmiArc => "HDMI ARC"@,
        Input::Bluetooth => "Bluetooth"@,
        Input::Aux => "AUX"@,
        Input::Optical => "Optical"@,
    }
}

impl Input {
    pub fn to_byte(self) -> (r: u8)
        ensures
            r == input_byte(self),
    {
        match self {
            Input::HdmiArc => 0,
            Input::Bluetooth => 1,
            Input::Aux => 2,
            Input::Optical => 3,
        }
    }

    pub fn from_byte(byte: u8) -> (r: Result<Self, ProtocolError>)
        ensures
            match input_from_byte(byte) {
                Some(i) => r == Ok::<Input, ProtocolError>(i),
                None => r == Err::<Input, ProtocolError>(ProtocolError::UnknownByte(byte)),
            },
    {
        match byte {
            0 => Ok(Input::HdmiArc),
            1 => Ok(Input::Bluetooth),
            2 => Ok(Input::Aux),
            3 => Ok(Input::Optical),
            other => Err(ProtocolError::UnknownByte(other)),
        }
    }

    /// Display name, e.g. `HDMI ARC`.
    pub fn to_string(&self) -> (r: String)
        ensures
            r@ == input_text(*self),
    {
        match self {
            Input::HdmiArc => String::from_str("HDMI ARC"),
            Input::Bluetooth => String::from_str("Bluetooth"),
            Input::Aux => String::from_str("AUX"),
            Input::Optical => String::from_str("Optical"),
        }
    }
}

/// Sound preset / processing mode.
///
/// Write values and read values differ:
/// - Write values (to device): Movies=7, Music=8, TV=5, News=6, Manual=9
/// - Read values (from notifications): Movies=0, Music=1, TV=2, News=3
#[derive(Clone, Copy, Debug, PartialEq, Eq, Structural)]
pub enum SoundMode {
    /// Optimized for movies with enhanced surround and bass.
    Movies,
    /// Optimized for music playback.
    Music,
    /// Balanced mode for TV shows.
    Tv,
    /// Enhanced dialog clarity.
    News,
    /// Manual EQ (user-defined bass/treble/balance). Write-only preset.
    Manual,
}

pub open spec fn sound_mode_write_byte(m: SoundMode) -> u8 {
    match m {
        SoundMode::Tv => 5,
        SoundMode::News => 6,
        SoundMode::Movies => 7,
        SoundMode::Music => 8,
        SoundMode::Manual => 9,
    }
}

pub open spec fn sound_mode_from_read_byte(b: u8) -> Option<SoundMode> {
    if b == 0 {
        Some(SoundMode::Movies)
    } else if b == 1 {
        Some(SoundMode::Music)
    } else if b == 2 {
        Some(SoundMode::Tv)
    } else if b == 3 {
        Some(SoundMode::News)
    } else {
        None
    }
}

pub open spec fn sound_mode_text(m: SoundMode) -> Seq<char> {
    match m {
        SoundMode::Movies => "Movies"@,
        SoundMode::Music => "Music"@,
        SoundMode::Tv => "TV"@,
        SoundMode::News => "News"@,
        SoundMode::Manual => "Manual"@,
    }
}

impl SoundMode {
    /// Encode to the **write** byte value (sent to device).
    pub fn to_write_byte(self) -> (r: u8)
        ensures
            r == sound_mode_write_byte(self),
    {
        match self {
            SoundMode::Tv => 5,
            SoundMode::News => 6,
            SoundMode::Movies => 7,
            SoundMode::Music => 8,
            SoundMode::Manual => 9,
        }
    }

    /// Decode from the **read** byte value (received in notifications).
    /// Manual mode (write value 9) has no known read value.
    pub fn from_read_byte(byte: u8) -> (r: Result<Self, ProtocolError>)
        ensures
            match sound_mode_from_read_byte(byte) {
                Some(m) => r == Ok::<SoundMode, ProtocolError>(m),
                None => r == Err::<SoundMode, ProtocolError>(ProtocolError::UnknownByte(byte)),
            },
    {
        match byte {
            0 => Ok(SoundMode::Movies),
            1 => Ok(SoundMode::Music),
            2 => Ok(SoundMode::Tv),
            3 => Ok(SoundMode::News),
            other => Err(ProtocolError::UnknownByte(other)),
        }
    }

    /// Display name, e.g. `Movies` or `TV`.
    pub fn to_string(&self) -> (r: String)
        ensures
            r@ == sound_mode_text(*self),
    {
        match self {
            SoundMode::Movies => String::from_str("Movies"),
            SoundMode::Music => String::from_str("Music"),
            SoundMode::Tv => String::from_str("TV"),
            SoundMode::News => String::from_str("News"),
            SoundMode::Manual => String::from_str("Manual"),
        }
    }
}

/// Sactionals configuration shape for surround calibration
/// (byte values: Straight 0, L-shape 1, U-shape 2, Pit 3).
#[derive(Clone, Copy, Debug, PartialEq, Eq, Structural)]
pub enum ConfigShape {
    /// Straight/linear couch layout (byte 0).
    Straight,
    /// L-shaped couch layout (byte 1).
    LShape,
    /// U-shaped couch layout (byte 2).
    UShape,
    /// Pit/enclosed couch layout (byte 3).
    Pit,
}

pub open spec fn config_shape_byte(c: ConfigShape) -> u8 {
    match c {
        ConfigShape::Straight => 0,
        ConfigShape::LShape => 1,
        ConfigShape::UShape => 2,
        ConfigShape::Pit => 3,
    }
}

pub open spec fn config_shape_from_byte(b: u8) -> Option<ConfigShape> {
    if b == 0 {
        Some(ConfigShape::Straight)
    } else if b == 1 {
        Some(ConfigShape::LShape)
    } else if b == 2 {
        Some(ConfigShape::UShape)
    } else if b == 3 {
        Some(ConfigShape::Pit)
    } else {
        None
    }
}

pub open spec fn config_shape_text(c: ConfigShape) -> Seq<char> {
    match c {
        ConfigShape::Straight => "Straight"@,
        ConfigShape::LShape => "L-Shape"@,
        ConfigShape::UShape => "U-Shape"@,
        ConfigShape::Pit => "Pit"@,
    }
}

impl ConfigShape {
    pub fn to_byte(self) -> (r: u8)
        ensures
            r == config_shape_byte(self),
    {
        match self {
            ConfigShape::Straight => 0,
            ConfigShape::LShape => 1,
            ConfigShape::UShape => 2,
            ConfigShape::Pit => 3,
        }
    }

    pub fn from_byte(byte: u8) -> (r: Result<Self, ProtocolError>)
        ensures
            match config_shape_from_byte(byte) {
                Some(c) => r == Ok::<ConfigShape, ProtocolError>(c),
                None => r == Err::<ConfigShape, ProtocolError>(ProtocolError::UnknownByte(byte)),
            },
    {
        match byte {
            0 => Ok(ConfigShape::Straight),
            1 => Ok(ConfigShape::LShape),
            2 => Ok(ConfigShape::UShape),
            3 => Ok(ConfigShape::Pit),
            other => Err(ProtocolError::UnknownByte(other)),
        }
    }

    /// Display name, e.g. `L-Shape`.
    pub fn to_string(&self) -> (r: String)
        ensures
            r@ == config_shape_text(*self),
    {
        match self {
            ConfigShape::Straight => String::from_str("Straight"),
            ConfigShape::LShape => String::from_str("L-Shape"),
            ConfigShape::UShape => String::from_str("U-Shape"),
            ConfigShape::Pit => String::from_str("Pit"),
        }
    }
}

// ============================================================================
// Commands
// ============================================================================

/// A command to send to the StealthTech center channel.
///
/// Each command encodes to a specific characteristic UUID and byte payload.
#[derive(Clone, Copy, Debug, PartialEq, Eq, Structural)]
pub enum Command {
    /// Set master volume (0-36).
    SetVolume(u8),
    /// Set bass level (0-20).
    SetBass(u8),
    /// Set treble level (0-20).
    SetTreble(u8),
    /// Set center channel volume offset (0-30).
    SetCenterVolume(u8),
    /// Set rear channel volume (0-30).
    SetRearChannelVolume(u8),
    /// Mute (true) or unmute (false).
    SetMute(bool),
    /// Toggle Quiet Couch Mode (true=on, false=off).
    SetQuietCouch(bool),
    /// Set sound preset/mode.
    SetSoundMode(SoundMode),
    /// Set L/R speaker balance (0-100, 50=center).
    SetBalance(u8),
    /// Power on (true) or standby (false).
    SetPower(bool),
    /// Select audio input source.
    SetInput(Input),
    /// Set fabric covering type for acoustic tuning (byte ID).
    SetFabric(u8),
    /// Set configuration shape for surround calibration.
    SetConfigShape(ConfigShape),
    /// Set arm type (byte ID).
    SetArmType(u8),
    /// Enable/disable surround speakers.
    SetSurroundEnabled(bool),
    /// Play/pause Bluetooth media.
    SetPlayPause(u8),
    /// Skip forward/backward Bluetooth media.
    SetSkip(u8),
    /// Request full device state dump.
    GetState,
    /// Request firmware version info.
    GetFirmwareVersion,
}

/// The protocol-defined range limit of a command's value, for the commands
/// that have one (the range is always `0..=limit`), with the value.
pub open spec fn command_range(c: Command) -> Option<(u8, u8)> {
    match c {
        Command::SetVolume(v) => Some((v, MAX_VOLUME)),
        Command::SetBass(v) => Some((v, MAX_BASS)),
        Command::SetTreble(v) => Some((v, MAX_TREBLE)),
        Command::SetCenterVolume(v) => Some((v, MAX_CENTER_VOLUME)),
        Command::SetRearChannelVolume(v) => Some((v, MAX_REAR_VOLUME)),
        Command::SetBalance(v) => Some((v, MAX_BALANCE)),
        _ => None,
    }
}

/// The outcome of validating a command: an out-of-range error when its value
/// exceeds its limit, success otherwise.
pub open spec fn validate_result(c: Command) -> Result<(), ProtocolError> {
    match command_range(c) {
        Some((v, max)) => if v > max {
            Err(ProtocolError::OutOfRange { value: v as i32, min: 0, max: max as i32 })
        } else {
            Ok(())
        },
        None => Ok(()),
    }
}

pub open spec fn bool_byte(b: bool) -> u8 {
    if b {
        1
    } else {
        0
    }
}

/// The suffix of the characteristic a command is written to.
pub open spec fn command_char_suffix(c: Command) -> u128 {
    match c {
        Command::SetVolume(_) | Command::SetBass(_) | Command::SetTreble(_)
        | Command::SetCenterVolume(_) | Command::SetRearChannelVolume(_) | Command::SetMute(_)
        | Command::SetQuietCouch(_) | Command::SetSoundMode(_) | Command::SetArmType(_)
        | Command::SetSurroundEnabled(_) => 0x0003,
        Command::SetBalance(_) | Command::SetPower(_) => 0x0004,
        Command::SetInput(_) => 0x0007,
        Command::SetConfigShape(_) => 0x0006,
        Command::SetFabric(_) => 0x0008,
        Command::SetPlayPause(_) | Command::SetSkip(_) => 0x0005,
        Command::GetState | Command::GetFirmwareVersion => 0x0002,
    }
}

/// The byte payload of a command (the command encoding table).
pub open spec fn command_payload(c: Command) -> Seq<u8> {
    match c {
        Command::SetVolume(v) => format_a_bytes(0x03, 0x02, v),
        Command::SetBass(v) => format_a_bytes(0x03, 0x01, v),
        Command::SetTreble(v) => format_a_bytes(0x03, 0x00, v),
        Command::SetCenterVolume(v) => format_a_bytes(0x03, 0x03, v),
        Command::SetRearChannelVolume(v) => format_a_bytes(0x03, 0x0A, v),
        Command::SetMute(on) => format_a_bytes(0x03, 0x09, bool_byte(on)),
        Command::SetQuietCouch(on) => format_a_bytes(0x03, 0x04, bool_byte(on)),
        Command::SetSoundMode(m) => format_b_bytes(0x03, sound_mode_write_byte(m)),
        Command::SetBalance(v) => format_a_bytes(0x04, 0x00, v),
        Command::SetPower(on) => format_a_bytes(0x04, 0x01, bool_byte(on)),
        Command::SetInput(i) => format_b_bytes(0x07, input_byte(i)),
        Command::SetConfigShape(c) => format_b_bytes(0x06, config_shape_byte(c)),
        Command::SetFabric(id) => format_b_bytes(0x08, id),
        Command::SetArmType(v) => format_a_bytes(0x03, 0x0D, v),
        Command::SetSurroundEnabled(on) => format_a_bytes(0x03, 0x0E, bool_byte(on)),
        Command::SetPlayPause(v) => format_a_bytes(0x05, 0x00, v),
        Command::SetSkip(v) => format_a_bytes(0x05, 0x01, v),
        Command::GetState => format_b_bytes(0x01, 0x01),
        Command::GetFirmwareVersion => seq![0xAAu8, 0x01u8, 0x01u8, 0x01u8],
    }
}

impl Command {
    /// Validate command parameters are within protocol-defined ranges.
    pub fn validate(&self) -> (r: Result<(), ProtocolError>)
        ensures
            r == validate_result(*self),
    {
        match *self {
            Command::SetVolume(v) if v > MAX_VOLUME => Err(
                ProtocolError::OutOfRange { value: v as i32, min: 0, max: MAX_VOLUME as i32 },
            ),
            Command::SetBass(v) if v > MAX_BASS => Err(
                ProtocolError::OutOfRange { value: v as i32, min: 0, max: MAX_BASS as i32 },
            ),
            Command::SetTreble(v) if v > MAX_TREBLE => Err(
                ProtocolError::OutOfRange { value: v as i32, min: 0, max: MAX_TREBLE as i32 },
            ),
            Command::SetCenterVolume(v) if v > MAX_CENTER_VOLUME => Err(
                ProtocolError::OutOfRange {
                    value: v as i32,
                    min: 0,
                    max: MAX_CENTER_VOLUME as i32,
                },
            ),
            Command::SetRearChannelVolume(v) if v > MAX_REAR_VOLUME => Err(
                ProtocolError::OutOfRange { value: v as i32, min: 0, max: MAX_REAR_VOLUME as i32 },
            ),
            Command::SetBalance(v) if v > MAX_BALANCE => Err(
                ProtocolError::OutOfRange { value: v as i32, min: 0, max: MAX_BALANCE as i32 },
            ),
            _ => Ok(()),
        }
    }

    /// Encode command to bytes for BLE transmission.
    ///
    /// Returns the target characteristic UUID and the byte payload, or the
    /// validation error when a value is out of its protocol range.
    pub fn encode(&self) -> (r: Result<(Uuid, Vec<u8>), ProtocolError>)
        ensures
            match validate_result(*self) {
                Err(e) => r matches Err(e2) && e2 == e,
                Ok(_) => r matches Ok((u, d)) && u.value == STEALTHTECH_UUID_BASE
                    + command_char_suffix(*self) && d@ == command_payload(*self),
            },
    {
        match self.validate() {
            Err(e) => {
                return Err(e);
            },
            Ok(()) => {},
        }
        let (uuid, data) = match *self {
            Command::SetVolume(v) => (char_eq_control(), format_a(0x03, 0x02, v)),
            Command::SetBass(v) => (char_eq_control(), format_a(0x03, 0x01, v)),
            Command::SetTreble(v) => (char_eq_control(), format_a(0x03, 0x00, v)),
            Command::SetCenterVolume(v) => (char_eq_control(), format_a(0x03, 0x03, v)),
            Command::SetRearChannelVolume(v) => (char_eq_control(), format_a(0x03, 0x0A, v)),
            Command::SetMute(on) => (char_eq_control(), format_a(0x03, 0x09, u8_from_bool(on))),
            Command::SetQuietCouch(on) => (
                char_eq_control(),
                format_a(0x03, 0x04, u8_from_bool(on)),
            ),
            Command::SetSoundMode(mode) => (char_eq_control(), format_b(0x03, mode.to_write_byte())),
            Command::SetBalance(v) => (char_audio_path(), format_a(0x04, 0x00, v)),
            Command::SetPower(on) => (char_audio_path(), format_a(0x04, 0x01, u8_from_bool(on))),
            Command::SetInput(input) => (char_source(), format_b(0x07, input.to_byte())),
            Command::SetConfigShape(shape) => (char_system_layout(), format_b(0x06, shape.to_byte())),
            Command::SetFabric(id) => (char_covering(), format_b(0x08, id)),
            Command::SetArmType(v) => (char_eq_control(), format_a(0x03, 0x0D, v)),
            Command::SetSurroundEnabled(on) => (
                char_eq_control(),
                format_a(0x03, 0x0E, u8_from_bool(on)),
            ),
            Command::SetPlayPause(v) => (char_player_control(), format_a(0x05, 0x00, v)),
            Command::SetSkip(v) => (char_player_control(), format_a(0x05, 0x01, v)),
            Command::GetState => (char_device_info(), format_b(0x01, 0x01)),
            // The version request differs from Format B: its last byte is 0x01.
            Command::GetFirmwareVersion => {
                let d = vec![0xAA, 0x01, 0x01, 0x01];
                assert(d@ =~= seq![0xAAu8, 0x01u8, 0x01u8, 0x01u8]);
                (char_device_info(), d)
            },
        };
        Ok((uuid, data))
    }
}

/// `u8::from(bool)`: 1 for true, 0 for false.
fn u8_from_bool(b: bool) -> (r: u8)
    ensures
        r == bool_byte(b),
{
    if b {
        1
    } else {
        0
    }
}

// ============================================================================
// Responses
// ============================================================================

/// A response/notification received from the StealthTech center channel.
///
/// Notifications arrive on the UpStream characteristic (0001) in the form
/// `CC 05/06 AA ... <response_code> <value>`.
#[derive(Clone, Debug, PartialEq)]
pub enum Response {
    Volume(u8),
    CenterVolume(u8),
    Treble(u8),
    Bass(u8),
    MuteState(bool),
    QuietMode(bool),
    Balance(u8),
    Layout(u8),
    CurrentInput(Input),
    /// Power state. In the protocol, 0=ON and 1=OFF (inverted).
    Power(bool),
    CurrentSoundMode(SoundMode),
    Covering(u8),
    ArmType(u8),
    SubwooferConnected(bool),
    RearVolume(u8),
    /// Firmware version: (type, major, minor). Type: 1=MCU, 2=DSP, 3=EQ.
    FirmwareVersion { fw_type: u8, major: u8, minor: u8 },
    /// Unknown/unparseable notification data.
    Unknown { characteristic_uuid: Uuid, data: Vec<u8> },
}

/// The mathematical value of a `Response`: the same variants, with the
/// unknown data as a byte sequence.
pub enum ResponseView {
    Volume(u8),
    CenterVolume(u8),
    Treble(u8),
    Bass(u8),
    MuteState(bool),
    QuietMode(bool),
    Balance(u8),
    Layout(u8),
    CurrentInput(Input),
    Power(bool),
    CurrentSoundMode(SoundMode),
    Covering(u8),
    ArmType(u8),
    SubwooferConnected(bool),
    RearVolume(u8),
    FirmwareVersion { fw_type: u8, major: u8, minor: u8 },
    Unknown { characteristic_uuid: Uuid, data: Seq<u8> },
}

impl View for Response {
    type V = ResponseView;

    open spec fn view(&self) -> ResponseView {
        match self {
            Response::Volume(v) => ResponseView::Volume(*v),
            Response::CenterVolume(v) => ResponseView::CenterVolume(*v),
            Response::Treble(v) => ResponseView::Treble(*v),
            Response::Bass(v) => ResponseView::Bass(*v),
            Response::MuteState(v) => ResponseView::MuteState(*v),
            Response::QuietMode(v) => ResponseView::QuietMode(*v),
            Response::Balance(v) => ResponseView::Balance(*v),
            Response::Layout(v) => ResponseView::Layout(*v),
            Response::CurrentInput(v) => ResponseView::CurrentInput(*v),
            Response::Power(v) => ResponseView::Power(*v),
            Response::CurrentSoundMode(v) => ResponseView::CurrentSoundMode(*v),
            Response::Covering(v) => ResponseView::Covering(*v),
            Response::ArmType(v) => ResponseView::ArmType(*v),
            Response::SubwooferConnected(v) => ResponseView::SubwooferConnected(*v),
            Response::RearVolume(v) => ResponseView::RearVolume(*v),
            Response::FirmwareVersion { fw_type, major, minor } => ResponseView::FirmwareVersion {
                fw_type: *fw_type,
                major: *major,
                minor: *minor,
            },
            Response::Unknown { characteristic_uuid, data } => ResponseView::Unknown {
                characteristic_uuid: *characteristic_uuid,
                data: data@,
            },
        }
    }
}

/// The response that a status notification's `<response_code> <value>`
/// pair stands for, or `None` when the code is outside 0x01..=0x0F or the
/// value is not a known input/preset.
pub open spec fn status_response(code: u8, value: u8) -> Option<ResponseView> {
    if code == response_code::VOLUME {
        Some(ResponseView::Volume(value))
    } else if code == response_code::CENTER_VOLUME {
        Some(ResponseView::CenterVolume(value))
    } else if code == response_code::TREBLE {
        Some(ResponseView::Treble(value))
    } else if code == response_code::BASS {
        Some(ResponseView::Bass(value))
    } else if code == response_code::MUTE {
        Some(ResponseView::MuteState(value == 1))
    } else if code == response_code::QUIET_MODE {
        Some(ResponseView::QuietMode(value == 1))
    } else if code == response_code::BALANCE {
        Some(ResponseView::Balance(value))
    } else if code == response_code::LAYOUT {
        Some(ResponseView::Layout(value))
    } else if code == response_code::SOURCE {
        match input_from_byte(value) {
            Some(i) => Some(ResponseView::CurrentInput(i)),
            None => None,
        }
    } else if code == response_code::POWER {
        // Power is inverted: 0x00 = ON, anything else = OFF.
        Some(ResponseView::Power(value == 0))
    } else if code == response_code::PRESET {
        match sound_mode_from_read_byte(value) {
            Some(m) => Some(ResponseView::CurrentSoundMode(m)),
            None => None,
        }
    } else if code == response_code::COVERING {
        Some(ResponseView::Covering(value))
    } else if code == response_code::ARM_TYPE {
        Some(ResponseView::ArmType(value))
    } else if code == response_code::SUBWOOFER {
        Some(ResponseView::SubwooferConnected(value == 1))
    } else if code == response_code::REAR_VOLUME {
        Some(ResponseView::RearVolume(value))
    } else {
        None
    }
}

/// A version notification: `.. .. AA 01 03 <type> <major> <minor> ...`
/// (at least 8 bytes).
pub open spec fn is_version_notification(d: Seq<u8>) -> bool {
    d.len() >= 8 && d[2] == 0xAA && d[3] == 0x01 && d[4] == 0x03
}

/// The decoding of a notification received on `uuid` with bytes `d`.
pub open spec fn decode_view(uuid: Uuid, d: Seq<u8>) -> ResponseView {
    let unknown = ResponseView::Unknown { characteristic_uuid: uuid, data: d };
    if d.len() < 4 {
        unknown
    } else if is_version_notification(d) {
        ResponseView::FirmwareVersion { fw_type: d[5], major: d[6], minor: d[7] }
    } else {
        match status_response(d[d.len() - 2], d[d.len() - 1]) {
            Some(r) => r,
            None => unknown,
        }
    }
}

impl Response {
    /// Decode a BLE notification from the UpStream characteristic.
    ///
    /// Parses the last 2 bytes as `<response_code> <value>` for standard
    /// status responses. Version responses (`AA 01 03 ...`) are detected
    /// and parsed separately.
    pub fn decode(characteristic_uuid: Uuid, data: &[u8]) -> (r: Response)
        ensures
            r@ == decode_view(characteristic_uuid, data@),
    {
        let n = data.len();
        if n < 4 {
            return Response::Unknown { characteristic_uuid, data: slice_to_vec(data) };
        }
        // Version responses: CC 05/06 AA 01 03 <type> <major> <minor>
        if n >= 8 && data[2] == 0xAA && data[3] == 0x01 && data[4] == 0x03 {
            return Response::FirmwareVersion { fw_type: data[5], major: data[6], minor: data[7] };
        }
        // Standard status: last 2 bytes are code + value
        let code = data[n - 2];
        let value = data[n - 1];
        if code < response_code::MIN || code > response_code::MAX {
            return Response::Unknown { characteristic_uuid, data: slice_to_vec(data) };
        }
        if code == response_code::VOLUME {
            Response::Volume(value)
        } else if code == response_code::CENTER_VOLUME {
            Response::CenterVolume(value)
        } else if code == response_code::TREBLE {
            Response::Treble(value)
        } else if code == response_code::BASS {
            Response::Bass(value)
        } else if code == response_code::MUTE {
            Response::MuteState(value == 1)
        } else if code == response_code::QUIET_MODE {
            Response::QuietMode(value == 1)
        } else if code == response_code::BALANCE {
            Response::Balance(value)
        } else if code == response_code::LAYOUT {
            Response::Layout(value)
        } else if code == response_code::SOURCE {
            match Input::from_byte(value) {
                Ok(i) => Response::CurrentInput(i),
                Err(_) => Response::Unknown { characteristic_uuid, data: slice_to_vec(data) },
            }
        } else if code == response_code::POWER {
            // Power is INVERTED: 0x00 = ON, 0x01 = OFF
            Response::Power(value == 0)
        } else if code == response_code::PRESET {
            match SoundMode::from_read_byte(value) {
                Ok(m) => Response::CurrentSoundMode(m),
                Err(_) => Response::Unknown { characteristic_uuid, data: slice_to_vec(data) },
            }
        } else if code == response_code::COVERING {
            Response::Covering(value)
        } else if code == response_code::ARM_TYPE {
            Response::ArmType(value)
        } else if code == response_code::SUBWOOFER {
            Response::SubwooferConnected(value == 1)
        } else {
            Response::RearVolume(value)
        }
    }
}

// ============================================================================
// Response text
// ============================================================================

/// `<value>/<max>` in decimal.
pub open spec fn level_text(v: u8, max: u8) -> Seq<char> {
    dec_digits(v as nat) + "/"@ + dec_digits(max as nat)
}

pub open spec fn on_off_text(on: bool) -> Seq<char> {
    if on {
        "on"@
    } else {
        "off"@
    }
}

/// Name of a firmware component by type: 1=MCU, 2=DSP, 3=EQ.
pub open spec fn firmware_name(fw_type: u8) -> Seq<char> {
    if fw_type == 1 {
        "MCU"@
    } else if fw_type == 2 {
        "DSP"@
    } else if fw_type == 3 {
        "EQ"@
    } else {
        "Unknown"@
    }
}

/// The human-readable form of a response.
pub open spec fn response_text(r: ResponseView) -> Seq<char> {
    match r {
        ResponseView::Volume(v) => "Volume: "@ + level_text(v, MAX_VOLUME),
        ResponseView::CenterVolume(v) => "Center: "@ + level_text(v, MAX_CENTER_VOLUME),
        ResponseView::Treble(v) => "Treble: "@ + level_text(v, MAX_TREBLE),
        ResponseView::Bass(v) => "Bass: "@ + level_text(v, MAX_BASS),
        ResponseView::MuteState(on) => "Mute: "@ + on_off_text(on),
        ResponseView::QuietMode(on) => "Quiet Mode: "@ + on_off_text(on),
        ResponseView::Balance(v) => "Balance: "@ + level_text(v, MAX_BALANCE),
        ResponseView::Layout(v) => "Layout: "@ + dec_digits(v as nat),
        ResponseView::CurrentInput(i) => "Input: "@ + input_text(i),
        ResponseView::Power(on) => "Power: "@ + (if on {
            "on"@
        } else {
            "standby"@
        }),
        ResponseView::CurrentSoundMode(m) => "Sound Mode: "@ + sound_mode_text(m),
        ResponseView::Covering(v) => "Covering: "@ + dec_digits(v as nat),
        ResponseView::ArmType(v) => "Arm Type: "@ + dec_digits(v as nat),
        ResponseView::SubwooferConnected(on) => "Subwoofer: "@ + (if on {
            "connected"@
        } else {
            "disconnected"@
        }),
        ResponseView::RearVolume(v) => "Rear: "@ + level_text(v, MAX_REAR_VOLUME),
        ResponseView::FirmwareVersion { fw_type, major, minor } => "Firmware "@ + firmware_name(
            fw_type,
        ) + ": v"@ + dec_digits(major as nat) + "."@ + dec_digits(minor as nat),
        ResponseView::Unknown { characteristic_uuid, data } => "Unknown ["@ + uuid_hyphenated(
            characteristic_uuid.value,
        ) + "]: "@ + hex_lower(data),
    }
}

/// Appends `<label><value>/<max>`.
fn push_level(s: &mut String, label: &str, v: u8, max: u8)
    ensures
        final(s)@ == old(s)@ + label@ + level_text(v, max),
{
    push_str(s, label);
    push_decimal(s, v as u64);
    push_str(s, "/");
    push_decimal(s, max as u64);
    assert(s@ =~= old(s)@ + label@ + level_text(v, max));
}

/// Appends `<label><value>`.
fn push_labeled_decimal(s: &mut String, label: &str, v: u8)
    ensures
        final(s)@ == old(s)@ + label@ + dec_digits(v as nat),
{
    push_str(s, label);
    push_decimal(s, v as u64);
}

/// Appends `<label>` followed by one of two words.
fn push_choice(s: &mut String, label: &str, c: bool, yes: &str, no: &str)
    ensures
        final(s)@ == old(s)@ + label@ + (if c {
            yes@
        } else {
            no@
        }),
{
    push_str(s, label);
    if c {
        push_str(s, yes);
    } else {
        push_str(s, no);
    }
}

/// The name of a firmware component by type.
pub fn firmware_component_name(fw_type: u8) -> (r: &'static str)
    ensures
        r@ == firmware_name(fw_type),
{
    if fw_type == 1 {
        "MCU"
    } else if fw_type == 2 {
        "DSP"
    } else if fw_type == 3 {
        "EQ"
    } else {
        "Unknown"
    }
}

impl Response {
    /// The human-readable form, e.g. `Volume: 18/36` or
    /// `Firmware MCU: v1.71`.
    pub fn to_string(&self) -> (r: String)
        ensures
            r@ == response_text(self@),
    {
        let mut s = String::new();
        match self {
            Response::Volume(v) => push_level(&mut s, "Volume: ", *v, MAX_VOLUME),
            Response::CenterVolume(v) => push_level(&mut s, "Center: ", *v, MAX_CENTER_VOLUME),
            Response::Treble(v) => push_level(&mut s, "Treble: ", *v, MAX_TREBLE),
            Response::Bass(v) => push_level(&mut s, "Bass: ", *v, MAX_BASS),
            Response::MuteState(on) => push_choice(&mut s, "Mute: ", *on, "on", "off"),
            Response::QuietMode(on) => push_choice(&mut s, "Quiet Mode: ", *on, "on", "off"),
            Response::Balance(v) => push_level(&mut s, "Balance: ", *v, MAX_BALANCE),
            Response::Layout(v) => push_labeled_decimal(&mut s, "Layout: ", *v),
            Response::CurrentInput(input) => {
                push_str(&mut s, "Input: ");
                let t = input.to_string();
                push_string(&mut s, &t);
            },
            Response::Power(on) => push_choice(&mut s, "Power: ", *on, "on", "standby"),
            Response::CurrentSoundMode(mode) => {
                push_str(&mut s, "Sound Mode: ");
                let t = mode.to_string();
                push_string(&mut s, &t);
            },
            Response::Covering(v) => push_labeled_decimal(&mut s, "Covering: ", *v),
            Response::ArmType(v) => push_labeled_decimal(&mut s, "Arm Type: ", *v),
            Response::SubwooferConnected(on) => push_choice(
                &mut s,
                "Subwoofer: ",
                *on,
                "connected",
                "disconnected",
            ),
            Response::RearVolume(v) => push_level(&mut s, "Rear: ", *v, MAX_REAR_VOLUME),
            Response::FirmwareVersion { fw_type, major, minor } => {
                push_str(&mut s, "Firmware ");
                push_str(&mut s, firmware_component_name(*fw_type));
                push_str(&mut s, ": v");
                push_decimal(&mut s, *major as u64);
                push_str(&mut s, ".");
                push_decimal(&mut s, *minor as u64);
            },
            Response::Unknown { characteristic_uuid, data } => {
                push_str(&mut s, "Unknown [");
                let u = characteristic_uuid.to_string();
                push_string(&mut s, &u);
                push_str(&mut s, "]: ");
                let h = hex_encode(data.as_slice());
                push_string(&mut s, &h);
            },
        }
        assert(s@ =~= response_text(self@));
        s
    }
}

} // verus!
