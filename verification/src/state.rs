//! StealthTech device state tracking.
//!
//! The state is updated locally when commands are sent and when notifications
//! are received. Every field is optional because the state is unknown until it
//! has been read from the device (request it with `Command::GetState`).

use vstd::prelude::*;

use crate::characteristics::{
    latest_dsp_version, latest_eq_version, latest_mcu_version, version_at_least,
    FirmwareComponentVersion,
};
use crate::commands::{
    config_shape_from_byte, firmware_component_name, firmware_name, Command, ConfigShape, Input,
    Response, ResponseView, SoundMode,
};
use crate::text::{dec_digits, push_decimal, push_str};

verus! {

/// Last known state of the StealthTech system.
#[derive(Clone, Debug)]
pub struct DeviceState {
    // === Audio Controls ===
    /// Current volume level (0-36).
    pub volume: Option<u8>,
    /// Current input source.
    pub input: Option<Input>,
    /// Current sound preset.
    pub sound_mode: Option<SoundMode>,
    /// Whether the system is muted.
    pub mute: Option<bool>,
    // === EQ / Balance ===
    /// Bass level (0-20).
    pub bass: Option<u8>,
    /// Treble level (0-20).
    pub treble: Option<u8>,
    /// Center channel volume offset (0-30).
    pub center_volume: Option<u8>,
    /// L/R balance (0-100, 50=center).
    pub balance: Option<u8>,
    /// Rear channel volume (0-30).
    pub rear_channel_volume: Option<u8>,
    // === Speaker Configuration ===
    /// Whether surround speakers are enabled.
    pub surround_enabled: Option<bool>,
    /// Whether Quiet Couch Mode is active.
    pub quiet_couch: Option<bool>,
    /// Whether the subwoofer is connected.
    pub subwoofer_connected: Option<bool>,
    // === Tuning ===
    /// Fabric covering type ID.
    pub fabric: Option<u8>,
    /// Configuration shape for surround calibration.
    pub config_shape: Option<ConfigShape>,
    /// Arm type.
    pub arm_type: Option<u8>,
    // === System ===
    /// Whether the device is powered on (the protocol reports it inverted:
    /// 0=ON, 1=OFF).
    pub power: Option<bool>,
    /// MCU firmware version (fw_type=1).
    pub mcu_version: Option<FirmwareComponentVersion>,
    /// DSP firmware version (fw_type=2).
    pub dsp_version: Option<FirmwareComponentVersion>,
    /// EQ firmware version (fw_type=3).
    pub eq_version: Option<FirmwareComponentVersion>,
    /// Single firmware version text, overwritten by each firmware
    /// notification; the per-component fields above are preferred.
    pub firmware_version: Option<String>,
    /// Model number from Device Information Service.
    pub model_number: Option<String>,
    /// Manufacturer name from Device Information Service.
    pub manufacturer: Option<String>,
}

/// The mathematical value of a `DeviceState`: the same fields, with the texts
/// as character sequences.
pub struct DeviceStateView {
    pub volume: Option<u8>,
    pub input: Option<Input>,
    pub sound_mode: Option<SoundMode>,
    pub mute: Option<bool>,
    pub bass: Option<u8>,
    pub treble: Option<u8>,
    pub center_volume: Option<u8>,
    pub balance: Option<u8>,
    pub rear_channel_volume: Option<u8>,
    pub surround_enabled: Option<bool>,
    pub quiet_couch: Option<bool>,
    pub subwoofer_connected: Option<bool>,
    pub fabric: Option<u8>,
    pub config_shape: Option<ConfigShape>,
    pub arm_type: Option<u8>,
    pub power: Option<bool>,
    pub mcu_version: Option<FirmwareComponentVersion>,
    pub dsp_version: Option<FirmwareComponentVersion>,
    pub eq_version: Option<FirmwareComponentVersion>,
    pub firmware_version: Option<Seq<char>>,
    pub model_number: Option<Seq<char>>,
    pub manufacturer: Option<Seq<char>>,
}

pub open spec fn opt_text(o: Option<String>) -> Option<Seq<char>> {
    match o {
        Some(s) => Some(s@),
        None => None,
    }
}

impl View for DeviceState {
    type V = DeviceStateView;

    open spec fn view(&self) -> DeviceStateView {
        DeviceStateView {
            volume: self.volume,
            input: self.input,
            sound_mode: self.sound_mode,
            mute: self.mute,
            bass: self.bass,
            treble: self.treble,
            center_volume: self.center_volume,
            balance: self.balance,
            rear_channel_volume: self.rear_channel_volume,
            surround_enabled: self.surround_enabled,
            quiet_couch: self.quiet_couch,
            subwoofer_connected: self.subwoofer_connected,
            fabric: self.fabric,
            config_shape: self.config_shape,
            arm_type: self.arm_type,
            power: self.power,
            mcu_version: self.mcu_version,
            dsp_version: self.dsp_version,
            eq_version: self.eq_version,
            firmware_version: opt_text(self.firmware_version),
            model_number: opt_text(self.model_number),
            manufacturer: opt_text(self.manufacturer),
        }
    }
}

/// The state in which nothing is known.
pub open spec fn unknown_state() -> DeviceStateView {
    DeviceStateView {
        volume: None,
        input: None,
        sound_mode: None,
        mute: None,
        bass: None,
        treble: None,
        center_volume: None,
        balance: None,
        rear_channel_volume: None,
        surround_enabled: None,
        quiet_couch: None,
        subwoofer_connected: None,
        fabric: None,
        config_shape: None,
        arm_type: None,
        power: None,
        mcu_version: None,
        dsp_version: None,
        eq_version: None,
        firmware_version: None,
        model_number: None,
        manufacturer: None,
    }
}

/// The firmware text `<name> v<major>.<minor>`, e.g. `MCU v1.71`.
pub open spec fn firmware_text(fw_type: u8, major: u8, minor: u8) -> Seq<char> {
    firmware_name(fw_type) + " v"@ + dec_digits(major as nat) + "."@ + dec_digits(minor as nat)
}

/// The state after a decoded notification has been applied.
pub open spec fn apply_view(s: DeviceStateView, r: ResponseView) -> DeviceStateView {
    match r {
        ResponseView::Volume(v) => DeviceStateView { volume: Some(v), ..s },
        ResponseView::CenterVolume(v) => DeviceStateView { center_volume: Some(v), ..s },
        ResponseView::Treble(v) => DeviceStateView { treble: Some(v), ..s },
        ResponseView::Bass(v) => DeviceStateView { bass: Some(v), ..s },
        ResponseView::MuteState(v) => DeviceStateView { mute: Some(v), ..s },
        ResponseView::QuietMode(v) => DeviceStateView { quiet_couch: Some(v), ..s },
        ResponseView::Balance(v) => DeviceStateView { balance: Some(v), ..s },
        ResponseView::Layout(v) => DeviceStateView { config_shape: config_shape_from_byte(v), ..s },
        ResponseView::CurrentInput(v) => DeviceStateView { input: Some(v), ..s },
        ResponseView::Power(v) => DeviceStateView { power: Some(v), ..s },
        ResponseView::CurrentSoundMode(v) => DeviceStateView { sound_mode: Some(v), ..s },
        ResponseView::Covering(v) => DeviceStateView { fabric: Some(v), ..s },
        ResponseView::ArmType(v) => DeviceStateView { arm_type: Some(v), ..s },
        ResponseView::SubwooferConnected(v) => DeviceStateView {
            subwoofer_connected: Some(v),
            ..s
        },
        ResponseView::RearVolume(v) => DeviceStateView { rear_channel_volume: Some(v), ..s },
        ResponseView::FirmwareVersion { fw_type, major, minor } => {
            let ver = FirmwareComponentVersion { major, minor };
            DeviceStateView {
                mcu_version: if fw_type == 1 {
                    Some(ver)
                } else {
                    s.mcu_version
                },
                dsp_version: if fw_type == 2 {
                    Some(ver)
                } else {
                    s.dsp_version
                },
                eq_version: if fw_type == 3 {
                    Some(ver)
                } else {
                    s.eq_version
                },
                firmware_version: Some(firmware_text(fw_type, major, minor)),
                ..s
            }
        },
        ResponseView::Unknown { .. } => s,
    }
}

/// The state after a command has been sent: the setting the command makes is
/// recorded; media and request commands record nothing.
pub open spec fn record_view(s: DeviceStateView, c: Command) -> DeviceStateView {
    match c {
        Command::SetVolume(v) => DeviceStateView { volume: Some(v), ..s },
        Command::SetMute(v) => DeviceStateView { mute: Some(v), ..s },
        Command::SetInput(v) => DeviceStateView { input: Some(v), ..s },
        Command::SetSoundMode(v) => DeviceStateView { sound_mode: Some(v), ..s },
        Command::SetBass(v) => DeviceStateView { bass: Some(v), ..s },
        Command::SetTreble(v) => DeviceStateView { treble: Some(v), ..s },
        Command::SetCenterVolume(v) => DeviceStateView { center_volume: Some(v), ..s },
        Command::SetBalance(v) => DeviceStateView { balance: Some(v), ..s },
        Command::SetRearChannelVolume(v) => DeviceStateView { rear_channel_volume: Some(v), ..s },
        Command::SetSurroundEnabled(v) => DeviceStateView { surround_enabled: Some(v), ..s },
        Command::SetQuietCouch(v) => DeviceStateView { quiet_couch: Some(v), ..s },
        Command::SetFabric(v) => DeviceStateView { fabric: Some(v), ..s },
        Command::SetConfigShape(v) => DeviceStateView { config_shape: Some(v), ..s },
        Command::SetArmType(v) => DeviceStateView { arm_type: Some(v), ..s },
        Command::SetPower(v) => DeviceStateView { power: Some(v), ..s },
        Command::SetPlayPause(_) | Command::SetSkip(_) | Command::GetState
        | Command::GetFirmwareVersion => s,
    }
}

/// Whether some known firmware component is older than the latest known
/// version; `None` when no component version is known.
pub open spec fn update_available(s: DeviceStateView) -> Option<bool> {
    if s.mcu_version is None && s.dsp_version is None && s.eq_version is None {
        None
    } else {
        Some(
            (s.mcu_version matches Some(v) && !version_at_least(
                v,
                FirmwareComponentVersion { major: 1, minor: 71 },
            )) || (s.dsp_version matches Some(v) && !version_at_least(
                v,
                FirmwareComponentVersion { major: 1, minor: 68 },
            )) || (s.eq_version matches Some(v) && !version_at_least(
                v,
                FirmwareComponentVersion { major: 1, minor: 23 },
            )),
        )
    }
}

/// Some version is present and older than `latest`.
fn outdated(v: Option<FirmwareComponentVersion>, latest: FirmwareComponentVersion) -> (r: bool)
    ensures
        r == (v matches Some(x) && !version_at_least(x, latest)),
{
    match v {
        Some(x) => !x.is_at_least(&latest),
        None => false,
    }
}

impl Default for DeviceState {
    fn default() -> (r: Self)
        ensures
            r@ == unknown_state(),
    {
        DeviceState::new()
    }
}

impl DeviceState {
    /// A state in which nothing is known yet.
    pub fn new() -> (r: Self)
        ensures
            r@ == unknown_state(),
    {
        DeviceState {
            volume: None,
            input: None,
            sound_mode: None,
            mute: None,
            bass: None,
            treble: None,
            center_volume: None,
            balance: None,
            rear_channel_volume: None,
            surround_enabled: None,
            quiet_couch: None,
            subwoofer_connected: None,
            fabric: None,
            config_shape: None,
            arm_type: None,
            power: None,
            mcu_version: None,
            dsp_version: None,
            eq_version: None,
            firmware_version: None,
            model_number: None,
            manufacturer: None,
        }
    }

    /// Update a single field from a decoded BLE notification response.
    ///
    /// Call this for each `Response` decoded from the notification stream to
    /// keep the local state in sync with the device.
    pub fn apply_response(&mut self, response: &Response)
        ensures
            final(self)@ == apply_view(old(self)@, response@),
    {
        match response {
            Response::Volume(v) => self.volume = Some(*v),
            Response::CenterVolume(v) => self.center_volume = Some(*v),
            Response::Treble(v) => self.treble = Some(*v),
            Response::Bass(v) => self.bass = Some(*v),
            Response::MuteState(v) => self.mute = Some(*v),
            Response::QuietMode(v) => self.quiet_couch = Some(*v),
            Response::Balance(v) => self.balance = Some(*v),
            Response::Layout(v) => self.config_shape = match ConfigShape::from_byte(*v) {
                Ok(c) => Some(c),
                Err(_) => None,
            },
            Response::CurrentInput(v) => self.input = Some(*v),
            Response::Power(v) => self.power = Some(*v),
            Response::CurrentSoundMode(v) => self.sound_mode = Some(*v),
            Response::Covering(v) => self.fabric = Some(*v),
            Response::ArmType(v) => self.arm_type = Some(*v),
            Response::SubwooferConnected(v) => self.subwoofer_connected = Some(*v),
            Response::RearVolume(v) => self.rear_channel_volume = Some(*v),
            Response::FirmwareVersion { fw_type, major, minor } => {
                let ver = FirmwareComponentVersion::new(*major, *minor);
                if *fw_type == 1 {
                    self.mcu_version = Some(ver);
                } else if *fw_type == 2 {
                    self.dsp_version = Some(ver);
                } else if *fw_type == 3 {
                    self.eq_version = Some(ver);
                }
                let mut text = String::new();
                push_str(&mut text, firmware_component_name(*fw_type));
                push_str(&mut text, " v");
                push_decimal(&mut text, *major as u64);
                push_str(&mut text, ".");
                push_decimal(&mut text, *minor as u64);
                assert(text@ =~= firmware_text(*fw_type, *major, *minor));
                self.firmware_version = Some(text);
            },
            Response::Unknown { .. } => {},
        }
    }

    /// Record the setting a command makes, once it has been sent to the
    /// device: `SetVolume(v)` records `volume = Some(v)`, and so on. Media
    /// control and request commands record nothing.
    pub fn record_sent_command(&mut self, command: &Command)
        ensures
            final(self)@ == record_view(old(self)@, *command),
    {
        match *command {
            Command::SetVolume(v) => self.volume = Some(v),
            Command::SetMute(v) => self.mute = Some(v),
            Command::SetInput(v) => self.input = Some(v),
            Command::SetSoundMode(v) => self.sound_mode = Some(v),
            Command::SetBass(v) => self.bass = Some(v),
            Command::SetTreble(v) => self.treble = Some(v),
            Command::SetCenterVolume(v) => self.center_volume = Some(v),
            Command::SetBalance(v) => self.balance = Some(v),
            Command::SetRearChannelVolume(v) => self.rear_channel_volume = Some(v),
            Command::SetSurroundEnabled(v) => self.surround_enabled = Some(v),
            Command::SetQuietCouch(v) => self.quiet_couch = Some(v),
            Command::SetFabric(v) => self.fabric = Some(v),
            Command::SetConfigShape(v) => self.config_shape = Some(v),
            Command::SetArmType(v) => self.arm_type = Some(v),
            Command::SetPower(v) => self.power = Some(v),
            Command::SetPlayPause(_) | Command::SetSkip(_) | Command::GetState
            | Command::GetFirmwareVersion => {},
        }
    }

    /// Returns true if any firmware component is older than the latest known
    /// version; `None` if no firmware version info has been received yet.
    pub fn firmware_update_available(&self) -> (r: Option<bool>)
        ensures
            r == update_available(self@),
    {
        if self.mcu_version.is_none() && self.dsp_version.is_none() && self.eq_version.is_none() {
            return None;
        }
        let outdated = outdated(self.mcu_version, latest_mcu_version()) || outdated(
            self.dsp_version,
            latest_dsp_version(),
        ) || outdated(self.eq_version, latest_eq_version());
        Some(outdated)
    }
}

} // verus!
