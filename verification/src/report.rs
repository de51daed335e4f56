//! Summaries of the device state for the web UI: firmware status per
//! component and the full state report that the REST API returns.

use vstd::prelude::*;

use crate::characteristics::{
    latest_dsp_version, latest_eq_version, latest_mcu_version, version_at_least, version_text,
    FirmwareComponentVersion,
};
use crate::commands::{config_shape_text, input_text, sound_mode_text};
use crate::state::{opt_text, update_available, DeviceState};

verus! {

/// Version status of one firmware component.
#[derive(Clone, Debug)]
pub struct FirmwareComponentStatus {
    /// Current version text (`v1.71`), if known.
    pub current: Option<String>,
    /// Latest known version text.
    pub latest: String,
    /// Whether the current version is at least the latest, if known.
    pub up_to_date: Option<bool>,
}

/// Firmware status of all three components.
#[derive(Clone, Debug)]
pub struct FirmwareStatus {
    pub mcu: FirmwareComponentStatus,
    pub dsp: FirmwareComponentStatus,
    pub eq: FirmwareComponentStatus,
    pub update_available: bool,
}

/// `st` describes the component whose version is `current` against `latest`.
pub open spec fn describes_component(
    st: FirmwareComponentStatus,
    current: Option<FirmwareComponentVersion>,
    latest: FirmwareComponentVersion,
) -> bool {
    &&& st.latest@ == version_text(latest)
    &&& match current {
        Some(v) => opt_text(st.current) == Some(version_text(v)) && st.up_to_date == Some(
            version_at_least(v, latest),
        ),
        None => st.current is None && st.up_to_date is None,
    }
}

fn component_status(
    current: Option<FirmwareComponentVersion>,
    latest: FirmwareComponentVersion,
) -> (r: FirmwareComponentStatus)
    ensures
        describes_component(r, current, latest),
{
    match current {
        Some(v) => FirmwareComponentStatus {
            current: Some(v.to_string()),
            latest: latest.to_string(),
            up_to_date: Some(v.is_at_least(&latest)),
        },
        None => FirmwareComponentStatus { current: None, latest: latest.to_string(), up_to_date: None },
    }
}

impl DeviceState {
    /// Per-component firmware status against the latest known versions, or
    /// `None` when no firmware version has been received yet.
    pub fn firmware_status(&self) -> (r: Option<FirmwareStatus>)
        ensures
            match r {
                None => self.mcu_version is None && self.dsp_version is None
                    && self.eq_version is None,
                Some(st) => {
                    &&& !(self.mcu_version is None && self.dsp_version is None
                        && self.eq_version is None)
                    &&& describes_component(st.mcu, self.mcu_version, FirmwareComponentVersion { major: 1, minor: 71 })
                    &&& describes_component(st.dsp, self.dsp_version, FirmwareComponentVersion { major: 1, minor: 68 })
                    &&& describes_component(st.eq, self.eq_version, FirmwareComponentVersion { major: 1, minor: 23 })
                    &&& update_available(self@) == Some(st.update_available)
                },
            },
    {
        if self.mcu_version.is_none() && self.dsp_version.is_none() && self.eq_version.is_none() {
            return None;
        }
        let update = match self.firmware_update_available() {
            Some(b) => b,
            None => false,
        };
        Some(
            FirmwareStatus {
                mcu: component_status(self.mcu_version, latest_mcu_version()),
                dsp: component_status(self.dsp_version, latest_dsp_version()),
                eq: component_status(self.eq_version, latest_eq_version()),
                update_available: update,
            },
        )
    }
}

/// The device state as the REST API reports it.
#[derive(Clone, Debug)]
pub struct DeviceStateReport {
    pub connected: bool,
    pub name: Option<String>,
    pub address: Option<String>,
    pub volume: Option<u8>,
    pub bass: Option<u8>,
    pub treble: Option<u8>,
    pub center_volume: Option<u8>,
    pub rear_channel_volume: Option<u8>,
    pub balance: Option<u8>,
    pub mute: Option<bool>,
    pub power: Option<bool>,
    pub quiet_couch: Option<bool>,
    pub subwoofer_connected: Option<bool>,
    /// Display text of the configuration shape (`L-Shape`).
    pub config_shape: Option<String>,
    /// Display text of the input (`HDMI ARC`).
    pub input: Option<String>,
    /// Display text of the sound mode (`TV`).
    pub sound_mode: Option<String>,
    pub firmware: Option<FirmwareStatus>,
}

fn opt_config_shape_text(c: Option<crate::commands::ConfigShape>) -> (r: Option<String>)
    ensures
        match c {
            Some(x) => opt_text(r) == Some(config_shape_text(x)),
            None => r is None,
        },
{
    match c {
        Some(x) => Some(x.to_string()),
        None => None,
    }
}

fn opt_input_text(i: Option<crate::commands::Input>) -> (r: Option<String>)
    ensures
        match i {
            Some(x) => opt_text(r) == Some(input_text(x)),
            None => r is None,
        },
{
    match i {
        Some(x) => Some(x.to_string()),
        None => None,
    }
}

fn opt_sound_mode_text(m: Option<crate::commands::SoundMode>) -> (r: Option<String>)
    ensures
        match m {
            Some(x) => opt_text(r) == Some(sound_mode_text(x)),
            None => r is None,
        },
{
    match m {
        Some(x) => Some(x.to_string()),
        None => None,
    }
}

impl DeviceStateReport {
    /// The report when no device is connected: nothing is known.
    pub fn disconnected() -> (r: Self)
        ensures
            !r.connected,
            r.name is None && r.address is None,
            r.volume is None && r.bass is None && r.treble is None && r.center_volume is None,
            r.rear_channel_volume is None && r.balance is None && r.mute is None,
            r.power is None && r.quiet_couch is None && r.subwoofer_connected is None,
            r.config_shape is None && r.input is None && r.sound_mode is None,
            r.firmware is None,
    {
        DeviceStateReport {
            connected: false,
            name: None,
            address: None,
            volume: None,
            bass: None,
            treble: None,
            center_volume: None,
            rear_channel_volume: None,
            balance: None,
            mute: None,
            power: None,
            quiet_couch: None,
            subwoofer_connected: None,
            config_shape: None,
            input: None,
            sound_mode: None,
            firmware: None,
        }
    }

    /// The report for a connected device with the given name, address and
    /// last known state.
    pub fn from_state(name: Option<String>, address: String, state: &DeviceState) -> (r: Self)
        ensures
            r.connected,
            r.name == name,
            r.address == Some(address),
            r.volume == state.volume && r.bass == state.bass && r.treble == state.treble,
            r.center_volume == state.center_volume,
            r.rear_channel_volume == state.rear_channel_volume,
            r.balance == state.balance && r.mute == state.mute && r.power == state.power,
            r.quiet_couch == state.quiet_couch,
            r.subwoofer_connected == state.subwoofer_connected,
            match state.config_shape {
                Some(x) => opt_text(r.config_shape) == Some(config_shape_text(x)),
                None => r.config_shape is None,
            },
            match state.input {
                Some(x) => opt_text(r.input) == Some(input_text(x)),
                None => r.input is None,
            },
            match state.sound_mode {
                Some(x) => opt_text(r.sound_mode) == Some(sound_mode_text(x)),
                None => r.sound_mode is None,
            },
            match r.firmware {
                None => state.mcu_version is None && state.dsp_version is None
                    && state.eq_version is None,
                Some(st) => {
                    &&& describes_component(st.mcu, state.mcu_version, FirmwareComponentVersion { major: 1, minor: 71 })
                    &&& describes_component(st.dsp, state.dsp_version, FirmwareComponentVersion { major: 1, minor: 68 })
                    &&& describes_component(st.eq, state.eq_version, FirmwareComponentVersion { major: 1, minor: 23 })
                    &&& update_available(state@) == Some(st.update_available)
                },
            },
    {
        DeviceStateReport {
            connected: true,
            name,
            address: Some(address),
            volume: state.volume,
            bass: state.bass,
            treble: state.treble,
            center_volume: state.center_volume,
            rear_channel_volume: state.rear_channel_volume,
            balance: state.balance,
            mute: state.mute,
            power: state.power,
            quiet_couch: state.quiet_couch,
            subwoofer_connected: state.subwoofer_connected,
            config_shape: opt_config_shape_text(state.config_shape),
            input: opt_input_text(state.input),
            sound_mode: opt_sound_mode_text(state.sound_mode),
            firmware: state.firmware_status(),
        }
    }
}

} // verus!
