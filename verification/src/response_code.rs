//! Response codes: the second-to-last byte of an UpStream status notification.

use vstd::prelude::*;

verus! {

pub const VOLUME: u8 = 0x01;
pub const CENTER_VOLUME: u8 = 0x02;
pub const TREBLE: u8 = 0x03;
pub const BASS: u8 = 0x04;
pub const MUTE: u8 = 0x05;
pub const QUIET_MODE: u8 = 0x06;
pub const BALANCE: u8 = 0x07;
pub const LAYOUT: u8 = 0x08;
pub const SOURCE: u8 = 0x09;
pub const POWER: u8 = 0x0A;
pub const PRESET: u8 = 0x0B;
pub const COVERING: u8 = 0x0C;
pub const ARM_TYPE: u8 = 0x0D;
pub const SUBWOOFER: u8 = 0x0E;
pub const REAR_VOLUME: u8 = 0x0F;

pub const MIN: u8 = 0x01;
pub const MAX: u8 = 0x0F;

} // verus!
