//! GATT service/characteristic UUIDs and protocol constants for StealthTech.
//!
//! The StealthTech GATT service UUID encodes "excelpoint.com" in ASCII:
//! `65 78 63 65 6c 70 6f 69 6e 74 2e 63 6f 6d 00 00`. All characteristics
//! share this base and differ in the last two bytes.
//!
//! | Char | Suffix | Purpose |
//! |------|--------|---------|
//! | UpStream | 0001 | Notifications from the device |
//! | DeviceInfo | 0002 | State/version requests |
//! | EqControl | 0003 | Volume, EQ, mute, quiet mode, preset |
//! | AudioPath | 0004 | Balance, power |
//! | PlayerControl | 0005 | Bluetooth media control |
//! | SystemLayout | 0006 | Configuration shape |
//! | Source | 0007 | Input selection |
//! | Covering | 0008 | Fabric type |
//! | UserSetting | 0009 | User preferences |
//! | OTA | 000a | Firmware update |

use vstd::prelude::*;

use crate::text::{dec_digits, hex_lower, push_char, push_decimal};

verus! {

// ============================================================================
// UUID values
// ============================================================================

/// A 128-bit BLE UUID, held as its big-endian integer value (the first byte of
/// the UUID is the most significant byte of `value`).
#[derive(Clone, Copy, Debug, PartialEq, Eq, Structural)]
pub struct Uuid {
    pub value: u128,
}

/// Byte `i` (0-based, big-endian) of a 128-bit UUID value.
pub open spec fn uuid_byte(v: u128, i: int) -> u8 {
    ((v >> ((120 - 8 * i) as u128)) & 0xff) as u8
}

/// The sixteen bytes of a UUID value, in order.
pub open spec fn uuid_bytes(v: u128) -> Seq<u8> {
    Seq::new(16, |i: int| uuid_byte(v, i))
}

/// The hyphenated lowercase text form of a UUID:
/// 8-4-4-4-12 hexadecimal digits separated by '-'.
pub open spec fn uuid_hyphenated(v: u128) -> Seq<char> {
    let h = hex_lower(uuid_bytes(v));
    h.subrange(0, 8) + seq!['-'] + h.subrange(8, 12) + seq!['-'] + h.subrange(12, 16)
        + seq!['-'] + h.subrange(16, 20) + seq!['-'] + h.subrange(20, 32)
}

/// The text form of a UUID is 36 characters long.
pub proof fn lemma_uuid_text_len(v: u128)
    ensures
        uuid_hyphenated(v).len() == 36,
{
    crate::text::lemma_hex_lower_len(uuid_bytes(v));
}

/// What `uuid::Uuid::parse_str` gives for a text: the UUID's integer value
/// when the text is accepted, `None` when it is rejected.
pub uninterp spec fn uuid_parse_result(s: Seq<char>) -> Option<u128>;

/// Formats a UUID value. Calls `uuid::Uuid::from_u128` and its `Display`
/// impl, which the uuid crate documents (and its `fmt.rs` implements) as the
/// lowercase hyphenated form `xxxxxxxx-xxxx-xxxx-xxxx-xxxxxxxxxxxx`. The
/// crate documents `parse_str` as accepting every format it generates, so
/// the text parses back to the same value.
#[verifier::external_body]
fn format_uuid(v: u128) -> (r: String)
    ensures
        r@ == uuid_hyphenated(v),
        uuid_parse_result(r@) == Some(v),
{
    uuid::Uuid::from_u128(v).to_string()
}

/// Parses a UUID text. Calls `uuid::Uuid::parse_str`; which texts it accepts
/// (hyphenated, simple, braced, URN forms) is left to the named result
/// `uuid_parse_result`.
#[verifier::external_body]
fn parse_uuid_text(s: &str) -> (r: Option<u128>)
    ensures
        r == uuid_parse_result(s@),
{
    match uuid::Uuid::parse_str(s) {
        Ok(u) => Some(u.as_u128()),
        Err(_) => None,
    }
}

impl Uuid {
    /// Builds a UUID from its 128-bit big-endian value.
    pub fn from_u128(value: u128) -> (r: Uuid)
        ensures
            r.value == value,
    {
        Uuid { value }
    }

    /// The 128-bit big-endian value.
    pub fn as_u128(&self) -> (r: u128)
        ensures
            r == self.value,
    {
        self.value
    }

    /// The sixteen bytes of the UUID, most significant first.
    pub fn as_bytes(&self) -> (r: [u8; 16])
        ensures
            r@ == uuid_bytes(self.value),
    {
        let v = self.value;
        let r = [
            ((v >> 120u32) & 0xff) as u8,
            ((v >> 112u32) & 0xff) as u8,
            ((v >> 104u32) & 0xff) as u8,
            ((v >> 96u32) & 0xff) as u8,
            ((v >> 88u32) & 0xff) as u8,
            ((v >> 80u32) & 0xff) as u8,
            ((v >> 72u32) & 0xff) as u8,
            ((v >> 64u32) & 0xff) as u8,
            ((v >> 56u32) & 0xff) as u8,
            ((v >> 48u32) & 0xff) as u8,
            ((v >> 40u32) & 0xff) as u8,
            ((v >> 32u32) & 0xff) as u8,
            ((v >> 24u32) & 0xff) as u8,
            ((v >> 16u32) & 0xff) as u8,
            ((v >> 8u32) & 0xff) as u8,
            (v & 0xff) as u8,
        ];
        proof {
            assert(v == v >> 0u128) by (bit_vector);
            assert(r@ =~= uuid_bytes(v));
        }
        r
    }

    /// The hyphenated lowercase text form, e.g.
    /// `65786365-6c70-6f69-6e74-2e636f6d0001`.
    pub fn to_string(&self) -> (r: String)
        ensures
            r@ == uuid_hyphenated(self.value),
            uuid_parse_result(r@) == Some(self.value),
    {
        format_uuid(self.value)
    }

    /// Parses a UUID from text; `None` when the text is not a UUID.
    pub fn parse_str(s: &str) -> (r: Option<Uuid>)
        ensures
            match uuid_parse_result(s@) {
                Some(v) => r == Some(Uuid { value: v }),
                None => r is None,
            },
    {
        match parse_uuid_text(s) {
            Some(v) => Some(Uuid { value: v }),
            None => None,
        }
    }
}

// ============================================================================
// Device discovery constants
// ============================================================================

/// Known BLE advertisement names (lowercase patterns) of StealthTech center
/// channels, used as a fallback for device discovery during scanning.
pub open spec fn device_name_patterns() -> Seq<Seq<char>> {
    seq![
        "stealthtech"@,
        "stealth tech"@,
        "lovesac"@,
        "sound + charge"@,
        "sound+charge"@,
        "hk_lovesac"@,
        "ee4034"@,
    ]
}

/// The advertisement-name patterns, in order.
pub fn stealthtech_device_names() -> (r: Vec<&'static str>)
    ensures
        r@.len() == device_name_patterns().len(),
        forall|i: int| 0 <= i < r@.len() ==> r@[i]@ == device_name_patterns()[i],
{
    let r = vec![
        "stealthtech",
        "stealth tech",
        "lovesac",
        "sound + charge",
        "sound+charge",
        "hk_lovesac",
        "ee4034",
    ];
    assert(r@.len() == 7);
    r
}

/// Maximum volume level (0-36 scale, not 0-100).
pub const MAX_VOLUME: u8 = 36;

/// Maximum bass level.
pub const MAX_BASS: u8 = 20;

/// Maximum treble level.
pub const MAX_TREBLE: u8 = 20;

/// Maximum center channel volume.
pub const MAX_CENTER_VOLUME: u8 = 30;

/// Maximum rear channel volume.
pub const MAX_REAR_VOLUME: u8 = 30;

/// Maximum balance value (50 = center).
pub const MAX_BALANCE: u8 = 100;

// ============================================================================
// UUIDs
// ============================================================================

/// The "excelpoint.com" base of every StealthTech UUID (suffix zero).
pub const STEALTHTECH_UUID_BASE: u128 = 0x6578_6365_6c70_6f69_6e74_2e63_6f6d_0000u128;

/// Builds a full 128-bit StealthTech UUID from a 16-bit suffix: the base
/// `65786365-6c70-6f69-6e74-2e636f6d` followed by the suffix's two bytes.
pub fn stealthtech_uuid(suffix: u16) -> (r: Uuid)
    ensures
        r.value == STEALTHTECH_UUID_BASE + suffix,
{
    Uuid { value: STEALTHTECH_UUID_BASE + suffix as u128 }
}

/// Generic Access Service (0x1800).
pub fn service_generic_access() -> (r: Uuid)
    ensures
        r.value == 0x0000_1800_0000_1000_8000_0080_5f9b_34fbu128,
{
    Uuid { value: 0x0000_1800_0000_1000_8000_0080_5f9b_34fbu128 }
}

/// Generic Attribute Service (0x1801).
pub fn service_generic_attribute() -> (r: Uuid)
    ensures
        r.value == 0x0000_1801_0000_1000_8000_0080_5f9b_34fbu128,
{
    Uuid { value: 0x0000_1801_0000_1000_8000_0080_5f9b_34fbu128 }
}

/// Device Information Service (0x180A).
pub fn service_device_information() -> (r: Uuid)
    ensures
        r.value == 0x0000_180a_0000_1000_8000_0080_5f9b_34fbu128,
{
    Uuid { value: 0x0000_180a_0000_1000_8000_0080_5f9b_34fbu128 }
}

/// Primary StealthTech GATT service, `65786365-6c70-6f69-6e74-2e636f6d0000`.
pub fn service_stealthtech() -> (r: Uuid)
    ensures
        r.value == STEALTHTECH_UUID_BASE,
{
    stealthtech_uuid(0x0000)
}

/// UpStream: notifications from the device (suffix 0001).
pub fn char_upstream() -> (r: Uuid)
    ensures
        r.value == STEALTHTECH_UUID_BASE + 0x0001,
{
    stealthtech_uuid(0x0001)
}

/// DeviceInfo: state dump and firmware version requests (suffix 0002).
pub fn char_device_info() -> (r: Uuid)
    ensures
        r.value == STEALTHTECH_UUID_BASE + 0x0002,
{
    stealthtech_uuid(0x0002)
}

/// EqControl: volume, EQ, mute, quiet mode and preset (suffix 0003).
pub fn char_eq_control() -> (r: Uuid)
    ensures
        r.value == STEALTHTECH_UUID_BASE + 0x0003,
{
    stealthtech_uuid(0x0003)
}

/// AudioPath: balance and power (suffix 0004).
pub fn char_audio_path() -> (r: Uuid)
    ensures
        r.value == STEALTHTECH_UUID_BASE + 0x0004,
{
    stealthtech_uuid(0x0004)
}

/// PlayerControl: Bluetooth media playback (suffix 0005).
pub fn char_player_control() -> (r: Uuid)
    ensures
        r.value == STEALTHTECH_UUID_BASE + 0x0005,
{
    stealthtech_uuid(0x0005)
}

/// SystemLayout: configuration shape (suffix 0006).
pub fn char_system_layout() -> (r: Uuid)
    ensures
        r.value == STEALTHTECH_UUID_BASE + 0x0006,
{
    stealthtech_uuid(0x0006)
}

/// Source: input source selection (suffix 0007).
pub fn char_source() -> (r: Uuid)
    ensures
        r.value == STEALTHTECH_UUID_BASE + 0x0007,
{
    stealthtech_uuid(0x0007)
}

/// Covering: fabric type (suffix 0008).
pub fn char_covering() -> (r: Uuid)
    ensures
        r.value == STEALTHTECH_UUID_BASE + 0x0008,
{
    stealthtech_uuid(0x0008)
}

/// UserSetting: user preferences (suffix 0009).
pub fn char_user_setting() -> (r: Uuid)
    ensures
        r.value == STEALTHTECH_UUID_BASE + 0x0009,
{
    stealthtech_uuid(0x0009)
}

/// OTA: over-the-air firmware update (suffix 000a).
pub fn char_ota() -> (r: Uuid)
    ensures
        r.value == STEALTHTECH_UUID_BASE + 0x000A,
{
    stealthtech_uuid(0x000A)
}

// ============================================================================
// Firmware versions
// ============================================================================

/// A firmware component version (major, minor).
///
/// The device reports three components: MCU (fw_type=1), DSP (fw_type=2) and
/// EQ (fw_type=3), each with its own major.minor version.
#[derive(Clone, Copy, Debug, PartialEq, Eq, Structural)]
pub struct FirmwareComponentVersion {
    pub major: u8,
    pub minor: u8,
}

/// `a` is at least as new as `b`: (major, minor) compared lexicographically.
pub open spec fn version_at_least(a: FirmwareComponentVersion, b: FirmwareComponentVersion) -> bool {
    a.major > b.major || (a.major == b.major && a.minor >= b.minor)
}

/// The text form `v<major>.<minor>`.
pub open spec fn version_text(v: FirmwareComponentVersion) -> Seq<char> {
    seq!['v'] + dec_digits(v.major as nat) + seq!['.'] + dec_digits(v.minor as nat)
}

impl FirmwareComponentVersion {
    pub fn new(major: u8, minor: u8) -> (r: Self)
        ensures
            r.major == major,
            r.minor == minor,
    {
        FirmwareComponentVersion { major, minor }
    }

    /// Returns true if this version is at least as new as `other`.
    pub fn is_at_least(&self, other: &Self) -> (r: bool)
        ensures
            r == version_at_least(*self, *other),
    {
        self.major > other.major || (self.major == other.major && self.minor >= other.minor)
    }

    /// The text form `v<major>.<minor>`, e.g. `v1.71`.
    pub fn to_string(&self) -> (r: String)
        ensures
            r@ == version_text(*self),
    {
        let mut s = String::new();
        push_char(&mut s, 'v');
        push_decimal(&mut s, self.major as u64);
        push_char(&mut s, '.');
        push_decimal(&mut s, self.minor as u64);
        s
    }
}

/// Latest known MCU version (v1.71, from the V-1.71 package).
pub fn latest_mcu_version() -> (r: FirmwareComponentVersion)
    ensures
        r == (FirmwareComponentVersion { major: 1, minor: 71 }),
{
    FirmwareComponentVersion::new(1, 71)
}

/// Latest known DSP version (v1.68).
pub fn latest_dsp_version() -> (r: FirmwareComponentVersion)
    ensures
        r == (FirmwareComponentVersion { major: 1, minor: 68 }),
{
    FirmwareComponentVersion::new(1, 68)
}

/// Latest known EQ version (v1.23).
pub fn latest_eq_version() -> (r: FirmwareComponentVersion)
    ensures
        r == (FirmwareComponentVersion { major: 1, minor: 23 }),
{
    FirmwareComponentVersion::new(1, 23)
}

// ============================================================================
// Known model numbers
// ============================================================================

/// StealthTech hardware model numbers from FCC filings and setup guides.
pub const MODEL_CENTER_CHANNEL: &'static str = "EE4034";
pub const MODEL_CENTER_CHANNEL_R2: &'static str = "GA4364";
pub const MODEL_SUBWOOFER: &'static str = "EE0362";
pub const MODEL_SOUND_CHARGE_SIDE_L: &'static str = "GE2913";
pub const MODEL_SOUND_CHARGE_SIDE_R: &'static str = "GE0177";
pub const MODEL_SATELLITE_SIDE: &'static str = "GE7065";
pub const MODEL_REMOTE: &'static str = "EE3531";
pub const MODEL_CHARGING_PAD: &'static str = "QST008A";

} // verus!
