//! Properties of the protocol that hold across its functions.

use vstd::prelude::*;

use crate::characteristics::{uuid_byte, uuid_bytes, uuid_hyphenated, STEALTHTECH_UUID_BASE};
use crate::gatt::standard_name;
use crate::text::{ascii_lower_char, ascii_lowercase, hex_byte, hex_char, hex_lower, is_ascii_text, lemma_hex_lower_len};
use crate::command_json::{
    config_shape_by_name, config_shape_name, input_by_name, input_name, sound_mode_by_name,
    sound_mode_name,
};
use crate::commands::{
    bool_byte, command_char_suffix, command_payload, config_shape_byte, config_shape_from_byte,
    decode_view, input_byte, input_from_byte, is_version_notification, sound_mode_from_read_byte,
    sound_mode_write_byte, status_response, validate_result, Command, ConfigShape, Input,
    ResponseView, SoundMode,
};
use crate::response_code;
use crate::state::{apply_view, record_view, update_available, DeviceStateView};

verus! {

/// Input source bytes are the same for reading and writing: a byte decodes to
/// an input exactly when that input encodes to the byte.
pub proof fn input_byte_roundtrip(b: u8, i: Input)
    ensures
        input_from_byte(b) == Some(i) <==> input_byte(i) == b,
        input_from_byte(input_byte(i)) == Some(i),
{
}

/// Configuration shapes: a byte decodes to a shape exactly when that shape
/// encodes to the byte.
pub proof fn config_shape_byte_roundtrip(b: u8, c: ConfigShape)
    ensures
        config_shape_from_byte(b) == Some(c) <==> config_shape_byte(c) == b,
        config_shape_from_byte(config_shape_byte(c)) == Some(c),
{
}

/// Sound mode write values and read values differ: no write value is a read
/// value, and no read value decodes to the write-only Manual preset.
pub proof fn sound_mode_write_and_read_values_differ(m: SoundMode, b: u8)
    ensures
        sound_mode_from_read_byte(sound_mode_write_byte(m)) is None,
        sound_mode_from_read_byte(b) != Some(SoundMode::Manual),
        5 <= sound_mode_write_byte(m) <= 9,
{
}

/// Every valid command encodes to a packet that starts with 0xAA and is
/// 4 bytes (Format B and the version request) or 5 bytes (Format A) long,
/// written to one of the StealthTech characteristics 0002..=0008.
pub proof fn encoded_packet_shape(c: Command)
    ensures
        command_payload(c)[0] == 0xAA,
        command_payload(c).len() == 4 || command_payload(c).len() == 5,
        command_payload(c).len() == 5 ==> command_payload(c)[3] == 0x01,
        0x0002 <= command_char_suffix(c) <= 0x0008,
{
}

/// Exactly the six ranged settings can be rejected, and each is rejected
/// exactly when its value exceeds its maximum.
pub proof fn validation_rejects_only_out_of_range(c: Command)
    ensures
        validate_result(c) is Err <==> (match c {
            Command::SetVolume(v) => v > 36,
            Command::SetBass(v) => v > 20,
            Command::SetTreble(v) => v > 20,
            Command::SetCenterVolume(v) => v > 30,
            Command::SetRearChannelVolume(v) => v > 30,
            Command::SetBalance(v) => v > 100,
            _ => false,
        }),
{
}

/// All StealthTech UUIDs share the "excelpoint.com" base: their first 14
/// bytes spell it in ASCII and the last two bytes are the suffix.
pub proof fn stealthtech_uuids_share_base(suffix: u16)
    ensures
        uuid_bytes((STEALTHTECH_UUID_BASE + suffix) as u128).subrange(0, 14) == seq![
            0x65u8, 0x78u8, 0x63u8, 0x65u8, 0x6cu8, 0x70u8, 0x6fu8, 0x69u8, 0x6eu8, 0x74u8,
            0x2eu8, 0x63u8, 0x6fu8, 0x6du8,
        ],
        uuid_byte((STEALTHTECH_UUID_BASE + suffix) as u128, 14) == (suffix >> 8u16) as u8,
        uuid_byte((STEALTHTECH_UUID_BASE + suffix) as u128, 15) == (suffix & 0xffu16) as u8,
{
    let v: u128 = (STEALTHTECH_UUID_BASE + suffix) as u128;
    assert(v == 0x6578_6365_6c70_6f69_6e74_2e63_6f6d_0000u128 + (suffix as u128));
    assert(((v >> 120u128) & 0xff) as u8 == 0x65u8) by (bit_vector)
        requires v == 0x6578_6365_6c70_6f69_6e74_2e63_6f6d_0000u128 + (suffix as u128);
    assert(((v >> 112u128) & 0xff) as u8 == 0x78u8) by (bit_vector)
        requires v == 0x6578_6365_6c70_6f69_6e74_2e63_6f6d_0000u128 + (suffix as u128);
    assert(((v >> 104u128) & 0xff) as u8 == 0x63u8) by (bit_vector)
        requires v == 0x6578_6365_6c70_6f69_6e74_2e63_6f6d_0000u128 + (suffix as u128);
    assert(((v >> 96u128) & 0xff) as u8 == 0x65u8) by (bit_vector)
        requires v == 0x6578_6365_6c70_6f69_6e74_2e63_6f6d_0000u128 + (suffix as u128);
    assert(((v >> 88u128) & 0xff) as u8 == 0x6cu8) by (bit_vector)
        requires v == 0x6578_6365_6c70_6f69_6e74_2e63_6f6d_0000u128 + (suffix as u128);
    assert(((v >> 80u128) & 0xff) as u8 == 0x70u8) by (bit_vector)
        requires v == 0x6578_6365_6c70_6f69_6e74_2e63_6f6d_0000u128 + (suffix as u128);
    assert(((v >> 72u128) & 0xff) as u8 == 0x6fu8) by (bit_vector)
        requires v == 0x6578_6365_6c70_6f69_6e74_2e63_6f6d_0000u128 + (suffix as u128);
    assert(((v >> 64u128) & 0xff) as u8 == 0x69u8) by (bit_vector)
        requires v == 0x6578_6365_6c70_6f69_6e74_2e63_6f6d_0000u128 + (suffix as u128);
    assert(((v >> 56u128) & 0xff) as u8 == 0x6eu8) by (bit_vector)
        requires v == 0x6578_6365_6c70_6f69_6e74_2e63_6f6d_0000u128 + (suffix as u128);
    assert(((v >> 48u128) & 0xff) as u8 == 0x74u8) by (bit_vector)
        requires v == 0x6578_6365_6c70_6f69_6e74_2e63_6f6d_0000u128 + (suffix as u128);
    assert(((v >> 40u128) & 0xff) as u8 == 0x2eu8) by (bit_vector)
        requires v == 0x6578_6365_6c70_6f69_6e74_2e63_6f6d_0000u128 + (suffix as u128);
    assert(((v >> 32u128) & 0xff) as u8 == 0x63u8) by (bit_vector)
        requires v == 0x6578_6365_6c70_6f69_6e74_2e63_6f6d_0000u128 + (suffix as u128);
    assert(((v >> 24u128) & 0xff) as u8 == 0x6fu8) by (bit_vector)
        requires v == 0x6578_6365_6c70_6f69_6e74_2e63_6f6d_0000u128 + (suffix as u128);
    assert(((v >> 16u128) & 0xff) as u8 == 0x6du8) by (bit_vector)
        requires v == 0x6578_6365_6c70_6f69_6e74_2e63_6f6d_0000u128 + (suffix as u128);
    assert(((v >> 8u128) & 0xff) as u8 == (suffix >> 8u16) as u8) by (bit_vector)
        requires v == 0x6578_6365_6c70_6f69_6e74_2e63_6f6d_0000u128 + (suffix as u128);
    assert(((v >> 0u128) & 0xff) as u8 == (suffix & 0xffu16) as u8) by (bit_vector)
        requires v == 0x6578_6365_6c70_6f69_6e74_2e63_6f6d_0000u128 + (suffix as u128);
    assert(uuid_bytes(v).subrange(0, 14) =~= seq![
        0x65u8, 0x78u8, 0x63u8, 0x65u8, 0x6cu8, 0x70u8, 0x6fu8, 0x69u8, 0x6eu8, 0x74u8,
        0x2eu8, 0x63u8, 0x6fu8, 0x6du8,
    ]);
}

/// For every status notification (at least 4 bytes, not a version
/// notification), the decoded response is determined by the last two bytes
/// alone: it is the response of `<response_code> <value>` when that pair
/// has one, and the unknown response carrying the whole data otherwise.
pub proof fn status_decoded_from_last_two_bytes(u: crate::characteristics::Uuid, d: Seq<u8>)
    requires
        d.len() >= 4,
        !is_version_notification(d),
    ensures
        decode_view(u, d) == (match status_response(d[d.len() - 2], d[d.len() - 1]) {
            Some(r) => r,
            None => ResponseView::Unknown { characteristic_uuid: u, data: d },
        }),
{
}

/// Power is reported inverted: value 0 means on, any other value off.
pub proof fn power_is_inverted(value: u8)
    ensures
        status_response(response_code::POWER, value) == Some(ResponseView::Power(value == 0)),
        status_response(response_code::POWER, 0) == Some(ResponseView::Power(true)),
        status_response(response_code::POWER, 1) == Some(ResponseView::Power(false)),
{
}

/// The status notification with which the device reports the setting a
/// command makes, as its `(response_code, value)` pair. Surround, media and
/// request commands, and the write-only Manual preset, have none.
pub open spec fn reported_setting(c: Command) -> Option<(u8, u8)> {
    match c {
        Command::SetVolume(v) => Some((response_code::VOLUME, v)),
        Command::SetBass(v) => Some((response_code::BASS, v)),
        Command::SetTreble(v) => Some((response_code::TREBLE, v)),
        Command::SetCenterVolume(v) => Some((response_code::CENTER_VOLUME, v)),
        Command::SetRearChannelVolume(v) => Some((response_code::REAR_VOLUME, v)),
        Command::SetMute(on) => Some((response_code::MUTE, bool_byte(on))),
        Command::SetQuietCouch(on) => Some((response_code::QUIET_MODE, bool_byte(on))),
        Command::SetSoundMode(m) => match m {
            SoundMode::Movies => Some((response_code::PRESET, 0u8)),
            SoundMode::Music => Some((response_code::PRESET, 1u8)),
            SoundMode::Tv => Some((response_code::PRESET, 2u8)),
            SoundMode::News => Some((response_code::PRESET, 3u8)),
            SoundMode::Manual => None,
        },
        Command::SetBalance(v) => Some((response_code::BALANCE, v)),
        Command::SetPower(on) => Some((response_code::POWER, if on { 0u8 } else { 1u8 })),
        Command::SetInput(i) => Some((response_code::SOURCE, input_byte(i))),
        Command::SetFabric(id) => Some((response_code::COVERING, id)),
        Command::SetConfigShape(c) => Some((response_code::LAYOUT, config_shape_byte(c))),
        Command::SetArmType(v) => Some((response_code::ARM_TYPE, v)),
        _ => None,
    }
}

/// A typical status notification `CC 05 AA 00 <code> <value>`.
pub open spec fn status_notification(code: u8, value: u8) -> Seq<u8> {
    seq![0xCCu8, 0x05u8, 0xAAu8, 0x00u8, code, value]
}

/// Sending a command and receiving the device's report of that setting
/// agree: applying the decoded report to any state gives the same state as
/// recording the sent command.
pub proof fn report_of_sent_command_agrees(
    s: DeviceStateView,
    c: Command,
    u: crate::characteristics::Uuid,
)
    requires
        reported_setting(c) is Some,
    ensures
        ({
            let (code, value) = reported_setting(c)->0;
            apply_view(s, decode_view(u, status_notification(code, value))) == record_view(s, c)
        }),
{
    let (code, value) = reported_setting(c)->0;
    let d = status_notification(code, value);
    assert(d.len() == 6);
    assert(d[4] == code && d[5] == value);
    assert(!is_version_notification(d));
}

/// An unknown notification leaves the state unchanged.
pub proof fn unknown_response_is_ignored(
    s: DeviceStateView,
    u: crate::characteristics::Uuid,
    d: Seq<u8>,
)
    ensures
        apply_view(s, ResponseView::Unknown { characteristic_uuid: u, data: d }) == s,
{
}

/// Applying the same notification twice has the effect of applying it once.
pub proof fn apply_response_is_idempotent(s: DeviceStateView, r: ResponseView)
    ensures
        apply_view(apply_view(s, r), r) == apply_view(s, r),
{
}

/// Recording the same sent command twice has the effect of recording it once.
pub proof fn record_command_is_idempotent(s: DeviceStateView, c: Command)
    ensures
        record_view(record_view(s, c), c) == record_view(s, c),
{
}

/// An update is reported as available exactly when some known component is
/// older than its latest version; nothing is reported before any version is
/// known, and a state at the latest versions needs no update.
pub proof fn update_available_iff_some_component_outdated(s: DeviceStateView)
    ensures
        update_available(s) is None <==> (s.mcu_version is None && s.dsp_version is None
            && s.eq_version is None),
        (s.mcu_version == Some(crate::characteristics::FirmwareComponentVersion {
            major: 1,
            minor: 71,
        }) && s.dsp_version == Some(crate::characteristics::FirmwareComponentVersion {
            major: 1,
            minor: 68,
        }) && s.eq_version == Some(crate::characteristics::FirmwareComponentVersion {
            major: 1,
            minor: 23,
        })) ==> update_available(s) == Some(false),
{
}

/// The variant names that JSON commands use read back to the same variant.
pub proof fn variant_names_read_back(i: Input, m: SoundMode, c: ConfigShape)
    ensures
        input_by_name(input_name(i)) == Some(i),
        sound_mode_by_name(sound_mode_name(m)) == Some(m),
        config_shape_by_name(config_shape_name(c)) == Some(c),
{
    reveal_strlit("HdmiArc");
    assert("HdmiArc"@.len() == 7 && "HdmiArc"@[0] == 'H');
    reveal_strlit("Bluetooth");
    assert("Bluetooth"@.len() == 9 && "Bluetooth"@[0] == 'B');
    reveal_strlit("Aux");
    assert("Aux"@.len() == 3 && "Aux"@[0] == 'A');
    reveal_strlit("Optical");
    assert("Optical"@.len() == 7 && "Optical"@[0] == 'O');
    reveal_strlit("Movies");
    assert("Movies"@.len() == 6 && "Movies"@[0] == 'M');
    reveal_strlit("Music");
    assert("Music"@.len() == 5 && "Music"@[0] == 'M');
    reveal_strlit("Tv");
    assert("Tv"@.len() == 2 && "Tv"@[0] == 'T');
    reveal_strlit("News");
    assert("News"@.len() == 4 && "News"@[0] == 'N');
    reveal_strlit("Manual");
    assert("Manual"@.len() == 6 && "Manual"@[0] == 'M' && "Manual"@[1] == 'a');
    assert("Movies"@[1] == 'o');
    reveal_strlit("Straight");
    assert("Straight"@.len() == 8 && "Straight"@[0] == 'S');
    reveal_strlit("LShape");
    assert("LShape"@.len() == 6 && "LShape"@[0] == 'L');
    reveal_strlit("UShape");
    assert("UShape"@.len() == 6 && "UShape"@[0] == 'U');
    reveal_strlit("Pit");
    assert("Pit"@.len() == 3 && "Pit"@[0] == 'P');
}

/// A version notification `.. .. AA 01 03 <type> <major> <minor> ..` decodes
/// to that firmware version, and applying it records the version of the
/// component the type names (1 = MCU, 2 = DSP, 3 = EQ).
pub proof fn version_notification_recorded(s: DeviceStateView, u: crate::characteristics::Uuid, d: Seq<u8>)
    requires
        d.len() >= 8,
        d[2] == 0xAA && d[3] == 0x01 && d[4] == 0x03,
    ensures
        decode_view(u, d) == (ResponseView::FirmwareVersion { fw_type: d[5], major: d[6], minor: d[7] }),
        ({
            let v = crate::characteristics::FirmwareComponentVersion { major: d[6], minor: d[7] };
            let t = apply_view(s, decode_view(u, d));
            &&& d[5] == 1 ==> t.mcu_version == Some(v)
            &&& d[5] == 2 ==> t.dsp_version == Some(v)
            &&& d[5] == 3 ==> t.eq_version == Some(v)
        }),
{
}

/// Standard characteristic names are looked up ignoring the case of ASCII
/// letters: lower-casing an ASCII UUID text before the lookup changes
/// nothing, and two texts that differ only in letter case get the same name.
pub proof fn standard_name_lookup_ignores_case(s: Seq<char>, t: Seq<char>)
    requires
        is_ascii_text(s),
    ensures
        is_ascii_text(ascii_lowercase(s)),
        ascii_lowercase(ascii_lowercase(s)) == ascii_lowercase(s),
        standard_name(ascii_lowercase(ascii_lowercase(s))) == standard_name(ascii_lowercase(s)),
        ascii_lowercase(s) == ascii_lowercase(t) ==> standard_name(ascii_lowercase(s))
            == standard_name(ascii_lowercase(t)),
{
    assert forall|i: int| 0 <= i < ascii_lowercase(s).len() implies (#[trigger] ascii_lowercase(s)[i]
        as int) < 128 by {
        assert(ascii_lowercase(s)[i] == ascii_lower_char(s[i]));
        assert((s[i] as int) < 128);
    }
    assert(ascii_lowercase(ascii_lowercase(s)) =~= ascii_lowercase(s));
}

proof fn lemma_hex_lower_digits(bs: Seq<u8>)
    ensures
        forall|i: int|
            0 <= i < hex_lower(bs).len() ==> {
                let c = #[trigger] hex_lower(bs)[i];
                ('0' <= c && c <= '9') || ('a' <= c && c <= 'f')
            },
        bs.len() > 0 ==> hex_lower(bs)[0] == hex_char(bs[0] as int / 16),
    decreases bs.len(),
{
    lemma_hex_lower_len(bs);
    if bs.len() > 0 {
        let pre = bs.drop_last();
        lemma_hex_lower_digits(pre);
        lemma_hex_lower_len(pre);
        let h = hex_lower(bs);
        assert(h == hex_lower(pre) + hex_byte(bs.last()));
        assert forall|i: int| 0 <= i < h.len() implies {
            let c = #[trigger] h[i];
            ('0' <= c && c <= '9') || ('a' <= c && c <= 'f')
        } by {
            if i >= hex_lower(pre).len() {
                assert(h[i] == hex_byte(bs.last())[i - hex_lower(pre).len()]);
            } else {
                assert(h[i] == hex_lower(pre)[i]);
            }
        }
        if pre.len() == 0 {
            assert(hex_lower(pre).len() == 0);
            assert(h[0] == hex_byte(bs.last())[0]);
        } else {
            assert(h[0] == hex_lower(pre)[0]);
        }
    }
}

/// The text of every StealthTech UUID is lowercase ASCII and names no
/// standard characteristic or service.
pub proof fn stealthtech_uuids_are_not_standard(suffix: u16)
    ensures
        is_ascii_text(uuid_hyphenated((STEALTHTECH_UUID_BASE + suffix) as u128)),
        ascii_lowercase(uuid_hyphenated((STEALTHTECH_UUID_BASE + suffix) as u128)) == uuid_hyphenated(
            (STEALTHTECH_UUID_BASE + suffix) as u128,
        ),
        standard_name(uuid_hyphenated((STEALTHTECH_UUID_BASE + suffix) as u128)) is None,
{
    let v = (STEALTHTECH_UUID_BASE + suffix) as u128;
    stealthtech_uuids_share_base(suffix);
    let bs = uuid_bytes(v);
    let h = hex_lower(bs);
    lemma_hex_lower_digits(bs);
    lemma_hex_lower_len(bs);
    let u = uuid_hyphenated(v);
    assert(bs.subrange(0, 14)[0] == 0x65u8);
    assert(bs[0] == 0x65u8);
    assert(u[0] == h[0]);
    assert(u[0] == '6');
    assert forall|i: int| 0 <= i < u.len() implies (#[trigger] u[i] as int) < 128 && ascii_lower_char(
        u[i],
    ) == u[i] by {
        if i < 8 {
            assert(u[i] == h[i]);
        } else if i == 8 || i == 13 || i == 18 || i == 23 {
            assert(u[i] == '-');
        } else if i < 13 {
            assert(u[i] == h[i - 1]);
        } else if i < 18 {
            assert(u[i] == h[i - 2]);
        } else if i < 23 {
            assert(u[i] == h[i - 3]);
        } else {
            assert(u[i] == h[i - 4]);
        }
    }
    assert(ascii_lowercase(u) =~= u);
    reveal_strlit("00002a00-0000-1000-8000-00805f9b34fb");
    assert("00002a00-0000-1000-8000-00805f9b34fb"@[0] == '0');
    reveal_strlit("00002a01-0000-1000-8000-00805f9b34fb");
    assert("00002a01-0000-1000-8000-00805f9b34fb"@[0] == '0');
    reveal_strlit("00002a04-0000-1000-8000-00805f9b34fb");
    assert("00002a04-0000-1000-8000-00805f9b34fb"@[0] == '0');
    reveal_strlit("00002a24-0000-1000-8000-00805f9b34fb");
    assert("00002a24-0000-1000-8000-00805f9b34fb"@[0] == '0');
    reveal_strlit("00002a25-0000-1000-8000-00805f9b34fb");
    assert("00002a25-0000-1000-8000-00805f9b34fb"@[0] == '0');
    reveal_strlit("00002a26-0000-1000-8000-00805f9b34fb");
    assert("00002a26-0000-1000-8000-00805f9b34fb"@[0] == '0');
    reveal_strlit("00002a27-0000-1000-8000-00805f9b34fb");
    assert("00002a27-0000-1000-8000-00805f9b34fb"@[0] == '0');
    reveal_strlit("00002a28-0000-1000-8000-00805f9b34fb");
    assert("00002a28-0000-1000-8000-00805f9b34fb"@[0] == '0');
    reveal_strlit("00002a29-0000-1000-8000-00805f9b34fb");
    assert("00002a29-0000-1000-8000-00805f9b34fb"@[0] == '0');
    reveal_strlit("0000180a-0000-1000-8000-00805f9b34fb");
    assert("0000180a-0000-1000-8000-00805f9b34fb"@[0] == '0');
    reveal_strlit("00001800-0000-1000-8000-00805f9b34fb");
    assert("00001800-0000-1000-8000-00805f9b34fb"@[0] == '0');
    reveal_strlit("00001801-0000-1000-8000-00805f9b34fb");
    assert("00001801-0000-1000-8000-00805f9b34fb"@[0] == '0');
}

} // verus!
