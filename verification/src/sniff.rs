//! Text of the protocol-analysis tools: how captured notifications and read
//! values are shown, and the sniffer's subcommands.

use vstd::prelude::*;

use crate::characteristics::{uuid_hyphenated, uuid_parse_result, Uuid};
use crate::commands::{response_text, Response, ResponseView};
use crate::gatt::{ascii_chars, find_uuid, is_printable_byte, printable_text};
use crate::scanner::{is_stealthtech_name, is_stealthtech_name_spec};
use crate::text::{
    dec_digits, hex_decode, hex_decoded, hex_encode, hex_lower, hex_rejection, int_digits,
    is_ascii_text, is_hex_text, HexError, push_char, push_decimal, push_signed_decimal,
    push_str, push_string,
};

verus! {

/// The sniffer's subcommands.
#[derive(Clone, Debug)]
pub enum SniffCommands {
    /// Scan for all nearby BLE devices (not just StealthTech).
    ScanAll,
    /// Discover and dump the complete GATT profile of a StealthTech device.
    Discover { json: Option<String>, address: Option<String> },
    /// Monitor all BLE notifications from a StealthTech device.
    Monitor { address: Option<String>, log: Option<String> },
    /// Read all readable characteristics and display their values.
    ReadAll { address: Option<String> },
    /// Write a raw hex value to a specific characteristic (advanced).
    WriteRaw { address: Option<String>, uuid: String, data: String },
}

/// How a byte is shown in the ASCII column: itself when it is an ASCII
/// graphic character or a space, '.' otherwise.
pub open spec fn preview_char(b: u8) -> char {
    if (0x21 <= b && b <= 0x7E) || b == 0x20 {
        b as char
    } else {
        '.'
    }
}

pub open spec fn ascii_preview_spec(data: Seq<u8>) -> Seq<char> {
    data.map_values(|b: u8| preview_char(b))
}

/// The ASCII column of a captured value.
pub fn ascii_preview(data: &[u8]) -> (r: String)
    ensures
        r@ == ascii_preview_spec(data@),
{
    let mut s = String::new();
    let mut i: usize = 0;
    while i < data.len()
        invariant
            i <= data@.len(),
            s@ == ascii_preview_spec(data@.take(i as int)),
        decreases data@.len() - i,
    {
        let b = data[i];
        let c = if (0x21 <= b && b <= 0x7E) || b == 0x20 {
            b as char
        } else {
            '.'
        };
        push_char(&mut s, c);
        proof {
            assert(ascii_preview_spec(data@.take(i + 1)) =~= ascii_preview_spec(
                data@.take(i as int),
            ).push(c));
        }
        i = i + 1;
    }
    proof {
        assert(data@.take(data@.len() as int) =~= data@);
    }
    s
}

/// The first eight characters of a UUID's text (its first four bytes in
/// hexadecimal), as the read-all table shows the service.
pub fn service_uuid_prefix(uuid: &Uuid) -> (r: String)
    ensures
        r@ == uuid_hyphenated(uuid.value).take(8),
{
    let full = uuid.to_string();
    proof {
        crate::characteristics::lemma_uuid_text_len(uuid.value);
    }
    String::from_str(full.as_str().substring_char(0, 8))
}

/// The monitor's line for a decoded notification: the response text, or the
/// UUID, length and hexadecimal data of an unknown one.
pub open spec fn notification_line_spec(r: ResponseView) -> Seq<char> {
    match r {
        ResponseView::Unknown { characteristic_uuid, data } => "[NOTIFY] UUID: "@ + uuid_hyphenated(
            characteristic_uuid.value,
        ) + " | Len: "@ + dec_digits(data.len()) + " | Hex: "@ + hex_lower(data),
        other => "[NOTIFY] "@ + response_text(other),
    }
}

/// The line the notification monitor prints for a decoded notification.
pub fn notification_line(response: &Response) -> (r: String)
    ensures
        r@ == notification_line_spec(response@),
{
    let mut s = String::new();
    match response {
        Response::Unknown { characteristic_uuid, data } => {
            push_str(&mut s, "[NOTIFY] UUID: ");
            let u = characteristic_uuid.to_string();
            push_string(&mut s, &u);
            push_str(&mut s, " | Len: ");
            push_decimal(&mut s, data.len() as u64);
            push_str(&mut s, " | Hex: ");
            let h = hex_encode(data.as_slice());
            push_string(&mut s, &h);
        },
        _ => {
            push_str(&mut s, "[NOTIFY] ");
            let t = response.to_string();
            push_string(&mut s, &t);
        },
    }
    assert(s@ =~= notification_line_spec(response@));
    s
}

/// `m` spaces.
pub open spec fn spaces(m: nat) -> Seq<char>
    decreases m,
{
    if m == 0 {
        Seq::empty()
    } else {
        spaces((m - 1) as nat).push(' ')
    }
}

/// `s` padded on the right with spaces to `width` characters (`{:<width}`);
/// longer texts are kept whole.
pub open spec fn padded(s: Seq<char>, width: nat) -> Seq<char> {
    if s.len() >= width {
        s
    } else {
        s + spaces((width - s.len()) as nat)
    }
}

/// Appends `t` padded to `width` characters.
pub fn push_padded(s: &mut String, t: &str, width: usize)
    ensures
        final(s)@ == old(s)@ + padded(t@, width as nat),
{
    push_str(s, t);
    let n = t.unicode_len();
    let mut k = n;
    proof {
        assert(s@ =~= old(s)@ + t@ + spaces(0));
    }
    while k < width
        invariant
            n == t@.len(),
            n <= k,
            k <= width || k == n,
            s@ == old(s)@ + t@ + spaces((k - n) as nat),
        decreases width - k,
    {
        push_char(s, ' ');
        proof {
            assert(spaces((k + 1 - n) as nat) == spaces((k - n) as nat).push(' '));
            assert(s@ =~= old(s)@ + t@ + spaces((k + 1 - n) as nat));
        }
        k = k + 1;
    }
    proof {
        if n >= width {
            assert(s@ =~= old(s)@ + padded(t@, width as nat));
        } else {
            assert(s@ =~= old(s)@ + padded(t@, width as nat));
        }
    }
}

/// One row of the notification monitor:
/// `{time:<12} {uuid:<40} {len:<6} {hex} │ {ascii}`.
pub fn monitor_row(time: &str, uuid: &str, data: &[u8]) -> (r: String)
    ensures
        r@ == padded(time@, 12) + " "@ + padded(uuid@, 40) + " "@ + padded(
            dec_digits(data@.len()),
            6,
        ) + " "@ + hex_lower(data@) + " │ "@ + ascii_preview_spec(data@),
{
    let mut s = String::new();
    push_padded(&mut s, time, 12);
    push_str(&mut s, " ");
    push_padded(&mut s, uuid, 40);
    push_str(&mut s, " ");
    let mut len_text = String::new();
    push_decimal(&mut len_text, data.len() as u64);
    push_padded(&mut s, len_text.as_str(), 6);
    push_str(&mut s, " ");
    let h = hex_encode(data);
    push_string(&mut s, &h);
    push_str(&mut s, " │ ");
    let a = ascii_preview(data);
    push_string(&mut s, &a);
    assert(s@ =~= padded(time@, 12) + " "@ + padded(uuid@, 40) + " "@ + padded(
        dec_digits(data@.len()),
        6,
    ) + " "@ + hex_lower(data@) + " │ "@ + ascii_preview_spec(data@));
    s
}

/// One row of the monitor's TSV log: `time, uuid, length, hex, ascii`
/// separated by tabs.
pub fn monitor_log_row(time: &str, uuid: &str, data: &[u8]) -> (r: String)
    ensures
        r@ == time@ + "\t"@ + uuid@ + "\t"@ + dec_digits(data@.len()) + "\t"@ + hex_lower(data@)
            + "\t"@ + ascii_preview_spec(data@),
{
    let mut s = String::from_str(time);
    push_str(&mut s, "\t");
    push_str(&mut s, uuid);
    push_str(&mut s, "\t");
    push_decimal(&mut s, data.len() as u64);
    push_str(&mut s, "\t");
    let h = hex_encode(data);
    push_string(&mut s, &h);
    push_str(&mut s, "\t");
    let a = ascii_preview(data);
    push_string(&mut s, &a);
    assert(s@ =~= time@ + "\t"@ + uuid@ + "\t"@ + dec_digits(data@.len()) + "\t"@ + hex_lower(
        data@,
    ) + "\t"@ + ascii_preview_spec(data@));
    s
}

/// The signal strength column: `<rssi> dBm`, or `N/A` when unknown.
pub open spec fn rssi_text(rssi: Option<i16>) -> Seq<char> {
    match rssi {
        Some(r) => int_digits(r as int) + " dBm"@,
        None => "N/A"@,
    }
}

/// The name shown for a device: its advertised name, or `(unnamed)`.
pub open spec fn shown_name(name: Option<Seq<char>>) -> Seq<char> {
    match name {
        Some(n) => n,
        None => "(unnamed)"@,
    }
}

/// One row of the all-devices scan table:
/// `{name:<30} {address:<20} {rssi:<8}` and a marker for names that look
/// like a StealthTech device.
pub open spec fn scan_all_row_spec(name: Option<Seq<char>>, address: Seq<char>, rssi: Option<i16>) -> Seq<char> {
    let n = shown_name(name);
    let row = padded(n, 30) + " "@ + padded(address, 20) + " "@ + padded(rssi_text(rssi), 8);
    if is_stealthtech_name_spec(n) {
        row + " <- StealthTech?"@
    } else {
        row
    }
}

/// The row the all-devices scan prints for one device.
pub fn scan_all_row(name: Option<&str>, address: &str, rssi: Option<i16>) -> (r: String)
    ensures
        r@ == scan_all_row_spec(
            match name {
                Some(n) => Some(n@),
                None => None,
            },
            address@,
            rssi,
        ),
{
    let n = match name {
        Some(n) => n,
        None => "(unnamed)",
    };
    let mut rssi_col = String::new();
    match rssi {
        Some(v) => {
            push_signed_decimal(&mut rssi_col, v as i32);
            push_str(&mut rssi_col, " dBm");
        },
        None => push_str(&mut rssi_col, "N/A"),
    }
    let mut s = String::new();
    push_padded(&mut s, n, 30);
    push_str(&mut s, " ");
    push_padded(&mut s, address, 20);
    push_str(&mut s, " ");
    push_padded(&mut s, rssi_col.as_str(), 8);
    let marked = is_stealthtech_name(Some(n));
    if marked {
        push_str(&mut s, " <- StealthTech?");
    }
    proof {
        let ghost nm = match name {
            Some(x) => Some(x@),
            None => None,
        };
        assert(n@ == shown_name(nm));
        assert(rssi_col@ =~= rssi_text(rssi));
        if marked {
            assert(s@ =~= scan_all_row_spec(nm, address@, rssi));
        } else {
            assert(s@ =~= scan_all_row_spec(nm, address@, rssi));
        }
    }
    s
}

/// How the read-all table shows a value: its hexadecimal form, followed by
/// the text in quotes when every byte is printable ASCII.
pub open spec fn read_value_display(data: Seq<u8>) -> Seq<char> {
    if forall|i: int| 0 <= i < data.len() ==> is_printable_byte(#[trigger] data[i]) {
        hex_lower(data) + " (\""@ + ascii_chars(data) + "\")"@
    } else {
        hex_lower(data)
    }
}

/// The first columns of a read-all row: characteristic, service prefix and
/// length.
pub open spec fn read_row_head(uuid: Uuid, service: Uuid, len: nat) -> Seq<char> {
    padded(uuid_hyphenated(uuid.value), 40) + " "@ + padded(uuid_hyphenated(service.value).take(8), 16)
        + " "@ + padded(dec_digits(len), 6) + " "@
}

fn push_read_row_head(s: &mut String, uuid: &Uuid, service: &Uuid, len: usize)
    ensures
        final(s)@ == old(s)@ + read_row_head(*uuid, *service, len as nat),
{
    let u = uuid.to_string();
    let p = service_uuid_prefix(service);
    let mut l = String::new();
    push_decimal(&mut l, len as u64);
    push_padded(s, u.as_str(), 40);
    push_str(s, " ");
    push_padded(s, p.as_str(), 16);
    push_str(s, " ");
    push_padded(s, l.as_str(), 6);
    push_str(s, " ");
    assert(s@ =~= old(s)@ + read_row_head(*uuid, *service, len as nat));
}

/// The read-all row for a characteristic whose value was read:
/// `{uuid:<40} {service:<16} {len:<6} {value}`.
pub fn read_all_row(uuid: &Uuid, service: &Uuid, data: &[u8]) -> (r: String)
    ensures
        r@ == read_row_head(*uuid, *service, data@.len()) + read_value_display(data@),
{
    let mut s = String::new();
    push_read_row_head(&mut s, uuid, service, data.len());
    let h = hex_encode(data);
    push_string(&mut s, &h);
    match printable_text(data) {
        Some(t) => {
            push_str(&mut s, " (\"");
            push_string(&mut s, &t);
            push_str(&mut s, "\")");
        },
        None => {},
    }
    assert(s@ =~= read_row_head(*uuid, *service, data@.len()) + read_value_display(data@));
    s
}

/// The read-all row for a characteristic whose read failed.
pub fn read_error_row(uuid: &Uuid, service: &Uuid, error: &str) -> (r: String)
    ensures
        r@ == read_row_head(*uuid, *service, 0) + "ERROR: "@ + error@,
{
    let mut s = String::new();
    push_read_row_head(&mut s, uuid, service, 0);
    push_str(&mut s, "ERROR: ");
    push_str(&mut s, error);
    assert(s@ =~= read_row_head(*uuid, *service, 0) + "ERROR: "@ + error@);
    s
}

/// Why a raw write cannot be made.
#[derive(Clone, Debug)]
pub enum WriteRawError {
    /// The characteristic argument is not a UUID.
    InvalidUuid,
    /// The data argument is not hexadecimal.
    InvalidHex(HexError),
    /// No characteristic of the device has the UUID; the message names the
    /// UUID as it was given.
    NotFound(String),
}

/// Where and what a raw write sends: the UUID argument is parsed, then the
/// data argument decoded from hexadecimal, then the first characteristic of
/// the device with that UUID chosen. For data with non-ASCII characters,
/// which hex error is reported is not stated.
pub fn write_raw_target(uuid_text: &str, data_hex: &str, chars: &Vec<Uuid>) -> (r: Result<
    (usize, Vec<u8>),
    WriteRawError,
>)
    ensures
        match uuid_parse_result(uuid_text@) {
            None => r matches Err(WriteRawError::InvalidUuid),
            Some(u) => if !is_hex_text(data_hex@) {
                r matches Err(WriteRawError::InvalidHex(e)) && (is_ascii_text(data_hex@)
                    ==> hex_rejection(data_hex@, e))
            } else {
                match r {
                    Ok((i, d)) => i < chars@.len() && chars@[i as int].value == u && d@ == hex_decoded(
                        data_hex@,
                    ) && forall|j: int| 0 <= j < i ==> #[trigger] chars@[j].value != u,
                    Err(WriteRawError::NotFound(m)) => (forall|j: int|
                        0 <= j < chars@.len() ==> #[trigger] chars@[j].value != u) && m@
                        == "Characteristic "@ + uuid_text@ + " not found"@,
                    Err(_) => false,
                }
            },
        },
{
    let target = match Uuid::parse_str(uuid_text) {
        Some(u) => u,
        None => {
            return Err(WriteRawError::InvalidUuid);
        },
    };
    let data = match hex_decode(data_hex) {
        Ok(d) => d,
        Err(e) => {
            return Err(WriteRawError::InvalidHex(e));
        },
    };
    match find_uuid(chars, target) {
        Some(i) => Ok((i, data)),
        None => {
            let mut m = String::new();
            push_str(&mut m, "Characteristic ");
            push_str(&mut m, uuid_text);
            push_str(&mut m, " not found");
            proof {
                assert forall|j: int| 0 <= j < chars@.len() implies #[trigger] chars@[j].value
                    != target.value by {
                    assert(chars@[j] != target);
                }
            }
            Err(WriteRawError::NotFound(m))
        },
    }
}

} // verus!
