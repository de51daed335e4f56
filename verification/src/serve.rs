//! Decisions of the web server and the static export: which embedded file a
//! URL path names and with which content type, how the names the REST API
//! accepts map to protocol values, how a connection failure is reported, and
//! how the exported index page is derived from the served one.

use vstd::prelude::*;

use crate::characteristics::{uuid_hyphenated, Uuid};
use crate::commands::{decode_view, response_text, ConfigShape, Input, Response, SoundMode};
use crate::state::{apply_view, DeviceState};
use crate::text::{
    contains_seq, ends_with, occurs_at, push_char, push_str, push_string, replace_all, replaced,
    str_contains, str_eq, to_lowercase, unicode_lowercase, hex_encode, hex_lower, ascii_lowercase,
    is_ascii_text,
};

verus! {

// ============================================================================
// Static files
// ============================================================================

/// `s` without its leading '/' characters.
pub open spec fn trim_leading_slashes(s: Seq<char>) -> Seq<char>
    decreases s.len(),
{
    if s.len() > 0 && s[0] == '/' {
        trim_leading_slashes(s.skip(1))
    } else {
        s
    }
}

/// The embedded file a URL path names: the path without leading slashes,
/// `index.html` for the root, and `<dir>/index.html` for a directory path
/// ending in '/'.
pub open spec fn static_path_spec(uri_path: Seq<char>) -> Seq<char> {
    let raw = trim_leading_slashes(uri_path);
    if raw.len() == 0 {
        "index.html"@
    } else if raw.last() == '/' {
        raw + "index.html"@
    } else {
        raw
    }
}

/// Removes every leading '/' (`trim_start_matches('/')`).
pub fn trim_start_slashes(s: &str) -> (r: &str)
    ensures
        r@ == trim_leading_slashes(s@),
{
    let n = s.unicode_len();
    let mut i: usize = 0;
    proof {
        assert(s@.skip(0) =~= s@);
    }
    while i < n && s.get_char(i) == '/'
        invariant
            n == s@.len(),
            i <= n,
            trim_leading_slashes(s@) == trim_leading_slashes(s@.skip(i as int)),
        decreases n - i,
    {
        proof {
            assert(s@.skip(i as int).skip(1) =~= s@.skip(i + 1));
        }
        i = i + 1;
    }
    let r = s.substring_char(i, n);
    proof {
        assert(r@ =~= s@.skip(i as int));
    }
    r
}

/// The embedded file that a request path names.
pub fn static_file_path(uri_path: &str) -> (r: String)
    ensures
        r@ == static_path_spec(uri_path@),
{
    let raw = trim_start_slashes(uri_path);
    let n = raw.unicode_len();
    if n == 0 {
        String::from_str("index.html")
    } else if raw.get_char(n - 1) == '/' {
        let mut s = String::from_str(raw);
        push_str(&mut s, "index.html");
        s
    } else {
        String::from_str(raw)
    }
}

/// The MIME type text that `mime_guess` gives for a path (by its extension),
/// falling back to `application/octet-stream`.
pub uninterp spec fn guessed_mime(path: Seq<char>) -> Seq<char>;

/// Calls `mime_guess::from_path(path).first_or_octet_stream()` and formats
/// the MIME type. The guess depends on the path's extension alone; the
/// result is the named `guessed_mime` of the path.
#[verifier::external_body]
fn guess_mime(path: &str) -> (r: String)
    ensures
        r@ == guessed_mime(path@),
{
    mime_guess::from_path(path).first_or_octet_stream().to_string()
}

/// The content type of an embedded file: `application/wasm` for `.wasm`
/// files (which the MIME table may not know), the guessed type otherwise.
pub fn static_content_type(path: &str) -> (r: String)
    ensures
        r@ == (if ".wasm"@.len() <= path@.len() && occurs_at(
            path@,
            ".wasm"@,
            path@.len() - ".wasm"@.len(),
        ) {
            "application/wasm"@
        } else {
            guessed_mime(path@)
        }),
{
    if ends_with(path, ".wasm") {
        String::from_str("application/wasm")
    } else {
        guess_mime(path)
    }
}

/// Whether a missing file was an asset request (its path has a '.'), which
/// is answered "not found" instead of falling back to the single-page app.
pub fn is_asset_path(path: &str) -> (r: bool)
    ensures
        r == contains_seq(path@, "."@),
{
    str_contains(path, ".")
}

// ============================================================================
// REST API values
// ============================================================================

/// The input a REST request names (case-insensitive), by its accepted
/// spellings.
pub open spec fn input_by_request_name(lower: Seq<char>) -> Option<Input> {
    if lower == "hdmi"@ || lower == "hdmi_arc"@ || lower == "hdmiarc"@ || lower == "hdmi arc"@ {
        Some(Input::HdmiArc)
    } else if lower == "bluetooth"@ || lower == "bt"@ {
        Some(Input::Bluetooth)
    } else if lower == "aux"@ || lower == "auxiliary"@ {
        Some(Input::Aux)
    } else if lower == "optical"@ || lower == "toslink"@ {
        Some(Input::Optical)
    } else {
        None
    }
}

/// The sound mode a REST request names (case-insensitive).
pub open spec fn mode_by_request_name(lower: Seq<char>) -> Option<SoundMode> {
    if lower == "movies"@ || lower == "movie"@ {
        Some(SoundMode::Movies)
    } else if lower == "music"@ {
        Some(SoundMode::Music)
    } else if lower == "tv"@ || lower == "television"@ {
        Some(SoundMode::Tv)
    } else if lower == "news"@ || lower == "dialog"@ {
        Some(SoundMode::News)
    } else if lower == "manual"@ {
        Some(SoundMode::Manual)
    } else {
        None
    }
}

/// The configuration shape a REST request names (case-insensitive).
pub open spec fn shape_by_request_name(lower: Seq<char>) -> Option<ConfigShape> {
    if lower == "straight"@ {
        Some(ConfigShape::Straight)
    } else if lower == "lshape"@ || lower == "l-shape"@ {
        Some(ConfigShape::LShape)
    } else if lower == "ushape"@ || lower == "u-shape"@ {
        Some(ConfigShape::UShape)
    } else if lower == "pit"@ {
        Some(ConfigShape::Pit)
    } else {
        None
    }
}

/// The input a REST request names; otherwise the error message
/// `Unknown input: <lower-cased value>`.
pub fn input_from_request(value: &str) -> (r: Result<Input, String>)
    ensures
        is_ascii_text(value@) ==> unicode_lowercase(value@) == ascii_lowercase(value@),
        match input_by_request_name(unicode_lowercase(value@)) {
            Some(i) => r matches Ok(j) && j == i,
            None => r matches Err(m) && m@ == "Unknown input: "@ + unicode_lowercase(value@),
        },
{
    let lower = to_lowercase(value);
    let l = lower.as_str();
    if str_eq(l, "hdmi") || str_eq(l, "hdmi_arc") || str_eq(l, "hdmiarc") || str_eq(l, "hdmi arc") {
        Ok(Input::HdmiArc)
    } else if str_eq(l, "bluetooth") || str_eq(l, "bt") {
        Ok(Input::Bluetooth)
    } else if str_eq(l, "aux") || str_eq(l, "auxiliary") {
        Ok(Input::Aux)
    } else if str_eq(l, "optical") || str_eq(l, "toslink") {
        Ok(Input::Optical)
    } else {
        let mut m = String::from_str("Unknown input: ");
        push_string(&mut m, &lower);
        Err(m)
    }
}

/// The sound mode a REST request names; otherwise the error message
/// `Unknown mode: <lower-cased value>`.
pub fn mode_from_request(value: &str) -> (r: Result<SoundMode, String>)
    ensures
        is_ascii_text(value@) ==> unicode_lowercase(value@) == ascii_lowercase(value@),
        match mode_by_request_name(unicode_lowercase(value@)) {
            Some(x) => r matches Ok(y) && y == x,
            None => r matches Err(m) && m@ == "Unknown mode: "@ + unicode_lowercase(value@),
        },
{
    let lower = to_lowercase(value);
    let l = lower.as_str();
    if str_eq(l, "movies") || str_eq(l, "movie") {
        Ok(SoundMode::Movies)
    } else if str_eq(l, "music") {
        Ok(SoundMode::Music)
    } else if str_eq(l, "tv") || str_eq(l, "television") {
        Ok(SoundMode::Tv)
    } else if str_eq(l, "news") || str_eq(l, "dialog") {
        Ok(SoundMode::News)
    } else if str_eq(l, "manual") {
        Ok(SoundMode::Manual)
    } else {
        let mut m = String::from_str("Unknown mode: ");
        push_string(&mut m, &lower);
        Err(m)
    }
}

/// The configuration shape a REST request names; otherwise the error
/// message `Unknown shape: <lower-cased value>`.
pub fn shape_from_request(value: &str) -> (r: Result<ConfigShape, String>)
    ensures
        is_ascii_text(value@) ==> unicode_lowercase(value@) == ascii_lowercase(value@),
        match shape_by_request_name(unicode_lowercase(value@)) {
            Some(x) => r matches Ok(y) && y == x,
            None => r matches Err(m) && m@ == "Unknown shape: "@ + unicode_lowercase(value@),
        },
{
    let lower = to_lowercase(value);
    let l = lower.as_str();
    if str_eq(l, "straight") {
        Ok(ConfigShape::Straight)
    } else if str_eq(l, "lshape") || str_eq(l, "l-shape") {
        Ok(ConfigShape::LShape)
    } else if str_eq(l, "ushape") || str_eq(l, "u-shape") {
        Ok(ConfigShape::UShape)
    } else if str_eq(l, "pit") {
        Ok(ConfigShape::Pit)
    } else {
        let mut m = String::from_str("Unknown shape: ");
        push_string(&mut m, &lower);
        Err(m)
    }
}

/// The HTTP status of a failed connection: 504 (gateway timeout) when the
/// failure message says it timed out, 502 (bad gateway) otherwise.
pub fn connect_failure_status(message: &str) -> (r: u16)
    ensures
        r == (if contains_seq(message@, "timed out"@) {
            504u16
        } else {
            502u16
        }),
{
    if str_contains(message, "timed out") {
        504
    } else {
        502
    }
}

// ============================================================================
// Static export
// ============================================================================

/// A line without its trailing carriage return, if it has one.
pub open spec fn strip_cr(l: Seq<char>) -> Seq<char> {
    if l.len() > 0 && l.last() == '\r' {
        l.drop_last()
    } else {
        l
    }
}

/// The lines of `s` after the current partial line `cur`: lines end at
/// '\n' (a '\r' just before it is dropped), and a final line ending is
/// optional (what `str::lines` yields).
pub open spec fn lines_from(s: Seq<char>, cur: Seq<char>) -> Seq<Seq<char>>
    decreases s.len(),
{
    if s.len() == 0 {
        if cur.len() == 0 {
            Seq::empty()
        } else {
            seq![strip_cr(cur)]
        }
    } else if s[0] == '\n' {
        seq![strip_cr(cur)] + lines_from(s.skip(1), Seq::empty())
    } else {
        lines_from(s.skip(1), cur.push(s[0]))
    }
}

/// The lines of a text.
pub open spec fn text_lines(s: Seq<char>) -> Seq<Seq<char>> {
    lines_from(s, Seq::empty())
}

pub open spec fn line_texts(v: Seq<String>) -> Seq<Seq<char>> {
    v.map_values(|s: String| s@)
}

fn strip_cr_exec(line: String) -> (r: String)
    ensures
        r@ == strip_cr(line@),
{
    let n = line.as_str().unicode_len();
    if n > 0 && line.as_str().get_char(n - 1) == '\r' {
        let t = line.as_str().substring_char(0, n - 1);
        let r = String::from_str(t);
        assert(r@ =~= line@.drop_last());
        r
    } else {
        line
    }
}

/// Splits a text into its lines (`str::lines`).
pub fn split_lines(s: &str) -> (r: Vec<String>)
    ensures
        line_texts(r@) == text_lines(s@),
{
    let n = s.unicode_len();
    let mut done: Vec<String> = Vec::new();
    let mut cur = String::new();
    let mut i: usize = 0;
    proof {
        assert(s@.skip(0) =~= s@);
        assert(line_texts(done@) =~= Seq::<Seq<char>>::empty());
    }
    while i < n
        invariant
            n == s@.len(),
            i <= n,
            line_texts(done@) + lines_from(s@.skip(i as int), cur@) == text_lines(s@),
        decreases n - i,
    {
        let c = s.get_char(i);
        let ghost old_done = line_texts(done@);
        let ghost old_cur = cur@;
        proof {
            assert(s@.skip(i as int)[0] == c);
            assert(s@.skip(i as int).skip(1) =~= s@.skip(i + 1));
        }
        if c == '\n' {
            let line = strip_cr_exec(cur);
            done.push(line);
            cur = String::new();
            proof {
                assert(line_texts(done@) =~= old_done.push(strip_cr(old_cur)));
                assert(line_texts(done@) + lines_from(s@.skip(i + 1), cur@) =~= old_done + (seq![
                    strip_cr(old_cur),
                ] + lines_from(s@.skip(i + 1), Seq::empty())));
            }
        } else {
            push_char(&mut cur, c);
        }
        i = i + 1;
    }
    proof {
        assert(s@.skip(n as int) =~= Seq::<char>::empty());
    }
    if cur.as_str().unicode_len() > 0 {
        let ghost old_done = line_texts(done@);
        let ghost old_cur = cur@;
        let line = strip_cr_exec(cur);
        done.push(line);
        proof {
            assert(line_texts(done@) =~= old_done + lines_from(Seq::<char>::empty(), old_cur));
        }
    } else {
        proof {
            assert(line_texts(done@) + Seq::<Seq<char>>::empty() =~= line_texts(done@));
        }
    }
    done
}

/// The marker of lines that only the served page needs.
pub const SERVER_ONLY_MARKER: &'static str = "<!-- server-only -->";

/// The lines that do not hold the server-only marker, in order.
pub open spec fn kept_lines(ls: Seq<Seq<char>>) -> Seq<Seq<char>>
    decreases ls.len(),
{
    if ls.len() == 0 {
        Seq::empty()
    } else if contains_seq(ls.last(), SERVER_ONLY_MARKER@) {
        kept_lines(ls.drop_last())
    } else {
        kept_lines(ls.drop_last()).push(ls.last())
    }
}

/// Lines joined with '\n' between them.
pub open spec fn joined_lines(ls: Seq<Seq<char>>) -> Seq<char>
    decreases ls.len(),
{
    if ls.len() == 0 {
        Seq::empty()
    } else if ls.len() == 1 {
        ls[0]
    } else {
        joined_lines(ls.drop_last()) + seq!['\n'] + ls.last()
    }
}

/// The exported index page: the served one without its server-only lines,
/// lines joined with '\n', and the `<html>` tag marked as an export.
pub open spec fn export_index_spec(index: Seq<char>) -> Seq<char> {
    replaced(
        joined_lines(kept_lines(text_lines(index))),
        "<html lang=\"en\">"@,
        "<html lang=\"en\" data-export>"@,
    )
}

/// Derives the exported (standalone Web Bluetooth) index page from the
/// served one: drops every line holding `<!-- server-only -->`, joins the
/// remaining lines with '\n', and marks `<html lang="en">` with
/// `data-export`.
pub fn export_index_html(index: &str) -> (r: String)
    ensures
        r@ == export_index_spec(index@),
{
    let lines = split_lines(index);
    let mut out = String::new();
    let mut kept = false;
    let mut i: usize = 0;
    proof {
        assert(line_texts(lines@).take(0) =~= Seq::<Seq<char>>::empty());
    }
    while i < lines.len()
        invariant
            line_texts(lines@) == text_lines(index@),
            i <= lines@.len(),
            kept == (kept_lines(line_texts(lines@).take(i as int)).len() > 0),
            out@ == joined_lines(kept_lines(line_texts(lines@).take(i as int))),
        decreases lines@.len() - i,
    {
        let ghost before = line_texts(lines@).take(i as int);
        let ghost after = line_texts(lines@).take(i + 1);
        proof {
            assert(after.drop_last() =~= before);
            assert(after.last() == lines@[i as int]@);
        }
        if !str_contains(lines[i].as_str(), SERVER_ONLY_MARKER) {
            if kept {
                push_char(&mut out, '\n');
            }
            push_string(&mut out, &lines[i]);
            proof {
                let k2 = kept_lines(after);
                assert(k2 == kept_lines(before).push(lines@[i as int]@));
                assert(k2.drop_last() =~= kept_lines(before));
                if !kept {
                    assert(out@ =~= joined_lines(k2));
                } else {
                    assert(out@ =~= joined_lines(k2));
                }
            }
            kept = true;
        }
        i = i + 1;
    }
    proof {
        assert(line_texts(lines@).take(lines@.len() as int) =~= line_texts(lines@));
        assert("<html lang=\"en\">"@.len() > 0) by {
            reveal_strlit("<html lang=\"en\">");
        }
    }
    replace_all(out.as_str(), "<html lang=\"en\">", "<html lang=\"en\" data-export>")
}

// ============================================================================
// Notifications
// ============================================================================

/// What the server forwards to WebSocket clients for one notification: the
/// characteristic's UUID, the raw value in hexadecimal and the decoded
/// response's text.
#[derive(Clone, Debug)]
pub struct NotificationEvent {
    pub uuid: String,
    pub hex: String,
    pub decoded: String,
}

/// Handles one notification from the device: decodes it, applies the
/// response to the device state, and describes it for the WebSocket clients.
pub fn notification_event(state: &mut DeviceState, uuid: Uuid, value: &[u8]) -> (r: NotificationEvent)
    ensures
        final(state)@ == apply_view(old(state)@, decode_view(uuid, value@)),
        r.uuid@ == uuid_hyphenated(uuid.value),
        r.hex@ == hex_lower(value@),
        r.decoded@ == response_text(decode_view(uuid, value@)),
{
    let response = Response::decode(uuid, value);
    state.apply_response(&response);
    NotificationEvent {
        uuid: uuid.to_string(),
        hex: hex_encode(value),
        decoded: response.to_string(),
    }
}

/// The embedded files, besides `index.html` and the documentation, that a
/// standalone (Web Bluetooth) export holds. The web app's JSON description
/// file, which the served UI also has (it would come after `favicon.svg`),
/// is not in this list, so the export does not copy it.
pub open spec fn export_files_spec() -> Seq<Seq<char>> {
    seq![
        "style.css"@,
        "shared.js"@,
        "bluetooth.js"@,
        "favicon.svg"@,
        "robots.txt"@,
        "sitemap.xml"@,
        "pkg/libstealthtech_wasm.js"@,
        "pkg/libstealthtech_wasm_bg.wasm"@,
    ]
}

/// The embedded files a standalone export copies, in order.
pub fn export_files() -> (r: Vec<&'static str>)
    ensures
        r@.len() == export_files_spec().len(),
        forall|i: int| 0 <= i < r@.len() ==> r@[i]@ == export_files_spec()[i],
{
    let r = vec![
        "style.css",
        "shared.js",
        "bluetooth.js",
        "favicon.svg",
        "robots.txt",
        "sitemap.xml",
        "pkg/libstealthtech_wasm.js",
        "pkg/libstealthtech_wasm_bg.wasm",
    ];
    assert(r@.len() == 8);
    r
}

} // verus!
