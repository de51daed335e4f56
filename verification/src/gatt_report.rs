//! The text the protocol sniffer prints for a discovered GATT profile: a
//! boxed header naming the device, then every service with its
//! characteristics drawn as a tree.

use vstd::prelude::*;

use crate::gatt::{
    known_characteristic_name, opt_static_text, standard_name, texts, DiscoveredCharacteristic,
    DiscoveredService, GattProfile,
};
use crate::sniff::{padded, push_padded};
use crate::text::{dec_digits, push_decimal, push_str, push_string, unicode_lowercase};

verus! {

/// The text held by an optional string.
pub open spec fn opt_string_text(o: Option<String>) -> Option<Seq<char>> {
    match o {
        Some(s) => Some(s@),
        None => None,
    }
}

/// The text `o` holds, or `d` when it holds none.
pub open spec fn text_or(o: Option<Seq<char>>, d: Seq<char>) -> Seq<char> {
    match o {
        Some(x) => x,
        None => d,
    }
}

/// The boxed header: device name (`Unknown` when it has none), address and
/// time of the discovery, each padded to the width of the box.
pub open spec fn profile_header(p: GattProfile) -> Seq<char> {
    "╔══════════════════════════════════════════════════════════════╗\n"@ + "║          StealthTech GATT Profile Discovery                 ║\n"@ + "╠══════════════════════════════════════════════════════════════╣\n"@ + "║ Device:  "@ + padded(
        text_or(opt_string_text(p.device_name), "Unknown"@),
        51,
    ) + " ║\n"@ + "║ Address: "@ + padded(p.device_address@, 51) + " ║\n"@ + "║ Time:    "@
        + padded(p.timestamp@, 51) + " ║\n"@ + "╚══════════════════════════════════════════════════════════════╝\n"@ + "\n"@
}

/// Texts joined with `, ` between them.
pub open spec fn joined_with_commas(ps: Seq<Seq<char>>) -> Seq<char>
    decreases ps.len(),
{
    if ps.len() == 0 {
        Seq::empty()
    } else if ps.len() == 1 {
        ps[0]
    } else {
        joined_with_commas(ps.drop_last()) + ", "@ + ps.last()
    }
}

/// What the printout says a characteristic is: its description, else
/// `Standard` for a known one, else a request to map it.
pub open spec fn characteristic_label(c: DiscoveredCharacteristic) -> Seq<char> {
    match c.description {
        Some(d) => d@,
        None => if c.is_known {
            "Standard"@
        } else {
            "⚠ UNKNOWN - needs mapping"@
        },
    }
}

/// The first character of a characteristic's branch.
pub open spec fn branch_prefix(is_last: bool) -> Seq<char> {
    if is_last {
        "└"@
    } else {
        "├"@
    }
}

/// The character that continues the tree beside a characteristic's lines.
pub open spec fn branch_cont(is_last: bool) -> Seq<char> {
    if is_last {
        " "@
    } else {
        "│"@
    }
}

/// The first lines of a characteristic's branch: UUID, properties and label.
pub open spec fn characteristic_head(c: DiscoveredCharacteristic, is_last: bool) -> Seq<char> {
    let cont = branch_cont(is_last);
    branch_prefix(is_last) + "── Characteristic: "@ + c.uuid@ + "\n"@ + cont + "   Properties: ["@
        + joined_with_commas(texts(c.properties@)) + "]\n"@ + cont + "   Description: "@
        + characteristic_label(c) + "\n"@
}

/// The tree branch of one characteristic; the last one of its service
/// closes the tree.
pub open spec fn characteristic_block(c: DiscoveredCharacteristic, is_last: bool) -> Seq<char> {
    let cont = branch_cont(is_last);
    characteristic_head(c, is_last) + hex_line(c, cont) + utf8_line(c, cont) + cont + "   \n"@
}

/// The line with a characteristic's value in hexadecimal, if it was read.
pub open spec fn hex_line(c: DiscoveredCharacteristic, cont: Seq<char>) -> Seq<char> {
    match c.value_hex {
        Some(h) => cont + "   Value (hex): "@ + h@ + "\n"@,
        None => Seq::empty(),
    }
}

/// The line with a characteristic's value as text, if it is printable.
pub open spec fn utf8_line(c: DiscoveredCharacteristic, cont: Seq<char>) -> Seq<char> {
    match c.value_utf8 {
        Some(t) => cont + "   Value (utf8): \""@ + t@ + "\"\n"@,
        None => Seq::empty(),
    }
}

/// The branches of the first `k` characteristics of a service.
pub open spec fn characteristic_blocks(cs: Seq<DiscoveredCharacteristic>, k: nat) -> Seq<char>
    decreases k,
{
    if k == 0 {
        Seq::empty()
    } else {
        characteristic_blocks(cs, (k - 1) as nat) + characteristic_block(
            cs[k - 1],
            k - 1 == cs.len() - 1,
        )
    }
}

/// One service: its UUID, its standard name (or `Unknown/Custom Service`),
/// the number of characteristics, and their branches.
pub open spec fn service_block(s: DiscoveredService) -> Seq<char> {
    service_head(s) + characteristic_blocks(s.characteristics@, s.characteristics@.len()) + "\n"@
}

/// The lines that open a service: UUID, name and number of
/// characteristics.
pub open spec fn service_head(s: DiscoveredService) -> Seq<char> {
    "┌─ Service: "@ + s.uuid@ + " ─────────\n"@ + "│  Type: "@ + text_or(
        standard_name(unicode_lowercase(s.uuid@)),
        "Unknown/Custom Service"@,
    ) + "\n"@ + "│  Characteristics: "@ + dec_digits(s.characteristics@.len()) + "\n"@ + "│\n"@
}

/// The first `k` services.
pub open spec fn service_blocks(ss: Seq<DiscoveredService>, k: nat) -> Seq<char>
    decreases k,
{
    if k == 0 {
        Seq::empty()
    } else {
        service_blocks(ss, (k - 1) as nat) + service_block(ss[k - 1])
    }
}

/// The whole printout of a profile.
pub open spec fn profile_text(p: GattProfile) -> Seq<char> {
    profile_header(p) + service_blocks(p.services@, p.services@.len())
}

fn push_header(s: &mut String, p: &GattProfile)
    ensures
        final(s)@ == old(s)@ + profile_header(*p),
{
    push_str(s, "╔══════════════════════════════════════════════════════════════╗\n");
    push_str(s, "║          StealthTech GATT Profile Discovery                 ║\n");
    push_str(s, "╠══════════════════════════════════════════════════════════════╣\n");
    push_str(s, "║ Device:  ");
    match &p.device_name {
        Some(n) => push_padded(s, n.as_str(), 51),
        None => push_padded(s, "Unknown", 51),
    }
    push_str(s, " ║\n");
    push_str(s, "║ Address: ");
    push_padded(s, p.device_address.as_str(), 51);
    push_str(s, " ║\n");
    push_str(s, "║ Time:    ");
    push_padded(s, p.timestamp.as_str(), 51);
    push_str(s, " ║\n");
    push_str(s, "╚══════════════════════════════════════════════════════════════╝\n");
    push_str(s, "\n");
    assert(s@ =~= old(s)@ + profile_header(*p));
}

fn push_joined(s: &mut String, v: &Vec<String>)
    ensures
        final(s)@ == old(s)@ + joined_with_commas(texts(v@)),
{
    let ghost start = s@;
    let mut j: usize = 0;
    proof {
        assert(texts(v@).take(0) =~= Seq::<Seq<char>>::empty());
    }
    while j < v.len()
        invariant
            j <= v@.len(),
            s@ == start + joined_with_commas(texts(v@).take(j as int)),
        decreases v@.len() - j,
    {
        if j > 0 {
            push_str(s, ", ");
        }
        push_string(s, &v[j]);
        proof {
            let t = texts(v@).take(j + 1);
            assert(t.drop_last() =~= texts(v@).take(j as int));
            assert(t.last() == v@[j as int]@);
            if j == 0 {
                assert(t.len() == 1);
            }
            assert(s@ =~= start + joined_with_commas(t));
        }
        j = j + 1;
    }
    proof {
        assert(texts(v@).take(v@.len() as int) =~= texts(v@));
    }
}

fn push_characteristic_head(s: &mut String, c: &DiscoveredCharacteristic, is_last: bool)
    ensures
        final(s)@ == old(s)@ + characteristic_head(*c, is_last),
{
    let cont = if is_last {
        " "
    } else {
        "│"
    };
    if is_last {
        push_str(s, "└");
    } else {
        push_str(s, "├");
    }
    push_str(s, "── Characteristic: ");
    push_string(s, &c.uuid);
    push_str(s, "\n");
    push_str(s, cont);
    push_str(s, "   Properties: [");
    push_joined(s, &c.properties);
    push_str(s, "]\n");
    push_str(s, cont);
    push_str(s, "   Description: ");
    match &c.description {
        Some(d) => push_string(s, d),
        None => if c.is_known {
            push_str(s, "Standard");
        } else {
            push_str(s, "⚠ UNKNOWN - needs mapping");
        },
    }
    push_str(s, "\n");
    assert(s@ =~= old(s)@ + characteristic_head(*c, is_last));
}

fn push_value_lines(s: &mut String, c: &DiscoveredCharacteristic, cont: &str)
    ensures
        final(s)@ == old(s)@ + hex_line(*c, cont@) + utf8_line(*c, cont@),
{
    match &c.value_hex {
        Some(h) => {
            push_str(s, cont);
            push_str(s, "   Value (hex): ");
            push_string(s, h);
            push_str(s, "\n");
        },
        None => {},
    }
    let ghost after_hex = s@;
    assert(after_hex =~= old(s)@ + hex_line(*c, cont@));
    match &c.value_utf8 {
        Some(t) => {
            push_str(s, cont);
            push_str(s, "   Value (utf8): \"");
            push_string(s, t);
            push_str(s, "\"\n");
        },
        None => {},
    }
    assert(s@ =~= after_hex + utf8_line(*c, cont@));
}

fn push_characteristic(s: &mut String, c: &DiscoveredCharacteristic, is_last: bool)
    ensures
        final(s)@ == old(s)@ + characteristic_block(*c, is_last),
{
    let cont = if is_last {
        " "
    } else {
        "│"
    };
    push_characteristic_head(s, c, is_last);
    push_value_lines(s, c, cont);
    push_str(s, cont);
    push_str(s, "   \n");
    assert(cont@ == branch_cont(is_last));
    assert(s@ =~= old(s)@ + characteristic_block(*c, is_last));
}

fn push_service_head(s: &mut String, svc: &DiscoveredService)
    ensures
        final(s)@ == old(s)@ + service_head(*svc),
{
    push_str(s, "┌─ Service: ");
    push_string(s, &svc.uuid);
    push_str(s, " ─────────\n");
    push_str(s, "│  Type: ");
    match known_characteristic_name(svc.uuid.as_str()) {
        Some(n) => push_str(s, n),
        None => push_str(s, "Unknown/Custom Service"),
    }
    push_str(s, "\n");
    push_str(s, "│  Characteristics: ");
    push_decimal(s, svc.characteristics.len() as u64);
    push_str(s, "\n");
    push_str(s, "│\n");
    assert(s@ =~= old(s)@ + service_head(*svc));
}

fn push_service(s: &mut String, svc: &DiscoveredService)
    ensures
        final(s)@ == old(s)@ + service_block(*svc),
{
    push_service_head(s, svc);
    let ghost before = s@;
    let n = svc.characteristics.len();
    let mut j: usize = 0;
    while j < n
        invariant
            n == svc.characteristics@.len(),
            j <= n,
            s@ == before + characteristic_blocks(svc.characteristics@, j as nat),
        decreases n - j,
    {
        push_characteristic(s, &svc.characteristics[j], j == n - 1);
        proof {
            assert(s@ =~= before + characteristic_blocks(svc.characteristics@, (j + 1) as nat));
        }
        j = j + 1;
    }
    push_str(s, "\n");
    assert(s@ =~= old(s)@ + service_block(*svc));
}

/// The text the sniffer prints for a discovered GATT profile.
pub fn gatt_profile_text(p: &GattProfile) -> (r: String)
    ensures
        r@ == profile_text(*p),
{
    let mut s = String::new();
    push_header(&mut s, p);
    let ghost before = s@;
    let n = p.services.len();
    let mut i: usize = 0;
    while i < n
        invariant
            n == p.services@.len(),
            i <= n,
            s@ == before + service_blocks(p.services@, i as nat),
        decreases n - i,
    {
        push_service(&mut s, &p.services[i]);
        proof {
            assert(s@ =~= before + service_blocks(p.services@, (i + 1) as nat));
        }
        i = i + 1;
    }
    assert(s@ =~= profile_text(*p));
    s
}

/// The line the `info` command prints for a characteristic: its
/// description with its text value, or else with its hexadecimal value;
/// nothing for a characteristic without description or value.
pub open spec fn info_line(c: DiscoveredCharacteristic) -> Seq<char> {
    match c.description {
        Some(d) => match c.value_utf8 {
            Some(v) => "  "@ + d@ + ": "@ + v@ + "\n"@,
            None => match c.value_hex {
                Some(h) => "  "@ + d@ + " (hex): "@ + h@ + "\n"@,
                None => Seq::empty(),
            },
        },
        None => Seq::empty(),
    }
}

/// The `info` lines of the first `k` characteristics.
pub open spec fn info_lines(cs: Seq<DiscoveredCharacteristic>, k: nat) -> Seq<char>
    decreases k,
{
    if k == 0 {
        Seq::empty()
    } else {
        info_lines(cs, (k - 1) as nat) + info_line(cs[k - 1])
    }
}

/// The `info` lines of the first `k` services.
pub open spec fn info_services(ss: Seq<DiscoveredService>, k: nat) -> Seq<char>
    decreases k,
{
    if k == 0 {
        Seq::empty()
    } else {
        info_services(ss, (k - 1) as nat) + info_lines(
            ss[k - 1].characteristics@,
            ss[k - 1].characteristics@.len(),
        )
    }
}

fn push_info_line(s: &mut String, c: &DiscoveredCharacteristic)
    ensures
        final(s)@ == old(s)@ + info_line(*c),
{
    match &c.description {
        Some(d) => match &c.value_utf8 {
            Some(v) => {
                push_str(s, "  ");
                push_string(s, d);
                push_str(s, ": ");
                push_string(s, v);
                push_str(s, "\n");
            },
            None => match &c.value_hex {
                Some(h) => {
                    push_str(s, "  ");
                    push_string(s, d);
                    push_str(s, " (hex): ");
                    push_string(s, h);
                    push_str(s, "\n");
                },
                None => {},
            },
        },
        None => {},
    }
    assert(s@ =~= old(s)@ + info_line(*c));
}

fn push_info_service(s: &mut String, svc: &DiscoveredService)
    ensures
        final(s)@ == old(s)@ + info_lines(svc.characteristics@, svc.characteristics@.len()),
{
    let ghost before = s@;
    let n = svc.characteristics.len();
    let mut j: usize = 0;
    assert(s@ =~= before + info_lines(svc.characteristics@, 0));
    while j < n
        invariant
            n == svc.characteristics@.len(),
            j <= n,
            s@ == before + info_lines(svc.characteristics@, j as nat),
        decreases n - j,
    {
        push_info_line(s, &svc.characteristics[j]);
        proof {
            assert(s@ =~= before + info_lines(svc.characteristics@, (j + 1) as nat));
        }
        j = j + 1;
    }
}

/// The device details the `info` command prints after its header: one line
/// per described characteristic that has a value, services in order.
pub fn device_info_text(p: &GattProfile) -> (r: String)
    ensures
        r@ == info_services(p.services@, p.services@.len()),
{
    let mut s = String::new();
    let n = p.services.len();
    let mut i: usize = 0;
    assert(s@ =~= info_services(p.services@, 0));
    while i < n
        invariant
            n == p.services@.len(),
            i <= n,
            s@ == info_services(p.services@, i as nat),
        decreases n - i,
    {
        push_info_service(&mut s, &p.services[i]);
        proof {
            assert(s@ =~= info_services(p.services@, (i + 1) as nat));
        }
        i = i + 1;
    }
    s
}

} // verus!
