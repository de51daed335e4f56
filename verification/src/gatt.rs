//! The GATT profile of a device, as collected for protocol analysis: every
//! service with its characteristics, their properties and current values.
//!
//! The reading of values is done by the caller; this module names the
//! standard characteristics, describes properties and values, and groups the
//! characteristics by service.

use vstd::prelude::*;

use crate::characteristics::{uuid_hyphenated, Uuid};
use crate::text::{
    ascii_lowercase, is_ascii_text, push_str, push_string, hex_encode, hex_lower, lemma_seq_lt_asymmetric, lemma_seq_lt_total, lemma_seq_lt_transitive,
    push_char, seq_lt, str_eq, str_lt, to_lowercase, unicode_lowercase,
};

verus! {

/// A discovered GATT service.
#[derive(Clone, Debug)]
pub struct DiscoveredService {
    pub uuid: String,
    pub is_primary: bool,
    pub characteristics: Vec<DiscoveredCharacteristic>,
}

/// A discovered GATT characteristic with its properties and current value.
#[derive(Clone, Debug)]
pub struct DiscoveredCharacteristic {
    pub uuid: String,
    pub service_uuid: String,
    pub properties: Vec<String>,
    pub value_hex: Option<String>,
    pub value_utf8: Option<String>,
    pub is_known: bool,
    pub description: Option<String>,
}

/// Full GATT profile dump of a StealthTech device.
#[derive(Clone, Debug)]
pub struct GattProfile {
    pub device_name: Option<String>,
    pub device_address: String,
    pub timestamp: String,
    pub services: Vec<DiscoveredService>,
}

// ============================================================================
// Standard names
// ============================================================================

/// Human-readable names of the standard BLE characteristics and services, by
/// lowercase UUID text.
pub open spec fn standard_name(u: Seq<char>) -> Option<Seq<char>> {
    if u == "00002a00-0000-1000-8000-00805f9b34fb"@ {
        Some("Device Name"@)
    } else if u == "00002a01-0000-1000-8000-00805f9b34fb"@ {
        Some("Appearance"@)
    } else if u == "00002a04-0000-1000-8000-00805f9b34fb"@ {
        Some("Peripheral Preferred Connection Parameters"@)
    } else if u == "00002a24-0000-1000-8000-00805f9b34fb"@ {
        Some("Model Number String"@)
    } else if u == "00002a25-0000-1000-8000-00805f9b34fb"@ {
        Some("Serial Number String"@)
    } else if u == "00002a26-0000-1000-8000-00805f9b34fb"@ {
        Some("Firmware Revision String"@)
    } else if u == "00002a27-0000-1000-8000-00805f9b34fb"@ {
        Some("Hardware Revision String"@)
    } else if u == "00002a28-0000-1000-8000-00805f9b34fb"@ {
        Some("Software Revision String"@)
    } else if u == "00002a29-0000-1000-8000-00805f9b34fb"@ {
        Some("Manufacturer Name String"@)
    } else if u == "0000180a-0000-1000-8000-00805f9b34fb"@ {
        Some("[Service] Device Information"@)
    } else if u == "00001800-0000-1000-8000-00805f9b34fb"@ {
        Some("[Service] Generic Access"@)
    } else if u == "00001801-0000-1000-8000-00805f9b34fb"@ {
        Some("[Service] Generic Attribute"@)
    } else {
        None
    }
}

pub open spec fn opt_static_text(o: Option<&'static str>) -> Option<Seq<char>> {
    match o {
        Some(s) => Some(s@),
        None => None,
    }
}

/// Maps standard BLE characteristic UUIDs (any letter case) to human-readable
/// names.
pub fn known_characteristic_name(uuid: &str) -> (r: Option<&'static str>)
    ensures
        opt_static_text(r) == standard_name(unicode_lowercase(uuid@)),
        is_ascii_text(uuid@) ==> opt_static_text(r) == standard_name(ascii_lowercase(uuid@)),
{
    let lower = to_lowercase(uuid);
    let u = lower.as_str();
    if str_eq(u, "00002a00-0000-1000-8000-00805f9b34fb") {
        Some("Device Name")
    } else if str_eq(u, "00002a01-0000-1000-8000-00805f9b34fb") {
        Some("Appearance")
    } else if str_eq(u, "00002a04-0000-1000-8000-00805f9b34fb") {
        Some("Peripheral Preferred Connection Parameters")
    } else if str_eq(u, "00002a24-0000-1000-8000-00805f9b34fb") {
        Some("Model Number String")
    } else if str_eq(u, "00002a25-0000-1000-8000-00805f9b34fb") {
        Some("Serial Number String")
    } else if str_eq(u, "00002a26-0000-1000-8000-00805f9b34fb") {
        Some("Firmware Revision String")
    } else if str_eq(u, "00002a27-0000-1000-8000-00805f9b34fb") {
        Some("Hardware Revision String")
    } else if str_eq(u, "00002a28-0000-1000-8000-00805f9b34fb") {
        Some("Software Revision String")
    } else if str_eq(u, "00002a29-0000-1000-8000-00805f9b34fb") {
        Some("Manufacturer Name String")
    } else if str_eq(u, "0000180a-0000-1000-8000-00805f9b34fb") {
        Some("[Service] Device Information")
    } else if str_eq(u, "00001800-0000-1000-8000-00805f9b34fb") {
        Some("[Service] Generic Access")
    } else if str_eq(u, "00001801-0000-1000-8000-00805f9b34fb") {
        Some("[Service] Generic Attribute")
    } else {
        None
    }
}

// ============================================================================
// Properties and values
// ============================================================================

/// The properties of a characteristic that the profile reports.
#[derive(Clone, Copy, Debug, PartialEq, Eq, Structural)]
pub struct CharProperties {
    pub read: bool,
    pub write: bool,
    pub write_without_response: bool,
    pub notify: bool,
    pub indicate: bool,
}

/// `name` when the flag is set, nothing otherwise.
pub open spec fn flag_name(on: bool, name: Seq<char>) -> Seq<Seq<char>> {
    if on {
        seq![name]
    } else {
        Seq::empty()
    }
}

/// The property names in report order: READ, WRITE, WRITE_NO_RESP, NOTIFY,
/// INDICATE.
pub open spec fn property_names_spec(p: CharProperties) -> Seq<Seq<char>> {
    flag_name(p.read, "READ"@) + flag_name(p.write, "WRITE"@) + flag_name(
        p.write_without_response,
        "WRITE_NO_RESP"@,
    ) + flag_name(p.notify, "NOTIFY"@) + flag_name(p.indicate, "INDICATE"@)
}

pub open spec fn texts(v: Seq<String>) -> Seq<Seq<char>> {
    v.map_values(|s: String| s@)
}

fn push_flag(names: &mut Vec<String>, on: bool, name: &str)
    ensures
        texts(final(names)@) == texts(old(names)@) + flag_name(on, name@),
{
    if on {
        names.push(String::from_str(name));
        assert(texts(names@) =~= texts(old(names)@) + flag_name(on, name@));
    } else {
        assert(texts(names@) =~= texts(old(names)@) + flag_name(on, name@));
    }
}

/// The names of the set properties, in report order.
pub fn property_names(p: CharProperties) -> (r: Vec<String>)
    ensures
        texts(r@) == property_names_spec(p),
{
    let mut names: Vec<String> = Vec::new();
    assert(texts(names@) =~= Seq::<Seq<char>>::empty());
    push_flag(&mut names, p.read, "READ");
    push_flag(&mut names, p.write, "WRITE");
    push_flag(&mut names, p.write_without_response, "WRITE_NO_RESP");
    push_flag(&mut names, p.notify, "NOTIFY");
    push_flag(&mut names, p.indicate, "INDICATE");
    assert(texts(names@) =~= property_names_spec(p));
    names
}

/// A byte that is an ASCII graphic character (0x21..=0x7E) or ASCII
/// whitespace (space, tab, line feed, form feed, carriage return).
pub open spec fn is_printable_byte(b: u8) -> bool {
    (0x21 <= b && b <= 0x7E) || b == 0x20 || b == 0x09 || b == 0x0A || b == 0x0C || b == 0x0D
}

/// The bytes read as ASCII characters.
pub open spec fn ascii_chars(bs: Seq<u8>) -> Seq<char> {
    bs.map_values(|b: u8| b as char)
}

/// A value shown as text: present exactly when it is valid UTF-8 made only
/// of ASCII graphic characters and ASCII whitespace (which means every byte
/// is such a character).
pub fn printable_text(data: &[u8]) -> (r: Option<String>)
    ensures
        match r {
            Some(s) => (forall|i: int| 0 <= i < data@.len() ==> is_printable_byte(#[trigger] data@[i]))
                && s@ == ascii_chars(data@),
            None => exists|i: int| 0 <= i < data@.len() && !is_printable_byte(#[trigger] data@[i]),
        },
{
    let mut s = String::new();
    let mut i: usize = 0;
    while i < data.len()
        invariant
            i <= data@.len(),
            forall|j: int| 0 <= j < i ==> is_printable_byte(#[trigger] data@[j]),
            s@ == ascii_chars(data@.take(i as int)),
        decreases data@.len() - i,
    {
        let b = data[i];
        if !((0x21 <= b && b <= 0x7E) || b == 0x20 || b == 0x09 || b == 0x0A || b == 0x0C || b
            == 0x0D) {
            return None;
        }
        push_char(&mut s, b as char);
        proof {
            assert(ascii_chars(data@.take(i + 1)) =~= ascii_chars(data@.take(i as int)).push(
                b as char,
            ));
        }
        i = i + 1;
    }
    proof {
        assert(data@.take(data@.len() as int) =~= data@);
    }
    Some(s)
}

/// Describes one characteristic of the profile: its UUID and service UUID
/// texts, its properties, the value read from it (if it was read), and the
/// standard name of the UUID if it has one.
/// `c` describes the characteristic `uuid` of service `service` with
/// properties `p`, whose value, if one was read, is `value`.
pub open spec fn describes(
    c: DiscoveredCharacteristic,
    uuid: Seq<char>,
    service: Seq<char>,
    p: CharProperties,
    value: Option<Seq<u8>>,
) -> bool {
    &&& c.uuid@ == uuid
    &&& c.service_uuid@ == service
    &&& texts(c.properties@) == property_names_spec(p)
    &&& match value {
        Some(v) => {
            &&& c.value_hex matches Some(h) && h@ == hex_lower(v)
            &&& match c.value_utf8 {
                Some(t) => (forall|i: int| 0 <= i < v.len() ==> is_printable_byte(#[trigger] v[i]))
                    && t@ == ascii_chars(v),
                None => exists|i: int| 0 <= i < v.len() && !is_printable_byte(#[trigger] v[i]),
            }
        },
        None => c.value_hex is None && c.value_utf8 is None,
    }
    &&& c.is_known == standard_name(unicode_lowercase(uuid)) is Some
    &&& match standard_name(unicode_lowercase(uuid)) {
        Some(n) => c.description matches Some(d) && d@ == n,
        None => c.description is None,
    }
}

/// The bytes held by an optional vector.
pub open spec fn opt_bytes(o: Option<Vec<u8>>) -> Option<Seq<u8>> {
    match o {
        Some(v) => Some(v@),
        None => None,
    }
}

pub fn describe_characteristic(
    uuid: String,
    service_uuid: String,
    properties: CharProperties,
    value: Option<Vec<u8>>,
) -> (r: DiscoveredCharacteristic)
    ensures
        describes(
            r,
            uuid@,
            service_uuid@,
            properties,
            opt_bytes(value),
        ),
{
    let ghost vs = opt_bytes(value);
    let props = property_names(properties);
    let (value_hex, value_utf8) = match value {
        Some(data) => (Some(hex_encode(data.as_slice())), printable_text(data.as_slice())),
        None => (None, None),
    };
    let known = known_characteristic_name(uuid.as_str());
    let description = match known {
        Some(n) => Some(String::from_str(n)),
        None => None,
    };
    let r = DiscoveredCharacteristic {
        uuid,
        service_uuid,
        properties: props,
        value_hex,
        value_utf8,
        is_known: known.is_some(),
        description,
    };
    proof {
        match vs {
            Some(v) => {
                assert(r.value_hex matches Some(h) && h@ == hex_lower(v));
            },
            None => {},
        }
    }
    r
}

// ============================================================================
// Grouping by service
// ============================================================================

/// The characteristics of `cs` that belong to the service `key`, in order.
pub open spec fn chars_of_service(cs: Seq<DiscoveredCharacteristic>, key: Seq<char>) -> Seq<DiscoveredCharacteristic>
    decreases cs.len(),
{
    if cs.len() == 0 {
        Seq::empty()
    } else {
        let rest = chars_of_service(cs.drop_last(), key);
        if cs.last().service_uuid@ == key {
            rest.push(cs.last())
        } else {
            rest
        }
    }
}

/// `services` groups `cs` by service: one primary service per distinct
/// service UUID of `cs`, sorted by UUID text, each holding exactly the
/// characteristics of that service in their original order.
pub open spec fn groups_by_service(services: Seq<DiscoveredService>, cs: Seq<DiscoveredCharacteristic>) -> bool {
    &&& forall|a: int, b: int|
        0 <= a < b < services.len() ==> seq_lt(
            #[trigger] services[a].uuid@,
            #[trigger] services[b].uuid@,
        )
    &&& forall|a: int|
        0 <= a < services.len() ==> (#[trigger] services[a]).is_primary
            && services[a].characteristics@ == chars_of_service(cs, services[a].uuid@)
            && services[a].characteristics@.len() > 0
    &&& forall|j: int|
        0 <= j < cs.len() ==> exists|a: int|
            0 <= a < services.len() && (#[trigger] services[a]).uuid@ == (#[trigger] cs[j]).service_uuid@
}

proof fn lemma_chars_of_absent(cs: Seq<DiscoveredCharacteristic>, key: Seq<char>)
    requires
        forall|j: int| 0 <= j < cs.len() ==> (#[trigger] cs[j]).service_uuid@ != key,
    ensures
        chars_of_service(cs, key) == Seq::<DiscoveredCharacteristic>::empty(),
    decreases cs.len(),
{
    if cs.len() > 0 {
        lemma_chars_of_absent(cs.drop_last(), key);
    }
}

/// Services sorted strictly by UUID text.
pub open spec fn sorted_services(services: Seq<DiscoveredService>) -> bool {
    forall|a: int, b: int|
        0 <= a < b < services.len() ==> seq_lt(
            #[trigger] services[a].uuid@,
            #[trigger] services[b].uuid@,
        )
}

/// Where the service `key` is in sorted `services`: `(true, i)` when
/// `services[i]` is it, `(false, i)` when it would be inserted at `i`.
fn locate_service(services: &Vec<DiscoveredService>, key: &str) -> (r: (bool, usize))
    requires
        sorted_services(services@),
    ensures
        r.1 <= services@.len(),
        r.0 ==> r.1 < services@.len() && services@[r.1 as int].uuid@ == key@,
        !r.0 ==> (forall|j: int| 0 <= j < r.1 ==> seq_lt(#[trigger] services@[j].uuid@, key@)) && (
        forall|j: int| r.1 <= j < services@.len() ==> seq_lt(key@, #[trigger] services@[j].uuid@)),
{
    let mut i: usize = 0;
    while i < services.len()
        invariant
            sorted_services(services@),
            i <= services@.len(),
            forall|j: int| 0 <= j < i ==> seq_lt(#[trigger] services@[j].uuid@, key@),
        decreases services@.len() - i,
    {
        if str_eq(services[i].uuid.as_str(), key) {
            return (true, i);
        }
        if str_lt(key, services[i].uuid.as_str()) {
            proof {
                assert forall|j: int| i <= j < services@.len() implies seq_lt(
                    key@,
                    #[trigger] services@[j].uuid@,
                ) by {
                    if j > i {
                        lemma_seq_lt_transitive(key@, services@[i as int].uuid@, services@[j].uuid@);
                    }
                }
            }
            return (false, i);
        }
        proof {
            lemma_seq_lt_total(services@[i as int].uuid@, key@);
        }
        i = i + 1;
    }
    (false, i)
}

proof fn lemma_chars_of_push(cs: Seq<DiscoveredCharacteristic>, c: DiscoveredCharacteristic, key: Seq<char>)
    ensures
        chars_of_service(cs.push(c), key) == (if c.service_uuid@ == key {
            chars_of_service(cs, key).push(c)
        } else {
            chars_of_service(cs, key)
        }),
{
    assert(cs.push(c).drop_last() =~= cs);
}

proof fn lemma_group_into_found(
    prev: Seq<DiscoveredService>,
    new: Seq<DiscoveredService>,
    done: Seq<DiscoveredCharacteristic>,
    c: DiscoveredCharacteristic,
    i: int,
)
    requires
        groups_by_service(prev, done),
        0 <= i < prev.len(),
        prev[i].uuid@ == c.service_uuid@,
        new.len() == prev.len(),
        forall|a: int| 0 <= a < prev.len() && a != i ==> new[a] == prev[a],
        new[i].uuid == prev[i].uuid,
        new[i].is_primary,
        new[i].characteristics@ == prev[i].characteristics@.push(c),
    ensures
        groups_by_service(new, done.push(c)),
{
    let d2 = done.push(c);
    assert forall|a: int, b: int| 0 <= a < b < new.len() implies seq_lt(
        #[trigger] new[a].uuid@,
        #[trigger] new[b].uuid@,
    ) by {
        assert(seq_lt(prev[a].uuid@, prev[b].uuid@));
    }
    assert forall|a: int| 0 <= a < new.len() implies (#[trigger] new[a]).is_primary
        && new[a].characteristics@ == chars_of_service(d2, new[a].uuid@)
        && new[a].characteristics@.len() > 0 by {
        lemma_chars_of_push(done, c, new[a].uuid@);
        if a != i {
            if a < i {
                lemma_seq_lt_asymmetric(prev[a].uuid@, prev[i].uuid@);
            } else {
                lemma_seq_lt_asymmetric(prev[i].uuid@, prev[a].uuid@);
            }
        }
    }
    assert forall|j: int| 0 <= j < d2.len() implies exists|a: int|
        0 <= a < new.len() && (#[trigger] new[a]).uuid@ == (#[trigger] d2[j]).service_uuid@ by {
        if j < done.len() {
            assert(d2[j] == done[j]);
            let a = choose|a: int| 0 <= a < prev.len() && (#[trigger] prev[a]).uuid@ == done[j].service_uuid@;
            assert(new[a].uuid == prev[a].uuid);
        } else {
            assert(d2[j] == c);
            assert(new[i].uuid@ == c.service_uuid@);
        }
    }
}

proof fn lemma_group_insert_new(
    prev: Seq<DiscoveredService>,
    new: Seq<DiscoveredService>,
    done: Seq<DiscoveredCharacteristic>,
    c: DiscoveredCharacteristic,
    i: int,
)
    requires
        groups_by_service(prev, done),
        0 <= i <= prev.len(),
        forall|j: int| 0 <= j < i ==> seq_lt(#[trigger] prev[j].uuid@, c.service_uuid@),
        forall|j: int| i <= j < prev.len() ==> seq_lt(c.service_uuid@, #[trigger] prev[j].uuid@),
        new.len() == prev.len() + 1,
        forall|a: int| 0 <= a < i ==> new[a] == prev[a],
        forall|a: int| i < a < new.len() ==> new[a] == prev[a - 1],
        new[i].uuid@ == c.service_uuid@,
        new[i].is_primary,
        new[i].characteristics@ == seq![c],
    ensures
        groups_by_service(new, done.push(c)),
{
    let d2 = done.push(c);
    let key = c.service_uuid@;
    // No service of `prev` has the key, so no earlier characteristic has it.
    assert forall|a: int| 0 <= a < prev.len() implies (#[trigger] prev[a]).uuid@ != key by {
        if a < i {
            lemma_seq_lt_asymmetric(prev[a].uuid@, key);
        } else {
            lemma_seq_lt_asymmetric(key, prev[a].uuid@);
        }
    }
    assert forall|j: int| 0 <= j < done.len() implies (#[trigger] done[j]).service_uuid@ != key by {
        let a = choose|a: int| 0 <= a < prev.len() && (#[trigger] prev[a]).uuid@ == done[j].service_uuid@;
        assert(prev[a].uuid@ != key);
    }
    lemma_chars_of_absent(done, key);
    assert forall|a: int, b: int| 0 <= a < b < new.len() implies seq_lt(
        #[trigger] new[a].uuid@,
        #[trigger] new[b].uuid@,
    ) by {
        if b < i {
            assert(seq_lt(prev[a].uuid@, prev[b].uuid@));
        } else if b == i {
            assert(seq_lt(prev[a].uuid@, key));
        } else if a < i {
            assert(seq_lt(prev[a].uuid@, prev[b - 1].uuid@));
        } else if a == i {
            assert(seq_lt(key, prev[b - 1].uuid@));
        } else {
            assert(seq_lt(prev[a - 1].uuid@, prev[b - 1].uuid@));
        }
    }
    assert forall|a: int| 0 <= a < new.len() implies (#[trigger] new[a]).is_primary
        && new[a].characteristics@ == chars_of_service(d2, new[a].uuid@)
        && new[a].characteristics@.len() > 0 by {
        lemma_chars_of_push(done, c, new[a].uuid@);
        if a < i {
            assert(prev[a].uuid@ != key);
        } else if a > i {
            assert(prev[a - 1].uuid@ != key);
        } else {
            assert(chars_of_service(done, key).push(c) =~= seq![c]);
        }
    }
    assert forall|j: int| 0 <= j < d2.len() implies exists|a: int|
        0 <= a < new.len() && (#[trigger] new[a]).uuid@ == (#[trigger] d2[j]).service_uuid@ by {
        if j < done.len() {
            assert(d2[j] == done[j]);
            let a = choose|a: int| 0 <= a < prev.len() && (#[trigger] prev[a]).uuid@ == done[j].service_uuid@;
            if a < i {
                assert(new[a] == prev[a]);
            } else {
                assert(new[a + 1] == prev[a]);
            }
        } else {
            assert(d2[j] == c);
            assert(new[i].uuid@ == key);
        }
    }
}

/// Groups characteristics by their service UUID text: services are sorted by
/// UUID text, characteristics keep their order within each service, and every
/// service is reported as primary.
pub fn group_by_service(chars: Vec<DiscoveredCharacteristic>) -> (r: Vec<DiscoveredService>)
    ensures
        groups_by_service(r@, chars@),
{
    let ghost all = chars@;
    let mut services: Vec<DiscoveredService> = Vec::new();
    let mut rest = chars;
    let ghost mut done: Seq<DiscoveredCharacteristic> = Seq::empty();
    let n = rest.len();
    let mut k: usize = 0;
    while k < n
        invariant
            n == all.len(),
            k <= n,
            rest@ == all.skip(k as int),
            done == all.take(k as int),
            groups_by_service(services@, done),
        decreases n - k,
    {
        let c = rest.remove(0);
        proof {
            assert(c == all[k as int]);
            assert(all.skip(k as int).remove(0) =~= all.skip(k + 1));
        }
        let ghost prev = services@;
        let (found, i) = locate_service(&services, c.service_uuid.as_str());
        if found {
            let mut svc = services.remove(i);
            svc.characteristics.push(c);
            services.insert(i, svc);
            proof {
                lemma_group_into_found(prev, services@, done, c, i as int);
            }
        } else {
            let key = c.service_uuid.clone();
            let svc = DiscoveredService { uuid: key, is_primary: true, characteristics: vec![c] };
            services.insert(i, svc);
            proof {
                assert(services@[i as int].characteristics@ =~= seq![c]);
                lemma_group_insert_new(prev, services@, done, c, i as int);
            }
        }
        proof {
            done = done.push(c);
            assert(done =~= all.take(k + 1));
        }
        k = k + 1;
    }
    proof {
        assert(done =~= all);
    }
    services
}

// ============================================================================
// Selecting characteristics
// ============================================================================

/// The device can push values from a characteristic that notifies or
/// indicates.
pub open spec fn is_notifiable(p: CharProperties) -> bool {
    p.notify || p.indicate
}

/// The indices, in order, of the first `k` characteristics that notify or
/// indicate.
pub open spec fn notifiable_prefix(ps: Seq<CharProperties>, k: nat) -> Seq<usize>
    decreases k,
{
    if k == 0 {
        Seq::empty()
    } else if is_notifiable(ps[k - 1]) {
        notifiable_prefix(ps, (k - 1) as nat).push((k - 1) as usize)
    } else {
        notifiable_prefix(ps, (k - 1) as nat)
    }
}

/// The indices, in order, of the first `k` readable characteristics.
pub open spec fn readable_prefix(ps: Seq<CharProperties>, k: nat) -> Seq<usize>
    decreases k,
{
    if k == 0 {
        Seq::empty()
    } else if ps[k - 1].read {
        readable_prefix(ps, (k - 1) as nat).push((k - 1) as usize)
    } else {
        readable_prefix(ps, (k - 1) as nat)
    }
}

/// The characteristics to subscribe to for notifications: the indices of
/// those that notify or indicate, in order.
pub fn notifiable_indices(props: &Vec<CharProperties>) -> (r: Vec<usize>)
    ensures
        r@ == notifiable_prefix(props@, props@.len()),
{
    let mut r: Vec<usize> = Vec::new();
    let mut i: usize = 0;
    while i < props.len()
        invariant
            i <= props@.len(),
            r@ == notifiable_prefix(props@, i as nat),
        decreases props@.len() - i,
    {
        if props[i].notify || props[i].indicate {
            r.push(i);
        }
        i = i + 1;
    }
    r
}

/// The characteristics to read: the indices of the readable ones, in order.
pub fn readable_indices(props: &Vec<CharProperties>) -> (r: Vec<usize>)
    ensures
        r@ == readable_prefix(props@, props@.len()),
{
    let mut r: Vec<usize> = Vec::new();
    let mut i: usize = 0;
    while i < props.len()
        invariant
            i <= props@.len(),
            r@ == readable_prefix(props@, i as nat),
        decreases props@.len() - i,
    {
        if props[i].read {
            r.push(i);
        }
        i = i + 1;
    }
    r
}

/// The index of the first UUID equal to `target`, if any.
pub fn find_uuid(uuids: &Vec<Uuid>, target: Uuid) -> (r: Option<usize>)
    ensures
        match r {
            Some(i) => i < uuids@.len() && uuids@[i as int] == target && forall|j: int|
                0 <= j < i ==> #[trigger] uuids@[j] != target,
            None => forall|j: int| 0 <= j < uuids@.len() ==> #[trigger] uuids@[j] != target,
        },
{
    let mut i: usize = 0;
    while i < uuids.len()
        invariant
            i <= uuids@.len(),
            forall|j: int| 0 <= j < i ==> #[trigger] uuids@[j] != target,
        decreases uuids@.len() - i,
    {
        if uuids[i].value == target.value {
            return Some(i);
        }
        i = i + 1;
    }
    None
}

/// The characteristic a command is written to: the first one with the
/// command's UUID, or the error `Characteristic <uuid> not found on device`.
pub fn locate_characteristic(uuids: &Vec<Uuid>, target: Uuid) -> (r: Result<usize, String>)
    ensures
        match r {
            Ok(i) => i < uuids@.len() && uuids@[i as int] == target && forall|j: int|
                0 <= j < i ==> #[trigger] uuids@[j] != target,
            Err(m) => (forall|j: int| 0 <= j < uuids@.len() ==> #[trigger] uuids@[j] != target)
                && m@ == "Characteristic "@ + uuid_hyphenated(target.value) + " not found on device"@,
        },
{
    match find_uuid(uuids, target) {
        Some(i) => Ok(i),
        None => {
            let mut m = String::new();
            push_str(&mut m, "Characteristic ");
            let t = target.to_string();
            push_string(&mut m, &t);
            push_str(&mut m, " not found on device");
            Err(m)
        },
    }
}

// ============================================================================
// Building a profile
// ============================================================================

/// One characteristic as discovered on a connected device: its UUID text,
/// its service's UUID text, its properties, and the value read from it, if
/// one was read.
#[derive(Clone, Debug)]
pub struct CharacteristicReading {
    pub uuid: String,
    pub service_uuid: String,
    pub properties: CharProperties,
    pub value: Option<Vec<u8>>,
}

/// The value a profile shows for a reading: only a readable characteristic
/// has one.
pub open spec fn shown_value(r: CharacteristicReading) -> Option<Seq<u8>> {
    if r.properties.read {
        opt_bytes(r.value)
    } else {
        None
    }
}

/// `cs` describes the readings one for one, in order.
pub open spec fn describes_readings(cs: Seq<DiscoveredCharacteristic>, rs: Seq<CharacteristicReading>) -> bool {
    &&& cs.len() == rs.len()
    &&& forall|i: int|
        0 <= i < rs.len() ==> describes(
            #[trigger] cs[i],
            rs[i].uuid@,
            rs[i].service_uuid@,
            rs[i].properties,
            shown_value(rs[i]),
        )
}

proof fn lemma_chars_of_service_from(cs: Seq<DiscoveredCharacteristic>, key: Seq<char>, k: int)
    requires
        0 <= k < chars_of_service(cs, key).len(),
    ensures
        exists|j: int| 0 <= j < cs.len() && chars_of_service(cs, key)[k] == #[trigger] cs[j],
    decreases cs.len(),
{
    if cs.len() > 0 {
        let rest = chars_of_service(cs.drop_last(), key);
        if k < rest.len() {
            lemma_chars_of_service_from(cs.drop_last(), key, k);
            let j = choose|j: int| 0 <= j < cs.drop_last().len() && rest[k] == #[trigger] cs.drop_last()[j];
            assert(cs[j] == cs.drop_last()[j]);
        } else {
            assert(chars_of_service(cs, key)[k] == cs[cs.len() - 1]);
        }
    }
}

/// Describes each reading; a value is kept only for a readable
/// characteristic.
fn describe_readings(readings: Vec<CharacteristicReading>) -> (r: Vec<DiscoveredCharacteristic>)
    ensures
        describes_readings(r@, readings@),
{
    let ghost all = readings@;
    let mut rest = readings;
    let mut out: Vec<DiscoveredCharacteristic> = Vec::new();
    let n = rest.len();
    let mut k: usize = 0;
    while k < n
        invariant
            n == all.len(),
            k <= n,
            rest@ == all.skip(k as int),
            out@.len() == k,
            forall|i: int|
                0 <= i < k ==> describes(
                    #[trigger] out@[i],
                    all[i].uuid@,
                    all[i].service_uuid@,
                    all[i].properties,
                    shown_value(all[i]),
                ),
        decreases n - k,
    {
        let reading = rest.remove(0);
        proof {
            assert(reading == all[k as int]);
            assert(all.skip(k as int).remove(0) =~= all.skip(k + 1));
        }
        let value = if reading.properties.read {
            reading.value
        } else {
            None
        };
        let c = describe_characteristic(reading.uuid, reading.service_uuid, reading.properties, value);
        out.push(c);
        k = k + 1;
    }
    out
}

/// Builds the GATT profile of a device from its characteristics as read:
/// each is described (a value shown only when the characteristic is
/// readable) and grouped under its service, services sorted by UUID text.
pub fn gatt_profile(
    device_name: Option<String>,
    device_address: String,
    timestamp: String,
    readings: Vec<CharacteristicReading>,
) -> (r: GattProfile)
    ensures
        r.device_name == device_name,
        r.device_address == device_address,
        r.timestamp == timestamp,
        exists|cs: Seq<DiscoveredCharacteristic>|
            describes_readings(cs, readings@) && #[trigger] groups_by_service(r.services@, cs),
        forall|a: int, k: int|
            0 <= a < r.services@.len() && 0 <= k < r.services@[a].characteristics@.len()
                && (#[trigger] r.services@[a].characteristics@[k]).value_hex is Some
                ==> texts(r.services@[a].characteristics@[k].properties@).contains("READ"@),
{
    let ghost rs = readings@;
    let described = describe_readings(readings);
    let ghost cs = described@;
    let services = group_by_service(described);
    proof {
        assert forall|a: int, k: int|
            0 <= a < services@.len() && 0 <= k < services@[a].characteristics@.len()
                && (#[trigger] services@[a].characteristics@[k]).value_hex is Some
            implies texts(services@[a].characteristics@[k].properties@).contains("READ"@) by {
            let key = services@[a].uuid@;
            assert(services@[a].characteristics@ == chars_of_service(cs, key));
            lemma_chars_of_service_from(cs, key, k);
            let j = choose|j: int| 0 <= j < cs.len() && chars_of_service(cs, key)[k] == #[trigger] cs[j];
            assert(describes(cs[j], rs[j].uuid@, rs[j].service_uuid@, rs[j].properties, shown_value(rs[j])));
            assert(rs[j].properties.read);
            let p = rs[j].properties;
            assert(property_names_spec(p)[0] == "READ"@);
            assert(texts(cs[j].properties@)[0] == "READ"@);
        }
        assert(describes_readings(cs, rs) && groups_by_service(services@, cs));
    }
    GattProfile { device_name, device_address, timestamp, services }
}

} // verus!
