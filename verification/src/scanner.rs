//! Decisions of BLE device discovery: which advertised names look like a
//! StealthTech center channel, which identifier to show for a peripheral, and
//! which scan result a user-given address selects.

use vstd::prelude::*;

use crate::characteristics::{device_name_patterns, stealthtech_device_names};
use crate::text::{contains_seq, str_contains, str_eq, to_lowercase, unicode_lowercase};

verus! {

/// An advertised name matches a known StealthTech name pattern: its
/// lower-cased form contains one of the patterns.
pub open spec fn is_stealthtech_name_spec(name: Seq<char>) -> bool {
    exists|k: int|
        0 <= k < device_name_patterns().len() && contains_seq(
            unicode_lowercase(name),
            #[trigger] device_name_patterns()[k],
        )
}

/// Returns whether an advertised name looks like a StealthTech center
/// channel (case-insensitive partial match against the known names).
/// Peripherals without a name never match.
pub fn is_stealthtech_name(name: Option<&str>) -> (r: bool)
    ensures
        r == match name {
            Some(n) => is_stealthtech_name_spec(n@),
            None => false,
        },
{
    match name {
        None => false,
        Some(n) => {
            let lower = to_lowercase(n);
            let patterns = stealthtech_device_names();
            let mut k: usize = 0;
            while k < patterns.len()
                invariant
                    name == Some(n),
                    lower@ == unicode_lowercase(n@),
                    patterns@.len() == device_name_patterns().len(),
                    forall|j: int|
                        0 <= j < patterns@.len() ==> patterns@[j]@ == device_name_patterns()[j],
                    k <= patterns@.len(),
                    forall|j: int|
                        0 <= j < k ==> !contains_seq(lower@, #[trigger] device_name_patterns()[j]),
                decreases patterns@.len() - k,
            {
                if str_contains(lower.as_str(), patterns[k]) {
                    assert(contains_seq(lower@, device_name_patterns()[k as int]));
                    return true;
                }
                k = k + 1;
            }
            false
        },
    }
}

/// The identifier shown for a peripheral: its address, unless the platform
/// hides real addresses (all zeros, as CoreBluetooth reports), in which case
/// the platform's peripheral id.
pub fn peripheral_address(address: String, id: String) -> (r: String)
    ensures
        r@ == (if address@ == "00:00:00:00:00:00"@ {
            id@
        } else {
            address@
        }),
{
    if str_eq(address.as_str(), "00:00:00:00:00:00") {
        id
    } else {
        address
    }
}

/// The index of the first address that equals `target` ignoring case, if
/// any.
pub fn find_device_by_address(addresses: &Vec<String>, target: &str) -> (r: Option<usize>)
    ensures
        match r {
            Some(i) => i < addresses@.len() && unicode_lowercase(addresses@[i as int]@)
                == unicode_lowercase(target@) && forall|j: int|
                0 <= j < i ==> unicode_lowercase(#[trigger] addresses@[j]@) != unicode_lowercase(
                    target@,
                ),
            None => forall|j: int|
                0 <= j < addresses@.len() ==> unicode_lowercase(#[trigger] addresses@[j]@)
                    != unicode_lowercase(target@),
        },
{
    let wanted = to_lowercase(target);
    let mut i: usize = 0;
    while i < addresses.len()
        invariant
            wanted@ == unicode_lowercase(target@),
            i <= addresses@.len(),
            forall|j: int|
                0 <= j < i ==> unicode_lowercase(#[trigger] addresses@[j]@) != unicode_lowercase(
                    target@,
                ),
        decreases addresses@.len() - i,
    {
        let lower = to_lowercase(addresses[i].as_str());
        if str_eq(lower.as_str(), wanted.as_str()) {
            return Some(i);
        }
        i = i + 1;
    }
    None
}

/// Whether an optional advertised name looks like a StealthTech device.
pub open spec fn matches_name(name: Option<String>) -> bool {
    match name {
        Some(n) => is_stealthtech_name_spec(n@),
        None => false,
    }
}

/// The indices, in order, of the first `k` devices whose advertised name
/// looks like a StealthTech device.
pub open spec fn stealthtech_prefix(names: Seq<Option<String>>, k: nat) -> Seq<usize>
    decreases k,
{
    if k == 0 {
        Seq::empty()
    } else if matches_name(names[k - 1]) {
        stealthtech_prefix(names, (k - 1) as nat).push((k - 1) as usize)
    } else {
        stealthtech_prefix(names, (k - 1) as nat)
    }
}

/// Which scanned devices a StealthTech scan reports: the indices, in scan
/// order, of the devices whose advertised name matches a StealthTech name
/// pattern; devices without a name are left out.
pub fn stealthtech_devices(names: &Vec<Option<String>>) -> (r: Vec<usize>)
    ensures
        r@ == stealthtech_prefix(names@, names@.len()),
{
    let mut r: Vec<usize> = Vec::new();
    let mut i: usize = 0;
    while i < names.len()
        invariant
            i <= names@.len(),
            r@ == stealthtech_prefix(names@, i as nat),
        decreases names@.len() - i,
    {
        let m = match &names[i] {
            Some(n) => is_stealthtech_name(Some(n.as_str())),
            None => false,
        };
        if m {
            r.push(i);
        }
        i = i + 1;
    }
    r
}

} // verus!
