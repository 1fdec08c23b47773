//! Linking of Shelly devices: the Bluetooth interface of a Shelly names the MAC address of
//! the device, so it can be linked to the network interface without asking.

use vstd::prelude::*;
use vstd::utf8::*;

use crate::device;
use crate::device::{DeviceModel, DeviceRecord};
use crate::links;
use crate::links::LinksModel;
use crate::text;
use crate::text_map;
use crate::text_map::{Duplicate, TextMap};

verus! {

broadcast use vstd::string::group_string_axioms;

/// The MAC address in the name of a Shelly device: its last twelve bytes, in capitals, where
/// these are hexadecimal digits.
pub open spec fn shelly_mac(name: Seq<char>) -> Option<Seq<char>> {
    let cleaned = text::trimmed(name);
    let size = text::bytes(cleaned);
    if text::has(text::lowercase(name), "shelly"@) && size >= 12 && text::all_hex(
        text::behind_bytes(cleaned, size - 12),
    ) {
        Some(text::uppercase(text::behind_bytes(cleaned, size - 12)))
    } else {
        None
    }
}

/// The last twelve bytes of a Shelly's name begin with a character.
pub open spec fn name_cuts(name: Seq<char>) -> bool {
    let cleaned = text::trimmed(name);
    let size = text::bytes(cleaned);
    text::has(text::lowercase(name), "shelly"@) && size >= 12 ==> text::cuts_at(cleaned, size - 12)
}

/// The host name in capitals.
pub open spec fn large_host(d: DeviceModel) -> Seq<char> {
    text::uppercase(d.meta_or_empty("hostname"@))
}

/// `d` is a network device whose MAC address is `mac` or begins with it: its reported address,
/// or the one in the host name of a Shelly.
pub open spec fn claims(d: DeviceModel, mac: Seq<char>) -> bool {
    !d.is_ble() && (claims_by_address(d, mac) || claims_by_host(d, mac))
}

pub open spec fn claims_by_address(d: DeviceModel, mac: Seq<char>) -> bool {
    match d.meta("mac"@) {
        Some(own) => {
            let plain = device::plain_mac(own);
            text::bytes(plain) == 12 && (mac == plain || mac == text::first_bytes(plain, 10))
        },
        None => false,
    }
}

pub open spec fn claims_by_host(d: DeviceModel, mac: Seq<char>) -> bool {
    text::has(large_host(d), "SHELLY"@) && match shelly_mac(large_host(d)) {
        Some(own) => mac == own || mac == own.take(10),
        None => false,
    }
}

/// What is cut from the MAC address and the host name of a network device ends and begins
/// with whole characters.
pub open spec fn addresses_cut(d: DeviceModel) -> bool {
    !d.is_ble() ==> {
        &&& match d.meta("mac"@) {
            Some(own) => text::bytes(device::plain_mac(own)) == 12 ==> text::cuts_at(device::plain_mac(own), 10),
            None => true,
        }
        &&& text::has(large_host(d), "SHELLY"@) ==> name_cuts(large_host(d))
    }
}

/// The last device that claims `mac`.
pub open spec fn mac_owner(devices: Seq<DeviceModel>, mac: Seq<char>) -> Option<Seq<char>>
    decreases devices.len(),
{
    if devices.len() == 0 {
        None
    } else if claims(devices.last(), mac) {
        Some(devices.last().device_id)
    } else {
        mac_owner(devices.drop_last(), mac)
    }
}

/// `d` is a network device whose name or host name holds the model name `model`.
pub open spec fn names_model(d: DeviceModel, model: Seq<char>) -> bool {
    !d.is_ble() && (text::has(text::lowercase(d.display_name), model) || text::has(
        text::lowercase(large_host(d)),
        model,
    ))
}

/// The device that stands for a model: the last active one of that model, or the first one
/// where none is active.
pub open spec fn model_owner(devices: Seq<DeviceModel>, model: Seq<char>) -> Option<Seq<char>>
    decreases devices.len(),
{
    if devices.len() == 0 {
        None
    } else {
        let before = model_owner(devices.drop_last(), model);
        let d = devices.last();
        if names_model(d, model) && (d.is_active() || before is None) {
            Some(d.device_id)
        } else {
            before
        }
    }
}

/// The device that stands for `model`, where `name` names it.
pub open spec fn named_model_owner(devices: Seq<DeviceModel>, name: Seq<char>, model: Seq<char>) -> Option<Seq<char>> {
    if text::has(text::lowercase(name), model) {
        model_owner(devices, model)
    } else {
        None
    }
}

/// The network device for a Bluetooth interface that is called `name` and names the address
/// `mac`: by the whole address, by its first ten digits, or by the model.
pub open spec fn primary_for(devices: Seq<DeviceModel>, name: Seq<char>, mac: Seq<char>) -> Option<Seq<char>> {
    if mac_owner(devices, mac) is Some {
        mac_owner(devices, mac)
    } else if mac_owner(devices, mac.take(10)) is Some {
        mac_owner(devices, mac.take(10))
    } else if named_model_owner(devices, name, "shellypro3em"@) is Some {
        named_model_owner(devices, name, "shellypro3em"@)
    } else if named_model_owner(devices, name, "shellypro4pm"@) is Some {
        named_model_owner(devices, name, "shellypro4pm"@)
    } else {
        named_model_owner(devices, name, "shellyplus1"@)
    }
}

/// The network device under which the Bluetooth interface `d` belongs.
pub open spec fn proposed_primary(devices: Seq<DeviceModel>, d: DeviceModel) -> Option<Seq<char>> {
    if !d.is_ble() {
        None
    } else {
        match shelly_mac(d.display_name) {
            Some(mac) => match primary_for(devices, d.display_name, mac) {
                Some(p) => if p == d.device_id {
                    None
                } else {
                    Some(p)
                },
                None => None,
            },
            None => None,
        }
    }
}

/// `links` with `d` linked where it belongs, unless it is linked already.
pub open spec fn with_device(devices: Seq<DeviceModel>, links: LinksModel, d: DeviceModel) -> LinksModel {
    match proposed_primary(devices, d) {
        Some(p) => if links::is_secondary(links, d.device_id) {
            links
        } else {
            links.insert(p, links::links_of(links, p).push(d.device_id))
        },
        None => links,
    }
}

/// `links` with each of `some`, in turn, linked where it belongs among `devices`.
pub open spec fn auto_linked(devices: Seq<DeviceModel>, some: Seq<DeviceModel>, links: LinksModel) -> LinksModel
    decreases some.len(),
{
    if some.len() == 0 {
        links
    } else {
        with_device(devices, auto_linked(devices, some.drop_last(), links), some.last())
    }
}

/// The name of the device at `i` is not read when its turn comes, or can be cut.
pub open spec fn turn_cuts(devices: Seq<DeviceModel>, links: LinksModel, i: int) -> bool {
    devices[i].is_ble() && !links::is_secondary(
        auto_linked(devices, devices.take(i), links),
        devices[i].device_id,
    ) ==> name_cuts(devices[i].display_name)
}

/// Every cut that linking `devices` makes falls between two characters.
pub open spec fn can_auto_link(devices: Seq<DeviceModel>, links: LinksModel) -> bool {
    &&& forall|i: int| 0 <= i < devices.len() ==> addresses_cut(#[trigger] devices[i])
    &&& forall|i: int| 0 <= i < devices.len() ==> #[trigger] turn_cuts(devices, links, i)
}

/// The MAC address that a Shelly carries at the end of its name, in capitals.
pub fn extract_shelly_mac_hex(name: &str) -> (r: Option<String>)
    requires
        name_cuts(name@),
    ensures
        r.deep_view() == shelly_mac(name@),
        match r {
            Some(mac) => mac@.len() == 12,
            None => true,
        },
{
    let small = name.to_lowercase();
    if !text::contains(small.as_str(), "shelly") {
        return None;
    }
    let cleaned = text::trim(name);
    let size: usize = text::byte_len(cleaned.as_str());
    if size < 12 {
        return None;
    }
    let tail = text::cut(cleaned.as_str(), size - 12).1;
    let chars = text::chars_of(tail);
    assert(chars@.subrange(0, chars@.len() as int) =~= tail@);
    if text::hex_from(&chars, 0) {
        proof {
            text::lemma_hex_tail(cleaned@, size - 12);
        }
        Some(tail.to_uppercase())
    } else {
        None
    }
}

/// The case of ASCII letters changes neither whether a name can be read nor the MAC address that it
/// carries. A name in ASCII can always be read.
pub proof fn case_changes_no_address(name: Seq<char>, other: Seq<char>)
    requires
        text::same_ignoring_ascii_case(name, other),
    ensures
        name_cuts(other) == name_cuts(name),
        name_cuts(name) ==> shelly_mac(other) == shelly_mac(name),
        is_ascii_chars(name) ==> name_cuts(name),
{
    let a = text::trimmed(name);
    let b = text::trimmed(other);
    text::case_of_ascii_letters_is_lowered(name, other);
    text::lemma_trimmed_alike(name, other);
    text::lemma_cuts_alike(a, b, 0);
    let n = text::bytes(a) - 12;
    if n >= 0 {
        text::lemma_cuts_alike(a, b, n);
        if text::cuts_at(a, n) {
            let x = text::behind_bytes(a, n);
            let y = text::behind_bytes(b, n);
            assert forall|i: int| 0 <= i < x.len() implies text::is_hex_digit(#[trigger] x[i]) == text::is_hex_digit(y[i]) by {
                assert(text::ascii_small(x[i]) == text::ascii_small(y[i]));
            }
            assert forall|i: int| 0 <= i < x.len() implies text::is_hex_digit(x[i]) == text::is_hex_digit(#[trigger] y[i]) by {
                assert(text::ascii_small(x[i]) == text::ascii_small(y[i]));
            }
            if text::all_hex(x) {
                assert forall|i: int| 0 <= i < x.len() implies '\0' <= #[trigger] x[i] <= '\u{7f}' by {
                    assert(text::is_hex_digit(x[i]));
                }
                text::lemma_ascii_alike(x, y);
            }
        }
        if is_ascii_chars(name) {
            text::lemma_trimmed_ascii(name);
            text::lemma_ascii_tail(a, 0);
            text::lemma_ascii_tail(a, n);
        }
    }
}

/// A name in small letters and one in capitals carry the same MAC address as the name itself.
pub proof fn small_and_large_names_carry_one_address(name: Seq<char>)
    requires
        name_cuts(name),
    ensures
        shelly_mac(text::ascii_lowercase(name)) == shelly_mac(name),
        shelly_mac(text::ascii_uppercase(name)) == shelly_mac(name),
{
    assert(text::same_ignoring_ascii_case(name, text::ascii_lowercase(name)));
    assert(text::same_ignoring_ascii_case(name, text::ascii_uppercase(name)));
    case_changes_no_address(name, text::ascii_lowercase(name));
    case_changes_no_address(name, text::ascii_uppercase(name));
}

/// White space around a Shelly's name does not change the MAC address in it, as long as the name
/// counts as that of a Shelly with the space and without it. Among ASCII texts it always does so.
pub proof fn space_changes_no_address(before: Seq<char>, name: Seq<char>, after: Seq<char>)
    requires
        text::all_whitespace(before),
        text::all_whitespace(after),
    ensures
        ({
            let whole = before + name + after;
            &&& text::trimmed(whole) == text::trimmed(name)
            &&& text::has(text::lowercase(whole), "shelly"@) == text::has(text::lowercase(name), "shelly"@)
                ==> shelly_mac(whole) == shelly_mac(name) && name_cuts(whole) == name_cuts(name)
            &&& is_ascii_chars(whole) ==> shelly_mac(whole) == shelly_mac(name) && name_cuts(whole)
        }),
{
    let whole = before + name + after;
    text::lemma_space_is_trimmed(before, name, after);
    if is_ascii_chars(whole) {
        let small = text::lowercase(name);
        let all = text::lowercase(whole);
        let n = before.len() as int;
        reveal_strlit("shelly");
        assert forall|i: int| 0 <= i < name.len() implies '\0' <= #[trigger] name[i] <= '\u{7f}' by {
            assert(whole[n + i] == name[i]);
        }
        if text::has(small, "shelly"@) {
            let i = choose|i: int| text::occurs_at(small, "shelly"@, i);
            assert(all.subrange(n + i, n + i + 6) =~= small.subrange(i, i + 6));
            assert(text::occurs_at(all, "shelly"@, n + i));
        }
        if text::has(all, "shelly"@) {
            let i = choose|i: int| text::occurs_at(all, "shelly"@, i);
            let part = all.subrange(i, i + 6);
            assert(part[0] == 's');
            assert(part[5] == 'y');
            assert(all[i] == 's');
            assert(all[i + 5] == 'y');
            if i < n {
                assert(whole[i] == before[i]);
            }
            if i + 5 >= n + name.len() {
                assert(whole[i + 5] == after[i + 5 - n - name.len()]);
            }
            assert(small.subrange(i - n, i - n + 6) =~= part);
            assert(text::occurs_at(small, "shelly"@, i - n));
        }
        case_changes_no_address(whole, whole);
    }
}

/// The host name in capitals.
fn large_host_of(d: &DeviceRecord) -> (r: String)
    ensures
        r@ == large_host(d.deep_view()),
{
    d.meta_or_empty("hostname").as_str().to_uppercase()
}

fn claims_by_address_of(d: &DeviceRecord, mac: &str) -> (r: bool)
    requires
        addresses_cut(d.deep_view()),
        !d.deep_view().is_ble(),
    ensures
        r == claims_by_address(d.deep_view(), mac@),
{
    match d.meta("mac") {
        Some(own) => {
            let plain = device::plain_mac_of(own.as_str());
            text::byte_len(plain.as_str()) == 12 && (text::same(mac, plain.as_str()) || text::same(
                mac,
                text::cut(plain.as_str(), 10).0,
            ))
        },
        None => false,
    }
}

fn claims_by_host_of(d: &DeviceRecord, mac: &str) -> (r: bool)
    requires
        addresses_cut(d.deep_view()),
        !d.deep_view().is_ble(),
    ensures
        r == claims_by_host(d.deep_view(), mac@),
{
    let host = large_host_of(d);
    if !text::contains(host.as_str(), "SHELLY") {
        return false;
    }
    match extract_shelly_mac_hex(host.as_str()) {
        Some(own) => text::same(mac, own.as_str()) || text::same(mac, text::slice(own.as_str(), 0, 10).as_str()),
        None => false,
    }
}

/// The last device that claims `mac`.
fn mac_owner_of(devices: &[DeviceRecord], mac: &str) -> (r: Option<String>)
    requires
        forall|i: int| 0 <= i < devices.deep_view().len() ==> addresses_cut(#[trigger] devices.deep_view()[i]),
    ensures
        r.deep_view() == mac_owner(devices.deep_view(), mac@),
{
    let mut owner: Option<String> = None;
    let mut i: usize = 0;
    while i < devices.len()
        invariant
            i <= devices@.len(),
            forall|j: int| 0 <= j < devices.deep_view().len() ==> addresses_cut(#[trigger] devices.deep_view()[j]),
            owner.deep_view() == mac_owner(devices.deep_view().take(i as int), mac@),
        decreases devices@.len() - i,
    {
        let d = &devices[i];
        let ghost all = devices.deep_view();
        assert(all[i as int] == d.deep_view());
        assert(all.take(i + 1).drop_last() =~= all.take(i as int));
        if !d.is_ble() && (claims_by_address_of(d, mac) || claims_by_host_of(d, mac)) {
            owner = Some(d.device_id.clone());
        }
        i = i + 1;
    }
    assert(devices.deep_view().take(i as int) =~= devices.deep_view());
    owner
}

/// The device that stands for a model.
fn model_owner_of(devices: &[DeviceRecord], model: &str) -> (r: Option<String>)
    ensures
        r.deep_view() == model_owner(devices.deep_view(), model@),
{
    let mut owner: Option<String> = None;
    let mut i: usize = 0;
    while i < devices.len()
        invariant
            i <= devices@.len(),
            owner.deep_view() == model_owner(devices.deep_view().take(i as int), model@),
        decreases devices@.len() - i,
    {
        let d = &devices[i];
        let ghost all = devices.deep_view();
        assert(all[i as int] == d.deep_view());
        assert(all.take(i + 1).drop_last() =~= all.take(i as int));
        let named = !d.is_ble() && (text::contains(d.display_name.as_str().to_lowercase().as_str(), model)
            || text::contains(large_host_of(d).as_str().to_lowercase().as_str(), model));
        if named && (d.is_active() || owner.is_none()) {
            owner = Some(d.device_id.clone());
        }
        i = i + 1;
    }
    assert(devices.deep_view().take(i as int) =~= devices.deep_view());
    owner
}

fn named_model_owner_of(devices: &[DeviceRecord], name: &str, model: &str) -> (r: Option<String>)
    ensures
        r.deep_view() == named_model_owner(devices.deep_view(), name@, model@),
{
    if text::contains(name.to_lowercase().as_str(), model) {
        model_owner_of(devices, model)
    } else {
        None
    }
}

fn primary_of(devices: &[DeviceRecord], name: &str, mac: &str) -> (r: Option<String>)
    requires
        mac@.len() == 12,
        forall|i: int| 0 <= i < devices.deep_view().len() ==> addresses_cut(#[trigger] devices.deep_view()[i]),
    ensures
        r.deep_view() == primary_for(devices.deep_view(), name@, mac@),
{
    let by_mac = mac_owner_of(devices, mac);
    if by_mac.is_some() {
        return by_mac;
    }
    let start = text::slice(mac, 0, 10);
    assert(mac@.subrange(0, 10) =~= mac@.take(10));
    let by_start = mac_owner_of(devices, start.as_str());
    if by_start.is_some() {
        return by_start;
    }
    let by_first = named_model_owner_of(devices, name, "shellypro3em");
    if by_first.is_some() {
        return by_first;
    }
    let by_second = named_model_owner_of(devices, name, "shellypro4pm");
    if by_second.is_some() {
        return by_second;
    }
    named_model_owner_of(devices, name, "shellyplus1")
}

/// The network device under which the Bluetooth interface `d` belongs.
fn proposed_primary_of(devices: &[DeviceRecord], d: &DeviceRecord) -> (r: Option<String>)
    requires
        d.deep_view().is_ble() ==> name_cuts(d.deep_view().display_name),
        forall|i: int| 0 <= i < devices.deep_view().len() ==> addresses_cut(#[trigger] devices.deep_view()[i]),
    ensures
        r.deep_view() == proposed_primary(devices.deep_view(), d.deep_view()),
{
    if !d.is_ble() {
        return None;
    }
    match extract_shelly_mac_hex(d.display_name.as_str()) {
        Some(mac) => match primary_of(devices, d.display_name.as_str(), mac.as_str()) {
            Some(p) => if text::same(p.as_str(), d.device_id.as_str()) {
                None
            } else {
                Some(p)
            },
            None => None,
        },
        None => None,
    }
}

/// The name of a Shelly can be read.
pub fn name_cuts_of(name: &str) -> (r: bool)
    ensures
        r == name_cuts(name@),
{
    let cleaned = text::trim(name);
    let size: usize = text::byte_len(cleaned.as_str());
    let small = name.to_lowercase();
    !text::contains(small.as_str(), "shelly") || size < 12 || cleaned.as_str().is_char_boundary(size - 12)
}

fn addresses_cut_of(d: &DeviceRecord) -> (r: bool)
    ensures
        r == addresses_cut(d.deep_view()),
{
    if d.is_ble() {
        return true;
    }
    match d.meta("mac") {
        Some(own) => {
            let plain = device::plain_mac_of(own.as_str());
            if text::byte_len(plain.as_str()) == 12 && !plain.as_str().is_char_boundary(10) {
                return false;
            }
        },
        None => {},
    }
    let host = large_host_of(d);
    !text::contains(host.as_str(), "SHELLY") || name_cuts_of(host.as_str())
}

/// Links `d` where it belongs, unless it is linked already, and says whether it did.
fn link_device(devices: &[DeviceRecord], links: &mut TextMap<Vec<String>>, d: &DeviceRecord) -> (added: bool)
    requires
        forall|i: int| 0 <= i < devices.deep_view().len() ==> addresses_cut(#[trigger] devices.deep_view()[i]),
        d.deep_view().is_ble() && !links::is_secondary(old(links)@, d.deep_view().device_id) ==> name_cuts(
            d.deep_view().display_name,
        ),
    ensures
        final(links)@ == with_device(devices.deep_view(), old(links)@, d.deep_view()),
        !added ==> final(links)@ == old(links)@,
        added ==> links::is_secondary(final(links)@, d.deep_view().device_id) && !links::is_secondary(
            old(links)@,
            d.deep_view().device_id,
        ),
{
    if d.is_ble() && !links::is_linked(links, d.device_id.as_str()) {
        match proposed_primary_of(devices, d) {
            Some(p) => {
                let ghost before = links@;
                links::put_link(links, p.as_str(), d.device_id.as_str());
                proof {
                    let list = links::links_of(before, p@);
                    assert(before.contains_key(p@) ==> !before[p@].contains(d.device_id@));
                    assert(links@[p@][list.len() as int] == d.device_id@);
                    assert(links@.contains_key(p@) && links@[p@].contains(d.device_id@));
                }
                return true;
            },
            None => {},
        }
    }
    false
}

/// The devices can be linked: every cut that linking them makes falls between two characters.
pub fn linkable(devices: &[DeviceRecord], links: &TextMap<Vec<String>>) -> (r: bool)
    ensures
        r == can_auto_link(devices.deep_view(), links@),
{
    let ghost all = devices.deep_view();
    let mut i: usize = 0;
    while i < devices.len()
        invariant
            i <= devices@.len(),
            all == devices.deep_view(),
            forall|j: int| 0 <= j < i ==> addresses_cut(#[trigger] all[j]),
        decreases devices@.len() - i,
    {
        assert(all[i as int] == devices@[i as int].deep_view());
        if !addresses_cut_of(&devices[i]) {
            return false;
        }
        i = i + 1;
    }
    let mut after = links.duplicate();
    let mut n: usize = 0;
    assert(all.take(0) =~= Seq::<DeviceModel>::empty());
    while n < devices.len()
        invariant
            n <= devices@.len(),
            all == devices.deep_view(),
            forall|j: int| 0 <= j < all.len() ==> addresses_cut(#[trigger] all[j]),
            after@ == auto_linked(all, all.take(n as int), links@),
            forall|j: int| 0 <= j < n ==> #[trigger] turn_cuts(all, links@, j),
        decreases devices@.len() - n,
    {
        let d = &devices[n];
        assert(all[n as int] == d.deep_view());
        assert(all.take(n + 1).drop_last() =~= all.take(n as int));
        if d.is_ble() && !links::is_linked(&after, d.device_id.as_str()) && !name_cuts_of(d.display_name.as_str()) {
            assert(!turn_cuts(all, links@, n as int));
            return false;
        }
        link_device(devices, &mut after, d);
        n = n + 1;
    }
    true
}

/// Links every Bluetooth interface of a Shelly that is not linked yet to the network device
/// that it belongs to, and says whether that changed the links.
pub fn auto_link_deterministic_devices(devices: &[DeviceRecord], links: &mut TextMap<Vec<String>>) -> (modified: bool)
    requires
        can_auto_link(devices.deep_view(), old(links)@),
    ensures
        final(links)@ == auto_linked(devices.deep_view(), devices.deep_view(), old(links)@),
        modified == (final(links)@ != old(links)@),
{
    let ghost all = devices.deep_view();
    let ghost first = links@;
    let mut modified = false;
    let mut i: usize = 0;
    assert(all.take(0) =~= Seq::<DeviceModel>::empty());
    while i < devices.len()
        invariant
            i <= devices@.len(),
            all == devices.deep_view(),
            can_auto_link(all, first),
            links@ == auto_linked(all, all.take(i as int), first),
            !modified ==> links@ == first,
            modified ==> exists|x: Seq<char>| links::is_secondary(links@, x) && !links::is_secondary(first, x),
        decreases devices@.len() - i,
    {
        let d = &devices[i];
        let ghost before = links@;
        assert(all[i as int] == d.deep_view());
        assert(all.take(i + 1).drop_last() =~= all.take(i as int));
        assert(turn_cuts(all, first, i as int));
        if link_device(devices, links, d) {
            modified = true;
        }
        proof {
            lemma_with_device_grows(all, before, d.deep_view());
            lemma_auto_linked_grows(all, all.take(i as int), first);
        }
        i = i + 1;
    }
    assert(all.take(i as int) =~= all);
    modified
}

/// Links the devices where they can be linked; where not, the links stay as they are.
pub fn try_auto_link(devices: &[DeviceRecord], links: &mut TextMap<Vec<String>>) -> (r: Option<bool>)
    ensures
        match r {
            Some(modified) => can_auto_link(devices.deep_view(), old(links)@) && final(links)@ == auto_linked(
                devices.deep_view(),
                devices.deep_view(),
                old(links)@,
            ) && modified == (final(links)@ != old(links)@),
            None => !can_auto_link(devices.deep_view(), old(links)@) && final(links)@ == old(links)@,
        },
{
    if linkable(devices, links) {
        Some(auto_link_deterministic_devices(devices, links))
    } else {
        None
    }
}

/// What was linked is still linked, in the same place.
pub open spec fn extends(before: LinksModel, after: LinksModel) -> bool {
    forall|k: Seq<char>| #[trigger] links::links_of(before, k).is_prefix_of(links::links_of(after, k))
}

/// No id is linked under two devices, or twice under one.
pub open spec fn exclusive(links: LinksModel) -> bool {
    &&& links::no_repeats(links)
    &&& forall|j: Seq<char>, k: Seq<char>, x: Seq<char>|
        #![trigger links[j].contains(x), links[k].contains(x)]
        links.contains_key(j) && links.contains_key(k) && links[j].contains(x) && links[k].contains(x) ==> j == k
}

proof fn lemma_extends(before: LinksModel, after: LinksModel)
    requires
        extends(before, after),
    ensures
        forall|x: Seq<char>| links::is_secondary(before, x) ==> #[trigger] links::is_secondary(after, x),
{
    assert forall|x: Seq<char>| links::is_secondary(before, x) implies #[trigger] links::is_secondary(after, x) by {
        let k = choose|k: Seq<char>| #[trigger] before.contains_key(k) && before[k].contains(x);
        assert(links::links_of(before, k).is_prefix_of(links::links_of(after, k)));
        let i = before[k].index_of(x);
        assert(links::links_of(after, k)[i] == x);
        assert(after.contains_key(k) && after[k].contains(x));
    }
}

proof fn lemma_with_device_grows(devices: Seq<DeviceModel>, links: LinksModel, d: DeviceModel)
    ensures
        extends(links, with_device(devices, links, d)),
        forall|x: Seq<char>| links::is_secondary(links, x) ==> #[trigger] links::is_secondary(with_device(devices, links, d), x),
{
    let after = with_device(devices, links, d);
    assert forall|k: Seq<char>| #[trigger] links::links_of(links, k).is_prefix_of(links::links_of(after, k)) by {}
    lemma_extends(links, after);
}

proof fn lemma_auto_linked_grows(devices: Seq<DeviceModel>, some: Seq<DeviceModel>, links: LinksModel)
    ensures
        extends(links, auto_linked(devices, some, links)),
        forall|x: Seq<char>| links::is_secondary(links, x) ==> #[trigger] links::is_secondary(auto_linked(devices, some, links), x),
    decreases some.len(),
{
    let after = auto_linked(devices, some, links);
    if some.len() > 0 {
        let mid = auto_linked(devices, some.drop_last(), links);
        lemma_auto_linked_grows(devices, some.drop_last(), links);
        lemma_with_device_grows(devices, mid, some.last());
        assert forall|k: Seq<char>| #[trigger] links::links_of(links, k).is_prefix_of(links::links_of(after, k)) by {
            assert(links::links_of(links, k).is_prefix_of(links::links_of(mid, k)));
            assert(links::links_of(mid, k).is_prefix_of(links::links_of(after, k)));
        }
    }
    lemma_extends(links, after);
}

/// `d` is linked, or belongs nowhere.
spec fn settled(devices: Seq<DeviceModel>, links: LinksModel, d: DeviceModel) -> bool {
    proposed_primary(devices, d) is None || links::is_secondary(links, d.device_id)
}

proof fn lemma_all_settled(devices: Seq<DeviceModel>, some: Seq<DeviceModel>, links: LinksModel)
    ensures
        forall|i: int| 0 <= i < some.len() ==> settled(devices, auto_linked(devices, some, links), #[trigger] some[i]),
    decreases some.len(),
{
    if some.len() > 0 {
        let rest = some.drop_last();
        let d = some.last();
        let mid = auto_linked(devices, rest, links);
        let after = with_device(devices, mid, d);
        lemma_all_settled(devices, rest, links);
        lemma_with_device_grows(devices, mid, d);
        if !settled(devices, mid, d) {
            let p = proposed_primary(devices, d)->0;
            let list = links::links_of(mid, p);
            assert(after[p][list.len() as int] == d.device_id);
            assert(after.contains_key(p) && after[p].contains(d.device_id));
        }
        assert forall|i: int| 0 <= i < some.len() implies settled(devices, after, #[trigger] some[i]) by {
            if i < rest.len() {
                assert(rest[i] == some[i]);
            }
        }
    }
}

proof fn lemma_settled_stays(devices: Seq<DeviceModel>, some: Seq<DeviceModel>, links: LinksModel)
    requires
        forall|i: int| 0 <= i < some.len() ==> settled(devices, links, #[trigger] some[i]),
    ensures
        auto_linked(devices, some, links) == links,
    decreases some.len(),
{
    if some.len() > 0 {
        let rest = some.drop_last();
        assert forall|i: int| 0 <= i < rest.len() implies settled(devices, links, #[trigger] rest[i]) by {
            assert(rest[i] == some[i]);
        }
        lemma_settled_stays(devices, rest, links);
        assert(settled(devices, links, some[some.len() - 1]));
    }
}

/// Linking the devices a second time changes nothing.
pub proof fn auto_linking_twice_is_auto_linking_once(devices: Seq<DeviceModel>, links: LinksModel)
    ensures
        ({
            let once = auto_linked(devices, devices, links);
            auto_linked(devices, devices, once) == once
        }),
{
    lemma_all_settled(devices, devices, links);
    lemma_settled_stays(devices, devices, auto_linked(devices, devices, links));
}

/// Links that are there stay where they are; new ones come behind them.
pub proof fn auto_linking_only_adds(devices: Seq<DeviceModel>, links: LinksModel)
    ensures
        extends(links, auto_linked(devices, devices, links)),
{
    lemma_auto_linked_grows(devices, devices, links);
}

proof fn lemma_keeps_exclusive(devices: Seq<DeviceModel>, some: Seq<DeviceModel>, links: LinksModel)
    requires
        exclusive(links),
    ensures
        exclusive(auto_linked(devices, some, links)),
    decreases some.len(),
{
    if some.len() > 0 {
        let mid = auto_linked(devices, some.drop_last(), links);
        let d = some.last();
        let after = with_device(devices, mid, d);
        lemma_keeps_exclusive(devices, some.drop_last(), links);
        if !settled(devices, mid, d) {
            let p = proposed_primary(devices, d)->0;
            let list = links::links_of(mid, p);
            assert(!list.contains(d.device_id)) by {
                if list.contains(d.device_id) {
                    assert(mid.contains_key(p) && mid[p].contains(d.device_id));
                }
            }
            text_map::lemma_push_contains(list, d.device_id);
            assert(links::no_repeats(after)) by {
                assert forall|k: Seq<char>| #[trigger] after.contains_key(k) implies after[k].no_duplicates() by {
                    if k == p {
                        assert(list.no_duplicates());
                        assert(list.push(d.device_id).no_duplicates());
                    } else {
                        assert(mid.contains_key(k));
                    }
                }
            }
            assert forall|j: Seq<char>, k: Seq<char>, x: Seq<char>|
                #![trigger after[j].contains(x), after[k].contains(x)]
                after.contains_key(j) && after.contains_key(k) && after[j].contains(x) && after[k].contains(x) implies j
                == k by {
                if j != k {
                    if x == d.device_id {
                        if j != p {
                            assert(mid.contains_key(j) && mid[j].contains(x));
                        } else {
                            assert(mid.contains_key(k) && mid[k].contains(x));
                        }
                    } else {
                        assert(mid.contains_key(j) && mid[j].contains(x));
                        assert(mid.contains_key(k) && mid[k].contains(x));
                    }
                }
            }
        }
    }
}

/// Where no id is linked twice, linking the devices leaves it so.
pub proof fn auto_linking_keeps_links_exclusive(devices: Seq<DeviceModel>, links: LinksModel)
    requires
        exclusive(links),
    ensures
        exclusive(auto_linked(devices, devices, links)),
{
    lemma_keeps_exclusive(devices, devices, links);
}

proof fn lemma_adds_only(devices: Seq<DeviceModel>, some: Seq<DeviceModel>, links: LinksModel, x: Seq<char>)
    requires
        !links::is_secondary(links, x),
        forall|i: int| 0 <= i < some.len() ==> (#[trigger] some[i]).device_id != x,
    ensures
        !links::is_secondary(auto_linked(devices, some, links), x),
    decreases some.len(),
{
    if some.len() > 0 {
        let rest = some.drop_last();
        let d = some.last();
        let mid = auto_linked(devices, rest, links);
        let after = with_device(devices, mid, d);
        assert forall|i: int| 0 <= i < rest.len() implies (#[trigger] rest[i]).device_id != x by {
            assert(rest[i] == some[i]);
        }
        lemma_adds_only(devices, rest, links, x);
        assert(some[some.len() - 1].device_id != x);
        assert forall|k: Seq<char>| #[trigger] after.contains_key(k) implies !after[k].contains(x) by {
            assert(!links::links_of(mid, k).contains(x)) by {
                if mid.contains_key(k) {
                    assert(!mid[k].contains(x));
                }
            }
            if !settled(devices, mid, d) && k == proposed_primary(devices, d)->0 {
                text_map::lemma_push_contains(links::links_of(mid, k), d.device_id);
            }
        }
    }
}

/// A Bluetooth interface that belongs under a network device is linked behind the linking: under
/// that device, where it was linked nowhere before.
pub proof fn belonging_interfaces_are_linked(devices: Seq<DeviceModel>, links: LinksModel, i: int)
    requires
        0 <= i < devices.len(),
        proposed_primary(devices, devices[i]) is Some,
    ensures
        links::is_secondary(auto_linked(devices, devices, links), devices[i].device_id),
        !links::is_secondary(links, devices[i].device_id) && (forall|j: int|
            0 <= j < i ==> (#[trigger] devices[j]).device_id != devices[i].device_id) ==> links::links_of(
            auto_linked(devices, devices, links),
            proposed_primary(devices, devices[i])->0,
        ).contains(devices[i].device_id),
{
    lemma_all_settled(devices, devices, links);
    let d = devices[i];
    let p = proposed_primary(devices, d)->0;
    let first = devices.take(i);
    assert forall|j: int| 0 <= j < i implies #[trigger] first[j] == devices[j] by {}
    if !links::is_secondary(links, d.device_id) && (forall|j: int|
        0 <= j < i ==> (#[trigger] devices[j]).device_id != d.device_id) {
        lemma_adds_only(devices, first, links, d.device_id);
        let mid = auto_linked(devices, first, links);
        let next = devices.take(i + 1);
        assert(next.drop_last() =~= first);
        assert(next.last() == d);
        let after = auto_linked(devices, next, links);
        assert(links::links_of(after, p).last() == d.device_id);
        lemma_linked_in_turn(devices, devices, links, i + 1);
        let list = links::links_of(after, p);
        let all = links::links_of(auto_linked(devices, devices, links), p);
        assert(list.is_prefix_of(all));
        assert(all[list.len() - 1] == d.device_id);
    }
}

proof fn lemma_linked_in_turn(devices: Seq<DeviceModel>, some: Seq<DeviceModel>, links: LinksModel, n: int)
    requires
        0 <= n <= some.len(),
    ensures
        extends(auto_linked(devices, some.take(n), links), auto_linked(devices, some, links)),
    decreases some.len(),
{
    let start = auto_linked(devices, some.take(n), links);
    let end = auto_linked(devices, some, links);
    if n < some.len() {
        let rest = some.drop_last();
        let mid = auto_linked(devices, rest, links);
        assert(rest.take(n) =~= some.take(n));
        lemma_linked_in_turn(devices, rest, links, n);
        lemma_with_device_grows(devices, mid, some.last());
        assert forall|k: Seq<char>| #[trigger] links::links_of(start, k).is_prefix_of(links::links_of(end, k)) by {
            assert(links::links_of(start, k).is_prefix_of(links::links_of(mid, k)));
            assert(links::links_of(mid, k).is_prefix_of(links::links_of(end, k)));
        }
    } else {
        assert(some.take(n) =~= some);
    }
}

/// `id` is that of a network device among `devices`.
pub open spec fn is_network_id(devices: Seq<DeviceModel>, id: Seq<char>) -> bool {
    exists|i: int| 0 <= i < devices.len() && !(#[trigger] devices[i]).is_ble() && devices[i].device_id == id
}

/// `id` is that of a Bluetooth interface among `devices` that belongs under the device `primary`.
pub open spec fn belongs_under(
    devices: Seq<DeviceModel>,
    some: Seq<DeviceModel>,
    id: Seq<char>,
    primary: Seq<char>,
) -> bool {
    exists|i: int|
        0 <= i < some.len() && (#[trigger] some[i]).is_ble() && some[i].device_id == id && proposed_primary(devices, some[i])
            == Some(primary)
}

proof fn lemma_owner_is_network_device(devices: Seq<DeviceModel>, word: Seq<char>)
    ensures
        match mac_owner(devices, word) {
            Some(p) => is_network_id(devices, p),
            None => true,
        },
        match model_owner(devices, word) {
            Some(p) => is_network_id(devices, p),
            None => true,
        },
    decreases devices.len(),
{
    if devices.len() > 0 {
        let rest = devices.drop_last();
        lemma_owner_is_network_device(rest, word);
        assert forall|p: Seq<char>| is_network_id(rest, p) implies #[trigger] is_network_id(devices, p) by {
            let i = choose|i: int| 0 <= i < rest.len() && !(#[trigger] rest[i]).is_ble() && rest[i].device_id == p;
            assert(devices[i] == rest[i]);
        }
        assert(devices[devices.len() - 1] == devices.last());
    }
}

proof fn lemma_primary_is_network_device(devices: Seq<DeviceModel>, d: DeviceModel)
    ensures
        match proposed_primary(devices, d) {
            Some(p) => d.is_ble() && is_network_id(devices, p),
            None => true,
        },
{
    match shelly_mac(d.display_name) {
        Some(mac) => {
            lemma_owner_is_network_device(devices, mac);
            lemma_owner_is_network_device(devices, mac.take(10));
            lemma_owner_is_network_device(devices, "shellypro3em"@);
            lemma_owner_is_network_device(devices, "shellypro4pm"@);
            lemma_owner_is_network_device(devices, "shellyplus1"@);
        },
        None => {},
    }
}

proof fn lemma_added(devices: Seq<DeviceModel>, some: Seq<DeviceModel>, links: LinksModel, k: Seq<char>, n: int)
    requires
        links::links_of(links, k).len() <= n < links::links_of(auto_linked(devices, some, links), k).len(),
    ensures
        is_network_id(devices, k),
        belongs_under(devices, some, links::links_of(auto_linked(devices, some, links), k)[n], k),
    decreases some.len(),
{
    if some.len() > 0 {
        let rest = some.drop_last();
        let d = some.last();
        let mid = auto_linked(devices, rest, links);
        let list = links::links_of(mid, k);
        let x = links::links_of(auto_linked(devices, some, links), k)[n];
        if n < list.len() {
            lemma_added(devices, rest, links, k, n);
            let i = choose|i: int|
                0 <= i < rest.len() && (#[trigger] rest[i]).is_ble() && rest[i].device_id == list[n] && proposed_primary(
                    devices,
                    rest[i],
                ) == Some(k);
            assert(some[i] == rest[i]);
            assert(x == list[n]);
        } else {
            lemma_primary_is_network_device(devices, d);
            assert(proposed_primary(devices, d) == Some(k));
            assert(some[some.len() - 1] == d);
        }
    }
}

/// Every id that the linking adds is that of a Bluetooth interface among the devices, and stands
/// under the id of the network device among them that it belongs to.
pub proof fn added_links_join_the_devices(devices: Seq<DeviceModel>, links: LinksModel, k: Seq<char>, n: int)
    requires
        links::links_of(links, k).len() <= n < links::links_of(auto_linked(devices, devices, links), k).len(),
    ensures
        is_network_id(devices, k),
        belongs_under(devices, devices, links::links_of(auto_linked(devices, devices, links), k)[n], k),
{
    lemma_added(devices, devices, links, k, n);
}

}
