//! Finding interfaces that may belong to one physical device.

use vstd::prelude::*;

use crate::autolink;
use crate::device;
use crate::device::{DeviceModel, DeviceRecord};
use crate::links;
use crate::links::LinksModel;
use crate::text;
use crate::text_map::{Duplicate, TextMap};

verus! {

broadcast use vstd::string::group_string_axioms;

// ---------------------------------------------------------------------------------------
// When two devices look like one
// ---------------------------------------------------------------------------------------

/// The name and the host name of a device in small letters.
pub open spec fn small_name(d: DeviceModel) -> Seq<char> {
    text::lowercase(d.display_name)
}

pub open spec fn small_host(d: DeviceModel) -> Seq<char> {
    text::lowercase(d.meta_or_empty("hostname"@))
}

/// The address `plain`, or its first ten bytes, is that which the Shelly names.
pub open spec fn begins_address(plain: Seq<char>, shelly: Seq<char>) -> bool {
    plain.len() > 0 && (plain == shelly || (text::bytes(plain) >= 10 && text::first_bytes(plain, 10).is_prefix_of(
        shelly,
    )))
}

/// The name of `d` carries the MAC address of `other`.
pub open spec fn names_address_of(d: DeviceModel, other: DeviceModel) -> bool {
    match autolink::shelly_mac(d.display_name) {
        Some(mac) => begins_address(device::plain_mac(other.meta_or_empty("mac"@)), mac),
        None => false,
    }
}

/// `word` stands in the name or in the host name.
pub open spec fn mentions(name: Seq<char>, host: Seq<char>, word: Seq<char>) -> bool {
    text::has(name, word) || text::has(host, word)
}

/// The first generation of Apple's chips that is mentioned; 0 where none is.
pub open spec fn chip(name: Seq<char>, host: Seq<char>) -> int {
    if mentions(name, host, "m1"@) {
        1
    } else if mentions(name, host, "m2"@) {
        2
    } else if mentions(name, host, "m3"@) {
        3
    } else if mentions(name, host, "m4"@) {
        4
    } else if mentions(name, host, "m5"@) {
        5
    } else {
        0
    }
}

pub open spec fn is_macbook(name: Seq<char>, host: Seq<char>) -> bool {
    mentions(name, host, "macbook"@) || mentions(name, host, "mbp"@)
}

/// Two MacBooks with the same chip, or, where neither names its chip, one called "macbook"
/// and one called "mbp".
pub open spec fn same_macbook(n1: Seq<char>, h1: Seq<char>, n2: Seq<char>, h2: Seq<char>) -> bool {
    is_macbook(n1, h1) && is_macbook(n2, h2) && (if chip(n1, h1) != 0 || chip(n2, h2) != 0 {
        chip(n1, h1) == chip(n2, h2)
    } else {
        (text::has(n1, "macbook"@) && mentions(n2, h2, "mbp"@)) || (text::has(n2, "macbook"@) && mentions(n1, h1, "mbp"@))
    })
}

/// The name without spaces, hyphens, underscores, dots and the router's name.
pub open spec fn squeezed(name: Seq<char>) -> Seq<char> {
    text::replaced(text::without(name, seq![' ', '-', '_', '.']), "fritzbox"@, ""@)
}

/// Two iPads with the same chip, or, where neither names its chip, with the same name.
pub open spec fn same_ipad(n1: Seq<char>, h1: Seq<char>, n2: Seq<char>, h2: Seq<char>) -> bool {
    mentions(n1, h1, "ipad"@) && mentions(n2, h2, "ipad"@) && (if chip(n1, h1) != 0 || chip(n2, h2) != 0 {
        chip(n1, h1) == chip(n2, h2)
    } else {
        squeezed(n1).len() > 0 && squeezed(n1) == squeezed(n2)
    })
}

/// Names that say nothing of a particular device.
pub open spec fn is_generic(name: Seq<char>) -> bool {
    name == "switch"@ || name == "host"@ || name == "pc"@ || name == "device"@ || name == "lan"@ || name == "wlan"@
}

/// The name without the number of a second interface and without the local domains.
pub open spec fn bare(name: Seq<char>) -> Seq<char> {
    text::replaced(text::replaced(text::replaced(name, "-2"@, ""@), ".fritz.box"@, ""@), ".local"@, ""@)
}

/// The names differ only in the number of a second interface.
pub open spec fn same_but_number(n1: Seq<char>, n2: Seq<char>) -> bool {
    bare(n1) == bare(n2) && (text::has(n1, "-2"@) || text::has(n2, "-2"@)) && !is_generic(bare(n1))
}

/// The second name is the first one with the suffix of a wireless interface.
pub open spec fn is_wireless_form(n1: Seq<char>, n2: Seq<char>) -> bool {
    bare(n2) == bare(n1) + "-wlan"@ && !is_generic(bare(n1))
}

/// The names differ only in the mark of a second interface: its number, or the suffix of a
/// wireless one.
pub open spec fn same_but_mark(n1: Seq<char>, n2: Seq<char>) -> bool {
    same_but_number(n1, n2) || is_wireless_form(n1, n2) || is_wireless_form(n2, n1)
}

/// The letters and digits of a name.
pub open spec fn letters(name: Seq<char>) -> Seq<char> {
    text::alphanumeric_part(name, Seq::empty())
}

/// The names have the same letters and digits, at least four bytes of them.
pub open spec fn same_letters(n1: Seq<char>, n2: Seq<char>) -> bool {
    text::bytes(letters(n1)) >= 4 && letters(n1) == letters(n2) && !is_generic(letters(n1))
}

/// One device was seen over Bluetooth and the other was not, or both have an address.
pub open spec fn comparable(d: DeviceModel, other: DeviceModel) -> bool {
    d.is_ble() != other.is_ble() || (d.meta_or_empty("ip"@).len() > 0 && other.meta_or_empty("ip"@).len() > 0)
}

/// `d` and `other` look like two interfaces of one device.
pub open spec fn look_alike(d: DeviceModel, other: DeviceModel) -> bool {
    ||| names_address_of(d, other)
    ||| names_address_of(other, d)
    ||| same_macbook(small_name(d), small_host(d), small_name(other), small_host(other))
    ||| same_ipad(small_name(d), small_host(d), small_name(other), small_host(other))
    ||| same_but_mark(small_name(d), small_name(other))
    ||| comparable(d, other) && same_letters(small_name(d), small_name(other))
}

// ---------------------------------------------------------------------------------------
// Which device is proposed
// ---------------------------------------------------------------------------------------

/// `d` is linked under some device, by its id or by its MAC address.
pub open spec fn is_taken(links: LinksModel, d: DeviceModel) -> bool {
    let mac = d.meta_or_empty("mac"@);
    links::is_secondary(links, d.device_id) || (mac.len() > 0 && links::is_secondary(links, mac))
}

/// The ids linked under `d`: those under its id, else those under its MAC address.
pub open spec fn own_links(links: LinksModel, d: DeviceModel) -> Seq<Seq<char>> {
    let mac = d.meta_or_empty("mac"@);
    if links.contains_key(d.device_id) {
        links[d.device_id]
    } else if mac.len() > 0 {
        links::links_of(links, mac)
    } else {
        Seq::empty()
    }
}

/// `other` is another device that is free to be merged with `d`.
pub open spec fn is_free_for(links: LinksModel, d: DeviceModel, other: DeviceModel) -> bool {
    let mac = other.meta_or_empty("mac"@);
    let ip = d.meta_or_empty("ip"@);
    &&& other.device_id != d.device_id
    &&& !own_links(links, d).contains(other.device_id)
    &&& !(mac.len() > 0 && own_links(links, d).contains(mac))
    &&& !is_taken(links, other)
    &&& !(ip.len() > 0 && ip == other.meta_or_empty("ip"@))
}

/// The first of `devices` that is free for `d` and looks like it.
pub open spec fn first_alike(d: DeviceModel, devices: Seq<DeviceModel>, links: LinksModel) -> Option<DeviceModel>
    decreases devices.len(),
{
    if devices.len() == 0 {
        None
    } else {
        let before = first_alike(d, devices.drop_last(), links);
        if before is Some {
            before
        } else if is_free_for(links, d, devices.last()) && look_alike(d, devices.last()) {
            Some(devices.last())
        } else {
            None
        }
    }
}

/// The device that is proposed to be merged with `d`: none where `d` is linked already.
pub open spec fn merge_candidate(d: DeviceModel, devices: Seq<DeviceModel>, links: LinksModel) -> Option<DeviceModel> {
    if is_taken(links, d) {
        None
    } else {
        first_alike(d, devices, links)
    }
}

/// The first ten bytes of the MAC address of `other` end with a character, where the name of
/// `d` carries an address.
pub open spec fn address_cuts(d: DeviceModel, other: DeviceModel) -> bool {
    let plain = device::plain_mac(other.meta_or_empty("mac"@));
    autolink::shelly_mac(d.display_name) is Some && text::bytes(plain) >= 10 ==> text::cuts_at(plain, 10)
}

/// Every cut that comparing `d` with `other` makes falls between two characters.
pub open spec fn can_compare(d: DeviceModel, other: DeviceModel) -> bool {
    &&& autolink::name_cuts(d.display_name)
    &&& autolink::name_cuts(other.display_name)
    &&& address_cuts(d, other)
    &&& !names_address_of(d, other) ==> address_cuts(other, d)
}

/// Every cut that the search for a device to merge with `d` makes falls between two
/// characters.
pub open spec fn can_search(d: DeviceModel, devices: Seq<DeviceModel>, links: LinksModel) -> bool {
    !is_taken(links, d) ==> forall|i: int|
        0 <= i < devices.len() && is_free_for(links, d, #[trigger] devices[i]) && first_alike(
            d,
            devices.take(i),
            links,
        ) is None ==> can_compare(d, devices[i])
}

fn mentions_of(name: &str, host: &str, word: &str) -> (r: bool)
    ensures
        r == mentions(name@, host@, word@),
{
    text::contains(name, word) || text::contains(host, word)
}

fn chip_of(name: &str, host: &str) -> (r: u8)
    ensures
        r == chip(name@, host@),
{
    if mentions_of(name, host, "m1") {
        1
    } else if mentions_of(name, host, "m2") {
        2
    } else if mentions_of(name, host, "m3") {
        3
    } else if mentions_of(name, host, "m4") {
        4
    } else if mentions_of(name, host, "m5") {
        5
    } else {
        0
    }
}

fn is_macbook_of(name: &str, host: &str) -> (r: bool)
    ensures
        r == is_macbook(name@, host@),
{
    mentions_of(name, host, "macbook") || mentions_of(name, host, "mbp")
}

fn same_macbook_of(n1: &str, h1: &str, n2: &str, h2: &str) -> (r: bool)
    ensures
        r == same_macbook(n1@, h1@, n2@, h2@),
{
    if !is_macbook_of(n1, h1) || !is_macbook_of(n2, h2) {
        return false;
    }
    let c1: u8 = chip_of(n1, h1);
    let c2: u8 = chip_of(n2, h2);
    if c1 != 0 || c2 != 0 {
        c1 == c2
    } else {
        (text::contains(n1, "macbook") && mentions_of(n2, h2, "mbp")) || (text::contains(n2, "macbook") && mentions_of(
            n1,
            h1,
            "mbp",
        ))
    }
}

fn squeezed_of(name: &str) -> (r: String)
    ensures
        r@ == squeezed(name@),
{
    proof {
        reveal_strlit("fritzbox");
    }
    let plain = text::strip(name, &[' ', '-', '_', '.']);
    text::replace(plain.as_str(), "fritzbox", "")
}

fn same_ipad_of(n1: &str, h1: &str, n2: &str, h2: &str) -> (r: bool)
    ensures
        r == same_ipad(n1@, h1@, n2@, h2@),
{
    if !mentions_of(n1, h1, "ipad") || !mentions_of(n2, h2, "ipad") {
        return false;
    }
    let c1: u8 = chip_of(n1, h1);
    let c2: u8 = chip_of(n2, h2);
    if c1 != 0 || c2 != 0 {
        c1 == c2
    } else {
        let s1 = squeezed_of(n1);
        let s2 = squeezed_of(n2);
        !text::blank(s1.as_str()) && text::same(s1.as_str(), s2.as_str())
    }
}

fn is_generic_of(name: &str) -> (r: bool)
    ensures
        r == is_generic(name@),
{
    text::same(name, "switch") || text::same(name, "host") || text::same(name, "pc") || text::same(name, "device")
        || text::same(name, "lan") || text::same(name, "wlan")
}

fn bare_of(name: &str) -> (r: String)
    ensures
        r@ == bare(name@),
{
    proof {
        reveal_strlit("-2");
        reveal_strlit(".fritz.box");
        reveal_strlit(".local");
    }
    let once = text::replace(name, "-2", "");
    let twice = text::replace(once.as_str(), ".fritz.box", "");
    text::replace(twice.as_str(), ".local", "")
}

/// `b` is `a` with "-wlan" behind it, and `a` says something of a particular device.
fn is_wireless(a: &str, b: &str) -> (r: bool)
    ensures
        r == (b@ == a@ + "-wlan"@ && !is_generic(a@)),
{
    let mut wireless = a.to_owned();
    wireless.append("-wlan");
    text::same(b, wireless.as_str()) && !is_generic_of(a)
}

fn same_but_mark_of(n1: &str, n2: &str) -> (r: bool)
    ensures
        r == same_but_mark(n1@, n2@),
{
    let b1 = bare_of(n1);
    let b2 = bare_of(n2);
    (text::same(b1.as_str(), b2.as_str()) && (text::contains(n1, "-2") || text::contains(n2, "-2")) && !is_generic_of(
        b1.as_str(),
    )) || is_wireless(b1.as_str(), b2.as_str()) || is_wireless(b2.as_str(), b1.as_str())
}

fn same_letters_of(n1: &str, n2: &str) -> (r: bool)
    ensures
        r == same_letters(n1@, n2@),
{
    let none: &[char] = &[];
    assert(none@ =~= Seq::<char>::empty());
    let l1 = text::keep_alphanumeric(n1, none);
    let l2 = text::keep_alphanumeric(n2, none);
    text::byte_len(l1.as_str()) >= 4 && text::same(l1.as_str(), l2.as_str()) && !is_generic_of(l1.as_str())
}

fn begins_address_of(plain: &str, shelly: &str) -> (r: bool)
    requires
        text::bytes(plain@) >= 10 ==> text::cuts_at(plain@, 10),
    ensures
        r == begins_address(plain@, shelly@),
{
    !text::blank(plain) && (text::same(plain, shelly) || (text::byte_len(plain) >= 10 && text::starts_with(
        shelly,
        text::cut(plain, 10).0,
    )))
}

fn names_address_of_device(d: &DeviceRecord, other: &DeviceRecord) -> (r: bool)
    requires
        autolink::name_cuts(d.deep_view().display_name),
        address_cuts(d.deep_view(), other.deep_view()),
    ensures
        r == names_address_of(d.deep_view(), other.deep_view()),
{
    match autolink::extract_shelly_mac_hex(d.display_name.as_str()) {
        Some(mac) => {
            let own = other.meta_or_empty("mac");
            let plain = device::plain_mac_of(own.as_str());
            begins_address_of(plain.as_str(), mac.as_str())
        },
        None => false,
    }
}

fn comparable_devices(d: &DeviceRecord, other: &DeviceRecord) -> (r: bool)
    ensures
        r == comparable(d.deep_view(), other.deep_view()),
{
    d.is_ble() != other.is_ble() || (!text::blank(d.meta_or_empty("ip").as_str()) && !text::blank(
        other.meta_or_empty("ip").as_str(),
    ))
}

fn look_alike_devices(d: &DeviceRecord, other: &DeviceRecord) -> (r: bool)
    requires
        can_compare(d.deep_view(), other.deep_view()),
    ensures
        r == look_alike(d.deep_view(), other.deep_view()),
{
    if names_address_of_device(d, other) || names_address_of_device(other, d) {
        return true;
    }
    let n1 = d.display_name.as_str().to_lowercase();
    let n2 = other.display_name.as_str().to_lowercase();
    let h1 = d.meta_or_empty("hostname").as_str().to_lowercase();
    let h2 = other.meta_or_empty("hostname").as_str().to_lowercase();
    same_macbook_of(n1.as_str(), h1.as_str(), n2.as_str(), h2.as_str()) || same_ipad_of(
        n1.as_str(),
        h1.as_str(),
        n2.as_str(),
        h2.as_str(),
    ) || same_but_mark_of(n1.as_str(), n2.as_str()) || (comparable_devices(d, other) && same_letters_of(
        n1.as_str(),
        n2.as_str(),
    ))
}

fn is_taken_device(links: &TextMap<Vec<String>>, d: &DeviceRecord) -> (r: bool)
    ensures
        r == is_taken(links@, d.deep_view()),
{
    let mac = d.meta_or_empty("mac");
    links::is_linked(links, d.device_id.as_str()) || (!text::blank(mac.as_str()) && links::is_linked(links, mac.as_str()))
}

fn own_links_of(links: &TextMap<Vec<String>>, d: &DeviceRecord) -> (r: Vec<String>)
    ensures
        r.deep_view() == own_links(links@, d.deep_view()),
{
    let mac = d.meta_or_empty("mac");
    if links.contains_key(d.device_id.as_str()) {
        links::copy_of_links(links, d.device_id.as_str())
    } else if !text::blank(mac.as_str()) {
        links::copy_of_links(links, mac.as_str())
    } else {
        let r: Vec<String> = Vec::new();
        assert(r.deep_view() =~= Seq::<Seq<char>>::empty());
        r
    }
}

fn is_free(links: &TextMap<Vec<String>>, own: &Vec<String>, d: &DeviceRecord, other: &DeviceRecord) -> (r: bool)
    requires
        own.deep_view() == own_links(links@, d.deep_view()),
    ensures
        r == is_free_for(links@, d.deep_view(), other.deep_view()),
{
    let mac = other.meta_or_empty("mac");
    let ip = d.meta_or_empty("ip");
    !text::same(other.device_id.as_str(), d.device_id.as_str()) && !text::listed(own.as_slice(), other.device_id.as_str())
        && !(!text::blank(mac.as_str()) && text::listed(own.as_slice(), mac.as_str())) && !is_taken_device(links, other)
        && !(!text::blank(ip.as_str()) && text::same(ip.as_str(), other.meta_or_empty("ip").as_str()))
}

/// The device that is proposed to be merged with `dev`.
pub fn detect_merge_candidate(
    dev: &DeviceRecord,
    all_devices: &[DeviceRecord],
    links: &TextMap<Vec<String>>,
) -> (r: Option<
    DeviceRecord,
>)
    requires
        can_search(dev.deep_view(), all_devices.deep_view(), links@),
    ensures
        r.deep_view() == merge_candidate(dev.deep_view(), all_devices.deep_view(), links@),
{
    if is_taken_device(links, dev) {
        return None;
    }
    let own = own_links_of(links, dev);
    let ghost all = all_devices.deep_view();
    let mut i: usize = 0;
    while i < all_devices.len()
        invariant
            i <= all_devices@.len(),
            all == all_devices.deep_view(),
            own.deep_view() == own_links(links@, dev.deep_view()),
            !is_taken(links@, dev.deep_view()),
            can_search(dev.deep_view(), all, links@),
            first_alike(dev.deep_view(), all.take(i as int), links@) is None,
        decreases all_devices@.len() - i,
    {
        let other = &all_devices[i];
        assert(all[i as int] == other.deep_view());
        assert(all.take(i + 1).drop_last() =~= all.take(i as int));
        if is_free(links, &own, dev, other) && look_alike_devices(dev, other) {
            proof {
                lemma_first_alike_stays(dev.deep_view(), all, links@, i + 1);
            }
            return Some(other.duplicate());
        }
        i = i + 1;
    }
    assert(all.take(i as int) =~= all);
    None
}

fn address_cuts_of(d: &DeviceRecord, other: &DeviceRecord) -> (r: bool)
    requires
        autolink::name_cuts(d.deep_view().display_name),
    ensures
        r == address_cuts(d.deep_view(), other.deep_view()),
{
    let own = other.meta_or_empty("mac");
    let plain = device::plain_mac_of(own.as_str());
    autolink::extract_shelly_mac_hex(d.display_name.as_str()).is_none() || text::byte_len(plain.as_str()) < 10
        || plain.as_str().is_char_boundary(10)
}

fn can_compare_devices(d: &DeviceRecord, other: &DeviceRecord) -> (r: bool)
    ensures
        r == can_compare(d.deep_view(), other.deep_view()),
{
    autolink::name_cuts_of(d.display_name.as_str()) && autolink::name_cuts_of(other.display_name.as_str())
        && address_cuts_of(d, other) && (names_address_of_device(d, other) || address_cuts_of(other, d))
}

/// A device to merge with `dev` can be searched for.
pub fn searchable(dev: &DeviceRecord, all_devices: &[DeviceRecord], links: &TextMap<Vec<String>>) -> (r: bool)
    ensures
        r == can_search(dev.deep_view(), all_devices.deep_view(), links@),
{
    if is_taken_device(links, dev) {
        return true;
    }
    let own = own_links_of(links, dev);
    let ghost all = all_devices.deep_view();
    let mut i: usize = 0;
    while i < all_devices.len()
        invariant
            i <= all_devices@.len(),
            all == all_devices.deep_view(),
            own.deep_view() == own_links(links@, dev.deep_view()),
            !is_taken(links@, dev.deep_view()),
            first_alike(dev.deep_view(), all.take(i as int), links@) is None,
            forall|j: int|
                0 <= j < i && is_free_for(links@, dev.deep_view(), #[trigger] all[j]) ==> can_compare(
                    dev.deep_view(),
                    all[j],
                ),
        decreases all_devices@.len() - i,
    {
        let other = &all_devices[i];
        assert(all[i as int] == other.deep_view());
        assert(all.take(i + 1).drop_last() =~= all.take(i as int));
        if is_free(links, &own, dev, other) {
            if !can_compare_devices(dev, other) {
                return false;
            }
            if look_alike_devices(dev, other) {
                proof {
                    assert forall|j: int|
                        0 <= j < all.len() && is_free_for(links@, dev.deep_view(), #[trigger] all[j]) && first_alike(
                            dev.deep_view(),
                            all.take(j),
                            links@,
                        ) is None implies can_compare(dev.deep_view(), all[j]) by {
                        if j > i {
                            assert(all.take(j).take(i + 1) =~= all.take(i + 1));
                            lemma_first_alike_stays(dev.deep_view(), all.take(j), links@, i + 1);
                        }
                    }
                }
                return true;
            }
        }
        i = i + 1;
    }
    true
}

/// Devices that are appended never change a proposal that was found without them.
pub proof fn later_devices_change_no_proposal(
    d: DeviceModel,
    devices: Seq<DeviceModel>,
    more: Seq<DeviceModel>,
    links: LinksModel,
)
    requires
        merge_candidate(d, devices, links) is Some,
    ensures
        merge_candidate(d, devices + more, links) == merge_candidate(d, devices, links),
{
    assert((devices + more).take(devices.len() as int) =~= devices);
    lemma_first_alike_stays(d, devices + more, links, devices.len() as int);
}

/// What is found among the first devices is found among all of them.
pub proof fn lemma_first_alike_stays(d: DeviceModel, devices: Seq<DeviceModel>, links: LinksModel, n: int)
    requires
        0 <= n <= devices.len(),
        first_alike(d, devices.take(n), links) is Some,
    ensures
        first_alike(d, devices, links) == first_alike(d, devices.take(n), links),
    decreases devices.len(),
{
    if n < devices.len() {
        assert(devices.drop_last().take(n) =~= devices.take(n));
        lemma_first_alike_stays(d, devices.drop_last(), links, n);
    } else {
        assert(devices.take(n) =~= devices);
    }
}

}
