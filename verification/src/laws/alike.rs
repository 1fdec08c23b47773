//! Which device is proposed for merging, said in full.

use vstd::prelude::*;

use crate::autolink;
use crate::correlate;
use crate::device::DeviceModel;
use crate::laws::hearing;
use crate::laws::merging;
use crate::links::LinksModel;
use crate::text;

verus! {

broadcast use vstd::string::group_string_axioms;

/// The name of `d` carries the MAC address of `o`, or one that shares its first ten digits.
pub open spec fn carries_address(d: DeviceModel, o: DeviceModel) -> bool {
    let own = text::uppercase(text::without(hearing::reported(o, "mac"@), seq![':', '-']));
    &&& autolink::shelly_mac(d.display_name) is Some
    &&& own.len() > 0
    &&& own == autolink::shelly_mac(d.display_name)->0 || (text::bytes(own) >= 10 && text::first_bytes(own, 10).is_prefix_of(
        autolink::shelly_mac(d.display_name)->0,
    ))
}

/// The first generation of chips that the device mentions, none being nought.
pub open spec fn generation(d: DeviceModel) -> int {
    if merging::called(d, "m1"@) {
        1
    } else if merging::called(d, "m2"@) {
        2
    } else if merging::called(d, "m3"@) {
        3
    } else if merging::called(d, "m4"@) {
        4
    } else if merging::called(d, "m5"@) {
        5
    } else {
        0
    }
}

/// Both are MacBooks, of one generation; without any, one by the long word and the other by the short
/// one.
pub open spec fn both_macbooks(d: DeviceModel, o: DeviceModel) -> bool {
    let d_long = text::has(text::lowercase(d.display_name), "macbook"@);
    let o_long = text::has(text::lowercase(o.display_name), "macbook"@);
    &&& merging::called(d, "macbook"@) || merging::called(d, "mbp"@)
    &&& merging::called(o, "macbook"@) || merging::called(o, "mbp"@)
    &&& generation(d) == generation(o)
    &&& generation(d) == 0 ==> (d_long && merging::called(o, "mbp"@)) || (o_long && merging::called(d, "mbp"@))
}

/// Both are iPads, of one generation; without any, of one name but for separators and the router's word.
pub open spec fn both_ipads(d: DeviceModel, o: DeviceModel) -> bool {
    let signs = seq![' ', '-', '_', '.'];
    let one = text::replaced(text::without(text::lowercase(d.display_name), signs), "fritzbox"@, ""@);
    let two = text::replaced(text::without(text::lowercase(o.display_name), signs), "fritzbox"@, ""@);
    &&& merging::called(d, "ipad"@) && merging::called(o, "ipad"@)
    &&& generation(d) == generation(o)
    &&& generation(d) == 0 ==> one.len() > 0 && one == two
}

/// A name without the mark of a second interface and without the local domains.
pub open spec fn unmarked(name: Seq<char>) -> Seq<char> {
    text::replaced(text::replaced(text::replaced(name, "-2"@, ""@), ".fritz.box"@, ""@), ".local"@, ""@)
}

/// One of the names is the other with the mark of a second interface.
pub open spec fn told_apart_by_mark(d: DeviceModel, o: DeviceModel) -> bool {
    let one = text::lowercase(d.display_name);
    let two = text::lowercase(o.display_name);
    let (a, b) = (unmarked(one), unmarked(two));
    ||| a == b && !merging::says_nothing(a) && (text::has(one, "-2"@) || text::has(two, "-2"@))
    ||| b == a + "-wlan"@ && !merging::says_nothing(a)
    ||| a == b + "-wlan"@ && !merging::says_nothing(b)
}

/// The names have the same letters and digits, at least four bytes, and the two can be compared.
pub open spec fn of_the_same_letters(d: DeviceModel, o: DeviceModel) -> bool {
    let one = text::alphanumeric_part(text::lowercase(d.display_name), Seq::empty());
    let two = text::alphanumeric_part(text::lowercase(o.display_name), Seq::empty());
    &&& one == two && text::bytes(one) >= 4 && !merging::says_nothing(one)
    &&& merging::both_have_addresses(d, o) || merging::over_bluetooth(d) != merging::over_bluetooth(o)
}

/// The two look like one device.
pub open spec fn alike(d: DeviceModel, o: DeviceModel) -> bool {
    ||| carries_address(d, o)
    ||| carries_address(o, d)
    ||| both_macbooks(d, o)
    ||| both_ipads(d, o)
    ||| told_apart_by_mark(d, o)
    ||| of_the_same_letters(d, o)
}

/// The ids that are linked under `d`, by its id or else by its MAC address.
pub open spec fn linked_under(links: LinksModel, d: DeviceModel) -> Seq<Seq<char>> {
    let mac = hearing::reported(d, "mac"@);
    if links.contains_key(d.device_id) {
        links[d.device_id]
    } else if mac.len() > 0 && links.contains_key(mac) {
        links[mac]
    } else {
        Seq::empty()
    }
}

/// `d` is linked under some device, by its id or its MAC address.
pub open spec fn linked_somewhere(links: LinksModel, d: DeviceModel) -> bool {
    let mac = hearing::reported(d, "mac"@);
    exists|k: Seq<char>| #[trigger]
        links.contains_key(k) && (links[k].contains(d.device_id) || (mac.len() > 0 && links[k].contains(mac)))
}

/// `o` may be proposed for `d`.
pub open spec fn may_be_proposed(links: LinksModel, d: DeviceModel, o: DeviceModel) -> bool {
    let mac = hearing::reported(o, "mac"@);
    &&& o.device_id != d.device_id
    &&& !linked_under(links, d).contains(o.device_id)
    &&& !(mac.len() > 0 && linked_under(links, d).contains(mac))
    &&& !linked_somewhere(links, o)
    &&& !(merging::both_have_addresses(d, o) && d.metadata["ip"@] == o.metadata["ip"@])
}

proof fn lemma_alike(d: DeviceModel, o: DeviceModel)
    ensures
        alike(d, o) == correlate::look_alike(d, o),
{
    merging::lemma_chips(d);
    merging::lemma_chips(o);
    merging::lemma_over_bluetooth(d);
    merging::lemma_over_bluetooth(o);
    assert(hearing::reported(d, "mac"@) =~= d.meta_or_empty("mac"@));
    assert(hearing::reported(o, "mac"@) =~= o.meta_or_empty("mac"@));
    assert(generation(d) == correlate::chip(correlate::small_name(d), correlate::small_host(d)));
    assert(generation(o) == correlate::chip(correlate::small_name(o), correlate::small_host(o)));
}

proof fn lemma_somewhere(links: LinksModel, d: DeviceModel)
    ensures
        linked_somewhere(links, d) == correlate::is_taken(links, d),
{
    let mac = hearing::reported(d, "mac"@);
    assert(mac =~= d.meta_or_empty("mac"@));
    if correlate::is_taken(links, d) {
        if crate::links::is_secondary(links, d.device_id) {
            let k = choose|k: Seq<char>| #[trigger] links.contains_key(k) && links[k].contains(d.device_id);
            assert(links.contains_key(k));
        } else {
            let k = choose|k: Seq<char>| #[trigger] links.contains_key(k) && links[k].contains(mac);
            assert(links.contains_key(k));
        }
    }
}

proof fn lemma_may(links: LinksModel, d: DeviceModel, o: DeviceModel)
    ensures
        may_be_proposed(links, d, o) == correlate::is_free_for(links, d, o),
{
    lemma_somewhere(links, o);
    assert(hearing::reported(d, "mac"@) =~= d.meta_or_empty("mac"@));
    assert(hearing::reported(o, "mac"@) =~= o.meta_or_empty("mac"@));
    assert(linked_under(links, d) =~= correlate::own_links(links, d));
}

/// The first device of the list that may be proposed and looks alike is proposed, unless the device itself
/// is linked already.
pub proof fn the_first_look_alike_is_proposed(links: LinksModel, d: DeviceModel, devices: Seq<DeviceModel>, j: int)
    requires
        0 <= j < devices.len(),
        may_be_proposed(links, d, devices[j]),
        alike(d, devices[j]),
        forall|i: int| 0 <= i < j ==> !(may_be_proposed(links, d, #[trigger] devices[i]) && alike(d, devices[i])),
    ensures
        linked_somewhere(links, d) ==> correlate::merge_candidate(d, devices, links) is None,
        !linked_somewhere(links, d) ==> correlate::merge_candidate(d, devices, links) == Some(devices[j]),
{
    lemma_somewhere(links, d);
    lemma_first(links, d, devices, j);
}

/// Without such a device nothing is proposed.
pub proof fn nothing_else_is_proposed(links: LinksModel, d: DeviceModel, devices: Seq<DeviceModel>)
    requires
        forall|i: int|
            0 <= i < devices.len() ==> !(may_be_proposed(links, d, #[trigger] devices[i]) && alike(d, devices[i])),
    ensures
        correlate::merge_candidate(d, devices, links) is None,
{
    lemma_none(links, d, devices);
}

proof fn lemma_first(links: LinksModel, d: DeviceModel, devices: Seq<DeviceModel>, j: int)
    requires
        0 <= j < devices.len(),
        may_be_proposed(links, d, devices[j]),
        alike(d, devices[j]),
        forall|i: int| 0 <= i < j ==> !(may_be_proposed(links, d, #[trigger] devices[i]) && alike(d, devices[i])),
    ensures
        correlate::first_alike(d, devices, links) == Some(devices[j]),
    decreases devices.len(),
{
    let rest = devices.drop_last();
    lemma_may(links, d, devices.last());
    lemma_alike(d, devices.last());
    if j < devices.len() - 1 {
        assert(rest[j] == devices[j]);
        assert forall|i: int| 0 <= i < j implies !(may_be_proposed(links, d, #[trigger] rest[i]) && alike(d, rest[i])) by {
            assert(rest[i] == devices[i]);
        }
        lemma_first(links, d, rest, j);
    } else {
        assert forall|i: int| 0 <= i < rest.len() implies !(may_be_proposed(links, d, #[trigger] rest[i]) && alike(
            d,
            rest[i],
        )) by {
            assert(rest[i] == devices[i]);
        }
        lemma_none(links, d, rest);
    }
}

proof fn lemma_none(links: LinksModel, d: DeviceModel, devices: Seq<DeviceModel>)
    requires
        forall|i: int|
            0 <= i < devices.len() ==> !(may_be_proposed(links, d, #[trigger] devices[i]) && alike(d, devices[i])),
    ensures
        correlate::first_alike(d, devices, links) is None,
    decreases devices.len(),
{
    if devices.len() > 0 {
        let rest = devices.drop_last();
        lemma_may(links, d, devices.last());
        lemma_alike(d, devices.last());
        assert(devices[devices.len() - 1] == devices.last());
        assert forall|i: int| 0 <= i < rest.len() implies !(may_be_proposed(links, d, #[trigger] rest[i]) && alike(
            d,
            rest[i],
        )) by {
            assert(rest[i] == devices[i]);
        }
        lemma_none(links, d, rest);
    }
}

}
