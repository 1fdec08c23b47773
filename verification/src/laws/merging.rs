//! Proposals for merging: which interfaces look like one device, and which are never proposed.

use vstd::prelude::*;

use crate::autolink;
use crate::correlate;
use crate::device;
use crate::device::DeviceModel;
use crate::laws::texts;
use crate::links;
use crate::links::LinksModel;
use crate::text;
use crate::unify;

verus! {

broadcast use vstd::string::group_string_axioms;

/// `id` is linked nowhere.
pub open spec fn free(links: LinksModel, id: Seq<char>) -> bool {
    forall|k: Seq<char>| #[trigger] links.contains_key(k) ==> !links[k].contains(id)
}

/// `d` is linked nowhere, neither by its id nor by its MAC address.
pub open spec fn free_device(links: LinksModel, d: DeviceModel) -> bool {
    free(links, d.device_id) && (d.metadata.contains_key("mac"@) ==> free(links, d.metadata["mac"@]))
}

/// The two may be proposed to each other: they are different, linked nowhere, and do not report the
/// same address.
pub open spec fn may_meet(links: LinksModel, d: DeviceModel, other: DeviceModel) -> bool {
    &&& d.device_id != other.device_id
    &&& free_device(links, d)
    &&& free_device(links, other)
    &&& d.metadata.contains_key("ip"@) && other.metadata.contains_key("ip"@) && d.metadata["ip"@].len() > 0
        ==> d.metadata["ip"@] != other.metadata["ip"@]
}

/// Someone is proposed for `d`, and `other` itself where only the two are there.
pub open spec fn meets(links: LinksModel, d: DeviceModel, devices: Seq<DeviceModel>, other: DeviceModel) -> bool {
    &&& correlate::merge_candidate(d, devices, links) is Some
    &&& devices == seq![d, other] ==> correlate::merge_candidate(d, devices, links) == Some(other)
}

proof fn lemma_free(links: LinksModel, d: DeviceModel)
    requires
        free_device(links, d),
    ensures
        !correlate::is_taken(links, d),
{
}

proof fn lemma_meets(links: LinksModel, d: DeviceModel, devices: Seq<DeviceModel>, other: DeviceModel)
    requires
        may_meet(links, d, other),
        devices.contains(other),
        correlate::look_alike(d, other),
    ensures
        meets(links, d, devices, other),
{
    lemma_free(links, d);
    lemma_free(links, other);
    assert(correlate::is_free_for(links, d, other)) by {
        let own = correlate::own_links(links, d);
        let mac = other.meta_or_empty("mac"@);
        if own.contains(other.device_id) || (mac.len() > 0 && own.contains(mac)) {
            assert(links.contains_key(d.device_id) || links.contains_key(d.meta_or_empty("mac"@)));
        }
    }
    let i = devices.index_of(other);
    lemma_found(links, d, devices, i);
    if devices == seq![d, other] {
        let one = devices.take(1);
        assert(one =~= seq![d]);
        assert(one.drop_last() =~= Seq::<DeviceModel>::empty());
        assert(correlate::first_alike(d, one.drop_last(), links) is None);
        assert(one.last() == d);
        assert(correlate::first_alike(d, one, links) is None);
        assert(devices.drop_last() =~= one);
        assert(devices.last() == other);
    }
}

proof fn lemma_found(links: LinksModel, d: DeviceModel, devices: Seq<DeviceModel>, i: int)
    requires
        0 <= i < devices.len(),
        correlate::is_free_for(links, d, devices[i]),
        correlate::look_alike(d, devices[i]),
    ensures
        correlate::first_alike(d, devices, links) is Some,
    decreases devices.len(),
{
    if i < devices.len() - 1 {
        assert(devices.drop_last()[i] == devices[i]);
        lemma_found(links, d, devices.drop_last(), i);
    }
}

/// `d` was seen over Bluetooth.
pub open spec fn over_bluetooth(d: DeviceModel) -> bool {
    ||| d.metadata.contains_key("protocol"@) && d.metadata["protocol"@] == "ble"@
    ||| d.device_id.len() >= 11 && d.device_id.take(11) == "mobile-ble-"@
    ||| d.module_id == "bthome"@
}

pub proof fn lemma_over_bluetooth(d: DeviceModel)
    ensures
        over_bluetooth(d) == d.is_ble(),
{
    reveal_strlit("mobile-ble-");
    if d.device_id.len() >= 11 {
        assert(d.device_id.subrange(0, 11) =~= d.device_id.take(11));
    }
}

/// The word says nothing of a particular device.
pub open spec fn says_nothing(name: Seq<char>) -> bool {
    name == "switch"@ || name == "host"@ || name == "pc"@ || name == "device"@ || name == "lan"@ || name == "wlan"@
}

/// Both report an address.
pub open spec fn both_have_addresses(d: DeviceModel, other: DeviceModel) -> bool {
    d.metadata.contains_key("ip"@) && d.metadata["ip"@].len() > 0 && other.metadata.contains_key("ip"@)
        && other.metadata["ip"@].len() > 0
}

/// Two interfaces whose names have the same letters and digits, at least four bytes of them and
/// more than a word that says nothing, meet where both have an address, or where one was seen over
/// Bluetooth and the other was not.
pub proof fn same_letters_meet(links: LinksModel, d: DeviceModel, devices: Seq<DeviceModel>, other: DeviceModel)
    requires
        may_meet(links, d, other),
        devices.contains(other),
        both_have_addresses(d, other) || over_bluetooth(d) != over_bluetooth(other),
        ({
            let one = text::alphanumeric_part(text::lowercase(d.display_name), Seq::empty());
            let two = text::alphanumeric_part(text::lowercase(other.display_name), Seq::empty());
            one == two && text::bytes(one) >= 4 && !says_nothing(one)
        }),
    ensures
        meets(links, d, devices, other),
{
    lemma_over_bluetooth(d);
    lemma_over_bluetooth(other);
    lemma_meets(links, d, devices, other);
}

/// `name` is written without hyphens and dots and says something of a particular device.
pub open spec fn plain_name(name: Seq<char>) -> bool {
    !name.contains('-') && !name.contains('.') && !says_nothing(name)
}

/// `domain` is nothing or one of the local domains.
pub open spec fn is_domain(domain: Seq<char>) -> bool {
    domain.len() == 0 || domain == ".fritz.box"@ || domain == ".local"@
}

/// A name and the same name with the mark of a second interface, "-2" or "-wlan", with or without a
/// local domain, meet in either order.
pub proof fn marked_names_meet(
    links: LinksModel,
    d: DeviceModel,
    devices: Seq<DeviceModel>,
    other: DeviceModel,
    name: Seq<char>,
    domain: Seq<char>,
    other_domain: Seq<char>,
)
    requires
        may_meet(links, d, other),
        devices.contains(other),
        plain_name(name),
        is_domain(domain),
        is_domain(other_domain),
        ({
            let one = text::lowercase(d.display_name);
            let two = text::lowercase(other.display_name);
            ||| one == name + domain && (two == name + "-2"@ + other_domain || two == name + "-wlan"@ + other_domain)
            ||| two == name + domain && (one == name + "-2"@ + other_domain || one == name + "-wlan"@ + other_domain)
        }),
    ensures
        meets(links, d, devices, other),
{
    let one = text::lowercase(d.display_name);
    let two = text::lowercase(other.display_name);
    reveal_strlit("-2");
    reveal_strlit("-wlan");
    assert("-2"@ =~= seq!['-', '2']);
    lemma_bare(name, Seq::empty(), domain);
    lemma_bare(name, "-2"@, other_domain);
    lemma_bare(name, "-wlan"@, other_domain);
    assert(name + Seq::<char>::empty() =~= name);
    assert(name + Seq::<char>::empty() + domain =~= name + domain);
    texts::lemma_stands_between(name, "-2"@, other_domain);
    lemma_meets(links, d, devices, other);
}

proof fn lemma_bare(name: Seq<char>, mark: Seq<char>, domain: Seq<char>)
    requires
        !name.contains('-'),
        !name.contains('.'),
        is_domain(domain),
        mark.len() == 0 || mark == "-2"@ || mark == "-wlan"@,
    ensures
        correlate::bare(name + mark + domain) == if mark == "-2"@ {
            name
        } else {
            name + mark
        },
{
    reveal_strlit("-2");
    reveal_strlit("-wlan");
    reveal_strlit(".fritz.box");
    reveal_strlit(".local");
    reveal_strlit("");
    assert("-2"@.len() == 2 && "-wlan"@.len() == 5);
    assert(!domain.contains('-')) by {
        if domain.contains('-') {
            let i = domain.index_of('-');
            assert(domain[i] == '-');
        }
    }
    let s = name + mark + domain;
    let kept = if mark == "-2"@ {
        name
    } else {
        name + mark
    };
    let once = text::replaced(s, "-2"@, ""@);
    if mark == "-2"@ {
        texts::lemma_mark_removed_within(name, "-2"@, domain);
        assert(once == kept + domain);
    } else {
        assert(!text::has(s, "-2"@)) by {
            if text::has(s, "-2"@) {
                let i = choose|i: int| text::occurs_at(s, "-2"@, i);
                let part = s.subrange(i, i + 2);
                assert(part[0] == '-' && part[1] == '2');
                assert(s[i] == '-' && s[i + 1] == '2');
                if i < name.len() {
                    assert(name.contains(name[i]));
                } else if i >= name.len() + mark.len() {
                    assert(domain[i - name.len() - mark.len()] == '-');
                    assert(domain.contains('-'));
                } else {
                    assert(mark == "-wlan"@);
                    assert(mark[i - name.len()] == '-');
                    assert(i == name.len());
                    assert(s[i + 1] == mark[1]);
                }
            }
        }
        texts::lemma_absent_mark(s, "-2"@);
        assert(once == kept + domain);
    }
    assert(!kept.contains('.')) by {
        if kept.contains('.') {
            let i = kept.index_of('.');
            if i < name.len() {
                assert(name.contains(name[i]));
            }
        }
    }
    let none = Seq::<char>::empty();
    assert(kept + none =~= kept);
    assert(kept + domain + none =~= kept + domain);
    if domain == ".fritz.box"@ {
        texts::lemma_mark_removed_within(kept, ".fritz.box"@, none);
        texts::lemma_no_mark(kept, ".local"@);
    } else if domain == ".local"@ {
        assert(!text::has(kept + domain, ".fritz.box"@)) by {
            let t = kept + domain;
            if text::has(t, ".fritz.box"@) {
                let i = choose|i: int| text::occurs_at(t, ".fritz.box"@, i);
                let part = t.subrange(i, i + 10);
                assert(part[0] == '.' && part[1] == 'f');
                assert(t[i] == '.' && t[i + 1] == 'f');
                if i < kept.len() {
                    assert(kept.contains(kept[i]));
                } else {
                    assert(domain[i - kept.len()] == '.');
                    assert(i == kept.len());
                    assert(t[i + 1] == domain[1]);
                }
            }
        }
        texts::lemma_absent_mark(kept + domain, ".fritz.box"@);
        texts::lemma_mark_removed_within(kept, ".local"@, none);
    } else {
        assert(kept + domain =~= kept);
        texts::lemma_no_mark(kept, ".fritz.box"@);
        texts::lemma_no_mark(kept, ".local"@);
    }
}

/// `word` stands in the name or in the host name of `d`, whatever the case of its letters.
pub open spec fn called(d: DeviceModel, word: Seq<char>) -> bool {
    text::has(text::lowercase(d.display_name), word) || (d.metadata.contains_key("hostname"@) && text::has(
        text::lowercase(d.metadata["hostname"@]),
        word,
    ))
}

/// The two mention the same generations of chips, at least one.
pub open spec fn share_their_chip(d: DeviceModel, other: DeviceModel) -> bool {
    &&& called(d, "m1"@) == called(other, "m1"@)
    &&& called(d, "m2"@) == called(other, "m2"@)
    &&& called(d, "m3"@) == called(other, "m3"@)
    &&& called(d, "m4"@) == called(other, "m4"@)
    &&& called(d, "m5"@) == called(other, "m5"@)
    &&& called(d, "m1"@) || called(d, "m2"@) || called(d, "m3"@) || called(d, "m4"@) || called(d, "m5"@)
}

proof fn lemma_called(d: DeviceModel, word: Seq<char>)
    requires
        word.len() > 0,
    ensures
        called(d, word) == correlate::mentions(correlate::small_name(d), correlate::small_host(d), word),
{
    if !d.metadata.contains_key("hostname"@) {
        let host = correlate::small_host(d);
        assert(host.len() == 0);
        assert(!text::has(host, word));
    }
}

pub proof fn lemma_chips(d: DeviceModel)
    ensures
        called(d, "m1"@) == correlate::mentions(correlate::small_name(d), correlate::small_host(d), "m1"@),
        called(d, "m2"@) == correlate::mentions(correlate::small_name(d), correlate::small_host(d), "m2"@),
        called(d, "m3"@) == correlate::mentions(correlate::small_name(d), correlate::small_host(d), "m3"@),
        called(d, "m4"@) == correlate::mentions(correlate::small_name(d), correlate::small_host(d), "m4"@),
        called(d, "m5"@) == correlate::mentions(correlate::small_name(d), correlate::small_host(d), "m5"@),
        called(d, "macbook"@) == correlate::mentions(correlate::small_name(d), correlate::small_host(d), "macbook"@),
        called(d, "mbp"@) == correlate::mentions(correlate::small_name(d), correlate::small_host(d), "mbp"@),
        called(d, "ipad"@) == correlate::mentions(correlate::small_name(d), correlate::small_host(d), "ipad"@),
{
    reveal_strlit("m1");
    reveal_strlit("m2");
    reveal_strlit("m3");
    reveal_strlit("m4");
    reveal_strlit("m5");
    reveal_strlit("macbook");
    reveal_strlit("mbp");
    reveal_strlit("ipad");
    lemma_called(d, "m1"@);
    lemma_called(d, "m2"@);
    lemma_called(d, "m3"@);
    lemma_called(d, "m4"@);
    lemma_called(d, "m5"@);
    lemma_called(d, "macbook"@);
    lemma_called(d, "mbp"@);
    lemma_called(d, "ipad"@);
}

/// Two MacBooks with the same chip meet, and so do two iPads with the same chip.
pub proof fn machines_with_one_chip_meet(links: LinksModel, d: DeviceModel, devices: Seq<DeviceModel>, other: DeviceModel)
    requires
        may_meet(links, d, other),
        devices.contains(other),
        share_their_chip(d, other),
        ((called(d, "macbook"@) || called(d, "mbp"@)) && (called(other, "macbook"@) || called(other, "mbp"@))) || (called(
            d,
            "ipad"@,
        ) && called(other, "ipad"@)),
    ensures
        meets(links, d, devices, other),
{
    lemma_chips(d);
    lemma_chips(other);
    lemma_meets(links, d, devices, other);
}

/// A device whose MAC address stands at the end of the name of a Shelly meets that Shelly, in either
/// order.
pub proof fn shellies_meet_by_their_address(
    links: LinksModel,
    d: DeviceModel,
    devices: Seq<DeviceModel>,
    other: DeviceModel,
    mac: Seq<char>,
)
    requires
        may_meet(links, d, other),
        devices.contains(other),
        mac.len() > 0,
        (autolink::shelly_mac(d.display_name) == Some(mac) && other.metadata.contains_key("mac"@) && device::plain_mac(
            other.metadata["mac"@],
        ) == mac) || (autolink::shelly_mac(other.display_name) == Some(mac) && d.metadata.contains_key("mac"@)
            && device::plain_mac(d.metadata["mac"@]) == mac),
    ensures
        meets(links, d, devices, other),
{
    lemma_meets(links, d, devices, other);
}

/// Looking alike is mutual.
pub proof fn looking_alike_is_mutual(d: DeviceModel, other: DeviceModel)
    ensures
        correlate::look_alike(d, other) == correlate::look_alike(other, d),
{
}

/// A device that is linked is not proposed a merge.
pub proof fn linked_devices_get_no_proposal(links: LinksModel, d: DeviceModel, devices: Seq<DeviceModel>, k: Seq<char>)
    requires
        links.contains_key(k),
        links[k].contains(d.device_id) || (d.metadata.contains_key("mac"@) && d.metadata["mac"@].len() > 0
            && links[k].contains(d.metadata["mac"@])),
    ensures
        correlate::merge_candidate(d, devices, links) is None,
{
}

/// What is proposed is another device of the list that is linked nowhere and does not report the
/// same address, and there is a reason for it: one of the two is a Shelly by name, both are MacBooks
/// or both iPads, the names carry the mark of a second interface, or they have the same letters and
/// the two can be compared.
pub proof fn proposals_have_a_reason(links: LinksModel, d: DeviceModel, devices: Seq<DeviceModel>)
    ensures
        match correlate::merge_candidate(d, devices, links) {
            Some(c) => {
                let one = text::lowercase(d.display_name);
                let two = text::lowercase(c.display_name);
                let letters = text::alphanumeric_part(one, Seq::empty());
                &&& devices.contains(c)
                &&& c.device_id != d.device_id
                &&& free(links, c.device_id)
                &&& c.metadata.contains_key("mac"@) && c.metadata["mac"@].len() > 0 ==> free(links, c.metadata["mac"@])
                &&& both_have_addresses(d, c) ==> d.metadata["ip"@] != c.metadata["ip"@]
                &&& {
                    ||| text::has(one, "shelly"@) || text::has(two, "shelly"@)
                    ||| (called(d, "macbook"@) || called(d, "mbp"@)) && (called(c, "macbook"@) || called(c, "mbp"@))
                    ||| called(d, "ipad"@) && called(c, "ipad"@)
                    ||| text::has(one, "-2"@) || text::has(two, "-2"@)
                    ||| correlate::bare(one) == correlate::bare(two) + "-wlan"@ || correlate::bare(two) == correlate::bare(one)
                        + "-wlan"@
                    ||| (both_have_addresses(d, c) || over_bluetooth(d) != over_bluetooth(c)) && letters
                        == text::alphanumeric_part(two, Seq::empty()) && text::bytes(letters) >= 4 && !says_nothing(letters)
                }
            },
            None => true,
        },
{
    unify::lemma_first_alike(d, devices, links);
    match correlate::merge_candidate(d, devices, links) {
        Some(c) => {
            lemma_chips(d);
            lemma_chips(c);
            lemma_over_bluetooth(d);
            lemma_over_bluetooth(c);
            assert forall|k: Seq<char>| #[trigger] links.contains_key(k) implies !links[k].contains(c.device_id) && (
            c.metadata.contains_key("mac"@) && c.metadata["mac"@].len() > 0 ==> !links[k].contains(c.metadata["mac"@])) by {
                if links[k].contains(c.device_id) {
                    assert(links::is_secondary(links, c.device_id));
                }
                if c.metadata.contains_key("mac"@) && c.metadata["mac"@].len() > 0 && links[k].contains(c.metadata["mac"@]) {
                    assert(links::is_secondary(links, c.metadata["mac"@]));
                }
            }
        },
        None => {},
    }
}

}
