//! One entry per physical device: which record of an address is shown, and what stands under it.

use vstd::prelude::*;

use crate::device::DeviceModel;
use crate::links::LinksModel;
use crate::text_map;
use crate::unify;

verus! {

broadcast use vstd::string::group_string_axioms;

/// `d` reports the address `ip`.
pub open spec fn at(d: DeviceModel, ip: Seq<char>) -> bool {
    d.metadata.contains_key("ip"@) && d.metadata["ip"@] == ip
}

/// `d` reports no address, or an empty one.
pub open spec fn nowhere(d: DeviceModel) -> bool {
    d.metadata.contains_key("ip"@) ==> d.metadata["ip"@].len() == 0
}

/// `d` is marked as active.
pub open spec fn marked_active(d: DeviceModel) -> bool {
    d.metadata.contains_key("is_active"@) && d.metadata["is_active"@] == "true"@
}

/// `d` has only the name that is made up for an address.
pub open spec fn placeholder(d: DeviceModel) -> bool {
    d.display_name.len() >= 5 && d.display_name.take(5) == "Host "@
}

proof fn lemma_at(d: DeviceModel, ip: Seq<char>)
    ensures
        ip.len() > 0 ==> (at(d, ip) <==> unify::ip_of(d) == ip),
        nowhere(d) <==> unify::ip_of(d).len() == 0,
{
}

proof fn lemma_placeholder(d: DeviceModel)
    ensures
        placeholder(d) == "Host "@.is_prefix_of(d.display_name),
{
    reveal_strlit("Host ");
    if placeholder(d) {
        assert(d.display_name.subrange(0, 5) =~= d.display_name.take(5));
    }
    if "Host "@.is_prefix_of(d.display_name) {
        assert(d.display_name.subrange(0, 5) =~= d.display_name.take(5));
    }
}

/// A record that reports no address is listed behind the others and displaces none.
pub proof fn records_without_address_are_all_kept(devices: Seq<DeviceModel>, d: DeviceModel)
    requires
        nowhere(d),
    ensures
        unify::deduped(devices.push(d)) == unify::deduped(devices).push(d),
{
    assert(devices.push(d).drop_last() =~= devices);
}

/// The first record of an address is listed behind the others.
pub proof fn first_record_of_an_address_is_kept(devices: Seq<DeviceModel>, d: DeviceModel, ip: Seq<char>)
    requires
        ip.len() > 0,
        at(d, ip),
        forall|i: int| 0 <= i < devices.len() ==> !at(#[trigger] devices[i], ip),
    ensures
        unify::deduped(devices.push(d)) == unify::deduped(devices).push(d),
{
    let before = unify::deduped(devices);
    assert(devices.push(d).drop_last() =~= devices);
    unify::one_record_per_address(devices);
    unify::lemma_ip_position(before, ip);
    if unify::ip_position(before, ip) is Some {
        let k = unify::ip_position(before, ip)->0;
        assert(before.contains(before[k]));
        assert(devices.contains(before[k]));
        let i = devices.index_of(before[k]);
        lemma_at(devices[i], ip);
        assert(at(devices[i], ip));
    }
}

/// Where an address has a record already, a further record changes nothing, unless it has a MAC
/// address, is active, or has a name of its own, and the listed one lacks exactly that.
pub proof fn a_record_that_adds_nothing_changes_nothing(
    devices: Seq<DeviceModel>,
    listed: DeviceModel,
    d: DeviceModel,
    ip: Seq<char>,
)
    requires
        ip.len() > 0,
        at(listed, ip),
        at(d, ip),
        unify::deduped(devices).contains(listed),
        d.metadata.contains_key("mac"@) ==> listed.metadata.contains_key("mac"@),
        marked_active(d) ==> marked_active(listed),
        placeholder(listed) ==> placeholder(d),
    ensures
        unify::deduped(devices.push(d)) == unify::deduped(devices),
{
    let before = unify::deduped(devices);
    assert(devices.push(d).drop_last() =~= devices);
    lemma_only_record(devices, listed, ip);
    lemma_placeholder(listed);
    lemma_placeholder(d);
}

/// Where an address has a record already, a further record that has a MAC address, is active, or
/// has a name of its own, where the listed one lacks it, takes its place; all others stay.
pub proof fn a_record_that_adds_something_takes_the_place(
    devices: Seq<DeviceModel>,
    listed: DeviceModel,
    d: DeviceModel,
    ip: Seq<char>,
)
    requires
        ip.len() > 0,
        at(listed, ip),
        at(d, ip),
        unify::deduped(devices).contains(listed),
        (d.metadata.contains_key("mac"@) && !listed.metadata.contains_key("mac"@)) || (marked_active(d) && !marked_active(
            listed,
        )) || (placeholder(listed) && !placeholder(d)),
    ensures
        exists|k: int|
            0 <= k < unify::deduped(devices).len() && #[trigger] unify::deduped(devices)[k] == listed && unify::deduped(
                devices.push(d),
            ) == unify::deduped(devices).update(k, d),
{
    let before = unify::deduped(devices);
    assert(devices.push(d).drop_last() =~= devices);
    lemma_only_record(devices, listed, ip);
    lemma_placeholder(listed);
    lemma_placeholder(d);
    let k = unify::ip_position(before, ip)->0;
    assert(before[k] == listed);
}

proof fn lemma_only_record(devices: Seq<DeviceModel>, listed: DeviceModel, ip: Seq<char>)
    requires
        ip.len() > 0,
        at(listed, ip),
        unify::deduped(devices).contains(listed),
    ensures
        unify::ip_position(unify::deduped(devices), ip) is Some,
        unify::deduped(devices)[unify::ip_position(unify::deduped(devices), ip)->0] == listed,
        0 <= unify::ip_position(unify::deduped(devices), ip)->0 < unify::deduped(devices).len(),
{
    let before = unify::deduped(devices);
    unify::one_record_per_address(devices);
    unify::lemma_ip_position(before, ip);
    let j = before.index_of(listed);
    lemma_at(before[j], ip);
    assert(unify::ip_of(before[j]) == ip);
    let k = unify::ip_position(before, ip)->0;
    assert(unify::ip_of(before[k]) == ip);
    if j < k {
        assert(unify::ip_of(before[j]) != unify::ip_of(before[k]));
    }
    if k < j {
        assert(unify::ip_of(before[k]) != unify::ip_of(before[j]));
    }
}

/// A record with a MAC address that is active and has a name of its own, and is the first of its
/// address, is the one that is shown for that address, whatever else was reported.
pub proof fn a_full_record_is_shown(devices: Seq<DeviceModel>, links: LinksModel, i: int, ip: Seq<char>)
    requires
        0 <= i < devices.len(),
        ip.len() > 0,
        at(devices[i], ip),
        devices[i].metadata.contains_key("mac"@),
        marked_active(devices[i]),
        !placeholder(devices[i]),
        forall|j: int| 0 <= j < i ==> !at(#[trigger] devices[j], ip),
    ensures
        unify::deduped(devices).contains(devices[i]),
        forall|k: int|
            0 <= k < unify::unified(devices, links).len() && at((#[trigger] unify::unified(devices, links)[k]).primary, ip)
                ==> unify::unified(devices, links)[k].primary == devices[i],
{
    lemma_full_record_stays(devices, i, ip);
    let each = unify::deduped(devices);
    lemma_only_record(devices, devices[i], ip);
    unify::one_record_per_address(devices);
    unify::lemma_entries(each, links, each);
    assert forall|k: int|
        0 <= k < unify::unified(devices, links).len() && at((#[trigger] unify::unified(devices, links)[k]).primary, ip) implies unify::unified(
        devices,
        links,
    )[k].primary == devices[i] by {
        let u = unify::entries(each, links, each)[k];
        assert(each.contains(u.primary));
        lemma_only_record(devices, u.primary, ip);
    }
}

proof fn lemma_full_record_stays(devices: Seq<DeviceModel>, i: int, ip: Seq<char>)
    requires
        0 <= i < devices.len(),
        ip.len() > 0,
        at(devices[i], ip),
        devices[i].metadata.contains_key("mac"@),
        marked_active(devices[i]),
        !placeholder(devices[i]),
        forall|j: int| 0 <= j < i ==> !at(#[trigger] devices[j], ip),
    ensures
        unify::deduped(devices).contains(devices[i]),
    decreases devices.len(),
{
    let rest = devices.drop_last();
    let last = devices.last();
    assert(rest.push(last) =~= devices);
    if i == devices.len() - 1 {
        assert forall|j: int| 0 <= j < rest.len() implies !at(#[trigger] rest[j], ip) by {
            assert(rest[j] == devices[j]);
        }
        first_record_of_an_address_is_kept(rest, last, ip);
        text_map::lemma_push_contains(unify::deduped(rest), last);
    } else {
        assert(rest[i] == devices[i]);
        assert forall|j: int| 0 <= j < i implies !at(#[trigger] rest[j], ip) by {
            assert(rest[j] == devices[j]);
        }
        lemma_full_record_stays(rest, i, ip);
        let before = unify::deduped(rest);
        if at(last, ip) {
            a_record_that_adds_nothing_changes_nothing(rest, devices[i], last, ip);
        } else {
            let k = before.index_of(devices[i]);
            lemma_at(last, ip);
            lemma_at(devices[i], ip);
            unify::lemma_ip_position(before, unify::ip_of(last));
            assert(unify::deduped(devices)[k] == devices[i]);
        }
    }
}

/// Where nothing is linked, every listed record has an entry of its own, in order and without
/// other interfaces.
pub proof fn without_links_every_record_has_an_entry(devices: Seq<DeviceModel>, links: LinksModel)
    requires
        forall|k: Seq<char>| #[trigger] links.contains_key(k) ==> links[k].len() == 0,
    ensures
        unify::primaries(unify::unified(devices, links)) == unify::deduped(devices),
        forall|i: int|
            0 <= i < unify::unified(devices, links).len() ==> (#[trigger] unify::unified(
                devices,
                links,
            )[i]).secondary_interfaces.len() == 0,
{
    let each = unify::deduped(devices);
    lemma_unlinked(each, links, each);
}

proof fn lemma_unlinked(devices: Seq<DeviceModel>, links: LinksModel, some: Seq<DeviceModel>)
    requires
        forall|k: Seq<char>| #[trigger] links.contains_key(k) ==> links[k].len() == 0,
    ensures
        unify::primaries(unify::entries(devices, links, some)) == some,
        forall|i: int|
            0 <= i < unify::entries(devices, links, some).len() ==> (#[trigger] unify::entries(
                devices,
                links,
                some,
            )[i]).secondary_interfaces.len() == 0,
    decreases some.len(),
{
    if some.len() > 0 {
        let rest = some.drop_last();
        let d = some.last();
        lemma_unlinked(devices, links, rest);
        assert(!unify::is_under_another(devices, links, d));
        assert(unify::configured_links(links, d).len() == 0);
        let after = unify::entries(devices, links, some);
        assert(unify::primaries(after) =~= unify::primaries(unify::entries(devices, links, rest)).push(d));
        assert(rest.push(d) =~= some);
    } else {
        assert(unify::primaries(unify::entries(devices, links, some)) =~= some);
    }
}

/// No two of the devices have the same id, and none has the MAC address of another as its id.
pub open spec fn told_apart(devices: Seq<DeviceModel>) -> bool {
    &&& forall|i: int, j: int|
        0 <= i < devices.len() && 0 <= j < devices.len() && (#[trigger] devices[i]).device_id == (#[trigger] devices[j]).device_id
            ==> i == j
    &&& forall|i: int, j: int|
        0 <= i < devices.len() && 0 <= j < devices.len() && (#[trigger] devices[i]).metadata.contains_key("mac"@)
            ==> devices[i].metadata["mac"@] != (#[trigger] devices[j]).device_id
}

/// `list` is what is kept for `d` in the links: under its id, or under its MAC address where
/// nothing is kept under its id, or under the id that is made of its address.
pub open spec fn kept_for(links: LinksModel, d: DeviceModel, list: Seq<Seq<char>>) -> bool {
    if links.contains_key(d.device_id) {
        list == links[d.device_id]
    } else if d.metadata.contains_key("mac"@) && d.metadata["mac"@].len() > 0 && links.contains_key(d.metadata["mac"@]) {
        list == links[d.metadata["mac"@]]
    } else {
        exists|ip: Seq<char>, key: Seq<char>|
            ip.len() > 0 && at(d, ip) && links.contains_key(key) && list == links[key] && key.len() == 4 + ip.len() && key.take(4)
                == "net-"@ && forall|i: int| 0 <= i < ip.len() ==> #[trigger] key[4 + i] == (if ip[i] == '.' { '-' } else { ip[i] })
    }
}

proof fn lemma_ip_key(ip: Seq<char>, key: Seq<char>)
    requires
        key.len() == 4 + ip.len(),
        key.take(4) == "net-"@,
        forall|i: int| 0 <= i < ip.len() ==> #[trigger] key[4 + i] == (if ip[i] == '.' { '-' } else { ip[i] }),
    ensures
        key == unify::ip_key(ip),
{
    lemma_dots(ip);
    reveal_strlit("net-");
    let made = unify::ip_key(ip);
    assert forall|i: int| 0 <= i < key.len() implies key[i] == made[i] by {
        if i < 4 {
            assert(key.take(4)[i] == key[i]);
        } else {
            assert(key[4 + (i - 4)] == (if ip[i - 4] == '.' { '-' } else { ip[i - 4] }));
        }
    }
    assert(key =~= made);
}

proof fn lemma_dots(ip: Seq<char>)
    ensures
        crate::text::char_replaced(ip, '.', "-"@).len() == ip.len(),
        forall|i: int|
            0 <= i < ip.len() ==> #[trigger] crate::text::char_replaced(ip, '.', "-"@)[i] == (if ip[i] == '.' {
                '-'
            } else {
                ip[i]
            }),
    decreases ip.len(),
{
    reveal_strlit("-");
    if ip.len() > 0 {
        lemma_dots(ip.drop_last());
    }
}

/// An interface that is linked under a device, by its id or by its MAC address, is shown under the
/// entry of that device and has no entry of its own.
pub proof fn linked_interfaces_are_shown_under_their_device(
    devices: Seq<DeviceModel>,
    links: LinksModel,
    k: int,
    list: Seq<Seq<char>>,
    other: DeviceModel,
)
    requires
        0 <= k < unify::unified(devices, links).len(),
        told_apart(unify::deduped(devices)),
        kept_for(links, unify::unified(devices, links)[k].primary, list),
        unify::deduped(devices).contains(other),
        list.contains(other.device_id) || (other.metadata.contains_key("mac"@) && list.contains(other.metadata["mac"@])
            && forall|i: int|
            0 <= i < unify::deduped(devices).len() && (#[trigger] unify::deduped(devices)[i]).metadata.contains_key("mac"@)
                && unify::deduped(devices)[i].metadata["mac"@] == other.metadata["mac"@] ==> unify::deduped(devices)[i] == other),
    ensures
        unify::unified(devices, links)[k].secondary_interfaces.contains(other),
{
    let each = unify::deduped(devices);
    let u = unify::unified(devices, links)[k];
    let d = u.primary;
    unify::lemma_entries(each, links, each);
    lemma_kept_for(links, d, list);
    let j = each.index_of(other);
    if list.contains(other.device_id) {
        let n = list.index_of(other.device_id);
        lemma_no_bearer(each, other.device_id);
        lemma_found_by_id(each, j);
        unify::lemma_interfaces_complete(each, list, n);
    } else {
        let mac = other.metadata["mac"@];
        let n = list.index_of(mac);
        lemma_bearer(each, mac, j);
        lemma_found_by_id(each, j);
        unify::lemma_interfaces_complete(each, list, n);
    }
}

proof fn lemma_kept_for(links: LinksModel, d: DeviceModel, list: Seq<Seq<char>>)
    requires
        kept_for(links, d, list),
    ensures
        unify::configured_links(links, d) == list,
{
    let by_mac = d.metadata.contains_key("mac"@) && d.metadata["mac"@].len() > 0 && links.contains_key(d.metadata["mac"@]);
    if !links.contains_key(d.device_id) && !by_mac {
        let (ip, key) = choose|ip: Seq<char>, key: Seq<char>|
            ip.len() > 0 && at(d, ip) && links.contains_key(key) && list == links[key] && key.len() == 4 + ip.len() && key.take(4)
                == "net-"@ && forall|i: int| 0 <= i < ip.len() ==> #[trigger] key[4 + i] == (if ip[i] == '.' { '-' } else { ip[i] });
        lemma_ip_key(ip, key);
        lemma_at(d, ip);
    }
}

proof fn lemma_no_bearer(devices: Seq<DeviceModel>, x: Seq<char>)
    requires
        forall|i: int|
            0 <= i < devices.len() && (#[trigger] devices[i]).metadata.contains_key("mac"@) ==> devices[i].metadata["mac"@] != x,
    ensures
        unify::mac_bearer(devices, x) is None,
    decreases devices.len(),
{
    if devices.len() > 0 {
        assert(devices[devices.len() - 1] == devices.last());
        assert forall|i: int|
            0 <= i < devices.drop_last().len() && (#[trigger] devices.drop_last()[i]).metadata.contains_key("mac"@) implies devices.drop_last()[i].metadata["mac"@]
            != x by {
            assert(devices.drop_last()[i] == devices[i]);
        }
        lemma_no_bearer(devices.drop_last(), x);
    }
}

proof fn lemma_bearer(devices: Seq<DeviceModel>, mac: Seq<char>, j: int)
    requires
        0 <= j < devices.len(),
        devices[j].metadata.contains_key("mac"@),
        devices[j].metadata["mac"@] == mac,
        forall|i: int|
            0 <= i < devices.len() && (#[trigger] devices[i]).metadata.contains_key("mac"@) && devices[i].metadata["mac"@] == mac
                ==> devices[i] == devices[j],
    ensures
        unify::mac_bearer(devices, mac) == Some(devices[j].device_id),
    decreases devices.len(),
{
    assert(devices[devices.len() - 1] == devices.last());
    let rest = devices.drop_last();
    if devices.last().meta("mac"@) != Some(mac) {
        assert(j < rest.len());
        assert forall|i: int|
            0 <= i < rest.len() && (#[trigger] rest[i]).metadata.contains_key("mac"@) && rest[i].metadata["mac"@] == mac implies rest[i]
            == rest[j] by {
            assert(rest[i] == devices[i]);
        }
        lemma_bearer(rest, mac, j);
    }
}

proof fn lemma_found_by_id(devices: Seq<DeviceModel>, j: int)
    requires
        0 <= j < devices.len(),
        forall|i: int, k: int|
            0 <= i < devices.len() && 0 <= k < devices.len() && (#[trigger] devices[i]).device_id == (#[trigger] devices[k]).device_id
                ==> i == k,
    ensures
        unify::by_id(devices, devices[j].device_id) == Some(devices[j]),
    decreases devices.len(),
{
    assert(devices[devices.len() - 1] == devices.last());
    if j < devices.len() - 1 {
        let rest = devices.drop_last();
        assert(devices[j].device_id != devices[devices.len() - 1].device_id);
        assert forall|i: int, k: int|
            0 <= i < rest.len() && 0 <= k < rest.len() && (#[trigger] rest[i]).device_id == (#[trigger] rest[k]).device_id implies i
            == k by {
            assert(rest[i] == devices[i] && rest[k] == devices[k]);
        }
        assert(rest[j] == devices[j]);
        lemma_found_by_id(rest, j);
    }
}

/// What is shown under an entry was linked there: its id or its MAC address stands in the list
/// that is kept for the device.
pub proof fn shown_interfaces_were_linked(
    devices: Seq<DeviceModel>,
    links: LinksModel,
    k: int,
    list: Seq<Seq<char>>,
    other: DeviceModel,
)
    requires
        0 <= k < unify::unified(devices, links).len(),
        kept_for(links, unify::unified(devices, links)[k].primary, list),
        unify::unified(devices, links)[k].secondary_interfaces.contains(other),
    ensures
        exists|x: Seq<char>| #[trigger]
            list.contains(x) && (other.device_id == x || exists|i: int|
                0 <= i < unify::deduped(devices).len() && (#[trigger] unify::deduped(devices)[i]).device_id == other.device_id
                    && unify::deduped(devices)[i].metadata.contains_key("mac"@) && unify::deduped(devices)[i].metadata["mac"@]
                    == x),
{
    let each = unify::deduped(devices);
    unify::lemma_entries(each, links, each);
    lemma_kept_for(links, unify::unified(devices, links)[k].primary, list);
    lemma_shown(each, list, other);
}

proof fn lemma_shown(devices: Seq<DeviceModel>, ids: Seq<Seq<char>>, other: DeviceModel)
    requires
        unify::interfaces(devices, ids).contains(other),
    ensures
        exists|x: Seq<char>| #[trigger]
            ids.contains(x) && (other.device_id == x || exists|i: int|
                0 <= i < devices.len() && (#[trigger] devices[i]).device_id == other.device_id && devices[i].metadata.contains_key(
                    "mac"@,
                ) && devices[i].metadata["mac"@] == x),
    decreases ids.len(),
{
    let rest = ids.drop_last();
    let x = ids.last();
    let before = unify::interfaces(devices, rest);
    let meant = unify::meant_id(devices, x);
    unify::lemma_by_id(devices, meant);
    if unify::by_id(devices, meant) == Some(other) {
        assert(ids[ids.len() - 1] == x);
        assert(ids.contains(x));
        lemma_bearer_reports(devices, x);
    } else {
        let n = unify::interfaces(devices, ids).index_of(other);
        assert(before[n] == other);
        lemma_shown(devices, rest, other);
        let y = choose|y: Seq<char>| #[trigger]
            rest.contains(y) && (other.device_id == y || exists|i: int|
                0 <= i < devices.len() && (#[trigger] devices[i]).device_id == other.device_id && devices[i].metadata.contains_key(
                    "mac"@,
                ) && devices[i].metadata["mac"@] == y);
        assert(ids[rest.index_of(y)] == y);
        assert(ids.contains(y));
    }
}

proof fn lemma_bearer_reports(devices: Seq<DeviceModel>, mac: Seq<char>)
    ensures
        match unify::mac_bearer(devices, mac) {
            Some(id) => exists|i: int|
                0 <= i < devices.len() && (#[trigger] devices[i]).device_id == id && devices[i].metadata.contains_key("mac"@)
                    && devices[i].metadata["mac"@] == mac,
            None => true,
        },
    decreases devices.len(),
{
    if devices.len() > 0 {
        let rest = devices.drop_last();
        lemma_bearer_reports(rest, mac);
        assert(devices[devices.len() - 1] == devices.last());
        match unify::mac_bearer(rest, mac) {
            Some(id) => {
                let i = choose|i: int|
                    0 <= i < rest.len() && (#[trigger] rest[i]).device_id == id && rest[i].metadata.contains_key("mac"@)
                        && rest[i].metadata["mac"@] == mac;
                assert(devices[i] == rest[i]);
            },
            None => {},
        }
    }
}

/// A listed record that is linked nowhere, neither by its id nor by its MAC address, has an entry
/// of its own.
pub proof fn unlinked_records_have_an_entry(devices: Seq<DeviceModel>, links: LinksModel, d: DeviceModel)
    requires
        unify::deduped(devices).contains(d),
        told_apart(unify::deduped(devices)),
        forall|k: Seq<char>| #[trigger]
            links.contains_key(k) ==> !links[k].contains(d.device_id) && (d.metadata.contains_key("mac"@)
                ==> !links[k].contains(d.metadata["mac"@])),
    ensures
        exists|k: int|
            0 <= k < unify::unified(devices, links).len() && (#[trigger] unify::unified(devices, links)[k]).primary == d,
{
    let each = unify::deduped(devices);
    let j = each.index_of(d);
    assert forall|x: Seq<char>|
        crate::links::is_secondary(links, x) && #[trigger] unify::mac_bearer(each, x) is Some implies unify::mac_bearer(each, x)->0
        != d.device_id && (d.metadata.contains_key("mac"@) ==> unify::mac_bearer(each, x)->0 != d.metadata["mac"@]) by {
        lemma_bearer_reports(each, x);
        let id = unify::mac_bearer(each, x)->0;
        let i = choose|i: int|
            0 <= i < each.len() && (#[trigger] each[i]).device_id == id && each[i].metadata.contains_key("mac"@)
                && each[i].metadata["mac"@] == x;
        if id == d.device_id {
            assert(each[i].device_id == each[j].device_id);
        }
        assert(each[j] == d);
    }
    assert(!unify::is_under_another(each, links, d));
    unify::lemma_entries_complete(each, links, each, d);
    let k = unify::unified(devices, links).index_of(unify::entry_for(each, links, d));
    assert(unify::unified(devices, links)[k].primary == d);
}

/// A record that is linked under some device, by its id or by its MAC address, has no entry of its own.
pub proof fn linked_records_have_no_entry_of_their_own(
    devices: Seq<DeviceModel>,
    links: LinksModel,
    k: Seq<char>,
    i: int,
)
    requires
        links.contains_key(k),
        0 <= i < unify::unified(devices, links).len(),
    ensures
        ({
            let d = unify::unified(devices, links)[i].primary;
            &&& !links[k].contains(d.device_id)
            &&& d.metadata.contains_key("mac"@) && d.metadata["mac"@].len() > 0 ==> !links[k].contains(d.metadata["mac"@])
        }),
{
    let each = unify::deduped(devices);
    unify::lemma_entries(each, links, each);
    let d = unify::unified(devices, links)[i].primary;
    if links[k].contains(d.device_id) {
        assert(crate::links::is_secondary(links, d.device_id));
    }
    if d.metadata.contains_key("mac"@) && d.metadata["mac"@].len() > 0 && links[k].contains(d.metadata["mac"@]) {
        assert(crate::links::is_secondary(links, d.metadata["mac"@]));
    }
    assert(!unify::is_under_another(each, links, d));
}

}
