//! One entry per physical device: records of the same address are taken together, linked
//! interfaces go under their primary device, and look-alikes are proposed for merging.

use vstd::prelude::*;

use crate::autolink;
use crate::correlate;
use crate::device::{DeviceModel, DeviceRecord};
use crate::links;
use crate::links::LinksModel;
use crate::text;
use crate::text_map;
use crate::text_map::{Duplicate, TextMap};

verus! {

broadcast use vstd::string::group_string_axioms;

/// A device with the other interfaces that are linked to it, and the device that it may be
/// the same as.
#[derive(Debug)]
pub struct UnifiedDevice {
    pub primary: DeviceRecord,
    pub secondary_interfaces: Vec<DeviceRecord>,
    pub merge_candidate: Option<DeviceRecord>,
}

/// What a `UnifiedDevice` stands for.
#[verifier::ext_equal]
pub struct UnifiedModel {
    pub primary: DeviceModel,
    pub secondary_interfaces: Seq<DeviceModel>,
    pub merge_candidate: Option<DeviceModel>,
}

impl DeepView for UnifiedDevice {
    type V = UnifiedModel;

    open spec fn deep_view(&self) -> UnifiedModel {
        UnifiedModel {
            primary: self.primary.deep_view(),
            secondary_interfaces: self.secondary_interfaces.deep_view(),
            merge_candidate: self.merge_candidate.deep_view(),
        }
    }
}

impl Clone for UnifiedDevice {
    fn clone(&self) -> (r: Self)
        ensures
            r.deep_view() == self.deep_view(),
    {
        UnifiedDevice {
            primary: self.primary.duplicate(),
            secondary_interfaces: self.secondary_interfaces.duplicate(),
            merge_candidate: self.merge_candidate.duplicate(),
        }
    }
}

// ---------------------------------------------------------------------------------------
// One record per address
// ---------------------------------------------------------------------------------------

/// The address of a device; empty where it has none.
pub open spec fn ip_of(d: DeviceModel) -> Seq<char> {
    d.meta_or_empty("ip"@)
}

/// Where the first device with the address `ip` stands.
pub open spec fn ip_position(devices: Seq<DeviceModel>, ip: Seq<char>) -> Option<int>
    decreases devices.len(),
{
    if devices.len() == 0 {
        None
    } else {
        let before = ip_position(devices.drop_last(), ip);
        if before is Some {
            before
        } else if ip_of(devices.last()) == ip {
            Some(devices.len() - 1)
        } else {
            None
        }
    }
}

/// The second record of an address says more than the first: it has a MAC address, is active,
/// or has a name of its own, where the first has not.
pub open spec fn says_more(old_record: DeviceModel, new_record: DeviceModel) -> bool {
    ||| old_record.meta("mac"@) is None && new_record.meta("mac"@) is Some
    ||| old_record.meta("is_active"@) != Some("true"@) && new_record.meta("is_active"@) == Some("true"@)
    ||| "Host "@.is_prefix_of(old_record.display_name) && !"Host "@.is_prefix_of(new_record.display_name)
}

/// The devices with at most one record per address. A record that says more takes the place
/// of the one before it.
pub open spec fn deduped(devices: Seq<DeviceModel>) -> Seq<DeviceModel>
    decreases devices.len(),
{
    if devices.len() == 0 {
        Seq::empty()
    } else {
        let before = deduped(devices.drop_last());
        let d = devices.last();
        if ip_of(d).len() == 0 {
            before.push(d)
        } else {
            match ip_position(before, ip_of(d)) {
                Some(i) => if says_more(before[i], d) {
                    before.update(i, d)
                } else {
                    before
                },
                None => before.push(d),
            }
        }
    }
}

// ---------------------------------------------------------------------------------------
// Linked interfaces
// ---------------------------------------------------------------------------------------

/// The id of the last device that reports the MAC address `mac`.
pub open spec fn mac_bearer(devices: Seq<DeviceModel>, mac: Seq<char>) -> Option<Seq<char>>
    decreases devices.len(),
{
    if devices.len() == 0 {
        None
    } else if devices.last().meta("mac"@) == Some(mac) {
        Some(devices.last().device_id)
    } else {
        mac_bearer(devices.drop_last(), mac)
    }
}

/// The last device with the id `id`.
pub open spec fn by_id(devices: Seq<DeviceModel>, id: Seq<char>) -> Option<DeviceModel>
    decreases devices.len(),
{
    if devices.len() == 0 {
        None
    } else if devices.last().device_id == id {
        Some(devices.last())
    } else {
        by_id(devices.drop_last(), id)
    }
}

/// The id that a link means: links may give the MAC address of a device in place of its id.
pub open spec fn meant_id(devices: Seq<DeviceModel>, id: Seq<char>) -> Seq<char> {
    text::or_text(mac_bearer(devices, id), id)
}

/// `id` is linked under some device, or is the id of a device whose MAC address is.
pub open spec fn is_linked_id(devices: Seq<DeviceModel>, links: LinksModel, id: Seq<char>) -> bool {
    links::is_secondary(links, id) || exists|x: Seq<char>|
        links::is_secondary(links, x) && #[trigger] mac_bearer(devices, x) == Some(id)
}

/// `d` is shown under another device.
pub open spec fn is_under_another(devices: Seq<DeviceModel>, links: LinksModel, d: DeviceModel) -> bool {
    let mac = d.meta_or_empty("mac"@);
    is_linked_id(devices, links, d.device_id) || (mac.len() > 0 && is_linked_id(devices, links, mac))
}

/// The id under which a device may be known by its address.
pub open spec fn ip_key(ip: Seq<char>) -> Seq<char> {
    "net-"@ + text::char_replaced(ip, '.', "-"@)
}

/// The ids linked under `d`: by its id, else by its MAC address, else by its address.
pub open spec fn configured_links(links: LinksModel, d: DeviceModel) -> Seq<Seq<char>> {
    let mac = d.meta_or_empty("mac"@);
    if links.contains_key(d.device_id) {
        links[d.device_id]
    } else if mac.len() > 0 && links.contains_key(mac) {
        links[mac]
    } else if ip_of(d).len() > 0 {
        links::links_of(links, ip_key(ip_of(d)))
    } else {
        Seq::empty()
    }
}

/// The devices that `ids` mean, as far as they are there.
pub open spec fn interfaces(devices: Seq<DeviceModel>, ids: Seq<Seq<char>>) -> Seq<DeviceModel>
    decreases ids.len(),
{
    if ids.len() == 0 {
        Seq::empty()
    } else {
        let before = interfaces(devices, ids.drop_last());
        match by_id(devices, meant_id(devices, ids.last())) {
            Some(d) => before.push(d),
            None => before,
        }
    }
}

/// The entry for `d` among `devices`.
pub open spec fn entry_for(devices: Seq<DeviceModel>, links: LinksModel, d: DeviceModel) -> UnifiedModel {
    UnifiedModel {
        primary: d,
        secondary_interfaces: interfaces(devices, configured_links(links, d)),
        merge_candidate: correlate::merge_candidate(d, devices, links),
    }
}

/// The entries for those of `some` that are not shown under another of `devices`.
pub open spec fn entries(devices: Seq<DeviceModel>, links: LinksModel, some: Seq<DeviceModel>) -> Seq<UnifiedModel>
    decreases some.len(),
{
    if some.len() == 0 {
        Seq::empty()
    } else {
        let before = entries(devices, links, some.drop_last());
        if is_under_another(devices, links, some.last()) {
            before
        } else {
            before.push(entry_for(devices, links, some.last()))
        }
    }
}

/// The entries for all devices.
pub open spec fn unified(devices: Seq<DeviceModel>, links: LinksModel) -> Seq<UnifiedModel> {
    entries(deduped(devices), links, deduped(devices))
}

/// Every cut that the search for look-alikes makes falls between two characters.
pub open spec fn can_unify(devices: Seq<DeviceModel>, links: LinksModel) -> bool {
    let each = deduped(devices);
    forall|i: int| 0 <= i < each.len() && !is_under_another(each, links, each[i]) ==> correlate::can_search(
        #[trigger] each[i],
        each,
        links,
    )
}

/// Where the first device with the address `ip` stands.
fn ip_position_of(devices: &Vec<DeviceRecord>, ip: &str) -> (r: Option<usize>)
    ensures
        match r {
            Some(i) => ip_position(devices.deep_view(), ip@) == Some(i as int) && i < devices@.len(),
            None => ip_position(devices.deep_view(), ip@) is None,
        },
{
    let ghost all = devices.deep_view();
    let mut i: usize = 0;
    while i < devices.len()
        invariant
            i <= devices@.len(),
            all == devices.deep_view(),
            ip_position(all.take(i as int), ip@) is None,
        decreases devices@.len() - i,
    {
        assert(all.take(i + 1).drop_last() =~= all.take(i as int));
        if text::same(devices[i].meta_or_empty("ip").as_str(), ip) {
            proof {
                lemma_ip_position_stays(all, ip@, i + 1);
            }
            return Some(i);
        }
        i = i + 1;
    }
    assert(all.take(i as int) =~= all);
    None
}

proof fn lemma_ip_position_stays(devices: Seq<DeviceModel>, ip: Seq<char>, n: int)
    requires
        0 <= n <= devices.len(),
        ip_position(devices.take(n), ip) is Some,
    ensures
        ip_position(devices, ip) == ip_position(devices.take(n), ip),
    decreases devices.len(),
{
    if n < devices.len() {
        assert(devices.drop_last().take(n) =~= devices.take(n));
        lemma_ip_position_stays(devices.drop_last(), ip, n);
    } else {
        assert(devices.take(n) =~= devices);
    }
}

fn says_more_of(old_record: &DeviceRecord, new_record: &DeviceRecord) -> (r: bool)
    ensures
        r == says_more(old_record.deep_view(), new_record.deep_view()),
{
    (old_record.meta("mac").is_none() && new_record.meta("mac").is_some()) || (!old_record.meta_is("is_active", "true")
        && new_record.meta_is("is_active", "true")) || (text::starts_with(old_record.display_name.as_str(), "Host ")
        && !text::starts_with(new_record.display_name.as_str(), "Host "))
}

/// The devices with at most one record per address.
fn dedupe(devices: &[DeviceRecord]) -> (r: Vec<DeviceRecord>)
    ensures
        r.deep_view() == deduped(devices.deep_view()),
{
    let ghost all = devices.deep_view();
    let mut r: Vec<DeviceRecord> = Vec::new();
    let mut i: usize = 0;
    while i < devices.len()
        invariant
            i <= devices@.len(),
            all == devices.deep_view(),
            r.deep_view() =~= deduped(all.take(i as int)),
        decreases devices@.len() - i,
    {
        let d = &devices[i];
        let ip = d.meta_or_empty("ip");
        let copy = d.duplicate();
        let ghost before = r.deep_view();
        assert(all.take(i + 1).drop_last() =~= all.take(i as int));
        if text::blank(ip.as_str()) {
            r.push(copy);
            assert(r.deep_view() =~= before.push(d.deep_view()));
        } else {
            match ip_position_of(&r, ip.as_str()) {
                Some(at) => {
                    if says_more_of(&r[at], d) {
                        r.set(at, copy);
                        assert(r.deep_view() =~= before.update(at as int, d.deep_view()));
                    }
                },
                None => {
                    r.push(copy);
                    assert(r.deep_view() =~= before.push(d.deep_view()));
                },
            }
        }
        i = i + 1;
    }
    assert(all.take(i as int) =~= all);
    r
}

fn mac_bearer_of(devices: &Vec<DeviceRecord>, mac: &str) -> (r: Option<String>)
    ensures
        r.deep_view() == mac_bearer(devices.deep_view(), mac@),
{
    let ghost all = devices.deep_view();
    let mut i: usize = devices.len();
    assert(all.take(i as int) =~= all);
    while i > 0
        invariant
            i <= devices@.len(),
            all == devices.deep_view(),
            mac_bearer(all, mac@) == mac_bearer(all.take(i as int), mac@),
        decreases i,
    {
        i = i - 1;
        assert(all.take(i + 1).drop_last() =~= all.take(i as int));
        assert(all.take(i + 1).last() == devices@[i as int].deep_view());
        if devices[i].meta_is("mac", mac) {
            return Some(devices[i].device_id.clone());
        }
    }
    None
}

pub fn find_by_id<'a>(devices: &'a Vec<DeviceRecord>, id: &str) -> (r: Option<&'a DeviceRecord>)
    ensures
        r.deep_view() == by_id(devices.deep_view(), id@),
{
    let ghost all = devices.deep_view();
    let mut i: usize = devices.len();
    assert(all.take(i as int) =~= all);
    while i > 0
        invariant
            i <= devices@.len(),
            all == devices.deep_view(),
            by_id(all, id@) == by_id(all.take(i as int), id@),
        decreases i,
    {
        i = i - 1;
        assert(all.take(i + 1).drop_last() =~= all.take(i as int));
        assert(all.take(i + 1).last() == devices@[i as int].deep_view());
        if text::same(devices[i].device_id.as_str(), id) {
            return Some(&devices[i]);
        }
    }
    None
}

/// One of `ids` is `id`, or is the MAC address of the device with the id `id`.
fn any_means(devices: &Vec<DeviceRecord>, ids: &Vec<String>, id: &str) -> (r: bool)
    ensures
        r == (exists|j: int| #![trigger ids.deep_view()[j]] 0 <= j < ids@.len() && (ids.deep_view()[j] == id@ || mac_bearer(devices.deep_view(), ids.deep_view()[j]) == Some(id@))),
{
    let mut i: usize = 0;
    while i < ids.len()
        invariant
            i <= ids@.len(),
            forall|j: int| #![trigger ids.deep_view()[j]]
                0 <= j < i ==> ids.deep_view()[j] != id@ && mac_bearer(devices.deep_view(), ids.deep_view()[j]) != Some(id@),
        decreases ids@.len() - i,
    {
        assert(ids.deep_view()[i as int] == ids@[i as int]@);
        if text::same(ids[i].as_str(), id) {
            return true;
        }
        match mac_bearer_of(devices, ids[i].as_str()) {
            Some(bearer) => {
                if text::same(bearer.as_str(), id) {
                    return true;
                }
            },
            None => {},
        }
        i = i + 1;
    }
    false
}

fn is_linked_id_of(devices: &Vec<DeviceRecord>, links: &TextMap<Vec<String>>, id: &str) -> (r: bool)
    ensures
        r == is_linked_id(devices.deep_view(), links@, id@),
{
    let ghost all = devices.deep_view();
    let size: usize = links.len();
    let mut i: usize = 0;
    while i < size
        invariant
            i <= size,
            size == links.keys().len(),
            all == devices.deep_view(),
            forall|j: int, n: int| #![trigger links@[links.keys()[j]][n]]
                0 <= j < i && 0 <= n < links@[links.keys()[j]].len() ==> links@[links.keys()[j]][n] != id@ && mac_bearer(
                    all,
                    links@[links.keys()[j]][n],
                ) != Some(id@),
        decreases size - i,
    {
        let k = links.key_at(i);
        let ids = links.value_at(i);
        if any_means(devices, ids, id) {
            proof {
                let j = choose|j: int| #![trigger ids.deep_view()[j]] 0 <= j < ids@.len() && (ids.deep_view()[j] == id@
                    || mac_bearer(all, ids.deep_view()[j]) == Some(id@));
                assert(links@.contains_key(k@) && links@[k@].contains(ids.deep_view()[j]));
            }
            return true;
        }
        i = i + 1;
    }
    proof {
        assert forall|x: Seq<char>| links::is_secondary(links@, x) implies x != id@ && #[trigger] mac_bearer(all, x) != Some(id@) by {
            let k = choose|k: Seq<char>| #[trigger] links@.contains_key(k) && links@[k].contains(x);
            assert(links.keys().contains(k));
            let j = links.keys().index_of(k);
            let n = links@[k].index_of(x);
            assert(links.keys()[j] == k);
            assert(links@[links.keys()[j]][n] == x);
        }
        if links::is_secondary(links@, id@) {
            assert(mac_bearer(all, id@) == mac_bearer(all, id@));
        }
    }
    false
}

fn is_under_another_device(devices: &Vec<DeviceRecord>, links: &TextMap<Vec<String>>, d: &DeviceRecord) -> (r: bool)
    ensures
        r == is_under_another(devices.deep_view(), links@, d.deep_view()),
{
    let mac = d.meta_or_empty("mac");
    is_linked_id_of(devices, links, d.device_id.as_str()) || (!text::blank(mac.as_str()) && is_linked_id_of(
        devices,
        links,
        mac.as_str(),
    ))
}

pub fn ip_key_of(ip: &str) -> (r: String)
    ensures
        r@ == ip_key(ip@),
{
    let mut out = "net-".to_owned();
    out.append(text::replace_char(ip, '.', "-").as_str());
    out
}

fn configured_links_of(links: &TextMap<Vec<String>>, d: &DeviceRecord) -> (r: Vec<String>)
    ensures
        r.deep_view() == configured_links(links@, d.deep_view()),
{
    let mac = d.meta_or_empty("mac");
    let ip = d.meta_or_empty("ip");
    if links.contains_key(d.device_id.as_str()) {
        links::copy_of_links(links, d.device_id.as_str())
    } else if !text::blank(mac.as_str()) && links.contains_key(mac.as_str()) {
        links::copy_of_links(links, mac.as_str())
    } else if !text::blank(ip.as_str()) {
        links::copy_of_links(links, ip_key_of(ip.as_str()).as_str())
    } else {
        let r: Vec<String> = Vec::new();
        assert(r.deep_view() =~= Seq::<Seq<char>>::empty());
        r
    }
}

fn interfaces_of(devices: &Vec<DeviceRecord>, ids: &Vec<String>) -> (r: Vec<DeviceRecord>)
    ensures
        r.deep_view() == interfaces(devices.deep_view(), ids.deep_view()),
{
    let mut r: Vec<DeviceRecord> = Vec::new();
    let mut i: usize = 0;
    while i < ids.len()
        invariant
            i <= ids@.len(),
            r.deep_view() =~= interfaces(devices.deep_view(), ids.deep_view().take(i as int)),
        decreases ids@.len() - i,
    {
        let ghost before = r.deep_view();
        let ghost all = ids.deep_view();
        assert(all.take(i + 1).drop_last() =~= all.take(i as int));
        let meant = match mac_bearer_of(devices, ids[i].as_str()) {
            Some(bearer) => bearer,
            None => ids[i].clone(),
        };
        assert(meant@ == meant_id(devices.deep_view(), all[i as int]));
        match find_by_id(devices, meant.as_str()) {
            Some(d) => {
                r.push(d.duplicate());
                assert(r.deep_view() =~= before.push(d.deep_view()));
            },
            None => {},
        }
        i = i + 1;
    }
    assert(ids.deep_view().take(i as int) =~= ids.deep_view());
    r
}

/// The devices can be taken together: every cut that this makes falls between two characters.
pub fn unifiable(devices: &[DeviceRecord], links: &TextMap<Vec<String>>) -> (r: bool)
    ensures
        r == can_unify(devices.deep_view(), links@),
{
    let each = dedupe(devices);
    let ghost all = each.deep_view();
    let slice = each.as_slice();
    assert(slice.deep_view() =~= all);
    let mut i: usize = 0;
    while i < each.len()
        invariant
            i <= each@.len(),
            all == each.deep_view(),
            slice.deep_view() == all,
            all == deduped(devices.deep_view()),
            forall|j: int| 0 <= j < i && !is_under_another(all, links@, all[j]) ==> correlate::can_search(
                #[trigger] all[j],
                all,
                links@,
            ),
        decreases each@.len() - i,
    {
        let d = &each[i];
        assert(all[i as int] == d.deep_view());
        if !is_under_another_device(&each, links, d) && !correlate::searchable(d, slice, links) {
            return false;
        }
        i = i + 1;
    }
    true
}

/// The devices with their linked interfaces and the proposals for merging.
pub fn build_unified_devices(devices: &[DeviceRecord], links: &TextMap<Vec<String>>) -> (r: Vec<UnifiedDevice>)
    requires
        can_unify(devices.deep_view(), links@),
    ensures
        r.deep_view() == unified(devices.deep_view(), links@),
{
    let each = dedupe(devices);
    let ghost all = each.deep_view();
    let mut r: Vec<UnifiedDevice> = Vec::new();
    let mut i: usize = 0;
    while i < each.len()
        invariant
            i <= each@.len(),
            all == each.deep_view(),
            all == deduped(devices.deep_view()),
            can_unify(devices.deep_view(), links@),
            r.deep_view() =~= entries(all, links@, all.take(i as int)),
        decreases each@.len() - i,
    {
        let d = &each[i];
        let ghost before = r.deep_view();
        assert(all[i as int] == d.deep_view());
        assert(all.take(i + 1).drop_last() =~= all.take(i as int));
        if !is_under_another_device(&each, links, d) {
            let ids = configured_links_of(links, d);
            let secondary_interfaces = interfaces_of(&each, &ids);
            let slice = each.as_slice();
            assert(slice.deep_view() =~= all);
            let merge_candidate = correlate::detect_merge_candidate(d, slice, links);
            let entry = UnifiedDevice { primary: d.duplicate(), secondary_interfaces, merge_candidate };
            r.push(entry);
            assert(r.deep_view() =~= before.push(entry.deep_view()));
        }
        i = i + 1;
    }
    assert(all.take(i as int) =~= all);
    r
}

/// The devices with their linked interfaces, where they can be taken together.
pub fn try_build_unified_devices(
    devices: &[DeviceRecord],
    links: &TextMap<Vec<String>>,
) -> (r: Option<Vec<UnifiedDevice>>)
    ensures
        match r {
            Some(list) => can_unify(devices.deep_view(), links@) && list.deep_view() == unified(
                devices.deep_view(),
                links@,
            ),
            None => !can_unify(devices.deep_view(), links@),
        },
{
    if unifiable(devices, links) {
        Some(build_unified_devices(devices, links))
    } else {
        None
    }
}

// ---------------------------------------------------------------------------------------
// What holds of the entries
// ---------------------------------------------------------------------------------------

/// No two of the devices have the same address.
pub open spec fn distinct_ips(devices: Seq<DeviceModel>) -> bool {
    forall|i: int, j: int|
        0 <= i < j < devices.len() && ip_of(#[trigger] devices[i]).len() > 0 ==> ip_of(devices[i]) != ip_of(
            #[trigger] devices[j],
        )
}

/// The primary devices of the entries.
pub open spec fn primaries(list: Seq<UnifiedModel>) -> Seq<DeviceModel> {
    list.map_values(|u: UnifiedModel| u.primary)
}

pub proof fn lemma_ip_position(devices: Seq<DeviceModel>, ip: Seq<char>)
    ensures
        match ip_position(devices, ip) {
            Some(i) => 0 <= i < devices.len() && ip_of(devices[i]) == ip,
            None => forall|i: int| 0 <= i < devices.len() ==> ip_of(#[trigger] devices[i]) != ip,
        },
    decreases devices.len(),
{
    if devices.len() > 0 {
        let rest = devices.drop_last();
        lemma_ip_position(rest, ip);
        assert forall|i: int| 0 <= i < devices.len() && ip_position(devices, ip) is None implies ip_of(
            #[trigger] devices[i],
        ) != ip by {
            if i < rest.len() {
                assert(rest[i] == devices[i]);
            }
        }
    }
}

/// Taking the records of one address together leaves at most one per address, invents none,
/// loses no address and no device without one.
pub proof fn one_record_per_address(devices: Seq<DeviceModel>)
    ensures
        distinct_ips(deduped(devices)),
        forall|d: DeviceModel| #[trigger] deduped(devices).contains(d) ==> devices.contains(d),
        forall|d: DeviceModel| #[trigger] devices.contains(d) && ip_of(d).len() == 0 ==> deduped(devices).contains(d),
        forall|d: DeviceModel| #[trigger]
            devices.contains(d) && ip_of(d).len() > 0 ==> ip_position(deduped(devices), ip_of(d)) is Some,
    decreases devices.len(),
{
    if devices.len() > 0 {
        let rest = devices.drop_last();
        let d = devices.last();
        let before = deduped(rest);
        let after = deduped(devices);
        one_record_per_address(rest);
        assert(devices =~= rest.push(d));
        text_map::lemma_push_contains(rest, d);
        text_map::lemma_push_contains(before, d);
        if ip_of(d).len() > 0 {
            lemma_ip_position(before, ip_of(d));
        }
        lemma_deduped_step(before, after, d);
        assert forall|x: DeviceModel| #[trigger] devices.contains(x) && ip_of(x).len() == 0 implies after.contains(x) by {
            if x != d {
                assert(before.contains(x));
                let i = before.index_of(x);
                assert(after[i] == x);
            } else {
                assert(after[before.len() as int] == d);
            }
        }
        assert forall|x: DeviceModel| #[trigger] devices.contains(x) && ip_of(x).len() > 0 implies ip_position(
            after,
            ip_of(x),
        ) is Some by {
            lemma_ip_position(after, ip_of(x));
            if ip_of(x) == ip_of(d) {
                let at = ip_position(before, ip_of(d));
                if at is Some {
                    assert(ip_of(after[at->0]) == ip_of(d));
                } else {
                    assert(after[before.len() as int] == d);
                }
            } else {
                assert(rest.contains(x));
                lemma_ip_position(before, ip_of(x));
                let at = ip_position(before, ip_of(x))->0;
                assert(ip_of(after[at]) == ip_of(x));
            }
        }
    }
}

proof fn lemma_deduped_step(before: Seq<DeviceModel>, after: Seq<DeviceModel>, d: DeviceModel)
    requires
        distinct_ips(before),
        after == before || after == before.push(d) && (ip_of(d).len() > 0 ==> ip_position(before, ip_of(d)) is None)
            || (ip_of(d).len() > 0 && ip_position(before, ip_of(d)) is Some && after == before.update(
            ip_position(before, ip_of(d))->0,
            d,
        )),
    ensures
        distinct_ips(after),
        forall|x: DeviceModel| #[trigger] after.contains(x) ==> x == d || before.contains(x),
{
    lemma_ip_position(before, ip_of(d));
    assert forall|i: int, j: int| 0 <= i < j < after.len() && ip_of(#[trigger] after[i]).len() > 0 implies ip_of(after[i])
        != ip_of(#[trigger] after[j]) by {
        let at = ip_position(before, ip_of(d));
        if j < before.len() {
            assert(ip_of(before[i]) == ip_of(after[i]));
            assert(ip_of(before[j]) == ip_of(after[j]));
        } else {
            assert(before[i] == after[i]);
        }
    }
    assert forall|x: DeviceModel| #[trigger] after.contains(x) implies x == d || before.contains(x) by {
        let i = after.index_of(x);
        if x != d {
            assert(before[i] == x);
        }
    }
}

pub proof fn lemma_entries(devices: Seq<DeviceModel>, links: LinksModel, some: Seq<DeviceModel>)
    ensures
        forall|i: int| 0 <= i < entries(devices, links, some).len() ==> {
            let u = #[trigger] entries(devices, links, some)[i];
            &&& some.contains(u.primary)
            &&& !is_under_another(devices, links, u.primary)
            &&& u == entry_for(devices, links, u.primary)
        },
        distinct_ips(some) ==> distinct_ips(primaries(entries(devices, links, some))),
    decreases some.len(),
{
    if some.len() > 0 {
        let rest = some.drop_last();
        let d = some.last();
        let before = entries(devices, links, rest);
        let after = entries(devices, links, some);
        lemma_entries(devices, links, rest);
        assert(some =~= rest.push(d));
        text_map::lemma_push_contains(rest, d);
        assert forall|i: int| 0 <= i < after.len() implies some.contains((#[trigger] after[i]).primary) && !is_under_another(
            devices,
            links,
            after[i].primary,
        ) && after[i] == entry_for(devices, links, after[i].primary) by {
            if i < before.len() {
                assert(before[i] == after[i]);
            }
        }
        if distinct_ips(some) {
            assert(distinct_ips(rest)) by {
                assert forall|i: int, j: int| 0 <= i < j < rest.len() && ip_of(#[trigger] rest[i]).len() > 0 implies ip_of(
                    rest[i],
                ) != ip_of(#[trigger] rest[j]) by {
                    assert(rest[i] == some[i] && rest[j] == some[j]);
                }
            }
            let ps = primaries(after);
            assert forall|i: int, j: int| 0 <= i < j < ps.len() && ip_of(#[trigger] ps[i]).len() > 0 implies ip_of(ps[i])
                != ip_of(#[trigger] ps[j]) by {
                if j < before.len() {
                    assert(primaries(before)[i] == ps[i]);
                    assert(primaries(before)[j] == ps[j]);
                } else {
                    assert(before[i] == after[i]);
                    let k = rest.index_of(ps[i]);
                    assert(some[k] == ps[i]);
                    assert(some[some.len() - 1] == d);
                }
            }
        }
    }
}

/// No two entries have the same address.
pub proof fn entries_have_distinct_addresses(devices: Seq<DeviceModel>, links: LinksModel)
    ensures
        distinct_ips(primaries(unified(devices, links))),
{
    one_record_per_address(devices);
    lemma_entries(deduped(devices), links, deduped(devices));
}

/// A device that is linked under another has no entry of its own.
pub proof fn linked_devices_have_no_entry(devices: Seq<DeviceModel>, links: LinksModel, i: int)
    requires
        0 <= i < unified(devices, links).len(),
    ensures
        ({
            let d = unified(devices, links)[i].primary;
            &&& !links::is_secondary(links, d.device_id)
            &&& d.meta_or_empty("mac"@).len() > 0 ==> !links::is_secondary(links, d.meta_or_empty("mac"@))
        }),
{
    lemma_entries(deduped(devices), links, deduped(devices));
    let u = entries(deduped(devices), links, deduped(devices))[i];
}

pub proof fn lemma_first_alike(d: DeviceModel, devices: Seq<DeviceModel>, links: LinksModel)
    ensures
        match correlate::first_alike(d, devices, links) {
            Some(c) => devices.contains(c) && correlate::is_free_for(links, d, c) && correlate::look_alike(d, c),
            None => true,
        },
    decreases devices.len(),
{
    if devices.len() > 0 {
        let rest = devices.drop_last();
        lemma_first_alike(d, rest, links);
        assert(devices =~= rest.push(devices.last()));
        text_map::lemma_push_contains(rest, devices.last());
    }
}

proof fn lemma_interfaces(devices: Seq<DeviceModel>, ids: Seq<Seq<char>>)
    ensures
        forall|d: DeviceModel| #[trigger] interfaces(devices, ids).contains(d) ==> devices.contains(d),
    decreases ids.len(),
{
    if ids.len() > 0 {
        let before = interfaces(devices, ids.drop_last());
        lemma_interfaces(devices, ids.drop_last());
        match by_id(devices, meant_id(devices, ids.last())) {
            Some(d) => {
                lemma_by_id(devices, meant_id(devices, ids.last()));
                text_map::lemma_push_contains(before, d);
            },
            None => {},
        }
    }
}

pub proof fn lemma_by_id(devices: Seq<DeviceModel>, id: Seq<char>)
    ensures
        match by_id(devices, id) {
            Some(d) => devices.contains(d) && d.device_id == id,
            None => true,
        },
    decreases devices.len(),
{
    if devices.len() > 0 {
        let rest = devices.drop_last();
        lemma_by_id(rest, id);
        assert(devices =~= rest.push(devices.last()));
        text_map::lemma_push_contains(rest, devices.last());
    }
}

/// A device is never proposed to be merged with itself or with one that is linked already,
/// and only look-alikes are proposed.
pub proof fn proposals_are_free_look_alikes(devices: Seq<DeviceModel>, links: LinksModel, i: int)
    requires
        0 <= i < unified(devices, links).len(),
    ensures
        ({
            let u = unified(devices, links)[i];
            match u.merge_candidate {
                Some(c) => {
                    &&& c.device_id != u.primary.device_id
                    &&& !correlate::is_taken(links, c)
                    &&& correlate::look_alike(u.primary, c)
                },
                None => true,
            }
        }),
{
    let each = deduped(devices);
    lemma_entries(each, links, each);
    let u = entries(each, links, each)[i];
    lemma_first_alike(u.primary, each, links);
}

/// All that an entry shows are devices that were reported.
pub proof fn entries_invent_nothing(devices: Seq<DeviceModel>, links: LinksModel, i: int)
    requires
        0 <= i < unified(devices, links).len(),
    ensures
        ({
            let u = unified(devices, links)[i];
            &&& devices.contains(u.primary)
            &&& forall|d: DeviceModel| #[trigger] u.secondary_interfaces.contains(d) ==> devices.contains(d)
            &&& match u.merge_candidate {
                Some(c) => devices.contains(c),
                None => true,
            }
        }),
{
    let each = deduped(devices);
    one_record_per_address(devices);
    lemma_entries(each, links, each);
    let u = entries(each, links, each)[i];
    lemma_first_alike(u.primary, each, links);
    lemma_interfaces(each, configured_links(links, u.primary));
}

pub proof fn lemma_entries_complete(devices: Seq<DeviceModel>, links: LinksModel, some: Seq<DeviceModel>, d: DeviceModel)
    requires
        some.contains(d),
        !is_under_another(devices, links, d),
    ensures
        entries(devices, links, some).contains(entry_for(devices, links, d)),
    decreases some.len(),
{
    let rest = some.drop_last();
    let before = entries(devices, links, rest);
    let after = entries(devices, links, some);
    if some.last() == d {
        assert(after[before.len() as int] == entry_for(devices, links, d));
    } else {
        let i = some.index_of(d);
        assert(rest[i] == d);
        lemma_entries_complete(devices, links, rest, d);
        let k = before.index_of(entry_for(devices, links, d));
        assert(after[k] == entry_for(devices, links, d));
    }
}

/// No device is lost: each has an entry of its own, unless it is linked under another.
pub proof fn every_device_has_its_place(devices: Seq<DeviceModel>, links: LinksModel, d: DeviceModel)
    requires
        deduped(devices).contains(d),
    ensures
        is_under_another(deduped(devices), links, d) || unified(devices, links).contains(
            entry_for(deduped(devices), links, d),
        ),
{
    if !is_under_another(deduped(devices), links, d) {
        lemma_entries_complete(deduped(devices), links, deduped(devices), d);
    }
}

pub proof fn lemma_interfaces_complete(devices: Seq<DeviceModel>, ids: Seq<Seq<char>>, k: int)
    requires
        0 <= k < ids.len(),
        by_id(devices, meant_id(devices, ids[k])) is Some,
    ensures
        interfaces(devices, ids).contains(by_id(devices, meant_id(devices, ids[k]))->0),
    decreases ids.len(),
{
    let rest = ids.drop_last();
    let before = interfaces(devices, rest);
    let after = interfaces(devices, ids);
    let d = by_id(devices, meant_id(devices, ids[k]))->0;
    if k == ids.len() - 1 {
        assert(after[before.len() as int] == d);
    } else {
        assert(rest[k] == ids[k]);
        lemma_interfaces_complete(devices, rest, k);
        let i = before.index_of(d);
        assert(after[i] == d);
    }
}

/// An entry shows every device that is linked under it and was reported.
pub proof fn entries_show_their_interfaces(devices: Seq<DeviceModel>, links: LinksModel, i: int, k: int)
    requires
        0 <= i < unified(devices, links).len(),
        0 <= k < configured_links(links, unified(devices, links)[i].primary).len(),
    ensures
        ({
            let u = unified(devices, links)[i];
            let meant = meant_id(deduped(devices), configured_links(links, u.primary)[k]);
            match by_id(deduped(devices), meant) {
                Some(d) => u.secondary_interfaces.contains(d),
                None => true,
            }
        }),
{
    let each = deduped(devices);
    lemma_entries(each, links, each);
    let u = entries(each, links, each)[i];
    let ids = configured_links(links, u.primary);
    if by_id(each, meant_id(each, ids[k])) is Some {
        lemma_interfaces_complete(each, ids, k);
    }
}

/// Behind the linking, a Bluetooth interface that belongs under a network device has no entry of
/// its own.
pub proof fn auto_linked_interfaces_have_no_entry(devices: Seq<DeviceModel>, links: LinksModel, d: DeviceModel, i: int)
    requires
        devices.contains(d),
        autolink::proposed_primary(devices, d) is Some,
        0 <= i < unified(devices, autolink::auto_linked(devices, devices, links)).len(),
    ensures
        unified(devices, autolink::auto_linked(devices, devices, links))[i].primary.device_id != d.device_id,
{
    autolink::belonging_interfaces_are_linked(devices, links, devices.index_of(d));
    linked_devices_have_no_entry(devices, autolink::auto_linked(devices, devices, links), i);
}

}
