//! The Matter page: which devices belong to which fabrics.

use vstd::prelude::*;

use crate::device::{DeviceModel, DeviceRecord};
use crate::fabrics;
use crate::links::LinksModel;
use crate::ordering;
use crate::ordering::{SortKey, SortKeyModel};
use crate::pages::device_data;
use crate::pages::layout;
use crate::pages::matter_parts;
use crate::records::{ClientMatterFabric, FabricMetaModel, FabricModel, MatterFabricMeta};
use crate::text;
use crate::text_map;
use crate::text_map::TextMap;
use crate::unify;
use crate::unify::{UnifiedDevice, UnifiedModel};

verus! {

broadcast use vstd::string::group_string_axioms;

/// A device that belongs to a fabric.
pub struct MatterDevice {
    pub name: String,
    pub ip: String,
    pub mac: String,
    pub vendor: String,
    pub web_url: Option<String>,
    pub fabrics: Vec<ClientMatterFabric>,
}

/// What a `MatterDevice` stands for.
#[verifier::ext_equal]
pub struct MatterModel {
    pub name: Seq<char>,
    pub ip: Seq<char>,
    pub mac: Seq<char>,
    pub vendor: Seq<char>,
    pub web_url: Option<Seq<char>>,
    pub fabrics: Seq<FabricModel>,
}

impl DeepView for MatterDevice {
    type V = MatterModel;

    open spec fn deep_view(&self) -> MatterModel {
        MatterModel {
            name: self.name@,
            ip: self.ip@,
            mac: self.mac@,
            vendor: self.vendor@,
            web_url: self.web_url.deep_view(),
            fabrics: self.fabrics.deep_view(),
        }
    }
}

/// What the page tells of a device.
pub open spec fn matter_device(u: UnifiedModel, known: Map<Seq<char>, FabricMetaModel>) -> MatterModel {
    let d = u.primary;
    MatterModel {
        name: d.display_name,
        ip: text::or_text(d.meta("ip"@), "-"@),
        mac: d.meta_or_empty("mac"@),
        vendor: d.meta_or_empty("vendor"@),
        web_url: d.meta("web_url"@),
        fabrics: fabrics::device_fabrics(d, u.secondary_interfaces, known),
    }
}

/// The devices that belong to a fabric.
pub open spec fn matter_devices(list: Seq<UnifiedModel>, known: Map<Seq<char>, FabricMetaModel>) -> Seq<MatterModel>
    decreases list.len(),
{
    if list.len() == 0 {
        Seq::empty()
    } else {
        let before = matter_devices(list.drop_last(), known);
        let last = matter_device(list.last(), known);
        if last.fabrics.len() > 0 {
            before.push(last)
        } else {
            before
        }
    }
}

/// The fabrics of every entry can be listed.
pub open spec fn can_show_fabrics(list: Seq<UnifiedModel>, known: Map<Seq<char>, FabricMetaModel>) -> bool {
    forall|i: int|
        0 <= i < list.len() ==> fabrics::can_list_fabrics(
            (#[trigger] list[i]).primary,
            list[i].secondary_interfaces,
            known,
        )
}

/// The devices can be taken together, and their fabrics listed.
pub open spec fn can_show_page(
    devices: Seq<DeviceModel>,
    links: LinksModel,
    known: Map<Seq<char>, FabricMetaModel>,
) -> bool {
    unify::can_unify(devices, links) && can_show_fabrics(unify::unified(devices, links), known)
}

/// Whether the fabrics of every entry can be listed.
pub fn fabrics_showable(list: &[UnifiedDevice], known: &TextMap<MatterFabricMeta>) -> (r: bool)
    ensures
        r == can_show_fabrics(list.deep_view(), known@),
{
    let ghost all = list.deep_view();
    let mut i: usize = 0;
    while i < list.len()
        invariant
            i <= list@.len(),
            all == list.deep_view(),
            forall|k: int|
                0 <= k < i ==> fabrics::can_list_fabrics(
                    (#[trigger] all[k]).primary,
                    all[k].secondary_interfaces,
                    known@,
                ),
        decreases list@.len() - i,
    {
        assert(all[i as int] == list@[i as int].deep_view());
        if !fabrics::fabrics_listable(&list[i].primary, list[i].secondary_interfaces.as_slice(), known) {
            return false;
        }
        i = i + 1;
    }
    true
}

fn matter_devices_of(list: &[UnifiedDevice], known: &TextMap<MatterFabricMeta>) -> (r: Vec<MatterDevice>)
    requires
        can_show_fabrics(list.deep_view(), known@),
    ensures
        r.deep_view() == matter_devices(list.deep_view(), known@),
{
    let ghost all = list.deep_view();
    let mut r: Vec<MatterDevice> = Vec::new();
    let mut i: usize = 0;
    assert(r.deep_view() =~= Seq::<MatterModel>::empty());
    while i < list.len()
        invariant
            i <= list@.len(),
            all == list.deep_view(),
            can_show_fabrics(all, known@),
            r.deep_view() == matter_devices(all.take(i as int), known@),
        decreases list@.len() - i,
    {
        let d = &list[i].primary;
        let ghost before = r.deep_view();
        assert(all.take(i + 1).drop_last() =~= all.take(i as int));
        assert(all[i as int] == list@[i as int].deep_view());
        let fabrics = fabrics::extract_device_matter_fabrics(d, list[i].secondary_interfaces.as_slice(), known);
        if fabrics.len() > 0 {
            let web_url = match d.meta("web_url") {
                Some(url) => Some(url.clone()),
                None => None,
            };
            let device = MatterDevice {
                name: d.display_name.clone(),
                ip: device_data::meta_or(d, "ip", "-"),
                mac: d.meta_or_empty("mac"),
                vendor: d.meta_or_empty("vendor"),
                web_url,
                fabrics,
            };
            r.push(device);
            assert(r.deep_view() =~= before.push(device.deep_view()));
        }
        i = i + 1;
    }
    assert(all.take(i as int) =~= all);
    r
}

// ---------------------------------------------------------------------------------------
// Figures
// ---------------------------------------------------------------------------------------

/// How many memberships there are.
pub open spec fn node_count(devices: Seq<MatterModel>) -> nat
    decreases devices.len(),
{
    if devices.len() == 0 {
        0
    } else {
        node_count(devices.drop_last()) + devices.last().fabrics.len()
    }
}

/// How many devices belong to more than one fabric.
pub open spec fn shared_count(devices: Seq<MatterModel>) -> nat
    decreases devices.len(),
{
    if devices.len() == 0 {
        0
    } else {
        shared_count(devices.drop_last()) + if devices.last().fabrics.len() > 1 {
            1nat
        } else {
            0nat
        }
    }
}

fn count_nodes(devices: &Vec<MatterDevice>) -> (r: u128)
    ensures
        r == node_count(devices.deep_view()),
{
    let ghost all = devices.deep_view();
    let mut r: u128 = 0;
    let mut i: usize = 0;
    while i < devices.len()
        invariant
            i <= devices@.len(),
            all == devices.deep_view(),
            r <= i * usize::MAX,
            r == node_count(all.take(i as int)),
        decreases devices@.len() - i,
    {
        assert(all.take(i + 1).drop_last() =~= all.take(i as int));
        assert(all.take(i + 1).last() == devices@[i as int].deep_view());
        let here: usize = devices[i].fabrics.len();
        proof {
            lemma_sum_fits(i);
        }
        r = r + here as u128;
        i = i + 1;
    }
    assert(all.take(i as int) =~= all);
    r
}

fn count_shared(devices: &Vec<MatterDevice>) -> (r: usize)
    ensures
        r == shared_count(devices.deep_view()),
{
    let ghost all = devices.deep_view();
    let mut r: usize = 0;
    let mut i: usize = 0;
    while i < devices.len()
        invariant
            i <= devices@.len(),
            all == devices.deep_view(),
            r <= i,
            r == shared_count(all.take(i as int)),
        decreases devices@.len() - i,
    {
        assert(all.take(i + 1).drop_last() =~= all.take(i as int));
        assert(all.take(i + 1).last() == devices@[i as int].deep_view());
        if devices[i].fabrics.len() > 1 {
            r = r + 1;
        }
        i = i + 1;
    }
    assert(all.take(i as int) =~= all);
    r
}

/// How many devices belong to more than one fabric, and how many belong to any.
pub fn shared_devices(list: &[UnifiedDevice], known: &TextMap<MatterFabricMeta>) -> (r: (usize, usize))
    requires
        can_show_fabrics(list.deep_view(), known@),
    ensures
        r.0 == shared_count(matter_devices(list.deep_view(), known@)),
        r.1 == matter_devices(list.deep_view(), known@).len(),
{
    let devices = matter_devices_of(list, known);
    assert(devices.deep_view().len() == devices@.len());
    (count_shared(&devices), devices.len())
}

/// How many devices belong to more than one fabric, and how many belong to any, where the
/// fabrics can be listed.
pub fn try_shared_devices(
    devices: &[DeviceRecord],
    links: &TextMap<Vec<String>>,
    known: &TextMap<MatterFabricMeta>,
) -> (r: Option<(usize, usize)>)
    ensures
        match r {
            Some(counts) => can_show_page(devices.deep_view(), links@, known@) && counts.0 == shared_count(
                matter_devices(unify::unified(devices.deep_view(), links@), known@),
            ) && counts.1 == matter_devices(unify::unified(devices.deep_view(), links@), known@).len(),
            None => !can_show_page(devices.deep_view(), links@, known@),
        },
{
    match unify::try_build_unified_devices(devices, links) {
        Some(list) => {
            let slice = list.as_slice();
            assert(slice.deep_view() =~= list.deep_view());
            if fabrics_showable(slice, known) {
                Some(shared_devices(slice, known))
            } else {
                None
            }
        },
        None => None,
    }
}

// ---------------------------------------------------------------------------------------
// Order
// ---------------------------------------------------------------------------------------

/// `ids` with the fabrics of one device, each once.
pub open spec fn with_ids(ids: Seq<Seq<char>>, fabrics: Seq<FabricModel>) -> Seq<Seq<char>>
    decreases fabrics.len(),
{
    if fabrics.len() == 0 {
        ids
    } else {
        let before = with_ids(ids, fabrics.drop_last());
        if before.contains(fabrics.last().fabric_id) {
            before
        } else {
            before.push(fabrics.last().fabric_id)
        }
    }
}

/// The known fabrics, and behind them the others that devices belong to.
pub open spec fn fabric_ids(known: Seq<Seq<char>>, devices: Seq<MatterModel>) -> Seq<Seq<char>>
    decreases devices.len(),
{
    if devices.len() == 0 {
        known
    } else {
        with_ids(fabric_ids(known, devices.drop_last()), devices.last().fabrics)
    }
}

proof fn lemma_with_ids(ids: Seq<Seq<char>>, fabrics: Seq<FabricModel>)
    ensures
        ids.no_duplicates() ==> with_ids(ids, fabrics).no_duplicates(),
        forall|x: Seq<char>| #[trigger] ids.contains(x) ==> with_ids(ids, fabrics).contains(x),
        forall|i: int|
            0 <= i < fabrics.len() ==> with_ids(ids, fabrics).contains((#[trigger] fabrics[i]).fabric_id),
    decreases fabrics.len(),
{
    if fabrics.len() > 0 {
        let rest = fabrics.drop_last();
        let before = with_ids(ids, rest);
        let after = with_ids(ids, fabrics);
        lemma_with_ids(ids, rest);
        text_map::lemma_push_contains(before, fabrics.last().fabric_id);
        assert forall|i: int| 0 <= i < fabrics.len() implies after.contains((#[trigger] fabrics[i]).fabric_id) by {
            if i < rest.len() {
                assert(rest[i] == fabrics[i]);
            }
        }
    }
}

/// Every fabric that is known, or that some device belongs to, is listed, and none twice.
pub proof fn every_fabric_is_listed_once(known: Seq<Seq<char>>, devices: Seq<MatterModel>)
    requires
        known.no_duplicates(),
    ensures
        fabric_ids(known, devices).no_duplicates(),
        forall|x: Seq<char>| #[trigger] known.contains(x) ==> fabric_ids(known, devices).contains(x),
        forall|i: int, k: int|
            0 <= i < devices.len() && 0 <= k < devices[i].fabrics.len() ==> fabric_ids(known, devices).contains(
                (#[trigger] devices[i].fabrics[k]).fabric_id,
            ),
    decreases devices.len(),
{
    if devices.len() > 0 {
        let rest = devices.drop_last();
        let before = fabric_ids(known, rest);
        let after = fabric_ids(known, devices);
        every_fabric_is_listed_once(known, rest);
        lemma_with_ids(before, devices.last().fabrics);
        assert forall|i: int, k: int| 0 <= i < devices.len() && 0 <= k < devices[i].fabrics.len() implies after.contains(
            (#[trigger] devices[i].fabrics[k]).fabric_id,
        ) by {
            if i < rest.len() {
                assert(rest[i] == devices[i]);
                assert(before.contains(rest[i].fabrics[k].fabric_id));
            }
        }
    }
}

/// The place of a fabric: Apple Home, Home Assistant and the fabric of the vendors come first.
pub open spec fn fabric_rank(id: Seq<char>) -> u32 {
    if id == "6ABEDCB982EC2223"@ {
        1
    } else if id == "4518A03EC84FB6E7"@ {
        2
    } else if id == "A38D674BFAAFF432"@ {
        3
    } else {
        10
    }
}

/// The positions of the fabrics in the order of the page.
pub open spec fn fabric_order(ids: Seq<Seq<char>>) -> Seq<int> {
    ordering::sorted_positions(ids.map_values(|id: Seq<char>| SortKeyModel { rank: fabric_rank(id), name: ""@ }))
}

/// The positions of the devices in the order of their names.
pub open spec fn device_order(devices: Seq<MatterModel>) -> Seq<int> {
    ordering::sorted_positions(devices.map_values(|d: MatterModel| SortKeyModel { rank: 0, name: d.name }))
}

fn fabric_ids_of(known: &TextMap<MatterFabricMeta>, devices: &Vec<MatterDevice>) -> (r: Vec<String>)
    ensures
        r.deep_view() == fabric_ids(known.keys(), devices.deep_view()),
{
    let ghost all = devices.deep_view();
    let mut r: Vec<String> = Vec::new();
    let size: usize = known.len();
    let mut n: usize = 0;
    assert(r.deep_view() =~= known.keys().take(0));
    while n < size
        invariant
            n <= size,
            size == known.keys().len(),
            r.deep_view() == known.keys().take(n as int),
        decreases size - n,
    {
        let ghost before = r.deep_view();
        let key = known.key_at(n);
        r.push(key.to_owned());
        assert(r.deep_view() =~= before.push(key@));
        assert(known.keys().take(n + 1) =~= before.push(key@));
        n = n + 1;
    }
    assert(known.keys().take(n as int) =~= known.keys());
    let mut i: usize = 0;
    assert(all.take(0) =~= Seq::<MatterModel>::empty());
    while i < devices.len()
        invariant
            i <= devices@.len(),
            all == devices.deep_view(),
            r.deep_view() == fabric_ids(known.keys(), all.take(i as int)),
        decreases devices@.len() - i,
    {
        assert(all.take(i + 1).drop_last() =~= all.take(i as int));
        assert(all.take(i + 1).last() == devices@[i as int].deep_view());
        add_ids(&mut r, &devices[i].fabrics);
        i = i + 1;
    }
    assert(all.take(i as int) =~= all);
    r
}

fn add_ids(ids: &mut Vec<String>, fabrics: &Vec<ClientMatterFabric>)
    ensures
        final(ids).deep_view() == with_ids(old(ids).deep_view(), fabrics.deep_view()),
{
    let ghost all = fabrics.deep_view();
    let ghost first = ids.deep_view();
    let mut i: usize = 0;
    while i < fabrics.len()
        invariant
            i <= fabrics@.len(),
            all == fabrics.deep_view(),
            ids.deep_view() == with_ids(first, all.take(i as int)),
        decreases fabrics@.len() - i,
    {
        let ghost before = ids.deep_view();
        assert(all.take(i + 1).drop_last() =~= all.take(i as int));
        assert(all.take(i + 1).last() == fabrics@[i as int].deep_view());
        if !text::listed(ids.as_slice(), fabrics[i].fabric_id.as_str()) {
            ids.push(fabrics[i].fabric_id.clone());
            assert(ids.deep_view() =~= before.push(all[i as int].fabric_id));
        }
        i = i + 1;
    }
    assert(all.take(i as int) =~= all);
}

fn fabric_rank_of(id: &str) -> (r: u32)
    ensures
        r == fabric_rank(id@),
{
    if text::same(id, "6ABEDCB982EC2223") {
        1
    } else if text::same(id, "4518A03EC84FB6E7") {
        2
    } else if text::same(id, "A38D674BFAAFF432") {
        3
    } else {
        10
    }
}

fn fabric_order_of(ids: &Vec<String>) -> (r: Vec<usize>)
    ensures
        ordering::positions(r@) == fabric_order(ids.deep_view()),
        forall|i: int| 0 <= i < r@.len() ==> (#[trigger] r@[i]) < ids@.len(),
{
    let ghost models = ids.deep_view();
    let mut keys: Vec<SortKey> = Vec::new();
    let mut i: usize = 0;
    while i < ids.len()
        invariant
            i <= ids@.len(),
            models == ids.deep_view(),
            keys@.len() == i,
            forall|k: int|
                0 <= k < i ==> (#[trigger] keys@[k]).deep_view() == (SortKeyModel {
                    rank: fabric_rank(models[k]),
                    name: ""@,
                }),
        decreases ids@.len() - i,
    {
        keys.push(SortKey { rank: fabric_rank_of(ids[i].as_str()), name: "".to_owned() });
        i = i + 1;
    }
    assert(keys.deep_view() =~= models.map_values(
        |id: Seq<char>| SortKeyModel { rank: fabric_rank(id), name: ""@ },
    ));
    ordering::sort_positions(&keys)
}

fn device_order_of(devices: &Vec<MatterDevice>) -> (r: Vec<usize>)
    ensures
        ordering::positions(r@) == device_order(devices.deep_view()),
        forall|i: int| 0 <= i < r@.len() ==> (#[trigger] r@[i]) < devices@.len(),
{
    let ghost models = devices.deep_view();
    let mut keys: Vec<SortKey> = Vec::new();
    let mut i: usize = 0;
    while i < devices.len()
        invariant
            i <= devices@.len(),
            models == devices.deep_view(),
            keys@.len() == i,
            forall|k: int|
                0 <= k < i ==> (#[trigger] keys@[k]).deep_view() == (SortKeyModel { rank: 0, name: models[k].name }),
        decreases devices@.len() - i,
    {
        keys.push(SortKey { rank: 0, name: devices[i].name.clone() });
        i = i + 1;
    }
    assert(keys.deep_view() =~= models.map_values(|d: MatterModel| SortKeyModel { rank: 0, name: d.name }));
    ordering::sort_positions(&keys)
}

// ---------------------------------------------------------------------------------------
// Cards
// ---------------------------------------------------------------------------------------

/// The name, the icon and the description of a fabric, or what stands in their place.
pub open spec fn fabric_name(known: Map<Seq<char>, FabricMetaModel>, id: Seq<char>, otherwise: Seq<char>) -> Seq<char> {
    match text_map::lookup(known, id) {
        Some(m) => m.name,
        None => otherwise,
    }
}

pub open spec fn fabric_icon(known: Map<Seq<char>, FabricMetaModel>, id: Seq<char>) -> Seq<char> {
    match text_map::lookup(known, id) {
        Some(m) => m.icon,
        None => "✨"@,
    }
}

pub open spec fn fabric_description(known: Map<Seq<char>, FabricMetaModel>, id: Seq<char>) -> Seq<char> {
    match text_map::lookup(known, id) {
        Some(m) => m.description,
        None => "Operational Matter fabric membership."@,
    }
}

fn fabric_name_of(known: &TextMap<MatterFabricMeta>, id: &str, otherwise: &str) -> (r: String)
    ensures
        r@ == fabric_name(known@, id@, otherwise@),
{
    match known.get(id) {
        Some(m) => m.name.clone(),
        None => otherwise.to_owned(),
    }
}

fn fabric_icon_of(known: &TextMap<MatterFabricMeta>, id: &str) -> (r: String)
    ensures
        r@ == fabric_icon(known@, id@),
{
    match known.get(id) {
        Some(m) => m.icon.clone(),
        None => "✨".to_owned(),
    }
}

fn fabric_description_of(known: &TextMap<MatterFabricMeta>, id: &str) -> (r: String)
    ensures
        r@ == fabric_description(known@, id@),
{
    match known.get(id) {
        Some(m) => m.description.clone(),
        None => "Operational Matter fabric membership.".to_owned(),
    }
}

/// The memberships of one device in the fabric `id`.
pub open spec fn chips_of_device(
    name: Seq<char>,
    fabrics: Seq<FabricModel>,
    id: Seq<char>,
    icon: Seq<char>,
) -> Seq<char>
    decreases fabrics.len(),
{
    if fabrics.len() == 0 {
        Seq::empty()
    } else {
        let before = chips_of_device(name, fabrics.drop_last(), id, icon);
        let f = fabrics.last();
        if f.fabric_id == id {
            before + matter_parts::chip_html(
                icon,
                name,
                f.node_id,
                text::decimal(f.port as nat),
                if f.interface == "thread"@ {
                    "🧵"@
                } else {
                    "📶"@
                },
            )
        } else {
            before
        }
    }
}

/// The memberships of all devices in the fabric `id`.
pub open spec fn chips(devices: Seq<MatterModel>, id: Seq<char>, icon: Seq<char>) -> Seq<char>
    decreases devices.len(),
{
    if devices.len() == 0 {
        Seq::empty()
    } else {
        chips(devices.drop_last(), id, icon) + chips_of_device(devices.last().name, devices.last().fabrics, id, icon)
    }
}

/// How many of `fabrics` are the fabric `id`.
pub open spec fn times_listed(fabrics: Seq<FabricModel>, id: Seq<char>) -> nat
    decreases fabrics.len(),
{
    if fabrics.len() == 0 {
        0
    } else {
        times_listed(fabrics.drop_last(), id) + if fabrics.last().fabric_id == id {
            1nat
        } else {
            0nat
        }
    }
}

/// How many memberships there are in the fabric `id`.
pub open spec fn member_count(devices: Seq<MatterModel>, id: Seq<char>) -> nat
    decreases devices.len(),
{
    if devices.len() == 0 {
        0
    } else {
        member_count(devices.drop_last(), id) + times_listed(devices.last().fabrics, id)
    }
}

fn chips_for_device(name: &str, fabrics: &Vec<ClientMatterFabric>, id: &str, icon: &str) -> (r: (String, usize))
    ensures
        r.0@ == chips_of_device(name@, fabrics.deep_view(), id@, icon@),
        r.1 == times_listed(fabrics.deep_view(), id@),
{
    let ghost all = fabrics.deep_view();
    let mut r = text::empty();
    let mut n: usize = 0;
    let mut i: usize = 0;
    while i < fabrics.len()
        invariant
            i <= fabrics@.len(),
            n <= i,
            all == fabrics.deep_view(),
            r@ == chips_of_device(name@, all.take(i as int), id@, icon@),
            n == times_listed(all.take(i as int), id@),
        decreases fabrics@.len() - i,
    {
        let f = &fabrics[i];
        assert(all.take(i + 1).drop_last() =~= all.take(i as int));
        assert(all.take(i + 1).last() == f.deep_view());
        if text::same(f.fabric_id.as_str(), id) {
            let interface = if text::same(f.interface.as_str(), "thread") {
                "🧵"
            } else {
                "📶"
            };
            r.append(
                matter_parts::chip(icon, name, f.node_id.as_str(), text::number(f.port as u64).as_str(), interface).as_str(),
            );
            n = n + 1;
        }
        i = i + 1;
    }
    assert(all.take(i as int) =~= all);
    (r, n)
}

fn chips_for(devices: &Vec<MatterDevice>, id: &str, icon: &str) -> (r: (String, u128))
    ensures
        r.0@ == chips(devices.deep_view(), id@, icon@),
        r.1 == member_count(devices.deep_view(), id@),
{
    let ghost all = devices.deep_view();
    let mut r = text::empty();
    let mut n: u128 = 0;
    let mut i: usize = 0;
    while i < devices.len()
        invariant
            i <= devices@.len(),
            n <= i * usize::MAX,
            all == devices.deep_view(),
            r@ == chips(all.take(i as int), id@, icon@),
            n == member_count(all.take(i as int), id@),
        decreases devices@.len() - i,
    {
        let d = &devices[i];
        assert(all.take(i + 1).drop_last() =~= all.take(i as int));
        assert(all.take(i + 1).last() == d.deep_view());
        let (text, here) = chips_for_device(d.name.as_str(), &d.fabrics, id, icon);
        proof {
            lemma_sum_fits(i);
        }
        r.append(text.as_str());
        n = n + here as u128;
        i = i + 1;
    }
    assert(all.take(i as int) =~= all);
    (r, n)
}

/// The sum of as many lengths as there are devices fits.
proof fn lemma_sum_fits(i: usize)
    requires
        i < usize::MAX,
    ensures
        (i + 1) * usize::MAX == i * usize::MAX + usize::MAX,
        (i + 1) * usize::MAX <= u128::MAX,
{
    vstd::arithmetic::mul::lemma_mul_is_distributive_add_other_way(usize::MAX as int, i as int, 1);
    assert((i + 1) * usize::MAX <= usize::MAX * usize::MAX) by (nonlinear_arith)
        requires
            i + 1 <= usize::MAX,
    ;
    assert(usize::MAX * usize::MAX <= u128::MAX) by (nonlinear_arith)
        requires
            usize::MAX <= 0xffff_ffff_ffff_ffff,
    ;
}

/// A text inside single quotes of a script.
pub open spec fn quoted(s: Seq<char>) -> Seq<char> {
    text::char_replaced(s, '\'', "\\'"@)
}

/// The card of the fabric `id`.
pub open spec fn fabric_card(
    devices: Seq<MatterModel>,
    known: Map<Seq<char>, FabricMetaModel>,
    id: Seq<char>,
) -> Seq<char> {
    let name = fabric_name(known, id, "Unknown Fabric"@);
    let icon = fabric_icon(known, id);
    let members = chips(devices, id, icon);
    matter_parts::fabric_card_html(
        icon,
        name,
        id,
        text::decimal(member_count(devices, id)),
        fabric_description(known, id),
        quoted(name),
        quoted(icon),
        if members.len() == 0 {
            matter_parts::NO_MEMBERS@
        } else {
            members
        },
    )
}

fn fabric_card_of(devices: &Vec<MatterDevice>, known: &TextMap<MatterFabricMeta>, id: &str) -> (r: String)
    ensures
        r@ == fabric_card(devices.deep_view(), known@, id@),
{
    let name = fabric_name_of(known, id, "Unknown Fabric");
    let icon = fabric_icon_of(known, id);
    let (members, n) = chips_for(devices, id, icon.as_str());
    let shown = if text::blank(members.as_str()) {
        matter_parts::NO_MEMBERS.to_owned()
    } else {
        members
    };
    matter_parts::fabric_card(
        icon.as_str(),
        name.as_str(),
        id,
        text::digits(n).as_str(),
        fabric_description_of(known, id).as_str(),
        text::replace_char(name.as_str(), '\'', "\\'").as_str(),
        text::replace_char(icon.as_str(), '\'', "\\'").as_str(),
        shown.as_str(),
    )
}

/// The cards of the fabrics at the positions `order`.
pub open spec fn fabric_cards(
    devices: Seq<MatterModel>,
    known: Map<Seq<char>, FabricMetaModel>,
    ids: Seq<Seq<char>>,
    order: Seq<int>,
) -> Seq<char>
    decreases order.len(),
{
    if order.len() == 0 {
        Seq::empty()
    } else {
        fabric_cards(devices, known, ids, order.drop_last()) + fabric_card(devices, known, ids[order.last()])
    }
}

fn fabric_cards_of(
    devices: &Vec<MatterDevice>,
    known: &TextMap<MatterFabricMeta>,
    ids: &Vec<String>,
    order: &Vec<usize>,
) -> (r: String)
    requires
        forall|i: int| 0 <= i < order@.len() ==> (#[trigger] order@[i]) < ids@.len(),
    ensures
        r@ == fabric_cards(devices.deep_view(), known@, ids.deep_view(), ordering::positions(order@)),
{
    let ghost places = ordering::positions(order@);
    let mut r = text::empty();
    let mut i: usize = 0;
    while i < order.len()
        invariant
            i <= order@.len(),
            places == ordering::positions(order@),
            forall|k: int| 0 <= k < order@.len() ==> (#[trigger] order@[k]) < ids@.len(),
            r@ == fabric_cards(devices.deep_view(), known@, ids.deep_view(), places.take(i as int)),
        decreases order@.len() - i,
    {
        assert(places.take(i + 1).drop_last() =~= places.take(i as int));
        assert(places.take(i + 1).last() == order@[i as int]);
        r.append(fabric_card_of(devices, known, ids[order[i]].as_str()).as_str());
        i = i + 1;
    }
    assert(places.take(i as int) =~= places);
    r
}

// ---------------------------------------------------------------------------------------
// Matrix
// ---------------------------------------------------------------------------------------

/// The heads of the columns for the fabrics at the positions `order`.
pub open spec fn heads(known: Map<Seq<char>, FabricMetaModel>, ids: Seq<Seq<char>>, order: Seq<int>) -> Seq<char>
    decreases order.len(),
{
    if order.len() == 0 {
        "<th>Matter Device</th><th>Network</th>"@
    } else {
        let id = ids[order.last()];
        heads(known, ids, order.drop_last()) + matter_parts::fabric_head_html(
            fabric_icon(known, id),
            fabric_name(known, id, "Fabric"@),
        )
    }
}

/// The first line of the matrix.
pub open spec fn matrix_head(
    known: Map<Seq<char>, FabricMetaModel>,
    ids: Seq<Seq<char>>,
    order: Seq<int>,
) -> Seq<char> {
    heads(known, ids, order) + "<th style=\"text-align:right;\">Quick Action</th>"@
}

fn matrix_head_of(known: &TextMap<MatterFabricMeta>, ids: &Vec<String>, order: &Vec<usize>) -> (r: String)
    requires
        forall|i: int| 0 <= i < order@.len() ==> (#[trigger] order@[i]) < ids@.len(),
    ensures
        r@ == matrix_head(known@, ids.deep_view(), ordering::positions(order@)),
{
    let ghost places = ordering::positions(order@);
    let mut r = "<th>Matter Device</th><th>Network</th>".to_owned();
    let mut i: usize = 0;
    while i < order.len()
        invariant
            i <= order@.len(),
            places == ordering::positions(order@),
            forall|k: int| 0 <= k < order@.len() ==> (#[trigger] order@[k]) < ids@.len(),
            r@ == heads(known@, ids.deep_view(), places.take(i as int)),
        decreases order@.len() - i,
    {
        assert(places.take(i + 1).drop_last() =~= places.take(i as int));
        assert(places.take(i + 1).last() == order@[i as int]);
        let id = ids[order[i]].as_str();
        r.append(
            matter_parts::fabric_head(fabric_icon_of(known, id).as_str(), fabric_name_of(known, id, "Fabric").as_str()).as_str(),
        );
        i = i + 1;
    }
    assert(places.take(i as int) =~= places);
    r.append("<th style=\"text-align:right;\">Quick Action</th>");
    r
}

/// The first membership in the fabric `id`.
pub open spec fn membership(fabrics: Seq<FabricModel>, id: Seq<char>) -> Option<FabricModel>
    decreases fabrics.len(),
{
    if fabrics.len() == 0 {
        None
    } else {
        let before = membership(fabrics.drop_last(), id);
        if before is Some {
            before
        } else if fabrics.last().fabric_id == id {
            Some(fabrics.last())
        } else {
            None
        }
    }
}

/// The cell of a device in the column of the fabric `id`.
pub open spec fn cell(fabrics: Seq<FabricModel>, id: Seq<char>) -> Seq<char> {
    match membership(fabrics, id) {
        Some(f) => matter_parts::member_cell_html(
            f.node_id,
            text::decimal(f.port as nat),
            if f.interface == "thread"@ {
                "🧵 Thread"@
            } else {
                "📶 Wi-Fi"@
            },
        ),
        None => matter_parts::NO_MEMBER_CELL@,
    }
}

proof fn lemma_membership_stays(fabrics: Seq<FabricModel>, id: Seq<char>, n: int)
    requires
        0 <= n <= fabrics.len(),
        membership(fabrics.take(n), id) is Some,
    ensures
        membership(fabrics, id) == membership(fabrics.take(n), id),
    decreases fabrics.len(),
{
    if n < fabrics.len() {
        assert(fabrics.drop_last().take(n) =~= fabrics.take(n));
        lemma_membership_stays(fabrics.drop_last(), id, n);
    } else {
        assert(fabrics.take(n) =~= fabrics);
    }
}

fn cell_of(fabrics: &Vec<ClientMatterFabric>, id: &str) -> (r: String)
    ensures
        r@ == cell(fabrics.deep_view(), id@),
{
    let ghost all = fabrics.deep_view();
    let mut i: usize = 0;
    while i < fabrics.len()
        invariant
            i <= fabrics@.len(),
            all == fabrics.deep_view(),
            membership(all.take(i as int), id@) is None,
        decreases fabrics@.len() - i,
    {
        let f = &fabrics[i];
        assert(all.take(i + 1).drop_last() =~= all.take(i as int));
        assert(all.take(i + 1).last() == f.deep_view());
        if text::same(f.fabric_id.as_str(), id) {
            proof {
                lemma_membership_stays(all, id@, i + 1);
            }
            let interface = if text::same(f.interface.as_str(), "thread") {
                "🧵 Thread"
            } else {
                "📶 Wi-Fi"
            };
            return matter_parts::member_cell(f.node_id.as_str(), text::number(f.port as u64).as_str(), interface);
        }
        i = i + 1;
    }
    assert(all.take(i as int) =~= all);
    matter_parts::NO_MEMBER_CELL.to_owned()
}

/// The cells of a device for the fabrics at the positions `order`.
pub open spec fn cells(fabrics: Seq<FabricModel>, ids: Seq<Seq<char>>, order: Seq<int>) -> Seq<char>
    decreases order.len(),
{
    if order.len() == 0 {
        Seq::empty()
    } else {
        cells(fabrics, ids, order.drop_last()) + cell(fabrics, ids[order.last()])
    }
}

fn cells_of(fabrics: &Vec<ClientMatterFabric>, ids: &Vec<String>, order: &Vec<usize>) -> (r: String)
    requires
        forall|i: int| 0 <= i < order@.len() ==> (#[trigger] order@[i]) < ids@.len(),
    ensures
        r@ == cells(fabrics.deep_view(), ids.deep_view(), ordering::positions(order@)),
{
    let ghost places = ordering::positions(order@);
    let mut r = text::empty();
    let mut i: usize = 0;
    while i < order.len()
        invariant
            i <= order@.len(),
            places == ordering::positions(order@),
            forall|k: int| 0 <= k < order@.len() ==> (#[trigger] order@[k]) < ids@.len(),
            r@ == cells(fabrics.deep_view(), ids.deep_view(), places.take(i as int)),
        decreases order@.len() - i,
    {
        assert(places.take(i + 1).drop_last() =~= places.take(i as int));
        assert(places.take(i + 1).last() == order@[i as int]);
        r.append(cell_of(fabrics, ids[order[i]].as_str()).as_str());
        i = i + 1;
    }
    assert(places.take(i as int) =~= places);
    r
}

/// The row of a device.
pub open spec fn matrix_row(d: MatterModel, ids: Seq<Seq<char>>, order: Seq<int>) -> Seq<char> {
    matter_parts::device_row_html(
        d.name,
        d.vendor,
        if d.mac.len() == 0 {
            matter_parts::address_html(d.ip)
        } else {
            matter_parts::addresses_html(d.ip, d.mac)
        },
        cells(d.fabrics, ids, order),
        match d.web_url {
            Some(url) => matter_parts::web_button_html(url),
            None => Seq::empty(),
        },
    )
}

fn matrix_row_of(d: &MatterDevice, ids: &Vec<String>, order: &Vec<usize>) -> (r: String)
    requires
        forall|i: int| 0 <= i < order@.len() ==> (#[trigger] order@[i]) < ids@.len(),
    ensures
        r@ == matrix_row(d.deep_view(), ids.deep_view(), ordering::positions(order@)),
{
    let network = if text::blank(d.mac.as_str()) {
        matter_parts::address(d.ip.as_str())
    } else {
        matter_parts::addresses(d.ip.as_str(), d.mac.as_str())
    };
    let web = match &d.web_url {
        Some(url) => matter_parts::web_button(url.as_str()),
        None => text::empty(),
    };
    let inner = cells_of(&d.fabrics, ids, order);
    matter_parts::device_row(d.name.as_str(), d.vendor.as_str(), network.as_str(), inner.as_str(), web.as_str())
}

/// The rows of the devices at the positions `places`.
pub open spec fn matrix_rows(
    devices: Seq<MatterModel>,
    places: Seq<int>,
    ids: Seq<Seq<char>>,
    order: Seq<int>,
) -> Seq<char>
    decreases places.len(),
{
    if places.len() == 0 {
        Seq::empty()
    } else {
        matrix_rows(devices, places.drop_last(), ids, order) + matrix_row(devices[places.last()], ids, order)
    }
}

fn matrix_rows_of(
    devices: &Vec<MatterDevice>,
    by_name: &Vec<usize>,
    ids: &Vec<String>,
    order: &Vec<usize>,
) -> (r: String)
    requires
        forall|i: int| 0 <= i < by_name@.len() ==> (#[trigger] by_name@[i]) < devices@.len(),
        forall|i: int| 0 <= i < order@.len() ==> (#[trigger] order@[i]) < ids@.len(),
    ensures
        r@ == matrix_rows(
            devices.deep_view(),
            ordering::positions(by_name@),
            ids.deep_view(),
            ordering::positions(order@),
        ),
{
    let ghost models = devices.deep_view();
    let ghost places = ordering::positions(by_name@);
    let mut r = text::empty();
    let mut i: usize = 0;
    while i < by_name.len()
        invariant
            i <= by_name@.len(),
            models == devices.deep_view(),
            places == ordering::positions(by_name@),
            forall|k: int| 0 <= k < by_name@.len() ==> (#[trigger] by_name@[k]) < devices@.len(),
            forall|k: int| 0 <= k < order@.len() ==> (#[trigger] order@[k]) < ids@.len(),
            r@ == matrix_rows(models, places.take(i as int), ids.deep_view(), ordering::positions(order@)),
        decreases by_name@.len() - i,
    {
        let d = &devices[by_name[i]];
        assert(places.take(i + 1).drop_last() =~= places.take(i as int));
        assert(places.take(i + 1).last() == by_name@[i as int]);
        assert(models[by_name@[i as int] as int] == d.deep_view());
        r.append(matrix_row_of(d, ids, order).as_str());
        i = i + 1;
    }
    assert(places.take(i as int) =~= places);
    r
}

// ---------------------------------------------------------------------------------------
// The page
// ---------------------------------------------------------------------------------------

/// The content of the page. `known_order` gives the known fabrics in the order in which they
/// are kept.
pub open spec fn matter_content(
    list: Seq<UnifiedModel>,
    known: Map<Seq<char>, FabricMetaModel>,
    known_order: Seq<Seq<char>>,
    percent: Seq<char>,
) -> Seq<char> {
    let devices = matter_devices(list, known);
    let ids = fabric_ids(known_order, devices);
    let order = fabric_order(ids);
    matter_parts::content_html(
        matter_parts::summary_html(
            text::decimal(ids.len()),
            text::decimal(node_count(devices)),
            text::decimal(devices.len()),
            text::decimal(shared_count(devices)),
            percent,
        ),
        text::decimal(ids.len()),
        fabric_cards(devices, known, ids, order),
        text::decimal(devices.len()),
        matrix_head(known, ids, order),
        matrix_rows(devices, device_order(devices), ids, order),
        matter_parts::SCRIPT@,
    )
}

/// The Matter page. `percent` is the share of the devices that belong to more than one fabric,
/// as `shared_devices` counts them, in percent.
pub fn render_matter_page(
    title: &str,
    devices: &[DeviceRecord],
    links: &TextMap<Vec<String>>,
    fabric_metas: &TextMap<MatterFabricMeta>,
    percent: &str,
) -> (r: String)
    requires
        unify::can_unify(devices.deep_view(), links@),
        can_show_fabrics(unify::unified(devices.deep_view(), links@), fabric_metas@),
    ensures
        r@ == layout::page(
            title@,
            "matter"@,
            matter_content(
                unify::unified(devices.deep_view(), links@),
                fabric_metas@,
                fabric_metas.keys(),
                percent@,
            ),
        ),
{
    let list = unify::build_unified_devices(devices, links);
    let slice = list.as_slice();
    assert(slice.deep_view() =~= list.deep_view());
    let members = matter_devices_of(slice, fabric_metas);
    let ids = fabric_ids_of(fabric_metas, &members);
    let order = fabric_order_of(&ids);
    let by_name = device_order_of(&members);
    let size = text::count(ids.len());
    let total = text::count(members.len());
    assert(ids.deep_view().len() == ids@.len());
    assert(members.deep_view().len() == members@.len());
    let summary = matter_parts::summary(
        size.as_str(),
        text::digits(count_nodes(&members)).as_str(),
        total.as_str(),
        text::count(count_shared(&members)).as_str(),
        percent,
    );
    let content = matter_parts::content(
        summary.as_str(),
        size.as_str(),
        fabric_cards_of(&members, fabric_metas, &ids, &order).as_str(),
        total.as_str(),
        matrix_head_of(fabric_metas, &ids, &order).as_str(),
        matrix_rows_of(&members, &by_name, &ids, &order).as_str(),
        matter_parts::SCRIPT,
    );
    layout::page_layout(title, "matter", content.as_str())
}

/// The Matter page, where it can be shown.
pub fn try_render_matter_page(
    title: &str,
    devices: &[DeviceRecord],
    links: &TextMap<Vec<String>>,
    fabric_metas: &TextMap<MatterFabricMeta>,
    percent: &str,
) -> (r: Option<String>)
    ensures
        match r {
            Some(page) => can_show_page(devices.deep_view(), links@, fabric_metas@) && page@ == layout::page(
                title@,
                "matter"@,
                matter_content(
                    unify::unified(devices.deep_view(), links@),
                    fabric_metas@,
                    fabric_metas.keys(),
                    percent@,
                ),
            ),
            None => !can_show_page(devices.deep_view(), links@, fabric_metas@),
        },
{
    match try_shared_devices(devices, links, fabric_metas) {
        Some(_) => Some(render_matter_page(title, devices, links, fabric_metas, percent)),
        None => None,
    }
}

}
