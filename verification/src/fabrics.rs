//! The Matter fabrics that devices belong to.

use serde_json::Value;
use vstd::prelude::*;

use crate::device::{DeviceModel, DeviceRecord};
use crate::json;
use crate::json::Json;
use crate::records::{ClientMatterFabric, FabricMetaModel, FabricModel, MatterFabricMeta};
use crate::text;
use crate::text_map;
use crate::text_map::TextMap;

verus! {

broadcast use vstd::string::group_string_axioms;

/// What a device reports of its fabrics, and behind it what its other interfaces report.
pub open spec fn reports(d: DeviceModel, others: Seq<DeviceModel>) -> Seq<Seq<char>>
    decreases others.len(),
{
    if others.len() == 0 {
        match d.meta("matter_fabrics"@) {
            Some(s) => seq![s],
            None => Seq::empty(),
        }
    } else {
        let before = reports(d, others.drop_last());
        match others.last().meta("matter_fabrics"@) {
            Some(s) => before.push(s),
            None => before,
        }
    }
}

/// The items of a report: those of the JSON array that it is, or none.
pub open spec fn report_items(report: Seq<char>) -> Seq<Json> {
    match json::parsed(report) {
        Some(Json::List(items)) => items,
        _ => Seq::empty(),
    }
}

/// The id under which an item names its fabric, in capitals.
pub open spec fn fabric_id_of(item: Json) -> Seq<char> {
    text::uppercase(text::or_empty(item.member_text("fabric_id"@)))
}

/// The id that the device has in the fabric, in capitals.
pub open spec fn node_id_of(item: Json) -> Seq<char> {
    text::uppercase(text::or_empty(item.member_text("node_id"@)))
}

/// The low sixteen bits of the reported port; 5540 where none is reported.
pub open spec fn port_of(item: Json) -> int {
    match item.member("port"@) {
        Some(j) => match j.unsigned() {
            Some(n) => n as int % 65536,
            None => 5540,
        },
        None => 5540,
    }
}

/// The first eight bytes of a fabric id, or all of it where it is shorter.
pub open spec fn short_id(id: Seq<char>) -> Seq<char> {
    if text::bytes(id) < 8 {
        id
    } else {
        text::first_bytes(id, 8)
    }
}

/// The fabric that an item reports, with the name and the icon that are known for it.
pub open spec fn fabric_of(item: Json, known: Map<Seq<char>, FabricMetaModel>) -> FabricModel {
    let id = fabric_id_of(item);
    FabricModel {
        fabric_id: id,
        node_id: node_id_of(item),
        port: port_of(item) as u16,
        interface: text::or_text(item.member_text("interface"@), "wifi"@),
        fabric_name: match text_map::lookup(known, id) {
            Some(meta) => meta.name,
            None => "Fabric "@ + short_id(id),
        },
        fabric_icon: match text_map::lookup(known, id) {
            Some(meta) => meta.icon,
            None => "✨"@,
        },
    }
}

/// `fabrics` holds the fabric `id` with the node `node`.
pub open spec fn is_listed(fabrics: Seq<FabricModel>, id: Seq<char>, node: Seq<char>) -> bool {
    exists|i: int| 0 <= i < fabrics.len() && (#[trigger] fabrics[i]).fabric_id == id && fabrics[i].node_id == node
}

/// The item counts: it names a fabric that is not listed with that node yet.
pub open spec fn is_new(fabrics: Seq<FabricModel>, item: Json) -> bool {
    fabric_id_of(item).len() > 0 && !is_listed(fabrics, fabric_id_of(item), node_id_of(item))
}

/// `fabrics` with those of `items` that are new behind them.
pub open spec fn with_items(fabrics: Seq<FabricModel>, items: Seq<Json>, known: Map<Seq<char>, FabricMetaModel>) -> Seq<
    FabricModel,
>
    decreases items.len(),
{
    if items.len() == 0 {
        fabrics
    } else {
        let before = with_items(fabrics, items.drop_last(), known);
        if is_new(before, items.last()) {
            before.push(fabric_of(items.last(), known))
        } else {
            before
        }
    }
}

/// The fabrics in `reports`, each once.
pub open spec fn with_reports(reports: Seq<Seq<char>>, known: Map<Seq<char>, FabricMetaModel>) -> Seq<FabricModel>
    decreases reports.len(),
{
    if reports.len() == 0 {
        Seq::empty()
    } else {
        with_items(with_reports(reports.drop_last(), known), report_items(reports.last()), known)
    }
}

/// The fabrics of a device and its other interfaces.
pub open spec fn device_fabrics(
    d: DeviceModel,
    others: Seq<DeviceModel>,
    known: Map<Seq<char>, FabricMetaModel>,
) -> Seq<FabricModel> {
    with_reports(reports(d, others), known)
}

/// The id of an unknown fabric can be shortened.
pub open spec fn id_cuts(item: Json, known: Map<Seq<char>, FabricMetaModel>) -> bool {
    let id = fabric_id_of(item);
    !known.contains_key(id) && text::bytes(id) >= 8 ==> text::cuts_at(id, 8)
}

/// Every shortening of a fabric id in `reports` ends with a whole character.
pub open spec fn reports_cut(reports: Seq<Seq<char>>, known: Map<Seq<char>, FabricMetaModel>) -> bool {
    forall|r: int, i: int|
        0 <= r < reports.len() && 0 <= i < report_items(reports[r]).len() ==> id_cuts(
            #[trigger] report_items(reports[r])[i],
            known,
        )
}

/// The fabrics of a device and its other interfaces can be listed.
pub open spec fn can_list_fabrics(
    d: DeviceModel,
    others: Seq<DeviceModel>,
    known: Map<Seq<char>, FabricMetaModel>,
) -> bool {
    reports_cut(reports(d, others), known)
}

fn reports_of(d: &DeviceRecord, others: &[DeviceRecord]) -> (r: Vec<String>)
    ensures
        r.deep_view() == reports(d.deep_view(), others.deep_view()),
{
    let ghost all = others.deep_view();
    let mut r: Vec<String> = Vec::new();
    match d.meta("matter_fabrics") {
        Some(s) => {
            r.push(s.clone());
            assert(r.deep_view() =~= seq![s@]);
        },
        None => {
            assert(r.deep_view() =~= Seq::<Seq<char>>::empty());
        },
    }
    let mut i: usize = 0;
    assert(all.take(0) =~= Seq::<DeviceModel>::empty());
    while i < others.len()
        invariant
            i <= others@.len(),
            all == others.deep_view(),
            r.deep_view() =~= reports(d.deep_view(), all.take(i as int)),
        decreases others@.len() - i,
    {
        let ghost before = r.deep_view();
        assert(all.take(i + 1).drop_last() =~= all.take(i as int));
        assert(all.take(i + 1).last() == others@[i as int].deep_view());
        match others[i].meta("matter_fabrics") {
            Some(s) => {
                r.push(s.clone());
                assert(r.deep_view() =~= before.push(s@));
            },
            None => {},
        }
        i = i + 1;
    }
    assert(all.take(i as int) =~= all);
    r
}

fn text_member(item: &Value, key: &str, otherwise: &str) -> (r: String)
    ensures
        r@ == text::or_text(json::json_of(*item).member_text(key@), otherwise@),
{
    match json::get_text(item, key) {
        Some(s) => s,
        None => otherwise.to_owned(),
    }
}

fn fabric_id_in(item: &Value) -> (r: String)
    ensures
        r@ == fabric_id_of(json::json_of(*item)),
{
    match json::get_text(item, "fabric_id") {
        Some(s) => s.as_str().to_uppercase(),
        None => text::empty().as_str().to_uppercase(),
    }
}

fn node_id_in(item: &Value) -> (r: String)
    ensures
        r@ == node_id_of(json::json_of(*item)),
{
    match json::get_text(item, "node_id") {
        Some(s) => s.as_str().to_uppercase(),
        None => text::empty().as_str().to_uppercase(),
    }
}

fn port_in(item: &Value) -> (r: u16)
    ensures
        r == port_of(json::json_of(*item)),
{
    match json::get(item, "port") {
        Some(v) => match v.as_u64() {
            Some(n) => (n % 65536) as u16,
            None => 5540,
        },
        None => 5540,
    }
}

fn short_id_of(id: &str) -> (r: String)
    requires
        text::bytes(id@) >= 8 ==> text::cuts_at(id@, 8),
    ensures
        r@ == short_id(id@),
{
    if text::byte_len(id) < 8 {
        id.to_owned()
    } else {
        text::cut(id, 8).0.to_owned()
    }
}

fn fabric_in(item: &Value, known: &TextMap<MatterFabricMeta>) -> (r: ClientMatterFabric)
    requires
        id_cuts(json::json_of(*item), known@),
    ensures
        r.deep_view() == fabric_of(json::json_of(*item), known@),
{
    let fabric_id = fabric_id_in(item);
    let node_id = node_id_in(item);
    let port: u16 = port_in(item);
    let interface = text_member(item, "interface", "wifi");
    let (fabric_name, fabric_icon) = match known.get(fabric_id.as_str()) {
        Some(meta) => (meta.name.clone(), meta.icon.clone()),
        None => {
            let mut name = "Fabric ".to_owned();
            name.append(short_id_of(fabric_id.as_str()).as_str());
            (name, "✨".to_owned())
        },
    };
    ClientMatterFabric { fabric_id, node_id, port, interface, fabric_name, fabric_icon }
}

fn is_listed_in(fabrics: &Vec<ClientMatterFabric>, id: &str, node: &str) -> (r: bool)
    ensures
        r == is_listed(fabrics.deep_view(), id@, node@),
{
    let ghost all = fabrics.deep_view();
    let mut i: usize = 0;
    while i < fabrics.len()
        invariant
            i <= fabrics@.len(),
            all == fabrics.deep_view(),
            forall|j: int| 0 <= j < i ==> !((#[trigger] all[j]).fabric_id == id@ && all[j].node_id == node@),
        decreases fabrics@.len() - i,
    {
        assert(all[i as int] == fabrics@[i as int].deep_view());
        if text::same(fabrics[i].fabric_id.as_str(), id) && text::same(fabrics[i].node_id.as_str(), node) {
            return true;
        }
        i = i + 1;
    }
    false
}

fn add_items(fabrics: &mut Vec<ClientMatterFabric>, items: &Vec<Value>, known: &TextMap<MatterFabricMeta>)
    requires
        forall|i: int| 0 <= i < items@.len() ==> id_cuts(#[trigger] json::jsons(items@)[i], known@),
    ensures
        final(fabrics).deep_view() == with_items(old(fabrics).deep_view(), json::jsons(items@), known@),
{
    let ghost all = json::jsons(items@);
    let ghost first = fabrics.deep_view();
    let mut i: usize = 0;
    while i < items.len()
        invariant
            i <= items@.len(),
            all == json::jsons(items@),
            forall|j: int| 0 <= j < items@.len() ==> id_cuts(#[trigger] all[j], known@),
            fabrics.deep_view() =~= with_items(first, all.take(i as int), known@),
        decreases items@.len() - i,
    {
        let ghost before = fabrics.deep_view();
        let item = &items[i];
        assert(all[i as int] == json::json_of(*item));
        assert(all.take(i + 1).drop_last() =~= all.take(i as int));
        let id = fabric_id_in(item);
        let node = node_id_in(item);
        if !text::blank(id.as_str()) && !is_listed_in(fabrics, id.as_str(), node.as_str()) {
            let fabric = fabric_in(item, known);
            fabrics.push(fabric);
            assert(fabrics.deep_view() =~= before.push(fabric.deep_view()));
        }
        i = i + 1;
    }
    assert(all.take(i as int) =~= all);
}

/// The fabrics that a device and its other interfaces report, each once, with the names and
/// the icons that are known for them.
pub fn extract_device_matter_fabrics(
    dev: &DeviceRecord,
    secondaries: &[DeviceRecord],
    fabric_metas: &TextMap<MatterFabricMeta>,
) -> (r: Vec<ClientMatterFabric>)
    requires
        can_list_fabrics(dev.deep_view(), secondaries.deep_view(), fabric_metas@),
    ensures
        r.deep_view() == device_fabrics(dev.deep_view(), secondaries.deep_view(), fabric_metas@),
{
    let raw = reports_of(dev, secondaries);
    let ghost all = raw.deep_view();
    let mut r: Vec<ClientMatterFabric> = Vec::new();
    let mut i: usize = 0;
    while i < raw.len()
        invariant
            i <= raw@.len(),
            all == raw.deep_view(),
            reports_cut(all, fabric_metas@),
            r.deep_view() =~= with_reports(all.take(i as int), fabric_metas@),
        decreases raw@.len() - i,
    {
        assert(all[i as int] == raw@[i as int]@);
        assert(all.take(i + 1).drop_last() =~= all.take(i as int));
        match json::parse(raw[i].as_str()) {
            Some(v) => match v.as_array() {
                Some(items) => {
                    assert forall|j: int| 0 <= j < items@.len() implies id_cuts(
                        #[trigger] json::jsons(items@)[j],
                        fabric_metas@,
                    ) by {
                        assert(report_items(all[i as int])[j] == json::jsons(items@)[j]);
                    }
                    add_items(&mut r, items, fabric_metas);
                },
                None => {},
            },
            None => {},
        }
        i = i + 1;
    }
    assert(all.take(i as int) =~= all);
    r
}

/// The fabrics of a device can be listed: no shortening of an id would end within a character.
pub fn fabrics_listable(
    dev: &DeviceRecord,
    secondaries: &[DeviceRecord],
    fabric_metas: &TextMap<MatterFabricMeta>,
) -> (r: bool)
    ensures
        r == can_list_fabrics(dev.deep_view(), secondaries.deep_view(), fabric_metas@),
{
    let raw = reports_of(dev, secondaries);
    let ghost all = raw.deep_view();
    let mut n: usize = 0;
    while n < raw.len()
        invariant
            n <= raw@.len(),
            all == raw.deep_view(),
            all == reports(dev.deep_view(), secondaries.deep_view()),
            forall|r: int, i: int|
                0 <= r < n && 0 <= i < report_items(all[r]).len() ==> id_cuts(
                    #[trigger] report_items(all[r])[i],
                    fabric_metas@,
                ),
        decreases raw@.len() - n,
    {
        assert(all[n as int] == raw@[n as int]@);
        match json::parse(raw[n].as_str()) {
            Some(v) => match v.as_array() {
                Some(items) => {
                    if !items_cut(items, fabric_metas) {
                        proof {
                            let j = choose|j: int| 0 <= j < items@.len() && !id_cuts(#[trigger] json::jsons(items@)[j], fabric_metas@);
                            assert(report_items(all[n as int])[j] == json::jsons(items@)[j]);
                        }
                        return false;
                    }
                    assert forall|j: int| 0 <= j < report_items(all[n as int]).len() implies id_cuts(
                        #[trigger] report_items(all[n as int])[j],
                        fabric_metas@,
                    ) by {
                        assert(report_items(all[n as int])[j] == json::jsons(items@)[j]);
                    }
                },
                None => {},
            },
            None => {},
        }
        n = n + 1;
    }
    true
}

fn items_cut(items: &Vec<Value>, known: &TextMap<MatterFabricMeta>) -> (r: bool)
    ensures
        r == (forall|j: int| 0 <= j < items@.len() ==> id_cuts(#[trigger] json::jsons(items@)[j], known@)),
{
    let ghost all = json::jsons(items@);
    let mut i: usize = 0;
    while i < items.len()
        invariant
            i <= items@.len(),
            all == json::jsons(items@),
            forall|j: int| 0 <= j < i ==> id_cuts(#[trigger] all[j], known@),
        decreases items@.len() - i,
    {
        assert(all[i as int] == json::json_of(items@[i as int]));
        let id = fabric_id_in(&items[i]);
        if !known.contains_key(id.as_str()) && text::byte_len(id.as_str()) >= 8 && !id.as_str().is_char_boundary(8) {
            return false;
        }
        i = i + 1;
    }
    true
}

/// Every fabric has an id, and none is listed twice with the same node.
pub open spec fn each_once(fabrics: Seq<FabricModel>) -> bool {
    &&& forall|i: int| 0 <= i < fabrics.len() ==> (#[trigger] fabrics[i]).fabric_id.len() > 0
    &&& forall|i: int, j: int|
        0 <= i < j < fabrics.len() ==> !((#[trigger] fabrics[i]).fabric_id == (#[trigger] fabrics[j]).fabric_id
            && fabrics[i].node_id == fabrics[j].node_id)
}

proof fn lemma_items_once(fabrics: Seq<FabricModel>, items: Seq<Json>, known: Map<Seq<char>, FabricMetaModel>)
    requires
        each_once(fabrics),
    ensures
        each_once(with_items(fabrics, items, known)),
    decreases items.len(),
{
    if items.len() > 0 {
        lemma_items_once(fabrics, items.drop_last(), known);
    }
}

proof fn lemma_reports_once(reports: Seq<Seq<char>>, known: Map<Seq<char>, FabricMetaModel>)
    ensures
        each_once(with_reports(reports, known)),
    decreases reports.len(),
{
    if reports.len() > 0 {
        lemma_reports_once(reports.drop_last(), known);
        lemma_items_once(with_reports(reports.drop_last(), known), report_items(reports.last()), known);
    }
}

/// A device lists no fabric twice with the same node, whatever its interfaces report.
pub proof fn fabrics_are_listed_once(
    d: DeviceModel,
    others: Seq<DeviceModel>,
    known: Map<Seq<char>, FabricMetaModel>,
)
    ensures
        each_once(device_fabrics(d, others, known)),
{
    lemma_reports_once(reports(d, others), known);
}

}
