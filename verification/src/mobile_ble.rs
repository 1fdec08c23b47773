//! Bluetooth devices that a phone saw on its way through the house.

use serde_json::Value;
use vstd::prelude::*;

use crate::device::{DeviceModel, DeviceRecord};
use crate::json;
use crate::json::Json;
use crate::text;
use crate::text_map;
use crate::text_map::{Duplicate, TextMap};

verus! {

broadcast use vstd::string::group_string_axioms;

/// A device in a scan. Measured values stand in the decimal form in which they are shown.
#[derive(Debug)]
pub struct MobileBleScanItem {
    pub id: String,
    pub name: Option<String>,
    pub rssi: Option<i16>,
    pub service_uuids: Vec<String>,
    pub manufacturer_data_hex: Option<String>,
    pub family: Option<String>,
    pub assigned_room: Option<String>,
    pub scout_name: Option<String>,
    pub bthome_version: Option<u8>,
    pub battery: Option<u8>,
    pub temperature_c: Option<String>,
    pub humidity_pct: Option<String>,
    pub illuminance_lux: Option<String>,
    pub pressure_hpa: Option<String>,
    pub contact_open: Option<bool>,
    pub motion_detected: Option<bool>,
    pub button_event: Option<String>,
}

/// What a `MobileBleScanItem` stands for.
#[verifier::ext_equal]
pub struct ScanItemModel {
    pub id: Seq<char>,
    pub name: Option<Seq<char>>,
    pub rssi: Option<i16>,
    pub service_uuids: Seq<Seq<char>>,
    pub manufacturer_data_hex: Option<Seq<char>>,
    pub family: Option<Seq<char>>,
    pub assigned_room: Option<Seq<char>>,
    pub scout_name: Option<Seq<char>>,
    pub bthome_version: Option<u8>,
    pub battery: Option<u8>,
    pub temperature_c: Option<Seq<char>>,
    pub humidity_pct: Option<Seq<char>>,
    pub illuminance_lux: Option<Seq<char>>,
    pub pressure_hpa: Option<Seq<char>>,
    pub contact_open: Option<bool>,
    pub motion_detected: Option<bool>,
    pub button_event: Option<Seq<char>>,
}

impl DeepView for MobileBleScanItem {
    type V = ScanItemModel;

    open spec fn deep_view(&self) -> ScanItemModel {
        ScanItemModel {
            id: self.id@,
            name: self.name.deep_view(),
            rssi: self.rssi,
            service_uuids: self.service_uuids.deep_view(),
            manufacturer_data_hex: self.manufacturer_data_hex.deep_view(),
            family: self.family.deep_view(),
            assigned_room: self.assigned_room.deep_view(),
            scout_name: self.scout_name.deep_view(),
            bthome_version: self.bthome_version,
            battery: self.battery,
            temperature_c: self.temperature_c.deep_view(),
            humidity_pct: self.humidity_pct.deep_view(),
            illuminance_lux: self.illuminance_lux.deep_view(),
            pressure_hpa: self.pressure_hpa.deep_view(),
            contact_open: self.contact_open,
            motion_detected: self.motion_detected,
            button_event: self.button_event.deep_view(),
        }
    }
}

impl Clone for MobileBleScanItem {
    fn clone(&self) -> (r: Self)
        ensures
            r.deep_view() == self.deep_view(),
    {
        MobileBleScanItem {
            id: self.id.clone(),
            name: self.name.duplicate(),
            rssi: self.rssi,
            service_uuids: self.service_uuids.duplicate(),
            manufacturer_data_hex: self.manufacturer_data_hex.duplicate(),
            family: self.family.duplicate(),
            assigned_room: self.assigned_room.duplicate(),
            scout_name: self.scout_name.duplicate(),
            bthome_version: self.bthome_version,
            battery: self.battery,
            temperature_c: self.temperature_c.duplicate(),
            humidity_pct: self.humidity_pct.duplicate(),
            illuminance_lux: self.illuminance_lux.duplicate(),
            pressure_hpa: self.pressure_hpa.duplicate(),
            contact_open: self.contact_open,
            motion_detected: self.motion_detected,
            button_event: self.button_event.duplicate(),
        }
    }
}

/// A device of which nothing is known.
pub open spec fn empty_item() -> ScanItemModel {
    ScanItemModel {
        id: Seq::empty(),
        name: None,
        rssi: None,
        service_uuids: Seq::empty(),
        manufacturer_data_hex: None,
        family: None,
        assigned_room: None,
        scout_name: None,
        bthome_version: None,
        battery: None,
        temperature_c: None,
        humidity_pct: None,
        illuminance_lux: None,
        pressure_hpa: None,
        contact_open: None,
        motion_detected: None,
        button_event: None,
    }
}

impl Default for MobileBleScanItem {
    fn default() -> (r: Self)
        ensures
            r.deep_view() == empty_item(),
    {
        let r = MobileBleScanItem {
            id: String::new(),
            name: None,
            rssi: None,
            service_uuids: Vec::new(),
            manufacturer_data_hex: None,
            family: None,
            assigned_room: None,
            scout_name: None,
            bthome_version: None,
            battery: None,
            temperature_c: None,
            humidity_pct: None,
            illuminance_lux: None,
            pressure_hpa: None,
            contact_open: None,
            motion_detected: None,
            button_event: None,
        };
        assert(r.service_uuids.deep_view() =~= Seq::<Seq<char>>::empty());
        r
    }
}

/// What a phone sends: many devices or one.
#[derive(Debug)]
pub enum MobileBleScanPayload {
    Batch(Vec<MobileBleScanItem>),
    Single(MobileBleScanItem),
}

/// The devices in what a phone sent.
pub open spec fn payload_items(payload: MobileBleScanPayload) -> Seq<ScanItemModel> {
    match payload {
        MobileBleScanPayload::Batch(items) => items.deep_view(),
        MobileBleScanPayload::Single(item) => seq![item.deep_view()],
    }
}

/// The devices in what a phone sent.
pub fn items_of(payload: MobileBleScanPayload) -> (r: Vec<MobileBleScanItem>)
    ensures
        r.deep_view() == payload_items(payload),
{
    match payload {
        MobileBleScanPayload::Batch(items) => items,
        MobileBleScanPayload::Single(item) => {
            let mut r: Vec<MobileBleScanItem> = Vec::new();
            r.push(item);
            assert(r.deep_view() =~= seq![item.deep_view()]);
            r
        },
    }
}

// ---------------------------------------------------------------------------------------
// The record of a device
// ---------------------------------------------------------------------------------------

/// The name of a device: its own, else one made from the start of its id.
pub open spec fn scan_name(item: ScanItemModel) -> Seq<char> {
    match item.name {
        Some(n) => n,
        None => "BLE "@ + if text::bytes(item.id) < 8 {
            item.id
        } else {
            text::first_bytes(item.id, 8)
        },
    }
}

/// A name can be made from the id, where the device has none.
pub open spec fn can_name(item: ScanItemModel) -> bool {
    item.name is None && text::bytes(item.id) >= 8 ==> text::cuts_at(item.id, 8)
}

/// What kind of device it is, by what it reports.
pub open spec fn scan_kind(item: ScanItemModel) -> Seq<char> {
    if item.contact_open is Some {
        "contact-sensor"@
    } else if item.motion_detected is Some {
        "motion-sensor"@
    } else if item.button_event is Some {
        "button"@
    } else {
        "sensor"@
    }
}

/// `m` with `value` under `key`, where there is one.
pub open spec fn with_value(
    m: Map<Seq<char>, Seq<char>>,
    key: Seq<char>,
    value: Option<Seq<char>>,
) -> Map<Seq<char>, Seq<char>> {
    match value {
        Some(s) => m.insert(key, s),
        None => m,
    }
}

/// The metadata that every device of a scan gets.
pub open spec fn fixed_metadata(item: ScanItemModel) -> Map<Seq<char>, Seq<char>> {
    Map::<Seq<char>, Seq<char>>::empty()
        .insert("source"@, "mobile-scout"@)
        .insert("sources"@, "mobile-scout,ble"@)
        .insert("scout"@, text::or_text(item.scout_name, "iPhone"@))
        .insert("family"@, text::or_text(item.family, "Bluetooth LE"@))
        .insert("status"@, "active"@)
        .insert("protocol"@, "ble"@)
        .insert("mac"@, item.id)
}

/// The metadata with what the device reported.
pub open spec fn scan_metadata(item: ScanItemModel) -> Map<Seq<char>, Seq<char>> {
    let m1 = with_value(
        fixed_metadata(item),
        "rssi"@,
        match item.rssi {
            Some(n) => Some(text::signed_decimal(n as int)),
            None => None,
        },
    );
    let m2 = with_value(m1, "room"@, item.assigned_room);
    let m3 = with_value(
        m2,
        "battery"@,
        match item.battery {
            Some(n) => Some(text::decimal(n as nat)),
            None => None,
        },
    );
    let m4 = with_value(m3, "temperature_c"@, item.temperature_c);
    let m5 = with_value(m4, "humidity_pct"@, item.humidity_pct);
    let m6 = with_value(m5, "illuminance_lux"@, item.illuminance_lux);
    let m7 = with_value(
        m6,
        "contact_state"@,
        match item.contact_open {
            Some(open) => Some(
                if open {
                    "open"@
                } else {
                    "closed"@
                },
            ),
            None => None,
        },
    );
    with_value(m7, "button_event"@, item.button_event)
}

/// The record of a device whose id in plain form is `norm_id`; none without such a form.
pub open spec fn scan_record(item: ScanItemModel, norm_id: Seq<char>) -> Option<DeviceModel> {
    if norm_id.len() == 0 {
        None
    } else {
        Some(
            DeviceModel {
                module_id: "web"@,
                device_id: "mobile-ble-"@ + norm_id,
                display_name: scan_name(item),
                kind: scan_kind(item),
                capabilities: seq!["ble"@, "mobile-scout"@],
                metadata: scan_metadata(item),
            },
        )
    }
}

fn text_or(value: &Option<String>, otherwise: &str) -> (r: String)
    ensures
        r@ == text::or_text(value.deep_view(), otherwise@),
{
    match value {
        Some(s) => s.clone(),
        None => otherwise.to_owned(),
    }
}

/// Whether a name can be made from the id, where the device has none.
pub fn namable(item: &MobileBleScanItem) -> (r: bool)
    ensures
        r == can_name(item.deep_view()),
{
    match &item.name {
        Some(_) => true,
        None => text::byte_len(item.id.as_str()) < 8 || item.id.as_str().is_char_boundary(8),
    }
}

fn scan_name_of(item: &MobileBleScanItem) -> (r: String)
    requires
        can_name(item.deep_view()),
    ensures
        r@ == scan_name(item.deep_view()),
{
    match &item.name {
        Some(n) => n.clone(),
        None => {
            let mut out = "BLE ".to_owned();
            if text::byte_len(item.id.as_str()) < 8 {
                out.append(item.id.as_str());
            } else {
                out.append(text::cut(item.id.as_str(), 8).0);
            }
            out
        },
    }
}

fn scan_kind_of(item: &MobileBleScanItem) -> (r: &'static str)
    ensures
        r@ == scan_kind(item.deep_view()),
{
    if item.contact_open.is_some() {
        "contact-sensor"
    } else if item.motion_detected.is_some() {
        "motion-sensor"
    } else if item.button_event.is_some() {
        "button"
    } else {
        "sensor"
    }
}

fn put(m: &mut TextMap<String>, key: &str, value: &str)
    ensures
        final(m)@ == old(m)@.insert(key@, value@),
{
    m.insert(key.to_owned(), value.to_owned());
}

fn put_value(m: &mut TextMap<String>, key: &str, value: &Option<String>)
    ensures
        final(m)@ == with_value(old(m)@, key@, value.deep_view()),
{
    match value {
        Some(s) => put(m, key, s.as_str()),
        None => {},
    }
}

fn scan_metadata_of(item: &MobileBleScanItem) -> (m: TextMap<String>)
    ensures
        m@ == scan_metadata(item.deep_view()),
{
    let mut m: TextMap<String> = TextMap::new();
    put(&mut m, "source", "mobile-scout");
    put(&mut m, "sources", "mobile-scout,ble");
    put(&mut m, "scout", text_or(&item.scout_name, "iPhone").as_str());
    put(&mut m, "family", text_or(&item.family, "Bluetooth LE").as_str());
    put(&mut m, "status", "active");
    put(&mut m, "protocol", "ble");
    put(&mut m, "mac", item.id.as_str());
    match item.rssi {
        Some(n) => put(&mut m, "rssi", text::signed(n as i64).as_str()),
        None => {},
    }
    put_value(&mut m, "room", &item.assigned_room);
    match item.battery {
        Some(n) => put(&mut m, "battery", text::number(n as u64).as_str()),
        None => {},
    }
    put_value(&mut m, "temperature_c", &item.temperature_c);
    put_value(&mut m, "humidity_pct", &item.humidity_pct);
    put_value(&mut m, "illuminance_lux", &item.illuminance_lux);
    match item.contact_open {
        Some(open) => put(
            &mut m,
            "contact_state",
            if open {
                "open"
            } else {
                "closed"
            },
        ),
        None => {},
    }
    put_value(&mut m, "button_event", &item.button_event);
    m
}

/// The record of a device in a scan. `norm_id` is its id in plain form.
pub fn mobile_ble_item_to_record(item: &MobileBleScanItem, norm_id: &str) -> (r: Option<DeviceRecord>)
    requires
        norm_id@.len() > 0 ==> can_name(item.deep_view()),
    ensures
        r.deep_view() == scan_record(item.deep_view(), norm_id@),
{
    if text::blank(norm_id) {
        return None;
    }
    let mut device_id = "mobile-ble-".to_owned();
    device_id.append(norm_id);
    let mut capabilities: Vec<String> = Vec::new();
    capabilities.push("ble".to_owned());
    capabilities.push("mobile-scout".to_owned());
    assert(capabilities.deep_view() =~= seq!["ble"@, "mobile-scout"@]);
    Some(
        DeviceRecord {
            module_id: "web".to_owned(),
            device_id,
            display_name: scan_name_of(item),
            kind: scan_kind_of(item).to_owned(),
            capabilities,
            metadata: scan_metadata_of(item),
        },
    )
}

// ---------------------------------------------------------------------------------------
// Taking in a scan
// ---------------------------------------------------------------------------------------

/// What the stores outside the library say of a device in a scan.
#[derive(Debug)]
pub struct ScanFacts {
    /// The id in plain form.
    pub norm_id: String,
    /// The device is ignored by its id, by that form of it, or by its name.
    pub id_ignored: bool,
    pub norm_id_ignored: bool,
    pub name_ignored: bool,
}

/// What a `ScanFacts` stands for.
#[verifier::ext_equal]
pub struct ScanFactsModel {
    pub norm_id: Seq<char>,
    pub id_ignored: bool,
    pub norm_id_ignored: bool,
    pub name_ignored: bool,
}

impl DeepView for ScanFacts {
    type V = ScanFactsModel;

    open spec fn deep_view(&self) -> ScanFactsModel {
        ScanFactsModel {
            norm_id: self.norm_id@,
            id_ignored: self.id_ignored,
            norm_id_ignored: self.norm_id_ignored,
            name_ignored: self.name_ignored,
        }
    }
}

/// The device is ignored.
pub open spec fn is_ignored(item: ScanItemModel, facts: ScanFactsModel) -> bool {
    facts.id_ignored || facts.norm_id_ignored || (text::or_empty(item.name).len() > 0 && facts.name_ignored)
}

/// The device is taken in.
pub open spec fn is_taken_in(item: ScanItemModel, facts: ScanFactsModel) -> bool {
    facts.norm_id.len() > 0 && !is_ignored(item, facts)
}

/// What is passed on of the data that the device sent.
pub open spec fn forward_json(item: ScanItemModel, data: Seq<char>) -> Json {
    Json::Object(
        json::no_members().insert("mac"@, Json::Text(item.id)).insert(
            "rssi"@,
            signed_json(
                match item.rssi {
                    Some(n) => n as i64,
                    None => -70i64,
                },
            ),
        ).insert("gateway"@, Json::Text(text::or_text(item.scout_name, "iPhone (Mobile Scout)"@))).insert(
            "payload"@,
            Json::Text(data),
        ).insert("data"@, Json::Text(data)).insert("payload_bytes"@, Json::Text(data)),
    )
}

/// A number that may be negative.
pub open spec fn signed_json(n: i64) -> Json {
    if n < 0 {
        Json::Negative(n)
    } else {
        Json::Unsigned(n as u64)
    }
}

/// What follows from a scan.
pub struct Ingest {
    /// The records of the devices that are taken in.
    pub records: Vec<DeviceRecord>,
    /// Their positions in the scan.
    pub taken: Vec<usize>,
    /// What is passed on to the module that reads Bluetooth data.
    pub forward: Vec<Value>,
    /// How many devices are ignored.
    pub ignored: usize,
}

/// The records of the devices among the first `n` that are taken in.
pub open spec fn records_below(items: Seq<ScanItemModel>, facts: Seq<ScanFactsModel>, n: int) -> Seq<DeviceModel>
    decreases n,
{
    if n <= 0 {
        Seq::empty()
    } else {
        let before = records_below(items, facts, n - 1);
        if is_taken_in(items[n - 1], facts[n - 1]) {
            before.push(scan_record(items[n - 1], facts[n - 1].norm_id)->0)
        } else {
            before
        }
    }
}

/// The positions of the devices among the first `n` that are taken in.
pub open spec fn taken_below(items: Seq<ScanItemModel>, facts: Seq<ScanFactsModel>, n: int) -> Seq<int>
    decreases n,
{
    if n <= 0 {
        Seq::empty()
    } else {
        let before = taken_below(items, facts, n - 1);
        if is_taken_in(items[n - 1], facts[n - 1]) {
            before.push(n - 1)
        } else {
            before
        }
    }
}

/// What is passed on of the devices among the first `n` that are taken in.
pub open spec fn forward_below(items: Seq<ScanItemModel>, facts: Seq<ScanFactsModel>, n: int) -> Seq<Json>
    decreases n,
{
    if n <= 0 {
        Seq::empty()
    } else {
        let before = forward_below(items, facts, n - 1);
        if is_taken_in(items[n - 1], facts[n - 1]) && items[n - 1].manufacturer_data_hex is Some {
            before.push(forward_json(items[n - 1], items[n - 1].manufacturer_data_hex->0))
        } else {
            before
        }
    }
}

/// How many of the first `n` devices are ignored.
pub open spec fn ignored_below(items: Seq<ScanItemModel>, facts: Seq<ScanFactsModel>, n: int) -> nat
    decreases n,
{
    if n <= 0 {
        0
    } else {
        ignored_below(items, facts, n - 1) + if facts[n - 1].norm_id.len() > 0 && is_ignored(items[n - 1], facts[n - 1]) {
            1nat
        } else {
            0nat
        }
    }
}

fn forward_value(item: &MobileBleScanItem, data: &str) -> (r: Value)
    ensures
        json::json_of(r) == forward_json(item.deep_view(), data@),
{
    let rssi: i64 = match item.rssi {
        Some(n) => n as i64,
        None => -70,
    };
    let mut o = json::new_members();
    json::put(&mut o, "mac", json::string(item.id.as_str()));
    json::put(&mut o, "rssi", json::signed(rssi));
    json::put(&mut o, "gateway", json::string(text_or(&item.scout_name, "iPhone (Mobile Scout)").as_str()));
    json::put(&mut o, "payload", json::string(data));
    json::put(&mut o, "data", json::string(data));
    json::put(&mut o, "payload_bytes", json::string(data));
    json::object(o)
}

fn is_ignored_item(item: &MobileBleScanItem, facts: &ScanFacts) -> (r: bool)
    ensures
        r == is_ignored(item.deep_view(), facts.deep_view()),
{
    facts.id_ignored || facts.norm_id_ignored || match &item.name {
        Some(name) => !text::blank(name.as_str()) && facts.name_ignored,
        None => false,
    }
}

/// What follows from a scan can be told: every device that is taken in can be named, and `facts`
/// speak of each device.
pub open spec fn can_ingest(items: Seq<ScanItemModel>, facts: Seq<ScanFactsModel>) -> bool {
    &&& items.len() == facts.len()
    &&& forall|i: int| 0 <= i < items.len() && is_taken_in(items[i], facts[i]) ==> can_name(#[trigger] items[i])
}

/// What follows from a scan: which devices are taken in, what is passed on, and how many are
/// ignored. `facts` speak of the devices in that order.
pub fn ingest(items: &[MobileBleScanItem], facts: &[ScanFacts]) -> (r: Ingest)
    requires
        can_ingest(items.deep_view(), facts.deep_view()),
    ensures
        r.records.deep_view() == records_below(items.deep_view(), facts.deep_view(), items@.len() as int),
        r.taken@.map_values(|i: usize| i as int) == taken_below(items.deep_view(), facts.deep_view(), items@.len() as int),
        json::jsons(r.forward@) == forward_below(items.deep_view(), facts.deep_view(), items@.len() as int),
        r.ignored == ignored_below(items.deep_view(), facts.deep_view(), items@.len() as int),
{
    let ghost all = items.deep_view();
    let ghost known = facts.deep_view();
    let mut records: Vec<DeviceRecord> = Vec::new();
    let mut taken: Vec<usize> = Vec::new();
    let mut forward: Vec<Value> = Vec::new();
    let mut ignored: usize = 0;
    let mut i: usize = 0;
    assert(records.deep_view() =~= Seq::<DeviceModel>::empty());
    assert(taken@.map_values(|i: usize| i as int) =~= Seq::<int>::empty());
    assert(json::jsons(forward@) =~= Seq::<Json>::empty());
    while i < items.len()
        invariant
            i <= items@.len(),
            items@.len() == facts@.len(),
            all == items.deep_view(),
            known == facts.deep_view(),
            forall|k: int|
                0 <= k < items@.len() && is_taken_in(all[k], known[k]) ==> can_name(#[trigger] all[k]),
            ignored <= i,
            records.deep_view() == records_below(all, known, i as int),
            taken@.map_values(|i: usize| i as int) == taken_below(all, known, i as int),
            json::jsons(forward@) == forward_below(all, known, i as int),
            ignored == ignored_below(all, known, i as int),
        decreases items@.len() - i,
    {
        let item = &items[i];
        assert(all[i as int] == item.deep_view());
        assert(known[i as int] == facts@[i as int].deep_view());
        if !text::blank(facts[i].norm_id.as_str()) {
            if is_ignored_item(item, &facts[i]) {
                ignored = ignored + 1;
            } else {
                match &item.manufacturer_data_hex {
                    Some(data) => {
                        let ghost before = forward@;
                        let value = forward_value(item, data.as_str());
                        forward.push(value);
                        assert(json::jsons(forward@) =~= json::jsons(before).push(json::json_of(value)));
                    },
                    None => {},
                }
                match mobile_ble_item_to_record(item, facts[i].norm_id.as_str()) {
                    Some(record) => {
                        let ghost before = records.deep_view();
                        let ghost places = taken@;
                        records.push(record);
                        taken.push(i);
                        assert(records.deep_view() =~= before.push(record.deep_view()));
                        assert(taken@.map_values(|i: usize| i as int) =~= places.map_values(|i: usize| i as int).push(i as int));
                    },
                    None => {},
                }
            }
        }
        i = i + 1;
    }
    Ingest { records, taken, forward, ignored }
}

/// What follows from a scan, where it can be told.
pub fn try_ingest(items: &[MobileBleScanItem], facts: &[ScanFacts]) -> (r: Option<Ingest>)
    ensures
        match r {
            Some(x) => {
                let n = items@.len() as int;
                &&& can_ingest(items.deep_view(), facts.deep_view())
                &&& x.records.deep_view() == records_below(items.deep_view(), facts.deep_view(), n)
                &&& x.taken@.map_values(|i: usize| i as int) == taken_below(items.deep_view(), facts.deep_view(), n)
                &&& json::jsons(x.forward@) == forward_below(items.deep_view(), facts.deep_view(), n)
                &&& x.ignored == ignored_below(items.deep_view(), facts.deep_view(), n)
            },
            None => !can_ingest(items.deep_view(), facts.deep_view()),
        },
{
    let ghost all = items.deep_view();
    let ghost known = facts.deep_view();
    if items.len() != facts.len() {
        return None;
    }
    let mut i: usize = 0;
    while i < items.len()
        invariant
            i <= items@.len(),
            items@.len() == facts@.len(),
            all == items.deep_view(),
            known == facts.deep_view(),
            forall|k: int| 0 <= k < i && is_taken_in(all[k], known[k]) ==> can_name(#[trigger] all[k]),
        decreases items@.len() - i,
    {
        assert(all[i as int] == items@[i as int].deep_view());
        assert(known[i as int] == facts@[i as int].deep_view());
        if !text::blank(facts[i].norm_id.as_str()) && !is_ignored_item(&items[i], &facts[i]) && !namable(&items[i]) {
            return None;
        }
        i = i + 1;
    }
    Some(ingest(items, facts))
}

/// Every device of a scan that has an id is either taken in or ignored, and there is one record
/// for each that is taken in.
pub proof fn scans_are_fully_accounted(items: Seq<ScanItemModel>, facts: Seq<ScanFactsModel>, n: int)
    requires
        0 <= n <= items.len(),
    ensures
        records_below(items, facts, n).len() == taken_below(items, facts, n).len(),
        (forall|i: int| 0 <= i < n ==> (#[trigger] facts[i]).norm_id.len() > 0) ==> records_below(items, facts, n).len()
            + ignored_below(items, facts, n) == n,
        forall|i: int|
            0 <= i < n && (#[trigger] facts[i]).norm_id.len() > 0 ==> is_taken_in(items[i], facts[i]) != is_ignored(
                items[i],
                facts[i],
            ),
    decreases n,
{
    if n > 0 {
        scans_are_fully_accounted(items, facts, n - 1);
    }
}

// ---------------------------------------------------------------------------------------
// Forgetting a device
// ---------------------------------------------------------------------------------------

/// The plain form of the id of a device of a scan; nothing for other devices.
pub open spec fn forgotten_id(id: Seq<char>) -> Option<Seq<char>> {
    if "mobile-ble-"@.is_prefix_of(id) {
        Some(text::prefix_stripped(id, "mobile-ble-"@))
    } else {
        None
    }
}

/// The plain form of the id of a device of a scan.
pub fn forget_target(id: &str) -> (r: Option<String>)
    ensures
        r.deep_view() == forgotten_id(id@),
{
    proof {
        reveal_strlit("mobile-ble-");
    }
    if text::starts_with(id, "mobile-ble-") {
        Some(text::strip_prefix_repeatedly(id, "mobile-ble-"))
    } else {
        None
    }
}

/// The positions among the first `n` whose plain id is not `target`.
pub open spec fn kept_below(norm_ids: Seq<Seq<char>>, target: Seq<char>, n: int) -> Seq<int>
    decreases n,
{
    if n <= 0 {
        Seq::empty()
    } else if norm_ids[n - 1] == target {
        kept_below(norm_ids, target, n - 1)
    } else {
        kept_below(norm_ids, target, n - 1).push(n - 1)
    }
}

/// Which of the devices with these plain ids stay when `target` is forgotten.
pub fn keep_others(norm_ids: &[String], target: &str) -> (r: Vec<usize>)
    ensures
        r@.map_values(|i: usize| i as int) == kept_below(norm_ids.deep_view(), target@, norm_ids@.len() as int),
{
    let mut r: Vec<usize> = Vec::new();
    let mut i: usize = 0;
    assert(r@.map_values(|i: usize| i as int) =~= Seq::<int>::empty());
    while i < norm_ids.len()
        invariant
            i <= norm_ids@.len(),
            r@.map_values(|i: usize| i as int) == kept_below(norm_ids.deep_view(), target@, i as int),
        decreases norm_ids@.len() - i,
    {
        let ghost before = r@;
        assert(norm_ids.deep_view()[i as int] == norm_ids@[i as int]@);
        if !text::same(norm_ids[i].as_str(), target) {
            r.push(i);
            assert(r@.map_values(|i: usize| i as int) =~= before.map_values(|i: usize| i as int).push(i as int));
        }
        i = i + 1;
    }
    r
}

/// Forgetting a device takes away that device and no other.
pub proof fn forgetting_takes_only_the_target(norm_ids: Seq<Seq<char>>, target: Seq<char>, n: int, i: int)
    requires
        0 <= n <= norm_ids.len(),
    ensures
        kept_below(norm_ids, target, n).contains(i) <==> 0 <= i < n && norm_ids[i] != target,
    decreases n,
{
    if n > 0 {
        let before = kept_below(norm_ids, target, n - 1);
        forgetting_takes_only_the_target(norm_ids, target, n - 1, i);
        text_map::lemma_push_contains(before, n - 1);
    }
}

}
