//! What the devices page tells of a device: which documentation, category, product and room
//! belong to it, and the data that its script gets.

use vstd::prelude::*;

use crate::category;
use crate::device::{DeviceModel, DeviceRecord};
use crate::records;
use crate::records::{
    DeviceDocumentation, DocModel, FabricMetaModel, GatewayModel, MatterFabricMeta, Product, ProductModel,
    RoomModel, RoomRecord, Vendor, VendorModel, VerifiedShellyGateway,
};
use crate::text;
use crate::text_map;
use crate::text_map::{Duplicate, TextMap};

verus! {

broadcast use vstd::string::group_string_axioms;

/// What the stores outside the library say of an entry.
#[derive(Debug)]
pub struct DeviceFacts {
    /// The device is ignored by its id.
    pub id_ignored: bool,
    /// The device is ignored by its MAC address.
    pub mac_ignored: bool,
    /// The device is ignored by its MAC address in small letters without space around it.
    pub small_mac_ignored: bool,
    /// The product that the rules of the catalog find for the device.
    pub matched_product: Option<Product>,
    /// The floor that the name of the room tells.
    pub room_floor: Option<String>,
    /// The floor that the name of the room without space around it tells.
    pub trimmed_room_floor: Option<String>,
}

/// What a `DeviceFacts` stands for.
#[verifier::ext_equal]
pub struct FactsModel {
    pub id_ignored: bool,
    pub mac_ignored: bool,
    pub small_mac_ignored: bool,
    pub matched_product: Option<ProductModel>,
    pub room_floor: Option<Seq<char>>,
    pub trimmed_room_floor: Option<Seq<char>>,
}

impl DeepView for DeviceFacts {
    type V = FactsModel;

    open spec fn deep_view(&self) -> FactsModel {
        FactsModel {
            id_ignored: self.id_ignored,
            mac_ignored: self.mac_ignored,
            small_mac_ignored: self.small_mac_ignored,
            matched_product: self.matched_product.deep_view(),
            room_floor: self.room_floor.deep_view(),
            trimmed_room_floor: self.trimmed_room_floor.deep_view(),
        }
    }
}

/// What the pages are made from beside the devices.
#[derive(Debug)]
pub struct Household {
    pub docs: TextMap<DeviceDocumentation>,
    pub category_overrides: TextMap<String>,
    pub fabric_metas: TextMap<MatterFabricMeta>,
    pub gateways: Vec<VerifiedShellyGateway>,
    pub rooms: Vec<RoomRecord>,
    /// The products that the catalog finds by their id.
    pub products_by_id: TextMap<Product>,
    /// The vendors that the catalog finds by their id.
    pub vendors_by_id: TextMap<Vendor>,
}

/// What a `Household` stands for.
#[verifier::ext_equal]
pub struct HouseholdModel {
    pub docs: Map<Seq<char>, DocModel>,
    pub category_overrides: Map<Seq<char>, Seq<char>>,
    pub fabric_metas: Map<Seq<char>, FabricMetaModel>,
    pub gateways: Seq<GatewayModel>,
    pub rooms: Seq<RoomModel>,
    pub products_by_id: Map<Seq<char>, ProductModel>,
    pub vendors_by_id: Map<Seq<char>, VendorModel>,
}

impl DeepView for Household {
    type V = HouseholdModel;

    open spec fn deep_view(&self) -> HouseholdModel {
        HouseholdModel {
            docs: self.docs@,
            category_overrides: self.category_overrides@,
            fabric_metas: self.fabric_metas@,
            gateways: self.gateways.deep_view(),
            rooms: self.rooms.deep_view(),
            products_by_id: self.products_by_id@,
            vendors_by_id: self.vendors_by_id@,
        }
    }
}

// ---------------------------------------------------------------------------------------
// Documentation
// ---------------------------------------------------------------------------------------

/// The key under which a device is documented: its MAC address, else its id.
pub open spec fn doc_key(mac: Seq<char>, id: Seq<char>) -> Seq<char> {
    if mac.len() > 0 {
        mac
    } else {
        id
    }
}

/// The documentation of a device: by its MAC address as it is or in small letters, else by its
/// id; an empty one where there is none.
pub open spec fn doc_for(docs: Map<Seq<char>, DocModel>, mac: Seq<char>, id: Seq<char>) -> DocModel {
    if docs.contains_key(doc_key(mac, id)) {
        docs[doc_key(mac, id)]
    } else if mac.len() > 0 && docs.contains_key(text::lowercase(mac)) {
        docs[text::lowercase(mac)]
    } else if docs.contains_key(id) {
        docs[id]
    } else {
        records::empty_doc()
    }
}

/// The MAC address in small letters, without space around it.
pub open spec fn small_mac(d: DeviceModel) -> Seq<char> {
    text::lowercase(text::trimmed(d.meta_or_empty("mac"@)))
}

/// The name that is shown: the one written down, unless it is blank.
pub open spec fn shown_name(doc: DocModel, d: DeviceModel) -> Seq<char> {
    match doc.name {
        Some(n) => if text::trimmed(n).len() > 0 {
            n
        } else {
            d.display_name
        },
        None => d.display_name,
    }
}

/// The room: the one written down, else the reported one.
pub open spec fn room_of(doc: DocModel, d: DeviceModel) -> Seq<char> {
    match doc.room {
        Some(r) => r,
        None => d.meta_or_empty("room"@),
    }
}

pub(crate) fn doc_key_of(mac: &str, id: &str) -> (r: String)
    ensures
        r@ == doc_key(mac@, id@),
{
    if text::blank(mac) {
        id.to_owned()
    } else {
        mac.to_owned()
    }
}

/// The documentation of a device.
pub fn find_doc(docs: &TextMap<DeviceDocumentation>, mac: &str, id: &str) -> (r: DeviceDocumentation)
    ensures
        r.deep_view() == doc_for(docs@, mac@, id@),
{
    let key = doc_key_of(mac, id);
    match docs.get(key.as_str()) {
        Some(doc) => {
            return doc.duplicate();
        },
        None => {},
    }
    if !text::blank(mac) {
        match docs.get(mac.to_lowercase().as_str()) {
            Some(doc) => {
                return doc.duplicate();
            },
            None => {},
        }
    }
    match docs.get(id) {
        Some(doc) => doc.duplicate(),
        None => DeviceDocumentation::default(),
    }
}

pub fn small_mac_of(d: &DeviceRecord) -> (r: String)
    ensures
        r@ == small_mac(d.deep_view()),
{
    let mac = d.meta_or_empty("mac");
    text::trim(mac.as_str()).as_str().to_lowercase()
}

pub fn shown_name_of(doc: &DeviceDocumentation, d: &DeviceRecord) -> (r: String)
    ensures
        r@ == shown_name(doc.deep_view(), d.deep_view()),
{
    match &doc.name {
        Some(n) => if text::blank(text::trim(n.as_str()).as_str()) {
            d.display_name.clone()
        } else {
            n.clone()
        },
        None => d.display_name.clone(),
    }
}

/// The room of a device: the one written down, else the reported one.
pub fn device_room(doc: &DeviceDocumentation, d: &DeviceRecord) -> (r: String)
    ensures
        r@ == room_of(doc.deep_view(), d.deep_view()),
{
    match &doc.room {
        Some(r) => r.clone(),
        None => d.meta_or_empty("room"),
    }
}

// ---------------------------------------------------------------------------------------
// Category
// ---------------------------------------------------------------------------------------

/// A category as a device brings it.
#[derive(Debug)]
pub struct Label {
    pub key: String,
    pub title: String,
    pub icon: String,
}

/// What a `Label` stands for.
#[verifier::ext_equal]
pub struct LabelModel {
    pub key: Seq<char>,
    pub title: Seq<char>,
    pub icon: Seq<char>,
}

impl DeepView for Label {
    type V = LabelModel;

    open spec fn deep_view(&self) -> LabelModel {
        LabelModel { key: self.key@, title: self.title@, icon: self.icon@ }
    }
}

/// The category that was chosen for a device, by the key of its documentation or by its id.
pub open spec fn chosen_category(
    overrides: Map<Seq<char>, Seq<char>>,
    key: Seq<char>,
    id: Seq<char>,
) -> Option<Seq<char>> {
    if overrides.contains_key(key) {
        Some(overrides[key])
    } else {
        text_map::lookup(overrides, id)
    }
}

/// The category that a device reports; its kind where it reports none.
pub open spec fn reported_label(d: DeviceModel) -> LabelModel {
    let key = text::or_text(d.meta("category"@), d.kind);
    LabelModel {
        key,
        title: text::or_text(d.meta("category_title"@), category::presentation(key).0),
        icon: text::or_text(d.meta("category_icon"@), category::presentation(key).1),
    }
}

/// The category of a device: the chosen one with its default title and icon, else the
/// reported one.
pub open spec fn label_of(overrides: Map<Seq<char>, Seq<char>>, d: DeviceModel, key: Seq<char>) -> LabelModel {
    match chosen_category(overrides, key, d.device_id) {
        Some(c) => LabelModel { key: c, title: category::presentation(c).0, icon: category::presentation(c).1 },
        None => reported_label(d),
    }
}

/// The key of the group under which a device is listed.
pub open spec fn group_key(label: LabelModel) -> Seq<char> {
    category::canonical_key(label.key, label.title)
}

pub(crate) fn chosen_category_of(overrides: &TextMap<String>, key: &str, id: &str) -> (r: Option<String>)
    ensures
        r.deep_view() == chosen_category(overrides@, key@, id@),
{
    match overrides.get(key) {
        Some(c) => Some(c.clone()),
        None => match overrides.get(id) {
            Some(c) => Some(c.clone()),
            None => None,
        },
    }
}

pub(crate) fn meta_or(d: &DeviceRecord, key: &str, otherwise: &str) -> (r: String)
    ensures
        r@ == text::or_text(d.deep_view().meta(key@), otherwise@),
{
    match d.meta(key) {
        Some(s) => s.clone(),
        None => otherwise.to_owned(),
    }
}

pub(crate) fn reported_label_of(d: &DeviceRecord) -> (r: Label)
    ensures
        r.deep_view() == reported_label(d.deep_view()),
{
    let key = meta_or(d, "category", d.kind.as_str());
    let (title, icon) = category::default_category_presentation(key.as_str());
    Label { key, title: meta_or(d, "category_title", title), icon: meta_or(d, "category_icon", icon) }
}

pub fn find_label(overrides: &TextMap<String>, d: &DeviceRecord, key: &str) -> (r: Label)
    ensures
        r.deep_view() == label_of(overrides@, d.deep_view(), key@),
{
    match chosen_category_of(overrides, key, d.device_id.as_str()) {
        Some(c) => {
            let (title, icon) = category::default_category_presentation(c.as_str());
            Label { key: c, title: title.to_owned(), icon: icon.to_owned() }
        },
        None => reported_label_of(d),
    }
}

// ---------------------------------------------------------------------------------------
// Ignored devices, gateways, rooms
// ---------------------------------------------------------------------------------------

/// The device is ignored, by its id or by its MAC address.
pub open spec fn is_ignored(d: DeviceModel, facts: FactsModel) -> bool {
    facts.id_ignored || (d.meta_or_empty("mac"@).len() > 0 && facts.mac_ignored)
}

pub fn is_ignored_device(d: &DeviceRecord, facts: &DeviceFacts) -> (r: bool)
    ensures
        r == is_ignored(d.deep_view(), facts.deep_view()),
{
    facts.id_ignored || (!text::blank(d.meta_or_empty("mac").as_str()) && facts.mac_ignored)
}

/// The state that a device is in; active where it reports none.
pub open spec fn status_of(d: DeviceModel) -> Seq<char> {
    text::or_text(d.meta("status"@), "active"@)
}

pub fn device_status(d: &DeviceRecord) -> (r: String)
    ensures
        r@ == status_of(d.deep_view()),
{
    meta_or(d, "status", "active")
}

/// A MAC address in small letters without separators.
pub open spec fn bare_mac(mac: Seq<char>) -> Seq<char> {
    text::without(text::lowercase(mac), seq![':', '-'])
}

fn bare_mac_of(mac: &str) -> (r: String)
    ensures
        r@ == bare_mac(mac@),
{
    text::strip(mac.to_lowercase().as_str(), &[':', '-'])
}

/// The gateway speaks Bluetooth and has the address `ip` or the MAC address of the device.
pub open spec fn is_gateway_for(g: GatewayModel, ip: Seq<char>, mac: Seq<char>) -> bool {
    g.ble_supported && (g.ip == ip || (bare_mac(mac).len() > 0 && bare_mac(g.mac) == bare_mac(mac)))
}

/// The device is a verified Bluetooth gateway.
pub open spec fn is_gateway(gateways: Seq<GatewayModel>, d: DeviceModel) -> bool {
    exists|i: int|
        0 <= i < gateways.len() && is_gateway_for(
            #[trigger] gateways[i],
            d.meta_or_empty("ip"@),
            d.meta_or_empty("mac"@),
        )
}

pub fn is_gateway_device(gateways: &Vec<VerifiedShellyGateway>, d: &DeviceRecord) -> (r: bool)
    ensures
        r == is_gateway(gateways.deep_view(), d.deep_view()),
{
    let ghost all = gateways.deep_view();
    let ip = d.meta_or_empty("ip");
    let mac = d.meta_or_empty("mac");
    let bare = bare_mac_of(mac.as_str());
    let mut i: usize = 0;
    while i < gateways.len()
        invariant
            i <= gateways@.len(),
            all == gateways.deep_view(),
            ip@ == d.deep_view().meta_or_empty("ip"@),
            mac@ == d.deep_view().meta_or_empty("mac"@),
            bare@ == bare_mac(mac@),
            forall|j: int| 0 <= j < i ==> !is_gateway_for(#[trigger] all[j], ip@, mac@),
        decreases gateways@.len() - i,
    {
        let g = &gateways[i];
        assert(all[i as int] == g.deep_view());
        if g.ble_supported && (text::same(g.ip.as_str(), ip.as_str()) || (!text::blank(bare.as_str()) && text::same(
            bare_mac_of(g.mac.as_str()).as_str(),
            bare.as_str(),
        ))) {
            return true;
        }
        i = i + 1;
    }
    false
}

/// The sources that a device reports, as one text.
pub open spec fn reported_sources(d: DeviceModel) -> Seq<char> {
    match d.meta("sources"@) {
        Some(s) => s,
        None => d.meta_or_empty("source"@),
    }
}

pub fn reported_sources_of(d: &DeviceRecord) -> (r: String)
    ensures
        r@ == reported_sources(d.deep_view()),
{
    match d.meta("sources") {
        Some(s) => s.clone(),
        None => d.meta_or_empty("source"),
    }
}

/// The parts without space around them, as far as something is left.
pub open spec fn trimmed_parts(parts: Seq<Seq<char>>) -> Seq<Seq<char>>
    decreases parts.len(),
{
    if parts.len() == 0 {
        Seq::empty()
    } else {
        let before = trimmed_parts(parts.drop_last());
        let part = text::trimmed(parts.last());
        if part.len() > 0 {
            before.push(part)
        } else {
            before
        }
    }
}

/// The sources in a text that separates them by commas.
pub open spec fn sources_in(s: Seq<char>) -> Seq<Seq<char>> {
    trimmed_parts(text::split_at_char(s, ','))
}

pub fn split_sources(s: &str) -> (r: Vec<String>)
    ensures
        r.deep_view() == sources_in(s@),
{
    let parts = text::split(s, ',');
    let ghost all = parts.deep_view();
    let mut r: Vec<String> = Vec::new();
    let mut i: usize = 0;
    while i < parts.len()
        invariant
            i <= parts@.len(),
            all == parts.deep_view(),
            r.deep_view() =~= trimmed_parts(all.take(i as int)),
        decreases parts@.len() - i,
    {
        let ghost before = r.deep_view();
        assert(all.take(i + 1).drop_last() =~= all.take(i as int));
        let part = text::trim(parts[i].as_str());
        if !text::blank(part.as_str()) {
            r.push(part);
            assert(r.deep_view() =~= before.push(part@));
        }
        i = i + 1;
    }
    assert(all.take(i as int) =~= all);
    r
}

/// The sources of a device; a verified gateway is one by that too.
pub open spec fn sources_of(gateways: Seq<GatewayModel>, d: DeviceModel) -> Seq<Seq<char>> {
    let sources = sources_in(reported_sources(d));
    if is_gateway(gateways, d) && !sources.contains("shelly-gateway"@) {
        sources.push("shelly-gateway"@)
    } else {
        sources
    }
}

pub(crate) fn sources_of_device(gateways: &Vec<VerifiedShellyGateway>, d: &DeviceRecord) -> (r: Vec<String>)
    ensures
        r.deep_view() == sources_of(gateways.deep_view(), d.deep_view()),
{
    let mut r = split_sources(reported_sources_of(d).as_str());
    let ghost before = r.deep_view();
    if is_gateway_device(gateways, d) && !text::listed(r.as_slice(), "shelly-gateway") {
        r.push("shelly-gateway".to_owned());
        assert(r.deep_view() =~= before.push("shelly-gateway"@));
    }
    r
}

/// The first room of that name, whatever the case of its ASCII letters.
pub open spec fn room_named(rooms: Seq<RoomModel>, name: Seq<char>) -> Option<RoomModel>
    decreases rooms.len(),
{
    if rooms.len() == 0 || name.len() == 0 {
        None
    } else {
        let before = room_named(rooms.drop_last(), name);
        if before is Some {
            before
        } else if text::same_ignoring_ascii_case(rooms.last().name, name) {
            Some(rooms.last())
        } else {
            None
        }
    }
}

proof fn lemma_room_named_stays(rooms: Seq<RoomModel>, name: Seq<char>, n: int)
    requires
        0 <= n <= rooms.len(),
        room_named(rooms.take(n), name) is Some,
    ensures
        room_named(rooms, name) == room_named(rooms.take(n), name),
    decreases rooms.len(),
{
    if n < rooms.len() {
        assert(rooms.drop_last().take(n) =~= rooms.take(n));
        lemma_room_named_stays(rooms.drop_last(), name, n);
    } else {
        assert(rooms.take(n) =~= rooms);
    }
}

pub fn find_room<'a>(rooms: &'a Vec<RoomRecord>, name: &str) -> (r: Option<&'a RoomRecord>)
    ensures
        r.deep_view() == room_named(rooms.deep_view(), name@),
{
    if text::blank(name) {
        return None;
    }
    let ghost all = rooms.deep_view();
    let mut i: usize = 0;
    while i < rooms.len()
        invariant
            i <= rooms@.len(),
            name@.len() > 0,
            all == rooms.deep_view(),
            room_named(all.take(i as int), name@) is None,
        decreases rooms@.len() - i,
    {
        assert(all.take(i + 1).drop_last() =~= all.take(i as int));
        assert(all.take(i + 1).last() == rooms@[i as int].deep_view());
        if text::same_ascii_case_blind(rooms[i].name.as_str(), name) {
            proof {
                lemma_room_named_stays(all, name@, i + 1);
            }
            return Some(&rooms[i]);
        }
        i = i + 1;
    }
    assert(all.take(i as int) =~= all);
    None
}

/// The floor: that of the room, else the one that the room's name tells.
pub open spec fn floor_of(room: Option<RoomModel>, told: Option<Seq<char>>) -> Seq<char> {
    match room {
        Some(r) => match r.floor {
            Some(f) => f,
            None => text::or_empty(told),
        },
        None => text::or_empty(told),
    }
}

pub(crate) fn text_or_empty(s: &Option<String>) -> (r: String)
    ensures
        r@ == text::or_empty(s.deep_view()),
{
    match s {
        Some(t) => t.clone(),
        None => text::empty(),
    }
}

pub fn floor_for(room: Option<&RoomRecord>, told: &Option<String>) -> (r: String)
    ensures
        r@ == floor_of(room.deep_view(), told.deep_view()),
{
    match room {
        Some(r) => match &r.floor {
            Some(f) => f.clone(),
            None => text_or_empty(told),
        },
        None => text_or_empty(told),
    }
}

}
