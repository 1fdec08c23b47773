//! The data that the script of the devices page gets.

use serde_json::Value;
use vstd::prelude::*;

use crate::category;
use crate::device::{DeviceModel, DeviceRecord};
use crate::fabrics;
use crate::json;
use crate::json::Json;
use crate::pages::device_data;
use crate::pages::device_data::{DeviceFacts, FactsModel, Household, HouseholdModel};
use crate::records::{
    ClientMatterFabric, DeviceDocumentation, DocModel, FabricModel, Product, ProductModel, Vendor,
    VendorModel,
};
use crate::text;
use crate::text_map;
use crate::text_map::{Duplicate, TextMap};
use crate::unify::{UnifiedDevice, UnifiedModel};

verus! {

broadcast use vstd::string::group_string_axioms;

/// A Matter fabric of a device.
pub open spec fn fabric_json(f: FabricModel) -> Json {
    Json::Object(
        json::no_members().insert(
            "fabric_id"@,
            Json::Text(f.fabric_id),
        ).insert(
            "node_id"@,
            Json::Text(f.node_id),
        ).insert(
            "port"@,
            Json::Unsigned(f.port as u64),
        ).insert(
            "interface"@,
            Json::Text(f.interface),
        ).insert(
            "fabric_name"@,
            Json::Text(f.fabric_name),
        ).insert(
            "fabric_icon"@,
            Json::Text(f.fabric_icon),
        ),
    )
}

fn fabric_value(f: &ClientMatterFabric) -> (r: Value)
    ensures
        json::json_of(r) == fabric_json(f.deep_view()),
{
    let mut o = json::new_members();
    json::put(&mut o, "fabric_id", json::string(f.fabric_id.as_str()));
    json::put(&mut o, "node_id", json::string(f.node_id.as_str()));
    json::put(&mut o, "port", json::unsigned(f.port as u64));
    json::put(&mut o, "interface", json::string(f.interface.as_str()));
    json::put(&mut o, "fabric_name", json::string(f.fabric_name.as_str()));
    json::put(&mut o, "fabric_icon", json::string(f.fabric_icon.as_str()));
    json::object(o)
}

/// The Matter fabrics of a device.
pub open spec fn fabrics_json(items: Seq<FabricModel>) -> Json {
    Json::List(Seq::new(items.len(), |i: int| fabric_json(items[i])))
}

fn fabrics_value(items: &[ClientMatterFabric]) -> (r: Value)
    ensures
        json::json_of(r) == fabrics_json(items.deep_view()),
{
    let ghost all = items.deep_view();
    let mut values: Vec<Value> = Vec::new();
    let mut i: usize = 0;
    while i < items.len()
        invariant
            i <= items@.len(),
            all == items.deep_view(),
            values@.len() == i,
            forall|k: int| 0 <= k < i ==> json::json_of(#[trigger] values@[k]) == fabric_json(all[k]),
        decreases items@.len() - i,
    {
        values.push(fabric_value(&items[i]));
        i = i + 1;
    }
    assert(json::jsons(values@) =~= fabrics_json(all)->List_0);
    json::array(values)
}

/// A port number.
pub open spec fn port_json(port: u16) -> Json {
    Json::Unsigned(port as u64)
}

fn port_value(port: &u16) -> (r: Value)
    ensures
        json::json_of(r) == port_json(*port),
{
    json::unsigned(*port as u64)
}

/// Port numbers.
pub open spec fn ports_json(items: Seq<u16>) -> Json {
    Json::List(Seq::new(items.len(), |i: int| port_json(items[i])))
}

fn ports_value(items: &[u16]) -> (r: Value)
    ensures
        json::json_of(r) == ports_json(items.deep_view()),
{
    let ghost all = items.deep_view();
    let mut values: Vec<Value> = Vec::new();
    let mut i: usize = 0;
    while i < items.len()
        invariant
            i <= items@.len(),
            all == items.deep_view(),
            values@.len() == i,
            forall|k: int| 0 <= k < i ==> json::json_of(#[trigger] values@[k]) == port_json(all[k]),
        decreases items@.len() - i,
    {
        values.push(port_value(&items[i]));
        i = i + 1;
    }
    assert(json::jsons(values@) =~= ports_json(all)->List_0);
    json::array(values)
}

/// The name of the vendor of a product; its id where the catalog does not know it.
pub open spec fn vendor_name(p: ProductModel, vendors: Map<Seq<char>, VendorModel>) -> Seq<char> {
    match text_map::lookup(vendors, p.vendor_id) {
        Some(v) => v.name,
        None => p.vendor_id,
    }
}

pub open spec fn vendor_website(p: ProductModel, vendors: Map<Seq<char>, VendorModel>) -> Option<Seq<char>> {
    match text_map::lookup(vendors, p.vendor_id) {
        Some(v) => v.website,
        None => None,
    }
}

pub open spec fn vendor_icon(p: ProductModel, vendors: Map<Seq<char>, VendorModel>) -> Seq<char> {
    match text_map::lookup(vendors, p.vendor_id) {
        Some(v) => v.icon,
        None => "🏢"@,
    }
}

fn vendor_name_of(p: &Product, vendors: &TextMap<Vendor>) -> (r: String)
    ensures
        r@ == vendor_name(p.deep_view(), vendors@),
{
    match vendors.get(p.vendor_id.as_str()) {
        Some(v) => v.name.clone(),
        None => p.vendor_id.clone(),
    }
}

fn vendor_website_of(p: &Product, vendors: &TextMap<Vendor>) -> (r: Option<String>)
    ensures
        r.deep_view() == vendor_website(p.deep_view(), vendors@),
{
    match vendors.get(p.vendor_id.as_str()) {
        Some(v) => v.website.duplicate(),
        None => None,
    }
}

fn vendor_icon_of(p: &Product, vendors: &TextMap<Vendor>) -> (r: String)
    ensures
        r@ == vendor_icon(p.deep_view(), vendors@),
{
    match vendors.get(p.vendor_id.as_str()) {
        Some(v) => v.icon.clone(),
        None => "🏢".to_owned(),
    }
}

/// The product that a device is.
pub open spec fn product_json(p: ProductModel, vendors: Map<Seq<char>, VendorModel>) -> Json {
    Json::Object(
        json::no_members().insert(
            "id"@,
            Json::Text(p.id),
        ).insert(
            "name"@,
            Json::Text(p.name),
        ).insert(
            "model_number"@,
            json::optional_text(p.model_number),
        ).insert(
            "category"@,
            Json::Text(p.category),
        ).insert(
            "category_icon"@,
            Json::Text(p.category_icon),
        ).insert(
            "connectivity"@,
            json::text_list(p.connectivity),
        ).insert(
            "matter_device_type"@,
            json::optional_text(p.matter_device_type),
        ).insert(
            "default_ports"@,
            ports_json(p.default_ports),
        ).insert(
            "documentation_url"@,
            json::optional_text(p.documentation_url),
        ).insert(
            "specs"@,
            json::optional_text(p.specs),
        ).insert(
            "rhai_script_ref"@,
            json::optional_text(p.rhai_script_ref),
        ).insert(
            "vendor_id"@,
            Json::Text(p.vendor_id),
        ).insert(
            "vendor_name"@,
            Json::Text(vendor_name(p, vendors)),
        ).insert(
            "vendor_website"@,
            json::optional_text(vendor_website(p, vendors)),
        ).insert(
            "vendor_icon"@,
            Json::Text(vendor_icon(p, vendors)),
        ),
    )
}

fn product_value(p: &Product, vendors: &TextMap<Vendor>) -> (r: Value)
    ensures
        json::json_of(r) == product_json(p.deep_view(), vendors@),
{
    let mut o = json::new_members();
    json::put(&mut o, "id", json::string(p.id.as_str()));
    json::put(&mut o, "name", json::string(p.name.as_str()));
    json::put(&mut o, "model_number", json::optional_string(&p.model_number));
    json::put(&mut o, "category", json::string(p.category.as_str()));
    json::put(&mut o, "category_icon", json::string(p.category_icon.as_str()));
    json::put(&mut o, "connectivity", json::strings(&p.connectivity));
    json::put(&mut o, "matter_device_type", json::optional_string(&p.matter_device_type));
    json::put(&mut o, "default_ports", ports_value(p.default_ports.as_slice()));
    json::put(&mut o, "documentation_url", json::optional_string(&p.documentation_url));
    json::put(&mut o, "specs", json::optional_string(&p.specs));
    json::put(&mut o, "rhai_script_ref", json::optional_string(&p.rhai_script_ref));
    json::put(&mut o, "vendor_id", json::string(p.vendor_id.as_str()));
    json::put(&mut o, "vendor_name", json::string(vendor_name_of(p, vendors).as_str()));
    json::put(&mut o, "vendor_website", json::optional_string(&vendor_website_of(p, vendors)));
    json::put(&mut o, "vendor_icon", json::string(vendor_icon_of(p, vendors).as_str()));
    json::object(o)
}

/// Another interface of a device.
pub open spec fn secondary_json(s: DeviceModel) -> Json {
    Json::Object(
        json::no_members().insert(
            "device_id"@,
            Json::Text(s.device_id),
        ).insert(
            "name"@,
            Json::Text(s.display_name),
        ).insert(
            "ip"@,
            Json::Text(s.meta_or_empty("ip"@)),
        ).insert(
            "mac"@,
            Json::Text(s.meta_or_empty("mac"@)),
        ).insert(
            "vendor"@,
            Json::Text(s.meta_or_empty("vendor"@)),
        ).insert(
            "hostname"@,
            Json::Text(s.meta_or_empty("hostname"@)),
        ).insert(
            "protocol"@,
            Json::Text(s.meta_or_empty("protocol"@)),
        ).insert(
            "source"@,
            Json::Text(s.meta_or_empty("source"@)),
        ).insert(
            "scout"@,
            Json::Text(s.meta_or_empty("scout"@)),
        ).insert(
            "rssi"@,
            Json::Text(s.meta_or_empty("rssi"@)),
        ).insert(
            "metadata"@,
            json::text_object(s.metadata),
        ),
    )
}

fn secondary_value(s: &DeviceRecord) -> (r: Value)
    ensures
        json::json_of(r) == secondary_json(s.deep_view()),
{
    let mut o = json::new_members();
    json::put(&mut o, "device_id", json::string(s.device_id.as_str()));
    json::put(&mut o, "name", json::string(s.display_name.as_str()));
    json::put(&mut o, "ip", json::string(s.meta_or_empty("ip").as_str()));
    json::put(&mut o, "mac", json::string(s.meta_or_empty("mac").as_str()));
    json::put(&mut o, "vendor", json::string(s.meta_or_empty("vendor").as_str()));
    json::put(&mut o, "hostname", json::string(s.meta_or_empty("hostname").as_str()));
    json::put(&mut o, "protocol", json::string(s.meta_or_empty("protocol").as_str()));
    json::put(&mut o, "source", json::string(s.meta_or_empty("source").as_str()));
    json::put(&mut o, "scout", json::string(s.meta_or_empty("scout").as_str()));
    json::put(&mut o, "rssi", json::string(s.meta_or_empty("rssi").as_str()));
    json::put(&mut o, "metadata", json::string_map(&s.metadata));
    json::object(o)
}

/// The other interfaces of a device.
pub open spec fn secondaries_json(items: Seq<DeviceModel>) -> Json {
    Json::List(Seq::new(items.len(), |i: int| secondary_json(items[i])))
}

fn secondaries_value(items: &[DeviceRecord]) -> (r: Value)
    ensures
        json::json_of(r) == secondaries_json(items.deep_view()),
{
    let ghost all = items.deep_view();
    let mut values: Vec<Value> = Vec::new();
    let mut i: usize = 0;
    while i < items.len()
        invariant
            i <= items@.len(),
            all == items.deep_view(),
            values@.len() == i,
            forall|k: int| 0 <= k < i ==> json::json_of(#[trigger] values@[k]) == secondary_json(all[k]),
        decreases items@.len() - i,
    {
        values.push(secondary_value(&items[i]));
        i = i + 1;
    }
    assert(json::jsons(values@) =~= secondaries_json(all)->List_0);
    json::array(values)
}

/// A device that may be the same.
pub open spec fn candidate_json(c: DeviceModel) -> Json {
    Json::Object(
        json::no_members().insert(
            "device_id"@,
            Json::Text(c.device_id),
        ).insert(
            "name"@,
            Json::Text(c.display_name),
        ).insert(
            "ip"@,
            Json::Text(c.meta_or_empty("ip"@)),
        ).insert(
            "mac"@,
            Json::Text(c.meta_or_empty("mac"@)),
        ).insert(
            "hostname"@,
            Json::Text(c.meta_or_empty("hostname"@)),
        ).insert(
            "protocol"@,
            Json::Text(c.meta_or_empty("protocol"@)),
        ).insert(
            "source"@,
            Json::Text(c.meta_or_empty("source"@)),
        ),
    )
}

fn candidate_value(c: &DeviceRecord) -> (r: Value)
    ensures
        json::json_of(r) == candidate_json(c.deep_view()),
{
    let mut o = json::new_members();
    json::put(&mut o, "device_id", json::string(c.device_id.as_str()));
    json::put(&mut o, "name", json::string(c.display_name.as_str()));
    json::put(&mut o, "ip", json::string(c.meta_or_empty("ip").as_str()));
    json::put(&mut o, "mac", json::string(c.meta_or_empty("mac").as_str()));
    json::put(&mut o, "hostname", json::string(c.meta_or_empty("hostname").as_str()));
    json::put(&mut o, "protocol", json::string(c.meta_or_empty("protocol").as_str()));
    json::put(&mut o, "source", json::string(c.meta_or_empty("source").as_str()));
    json::object(o)
}

/// The product of a device: the one written down, else the one that the rules of the catalog
/// find, else the reported one, as far as the catalog knows it.
pub open spec fn product_for(
    doc: DocModel,
    d: DeviceModel,
    facts: FactsModel,
    products: Map<Seq<char>, ProductModel>,
) -> Option<ProductModel> {
    if doc.product_id is Some && products.contains_key(doc.product_id->0) {
        Some(products[doc.product_id->0])
    } else if facts.matched_product is Some {
        facts.matched_product
    } else {
        match d.meta("product_id"@) {
            Some(id) => text_map::lookup(products, id),
            None => None,
        }
    }
}

fn find_product(
    doc: &DeviceDocumentation,
    d: &DeviceRecord,
    facts: &DeviceFacts,
    products: &TextMap<Product>,
) -> (r: Option<
    Product,
>)
    ensures
        r.deep_view() == product_for(doc.deep_view(), d.deep_view(), facts.deep_view(), products@),
{
    match &doc.product_id {
        Some(id) => match products.get(id.as_str()) {
            Some(p) => {
                return Some(p.duplicate());
            },
            None => {},
        },
        None => {},
    }
    match &facts.matched_product {
        Some(p) => {
            return Some(p.duplicate());
        },
        None => {},
    }
    match d.meta("product_id") {
        Some(id) => match products.get(id.as_str()) {
            Some(p) => Some(p.duplicate()),
            None => None,
        },
        None => None,
    }
}

/// The category that the script gets: the chosen one as it is, else the group of the reported
/// one.
pub open spec fn script_category(home: HouseholdModel, d: DeviceModel, key: Seq<char>) -> Seq<char> {
    match device_data::chosen_category(home.category_overrides, key, d.device_id) {
        Some(c) => c,
        None => device_data::group_key(device_data::reported_label(d)),
    }
}

fn script_category_of(home: &Household, d: &DeviceRecord, key: &str) -> (r: String)
    ensures
        r@ == script_category(home.deep_view(), d.deep_view(), key@),
{
    match device_data::chosen_category_of(&home.category_overrides, key, d.device_id.as_str()) {
        Some(c) => c,
        None => {
            let label = device_data::reported_label_of(d);
            category::canonical_category_key(label.key.as_str(), label.title.as_str()).to_owned()
        },
    }
}

/// The product of a device as JSON, `null` where there is none.
pub open spec fn optional_product_json(p: Option<ProductModel>, vendors: Map<Seq<char>, VendorModel>) -> Json {
    match p {
        Some(p) => product_json(p, vendors),
        None => Json::Null,
    }
}

fn optional_product_value(p: &Option<Product>, vendors: &TextMap<Vendor>) -> (r: Value)
    ensures
        json::json_of(r) == optional_product_json(p.deep_view(), vendors@),
{
    match p {
        Some(p) => product_value(p, vendors),
        None => json::null(),
    }
}

/// A device that may be the same as JSON, `null` where there is none.
pub open spec fn optional_candidate_json(c: Option<DeviceModel>) -> Json {
    match c {
        Some(c) => candidate_json(c),
        None => Json::Null,
    }
}

fn optional_candidate_value(c: &Option<DeviceRecord>) -> (r: Value)
    ensures
        json::json_of(r) == optional_candidate_json(c.deep_view()),
{
    match c {
        Some(c) => candidate_value(c),
        None => json::null(),
    }
}

/// The device was active at some time.
pub open spec fn was_ever_active(d: DeviceModel) -> bool {
    d.meta("was_ever_active"@) == Some("true"@) || device_data::status_of(d) == "active"@
}

/// The key under which the script finds the documentation.
pub open spec fn script_doc_key(d: DeviceModel) -> Seq<char> {
    device_data::doc_key(d.meta_or_empty("mac"@), d.device_id)
}

/// The documentation that the script gets.
pub open spec fn script_doc(home: HouseholdModel, d: DeviceModel) -> DocModel {
    device_data::doc_for(home.docs, d.meta_or_empty("mac"@), d.device_id)
}

/// The room that the script gets.
pub open spec fn script_room(home: HouseholdModel, d: DeviceModel) -> Seq<char> {
    device_data::room_of(script_doc(home, d), d)
}

/// The room that the script of the devices page gets for a device.
pub fn room_for_script(home: &Household, d: &DeviceRecord) -> (r: String)
    ensures
        r@ == script_room(home.deep_view(), d.deep_view()),
{
    let mac = d.meta_or_empty("mac");
    let doc = device_data::find_doc(&home.docs, mac.as_str(), d.device_id.as_str());
    device_data::device_room(&doc, d)
}

/// All that the script gets of a device.
pub open spec fn device_json(u: UnifiedModel, facts: FactsModel, home: HouseholdModel) -> Json {
    let doc = script_doc(home, u.primary);
    let key = script_doc_key(u.primary);
    let label = device_data::label_of(home.category_overrides, u.primary, key);
    let room = script_room(home, u.primary);
    Json::Object(
        json::no_members().insert(
            "device_id"@,
            Json::Text(u.primary.device_id),
        ).insert(
            "display_name"@,
            Json::Text(device_data::shown_name(doc, u.primary)),
        ).insert(
            "original_name"@,
            Json::Text(u.primary.display_name),
        ).insert(
            "custom_name"@,
            Json::Text(text::or_empty(doc.name)),
        ).insert(
            "category"@,
            Json::Text(script_category(home, u.primary, key)),
        ).insert(
            "category_title"@,
            Json::Text(label.title),
        ).insert(
            "category_icon"@,
            Json::Text(label.icon),
        ).insert(
            "ip"@,
            Json::Text(u.primary.meta_or_empty("ip"@)),
        ).insert(
            "mac"@,
            Json::Text(u.primary.meta_or_empty("mac"@)),
        ).insert(
            "vendor"@,
            Json::Text(u.primary.meta_or_empty("vendor"@)),
        ).insert(
            "hostname"@,
            Json::Text(u.primary.meta_or_empty("hostname"@)),
        ).insert(
            "web_url"@,
            json::optional_text(u.primary.meta("web_url"@)),
        ).insert(
            "doc_key"@,
            Json::Text(key),
        ).insert(
            "notes"@,
            Json::Text(doc.notes),
        ).insert(
            "room"@,
            Json::Text(room),
        ).insert(
            "floor"@,
            Json::Text(device_data::floor_of(device_data::room_named(home.rooms, room), facts.room_floor)),
        ).insert(
            "manual_url"@,
            Json::Text(text::or_empty(doc.manual_url)),
        ).insert(
            "updated_at"@,
            Json::Text(doc.updated_at),
        ).insert(
            "secondaries"@,
            secondaries_json(u.secondary_interfaces),
        ).insert(
            "candidate"@,
            optional_candidate_json(u.merge_candidate),
        ).insert(
            "product"@,
            optional_product_json(product_for(doc, u.primary, facts, home.products_by_id), home.vendors_by_id),
        ).insert(
            "matter_fabrics"@,
            fabrics_json(fabrics::device_fabrics(u.primary, u.secondary_interfaces, home.fabric_metas)),
        ).insert(
            "status"@,
            Json::Text(device_data::status_of(u.primary)),
        ).insert(
            "is_active"@,
            Json::Bool(device_data::status_of(u.primary) == "active"@),
        ).insert(
            "is_ignored"@,
            Json::Bool(device_data::is_ignored(u.primary, facts)),
        ).insert(
            "was_ever_active"@,
            Json::Bool(was_ever_active(u.primary)),
        ).insert(
            "sources"@,
            json::text_list(device_data::sources_of(home.gateways, u.primary)),
        ).insert(
            "first_seen"@,
            Json::Text(u.primary.meta_or_empty("first_seen"@)),
        ).insert(
            "last_seen"@,
            Json::Text(u.primary.meta_or_empty("last_seen"@)),
        ).insert(
            "metadata"@,
            json::text_object(u.primary.metadata),
        ),
    )
}

fn device_value(u: &UnifiedDevice, facts: &DeviceFacts, home: &Household) -> (r: Value)
    requires
        fabrics::can_list_fabrics(
            u.deep_view().primary,
            u.deep_view().secondary_interfaces,
            home.deep_view().fabric_metas,
        ),
    ensures
        json::json_of(r) == device_json(u.deep_view(), facts.deep_view(), home.deep_view()),
{
    let mac = u.primary.meta_or_empty("mac");
    let key = device_data::doc_key_of(mac.as_str(), u.primary.device_id.as_str());
    let doc = device_data::find_doc(&home.docs, mac.as_str(), u.primary.device_id.as_str());
    let label = device_data::find_label(&home.category_overrides, &u.primary, key.as_str());
    let room = device_data::device_room(&doc, &u.primary);
    let floor = device_data::floor_for(device_data::find_room(&home.rooms, room.as_str()), &facts.room_floor);
    let product = find_product(&doc, &u.primary, facts, &home.products_by_id);
    let fabric_list = fabrics::extract_device_matter_fabrics(
        &u.primary,
        u.secondary_interfaces.as_slice(),
        &home.fabric_metas,
    );
    let status = device_data::device_status(&u.primary);
    let active = text::same(status.as_str(), "active");
    let web_url = match u.primary.meta("web_url") {
        Some(s) => Some(s.clone()),
        None => None,
    };
    let mut o = json::new_members();
    json::put(&mut o, "device_id", json::string(u.primary.device_id.as_str()));
    json::put(&mut o, "display_name", json::string(device_data::shown_name_of(&doc, &u.primary).as_str()));
    json::put(&mut o, "original_name", json::string(u.primary.display_name.as_str()));
    json::put(&mut o, "custom_name", json::string(device_data::text_or_empty(&doc.name).as_str()));
    json::put(&mut o, "category", json::string(script_category_of(home, &u.primary, key.as_str()).as_str()));
    json::put(&mut o, "category_title", json::string(label.title.as_str()));
    json::put(&mut o, "category_icon", json::string(label.icon.as_str()));
    json::put(&mut o, "ip", json::string(u.primary.meta_or_empty("ip").as_str()));
    json::put(&mut o, "mac", json::string(u.primary.meta_or_empty("mac").as_str()));
    json::put(&mut o, "vendor", json::string(u.primary.meta_or_empty("vendor").as_str()));
    json::put(&mut o, "hostname", json::string(u.primary.meta_or_empty("hostname").as_str()));
    json::put(&mut o, "web_url", json::optional_string(&web_url));
    json::put(&mut o, "doc_key", json::string(key.as_str()));
    json::put(&mut o, "notes", json::string(doc.notes.as_str()));
    json::put(&mut o, "room", json::string(room.as_str()));
    json::put(&mut o, "floor", json::string(floor.as_str()));
    json::put(&mut o, "manual_url", json::string(device_data::text_or_empty(&doc.manual_url).as_str()));
    json::put(&mut o, "updated_at", json::string(doc.updated_at.as_str()));
    json::put(&mut o, "secondaries", secondaries_value(u.secondary_interfaces.as_slice()));
    json::put(&mut o, "candidate", optional_candidate_value(&u.merge_candidate));
    json::put(&mut o, "product", optional_product_value(&product, &home.vendors_by_id));
    json::put(&mut o, "matter_fabrics", fabrics_value(fabric_list.as_slice()));
    json::put(&mut o, "status", json::string(status.as_str()));
    json::put(&mut o, "is_active", json::boolean(active));
    json::put(&mut o, "is_ignored", json::boolean(device_data::is_ignored_device(&u.primary, facts)));
    json::put(&mut o, "was_ever_active", json::boolean(active || u.primary.meta_is("was_ever_active", "true")));
    json::put(&mut o, "sources", json::strings(&device_data::sources_of_device(&home.gateways, &u.primary)));
    json::put(&mut o, "first_seen", json::string(u.primary.meta_or_empty("first_seen").as_str()));
    json::put(&mut o, "last_seen", json::string(u.primary.meta_or_empty("last_seen").as_str()));
    json::put(&mut o, "metadata", json::string_map(&u.primary.metadata));
    json::object(o)
}

/// What the script gets of the devices.
pub open spec fn devices_json(list: Seq<UnifiedModel>, facts: Seq<FactsModel>, home: HouseholdModel) -> Json {
    Json::List(Seq::new(list.len(), |i: int| device_json(list[i], facts[i], home)))
}

/// The fabrics of every entry can be listed.
pub open spec fn can_show(list: Seq<UnifiedModel>, home: HouseholdModel) -> bool {
    forall|i: int|
        0 <= i < list.len() ==> fabrics::can_list_fabrics(
            (#[trigger] list[i]).primary,
            list[i].secondary_interfaces,
            home.fabric_metas,
        )
}

/// What the script gets of the devices.
pub(crate) fn devices_value(list: &[UnifiedDevice], facts: &[DeviceFacts], home: &Household) -> (r: Value)
    requires
        list@.len() == facts@.len(),
        can_show(list.deep_view(), home.deep_view()),
    ensures
        json::json_of(r) == devices_json(list.deep_view(), facts.deep_view(), home.deep_view()),
{
    let ghost all = list.deep_view();
    let ghost known = facts.deep_view();
    let mut values: Vec<Value> = Vec::new();
    let mut i: usize = 0;
    while i < list.len()
        invariant
            i <= list@.len(),
            list@.len() == facts@.len(),
            all == list.deep_view(),
            known == facts.deep_view(),
            can_show(all, home.deep_view()),
            values@.len() == i,
            forall|k: int|
                0 <= k < i ==> json::json_of(#[trigger] values@[k]) == device_json(all[k], known[k], home.deep_view()),
        decreases list@.len() - i,
    {
        assert(all[i as int] == list@[i as int].deep_view());
        assert(known[i as int] == facts@[i as int].deep_view());
        values.push(device_value(&list[i], &facts[i], home));
        i = i + 1;
    }
    assert(json::jsons(values@) =~= devices_json(all, known, home.deep_view())->List_0);
    json::array(values)
}

/// A product that can be chosen.
pub open spec fn choice_json(p: ProductModel, vendors: Map<Seq<char>, VendorModel>) -> Json {
    Json::Object(
        json::no_members().insert(
            "id"@,
            Json::Text(p.id),
        ).insert(
            "vendor_id"@,
            Json::Text(p.vendor_id),
        ).insert(
            "vendor_name"@,
            Json::Text(vendor_name(p, vendors)),
        ).insert(
            "name"@,
            Json::Text(p.name),
        ).insert(
            "category"@,
            Json::Text(p.category),
        ),
    )
}

fn choice_value(p: &Product, vendors: &TextMap<Vendor>) -> (r: Value)
    ensures
        json::json_of(r) == choice_json(p.deep_view(), vendors@),
{
    let mut o = json::new_members();
    json::put(&mut o, "id", json::string(p.id.as_str()));
    json::put(&mut o, "vendor_id", json::string(p.vendor_id.as_str()));
    json::put(&mut o, "vendor_name", json::string(vendor_name_of(p, vendors).as_str()));
    json::put(&mut o, "name", json::string(p.name.as_str()));
    json::put(&mut o, "category", json::string(p.category.as_str()));
    json::object(o)
}

/// The products that can be chosen.
pub open spec fn choices_json(items: Seq<ProductModel>, vendors: Map<Seq<char>, VendorModel>) -> Json {
    Json::List(Seq::new(items.len(), |i: int| choice_json(items[i], vendors)))
}

pub(crate) fn choices_value(items: &[Product], vendors: &TextMap<Vendor>) -> (r: Value)
    ensures
        json::json_of(r) == choices_json(items.deep_view(), vendors@),
{
    let ghost all = items.deep_view();
    let mut values: Vec<Value> = Vec::new();
    let mut i: usize = 0;
    while i < items.len()
        invariant
            i <= items@.len(),
            all == items.deep_view(),
            values@.len() == i,
            forall|k: int| 0 <= k < i ==> json::json_of(#[trigger] values@[k]) == choice_json(all[k], vendors@),
        decreases items@.len() - i,
    {
        values.push(choice_value(&items[i], vendors));
        i = i + 1;
    }
    assert(json::jsons(values@) =~= choices_json(all, vendors@)->List_0);
    json::array(values)
}

}
