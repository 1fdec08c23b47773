//! The devices page: what its script is told of a device.

use vstd::prelude::*;

use crate::category;
use crate::device::DeviceModel;
use crate::fabrics;
use crate::json::Json;
use crate::laws::hearing;
use crate::pages::device_data::{FactsModel, HouseholdModel};
use crate::pages::device_json;
use crate::records::{DocModel, ProductModel, RoomModel, VendorModel};
use crate::text;
use crate::unify::UnifiedModel;

verus! {

broadcast use vstd::string::group_string_axioms;

/// What tells the names of the members apart.
proof fn lemma_device_words()
    ensures
        "device_id"@.len() == 9,
        "display_name"@.len() == 12,
        "original_name"@.len() == 13,
        "custom_name"@.len() == 11,
        "category"@.len() == 8,
        "category_title"@.len() == 14,
        "category_icon"@.len() == 13,
        "ip"@.len() == 2,
        "mac"@.len() == 3,
        "vendor"@.len() == 6,
        "hostname"@.len() == 8,
        "web_url"@.len() == 7,
        "doc_key"@.len() == 7,
        "notes"@.len() == 5,
        "room"@.len() == 4,
        "floor"@.len() == 5,
        "manual_url"@.len() == 10,
        "updated_at"@.len() == 10,
        "secondaries"@.len() == 11,
        "candidate"@.len() == 9,
        "product"@.len() == 7,
        "matter_fabrics"@.len() == 14,
        "status"@.len() == 6,
        "is_active"@.len() == 9,
        "is_ignored"@.len() == 10,
        "was_ever_active"@.len() == 15,
        "sources"@.len() == 7,
        "first_seen"@.len() == 10,
        "last_seen"@.len() == 9,
        "metadata"@.len() == 8,
        "device_id"@[0] == 'd',
        "candidate"@[0] == 'c',
        "is_active"@[0] == 'i',
        "last_seen"@[0] == 'l',
        "original_name"@[0] == 'o',
        "category_icon"@[0] == 'c',
        "custom_name"@[0] == 'c',
        "secondaries"@[0] == 's',
        "category"@[0] == 'c',
        "hostname"@[0] == 'h',
        "metadata"@[0] == 'm',
        "category_title"@[0] == 'c',
        "matter_fabrics"@[0] == 'm',
        "vendor"@[0] == 'v',
        "status"@[0] == 's',
        "web_url"@[0] == 'w',
        "doc_key"@[0] == 'd',
        "product"@[0] == 'p',
        "sources"@[0] == 's',
        "notes"@[0] == 'n',
        "floor"@[0] == 'f',
        "manual_url"@[0] == 'm',
        "updated_at"@[0] == 'u',
        "is_ignored"@[0] == 'i',
        "first_seen"@[0] == 'f',
{
    reveal_strlit("device_id");
    reveal_strlit("display_name");
    reveal_strlit("original_name");
    reveal_strlit("custom_name");
    reveal_strlit("category");
    reveal_strlit("category_title");
    reveal_strlit("category_icon");
    reveal_strlit("ip");
    reveal_strlit("mac");
    reveal_strlit("vendor");
    reveal_strlit("hostname");
    reveal_strlit("web_url");
    reveal_strlit("doc_key");
    reveal_strlit("notes");
    reveal_strlit("room");
    reveal_strlit("floor");
    reveal_strlit("manual_url");
    reveal_strlit("updated_at");
    reveal_strlit("secondaries");
    reveal_strlit("candidate");
    reveal_strlit("product");
    reveal_strlit("matter_fabrics");
    reveal_strlit("status");
    reveal_strlit("is_active");
    reveal_strlit("is_ignored");
    reveal_strlit("was_ever_active");
    reveal_strlit("sources");
    reveal_strlit("first_seen");
    reveal_strlit("last_seen");
    reveal_strlit("metadata");
}

/// What tells the names of the members of a product apart.
proof fn lemma_product_words()
    ensures
        "id"@.len() == 2,
        "name"@.len() == 4,
        "model_number"@.len() == 12,
        "category"@.len() == 8,
        "category_icon"@.len() == 13,
        "connectivity"@.len() == 12,
        "matter_device_type"@.len() == 18,
        "default_ports"@.len() == 13,
        "documentation_url"@.len() == 17,
        "specs"@.len() == 5,
        "rhai_script_ref"@.len() == 15,
        "vendor_id"@.len() == 9,
        "vendor_name"@.len() == 11,
        "vendor_website"@.len() == 14,
        "vendor_icon"@.len() == 11,
        "model_number"@[0] == 'm',
        "connectivity"@[0] == 'c',
        "category_icon"@[0] == 'c',
        "default_ports"@[0] == 'd',
        "vendor_name"@[7] == 'n',
        "vendor_icon"@[7] == 'i',
{
    reveal_strlit("id");
    reveal_strlit("name");
    reveal_strlit("model_number");
    reveal_strlit("category");
    reveal_strlit("category_icon");
    reveal_strlit("connectivity");
    reveal_strlit("matter_device_type");
    reveal_strlit("default_ports");
    reveal_strlit("documentation_url");
    reveal_strlit("specs");
    reveal_strlit("rhai_script_ref");
    reveal_strlit("vendor_id");
    reveal_strlit("vendor_name");
    reveal_strlit("vendor_website");
    reveal_strlit("vendor_icon");
}

/// What tells the names of the members of an interface apart.
proof fn lemma_interface_words()
    ensures
        "device_id"@.len() == 9,
        "name"@.len() == 4,
        "ip"@.len() == 2,
        "mac"@.len() == 3,
        "vendor"@.len() == 6,
        "hostname"@.len() == 8,
        "protocol"@.len() == 8,
        "source"@.len() == 6,
        "scout"@.len() == 5,
        "rssi"@.len() == 4,
        "metadata"@.len() == 8,
        "name"@[0] == 'n',
        "rssi"@[0] == 'r',
        "vendor"@[0] == 'v',
        "source"@[0] == 's',
        "hostname"@[0] == 'h',
        "protocol"@[0] == 'p',
        "metadata"@[0] == 'm',
{
    reveal_strlit("device_id");
    reveal_strlit("name");
    reveal_strlit("ip");
    reveal_strlit("mac");
    reveal_strlit("vendor");
    reveal_strlit("hostname");
    reveal_strlit("protocol");
    reveal_strlit("source");
    reveal_strlit("scout");
    reveal_strlit("rssi");
    reveal_strlit("metadata");
}

/// What tells the names of the members of a fabric apart.
proof fn lemma_fabric_words()
    ensures
        "fabric_id"@.len() == 9,
        "node_id"@.len() == 7,
        "port"@.len() == 4,
        "interface"@.len() == 9,
        "fabric_name"@.len() == 11,
        "fabric_icon"@.len() == 11,
        "fabric_id"@[0] == 'f',
        "interface"@[0] == 'i',
        "fabric_name"@[7] == 'n',
        "fabric_icon"@[7] == 'i',
{
    reveal_strlit("fabric_id");
    reveal_strlit("node_id");
    reveal_strlit("port");
    reveal_strlit("interface");
    reveal_strlit("fabric_name");
    reveal_strlit("fabric_icon");
}

/// What is told of a device under `key`.
pub open spec fn told(u: UnifiedModel, facts: FactsModel, home: HouseholdModel, key: Seq<char>) -> Option<Json> {
    device_json::device_json(u, facts, home).member(key)
}

/// A text, or nothing.
pub open spec fn text_or_null(s: Option<Seq<char>>) -> Json {
    match s {
        Some(t) => Json::Text(t),
        None => Json::Null,
    }
}

/// What a device reports is told as it reports it, and as nothing where it reports nothing.
pub proof fn devices_are_told_as_they_report(u: UnifiedModel, facts: FactsModel, home: HouseholdModel, key: Seq<char>)
    ensures
        told(u, facts, home, "device_id"@) == Some(Json::Text(u.primary.device_id)),
        told(u, facts, home, "original_name"@) == Some(Json::Text(u.primary.display_name)),
        told(u, facts, home, "ip"@) == Some(Json::Text(hearing::reported(u.primary, "ip"@))),
        told(u, facts, home, "mac"@) == Some(Json::Text(hearing::reported(u.primary, "mac"@))),
        told(u, facts, home, "vendor"@) == Some(Json::Text(hearing::reported(u.primary, "vendor"@))),
        told(u, facts, home, "hostname"@) == Some(Json::Text(hearing::reported(u.primary, "hostname"@))),
        told(u, facts, home, "first_seen"@) == Some(Json::Text(hearing::reported(u.primary, "first_seen"@))),
        told(u, facts, home, "last_seen"@) == Some(Json::Text(hearing::reported(u.primary, "last_seen"@))),
        u.primary.metadata.contains_key("web_url"@) ==> told(u, facts, home, "web_url"@) == Some(
            Json::Text(u.primary.metadata["web_url"@]),
        ),
        !u.primary.metadata.contains_key("web_url"@) ==> told(u, facts, home, "web_url"@) == Some(Json::Null),
        told(u, facts, home, "metadata"@) is Some,
        u.primary.metadata.contains_key(key) ==> told(u, facts, home, "metadata"@)->0.member(key) == Some(
            Json::Text(u.primary.metadata[key]),
        ),
        !u.primary.metadata.contains_key(key) ==> told(u, facts, home, "metadata"@)->0.member(key) is None,
{
    lemma_device_words();
}

/// A device is told to be active where it reports so or reports no state; to have been active once where it
/// is or reports so; and to be ignored where its id or its MAC address is.
pub proof fn states_are_told_as_reported(u: UnifiedModel, facts: FactsModel, home: HouseholdModel)
    ensures
        ({
            let d = u.primary;
            let active = !d.metadata.contains_key("status"@) || d.metadata["status"@] == "active"@;
            &&& told(u, facts, home, "is_active"@) == Some(Json::Bool(active))
            &&& d.metadata.contains_key("status"@) ==> told(u, facts, home, "status"@) == Some(
                Json::Text(d.metadata["status"@]),
            )
            &&& !d.metadata.contains_key("status"@) ==> told(u, facts, home, "status"@) == Some(Json::Text("active"@))
            &&& told(u, facts, home, "was_ever_active"@) == Some(
                Json::Bool(
                    active || (d.metadata.contains_key("was_ever_active"@) && d.metadata["was_ever_active"@] == "true"@),
                ),
            )
            &&& told(u, facts, home, "is_ignored"@) == Some(
                Json::Bool(
                    facts.id_ignored || (facts.mac_ignored && d.metadata.contains_key("mac"@) && d.metadata["mac"@].len()
                        > 0),
                ),
            )
        }),
{
    lemma_device_words();
}

/// `doc` is what is written down of the device: under its MAC address, under that address in small letters,
/// or under its id, whichever is there first.
pub open spec fn is_written(docs: Map<Seq<char>, DocModel>, d: DeviceModel, doc: DocModel) -> bool {
    let mac = hearing::reported(d, "mac"@);
    if mac.len() > 0 && docs.contains_key(mac) {
        doc == docs[mac]
    } else if mac.len() > 0 && docs.contains_key(text::lowercase(mac)) {
        doc == docs[text::lowercase(mac)]
    } else {
        docs.contains_key(d.device_id) && doc == docs[d.device_id]
    }
}

/// What is written down of a device is told; a written name counts unless it is blank, and a written room
/// counts before the reported one.
pub proof fn what_is_written_is_told(u: UnifiedModel, facts: FactsModel, home: HouseholdModel, doc: DocModel)
    requires
        is_written(home.docs, u.primary, doc),
    ensures
        told(u, facts, home, "notes"@) == Some(Json::Text(doc.notes)),
        told(u, facts, home, "updated_at"@) == Some(Json::Text(doc.updated_at)),
        doc.manual_url is Some ==> told(u, facts, home, "manual_url"@) == Some(Json::Text(doc.manual_url->0)),
        doc.manual_url is None ==> told(u, facts, home, "manual_url"@) == Some(Json::Text(Seq::empty())),
        doc.name is Some ==> told(u, facts, home, "custom_name"@) == Some(Json::Text(doc.name->0)),
        doc.name is None ==> told(u, facts, home, "custom_name"@) == Some(Json::Text(Seq::empty())),
        doc.name is Some && text::trimmed(doc.name->0).len() > 0 ==> told(u, facts, home, "display_name"@) == Some(
            Json::Text(doc.name->0),
        ),
        doc.name is None || text::trimmed(doc.name->0).len() == 0 ==> told(u, facts, home, "display_name"@) == Some(
            Json::Text(u.primary.display_name),
        ),
        doc.room is Some ==> told(u, facts, home, "room"@) == Some(Json::Text(doc.room->0)),
        doc.room is None ==> told(u, facts, home, "room"@) == Some(Json::Text(hearing::reported(u.primary, "room"@))),
{
    lemma_device_words();
}

/// A device of which nothing is written down goes by what it reports.
pub proof fn unwritten_devices_are_told_as_they_report(u: UnifiedModel, facts: FactsModel, home: HouseholdModel)
    requires
        !home.docs.contains_key(hearing::reported(u.primary, "mac"@)),
        !home.docs.contains_key(text::lowercase(hearing::reported(u.primary, "mac"@))),
        !home.docs.contains_key(u.primary.device_id),
    ensures
        told(u, facts, home, "display_name"@) == Some(Json::Text(u.primary.display_name)),
        told(u, facts, home, "custom_name"@) == Some(Json::Text(Seq::empty())),
        told(u, facts, home, "notes"@) == Some(Json::Text(Seq::empty())),
        told(u, facts, home, "manual_url"@) == Some(Json::Text(Seq::empty())),
        told(u, facts, home, "room"@) == Some(Json::Text(hearing::reported(u.primary, "room"@))),
{
    lemma_device_words();
}

/// What is written of a device is kept under its MAC address where it has one, else under its id.
pub proof fn devices_are_kept_under_their_address(u: UnifiedModel, facts: FactsModel, home: HouseholdModel)
    ensures
        ({
            let mac = hearing::reported(u.primary, "mac"@);
            &&& mac.len() > 0 ==> told(u, facts, home, "doc_key"@) == Some(Json::Text(mac))
            &&& mac.len() == 0 ==> told(u, facts, home, "doc_key"@) == Some(Json::Text(u.primary.device_id))
        }),
{
    lemma_device_words();
}

/// A category that was chosen for a device counts, with its own title and sign; without one the reported
/// category does, with the title and sign that are reported, if any are.
pub proof fn chosen_categories_are_told(u: UnifiedModel, facts: FactsModel, home: HouseholdModel)
    ensures
        ({
            let d = u.primary;
            let mac = hearing::reported(d, "mac"@);
            let key = if mac.len() > 0 {
                mac
            } else {
                d.device_id
            };
            let chosen = if home.category_overrides.contains_key(key) {
                Some(home.category_overrides[key])
            } else if home.category_overrides.contains_key(d.device_id) {
                Some(home.category_overrides[d.device_id])
            } else {
                None
            };
            let own = if d.metadata.contains_key("category"@) {
                d.metadata["category"@]
            } else {
                d.kind
            };
            let title = if d.metadata.contains_key("category_title"@) {
                d.metadata["category_title"@]
            } else {
                category::presentation(own).0
            };
            let icon = if d.metadata.contains_key("category_icon"@) {
                d.metadata["category_icon"@]
            } else {
                category::presentation(own).1
            };
            &&& chosen is Some ==> told(u, facts, home, "category"@) == Some(Json::Text(chosen->0)) && told(
                u,
                facts,
                home,
                "category_title"@,
            ) == Some(Json::Text(category::presentation(chosen->0).0)) && told(u, facts, home, "category_icon"@) == Some(
                Json::Text(category::presentation(chosen->0).1),
            )
            &&& chosen is None ==> told(u, facts, home, "category"@) == Some(
                Json::Text(category::canonical_key(own, title)),
            ) && told(u, facts, home, "category_title"@) == Some(Json::Text(title)) && told(
                u,
                facts,
                home,
                "category_icon"@,
            ) == Some(Json::Text(icon))
        }),
{
    lemma_device_words();
}

/// `r` is the first room with the name, in whatever case.
pub open spec fn is_room(rooms: Seq<RoomModel>, name: Seq<char>, k: int) -> bool {
    &&& 0 <= k < rooms.len()
    &&& text::same_ignoring_ascii_case(rooms[k].name, name)
    &&& forall|i: int| 0 <= i < k ==> !text::same_ignoring_ascii_case((#[trigger] rooms[i]).name, name)
}

proof fn lemma_room(rooms: Seq<RoomModel>, name: Seq<char>, k: int)
    requires
        is_room(rooms, name, k),
        name.len() > 0,
    ensures
        crate::pages::device_data::room_named(rooms, name) == Some(rooms[k]),
    decreases rooms.len(),
{
    let rest = rooms.drop_last();
    if k < rooms.len() - 1 {
        assert(rest[k] == rooms[k]);
        assert forall|i: int| 0 <= i < k implies !text::same_ignoring_ascii_case((#[trigger] rest[i]).name, name) by {
            assert(rest[i] == rooms[i]);
        }
        lemma_room(rest, name, k);
    } else {
        assert forall|i: int| 0 <= i < rest.len() implies !text::same_ignoring_ascii_case((#[trigger] rest[i]).name, name) by {
            assert(rest[i] == rooms[i]);
        }
        lemma_no_room(rest, name);
    }
}

proof fn lemma_no_room(rooms: Seq<RoomModel>, name: Seq<char>)
    requires
        forall|i: int| 0 <= i < rooms.len() ==> !text::same_ignoring_ascii_case((#[trigger] rooms[i]).name, name),
    ensures
        crate::pages::device_data::room_named(rooms, name) is None,
    decreases rooms.len(),
{
    if rooms.len() > 0 {
        let rest = rooms.drop_last();
        assert(rooms[rooms.len() - 1] == rooms.last());
        assert forall|i: int| 0 <= i < rest.len() implies !text::same_ignoring_ascii_case((#[trigger] rest[i]).name, name) by {
            assert(rest[i] == rooms[i]);
        }
        lemma_no_room(rest, name);
    }
}

/// A device is on the floor of its room; where the room tells none, on the floor that the room's name tells.
pub proof fn devices_are_on_the_floor_of_their_room(
    u: UnifiedModel,
    facts: FactsModel,
    home: HouseholdModel,
    doc: DocModel,
    k: int,
)
    requires
        is_written(home.docs, u.primary, doc),
        doc.room is Some,
        doc.room->0.len() > 0,
    ensures
        is_room(home.rooms, doc.room->0, k) && home.rooms[k].floor is Some ==> told(u, facts, home, "floor"@) == Some(
            Json::Text(home.rooms[k].floor->0),
        ),
        is_room(home.rooms, doc.room->0, k) && home.rooms[k].floor is None && facts.room_floor is Some ==> told(
            u,
            facts,
            home,
            "floor"@,
        ) == Some(Json::Text(facts.room_floor->0)),
        (forall|i: int|
            0 <= i < home.rooms.len() ==> !text::same_ignoring_ascii_case(
                (#[trigger] home.rooms[i]).name,
                doc.room->0,
            )) && facts.room_floor is Some ==> told(u, facts, home, "floor"@) == Some(Json::Text(facts.room_floor->0)),
{
    lemma_device_words();
    let name = doc.room->0;
    if is_room(home.rooms, name, k) {
        lemma_room(home.rooms, name, k);
    }
    if forall|i: int|
        0 <= i < home.rooms.len() ==> !text::same_ignoring_ascii_case((#[trigger] home.rooms[i]).name, name) {
        lemma_no_room(home.rooms, name);
    }
}

/// The product that was assigned to a device is told where the catalog has it; else the one that the rules
/// find; else the one that the device reports.
pub proof fn assigned_products_are_told(u: UnifiedModel, facts: FactsModel, home: HouseholdModel, doc: DocModel)
    requires
        is_written(home.docs, u.primary, doc),
    ensures
        ({
            let d = u.primary;
            let all = home.products_by_id;
            let assigned = doc.product_id is Some && all.contains_key(doc.product_id->0);
            let found = told(u, facts, home, "product"@);
            &&& assigned ==> found == Some(device_json::product_json(all[doc.product_id->0], home.vendors_by_id))
            &&& !assigned && facts.matched_product is Some ==> found == Some(
                device_json::product_json(facts.matched_product->0, home.vendors_by_id),
            )
            &&& !assigned && facts.matched_product is None && d.metadata.contains_key("product_id"@) && all.contains_key(
                d.metadata["product_id"@],
            ) ==> found == Some(device_json::product_json(all[d.metadata["product_id"@]], home.vendors_by_id))
            &&& !assigned && facts.matched_product is None && !d.metadata.contains_key("product_id"@) ==> found == Some(
                Json::Null,
            )
        }),
{
    lemma_device_words();
}

/// A product is told as the catalog has it, with the name, page and sign of its vendor; a vendor that the
/// catalog does not have goes by its id.
pub proof fn products_are_told_as_the_catalog_has_them(
    p: ProductModel,
    vendors: Map<Seq<char>, VendorModel>,
    i: int,
    j: int,
)
    requires
        0 <= i < p.connectivity.len(),
        0 <= j < p.default_ports.len(),
    ensures
        ({
            let o = device_json::product_json(p, vendors);
            &&& o.member("id"@) == Some(Json::Text(p.id))
            &&& o.member("name"@) == Some(Json::Text(p.name))
            &&& o.member("category"@) == Some(Json::Text(p.category))
            &&& o.member("category_icon"@) == Some(Json::Text(p.category_icon))
            &&& o.member("vendor_id"@) == Some(Json::Text(p.vendor_id))
            &&& o.member("model_number"@) == Some(text_or_null(p.model_number))
            &&& o.member("matter_device_type"@) == Some(text_or_null(p.matter_device_type))
            &&& o.member("documentation_url"@) == Some(text_or_null(p.documentation_url))
            &&& o.member("specs"@) == Some(text_or_null(p.specs))
            &&& o.member("rhai_script_ref"@) == Some(text_or_null(p.rhai_script_ref))
            &&& o.member("connectivity"@) is Some && o.member("connectivity"@)->0 is List
            &&& o.member("connectivity"@)->0->List_0.len() == p.connectivity.len()
            &&& o.member("connectivity"@)->0->List_0[i] == Json::Text(p.connectivity[i])
            &&& o.member("default_ports"@) is Some && o.member("default_ports"@)->0 is List
            &&& o.member("default_ports"@)->0->List_0.len() == p.default_ports.len()
            &&& o.member("default_ports"@)->0->List_0[j] == Json::Unsigned(p.default_ports[j] as u64)
            &&& vendors.contains_key(p.vendor_id) ==> o.member("vendor_name"@) == Some(
                Json::Text(vendors[p.vendor_id].name),
            ) && o.member("vendor_icon"@) == Some(Json::Text(vendors[p.vendor_id].icon)) && o.member("vendor_website"@)
                == Some(text_or_null(vendors[p.vendor_id].website))
            &&& !vendors.contains_key(p.vendor_id) ==> o.member("vendor_name"@) == Some(Json::Text(p.vendor_id))
                && o.member("vendor_icon"@) == Some(Json::Text("🏢"@)) && o.member("vendor_website"@) == Some(Json::Null)
        }),
{
    lemma_product_words();
}

/// Every interface of a device is told, in order and as it reports, and the device that is proposed for
/// merging, where there is one.
pub proof fn interfaces_are_told_as_they_report(u: UnifiedModel, facts: FactsModel, home: HouseholdModel, i: int, key: Seq<char>)
    requires
        0 <= i < u.secondary_interfaces.len(),
    ensures
        told(u, facts, home, "secondaries"@) is Some && told(u, facts, home, "secondaries"@)->0 is List,
        told(u, facts, home, "secondaries"@)->0->List_0.len() == u.secondary_interfaces.len(),
        ({
            let s = u.secondary_interfaces[i];
            let o = told(u, facts, home, "secondaries"@)->0->List_0[i];
            &&& o.member("device_id"@) == Some(Json::Text(s.device_id))
            &&& o.member("name"@) == Some(Json::Text(s.display_name))
            &&& key == "ip"@ || key == "mac"@ || key == "vendor"@ || key == "hostname"@ || key == "protocol"@ || key
                == "source"@ || key == "scout"@ || key == "rssi"@ ==> o.member(key) == Some(
                Json::Text(hearing::reported(s, key)),
            )
        }),
{
    lemma_device_words();
    lemma_interface_words();
}

/// The device that is proposed for merging is told as it reports; without one nothing is told.
pub proof fn candidates_are_told_as_they_report(u: UnifiedModel, facts: FactsModel, home: HouseholdModel, key: Seq<char>)
    ensures
        u.merge_candidate is None ==> told(u, facts, home, "candidate"@) == Some(Json::Null),
        u.merge_candidate is Some ==> told(u, facts, home, "candidate"@) is Some && {
            let c = u.merge_candidate->0;
            let o = told(u, facts, home, "candidate"@)->0;
            &&& o.member("device_id"@) == Some(Json::Text(c.device_id))
            &&& o.member("name"@) == Some(Json::Text(c.display_name))
            &&& key == "ip"@ || key == "mac"@ || key == "hostname"@ || key == "protocol"@ || key == "source"@ ==> o.member(
                key,
            ) == Some(Json::Text(hearing::reported(c, key)))
        },
{
    lemma_device_words();
    lemma_interface_words();
}

/// Every fabric of a device is told, in order, with all that is known of it.
pub proof fn fabrics_are_told(u: UnifiedModel, facts: FactsModel, home: HouseholdModel, i: int)
    requires
        0 <= i < fabrics::device_fabrics(u.primary, u.secondary_interfaces, home.fabric_metas).len(),
    ensures
        ({
            let all = fabrics::device_fabrics(u.primary, u.secondary_interfaces, home.fabric_metas);
            let f = all[i];
            let list = told(u, facts, home, "matter_fabrics"@);
            &&& list is Some && list->0 is List && list->0->List_0.len() == all.len()
            &&& list->0->List_0[i].member("fabric_id"@) == Some(Json::Text(f.fabric_id))
            &&& list->0->List_0[i].member("node_id"@) == Some(Json::Text(f.node_id))
            &&& list->0->List_0[i].member("port"@) == Some(Json::Unsigned(f.port as u64))
            &&& list->0->List_0[i].member("interface"@) == Some(Json::Text(f.interface))
            &&& list->0->List_0[i].member("fabric_name"@) == Some(Json::Text(f.fabric_name))
            &&& list->0->List_0[i].member("fabric_icon"@) == Some(Json::Text(f.fabric_icon))
        }),
{
    lemma_device_words();
    lemma_fabric_words();
}

/// The page's script is told of every device, in the order of the list, and of every product.
pub proof fn every_device_is_told(list: Seq<UnifiedModel>, facts: Seq<FactsModel>, home: HouseholdModel, i: int)
    requires
        0 <= i < list.len(),
    ensures
        device_json::devices_json(list, facts, home) is List,
        device_json::devices_json(list, facts, home)->List_0.len() == list.len(),
        device_json::devices_json(list, facts, home)->List_0[i] == device_json::device_json(list[i], facts[i], home),
{
}

/// A product that can be chosen is told by its id, its vendor, its name and its category.
pub proof fn choices_are_told(products: Seq<ProductModel>, vendors: Map<Seq<char>, VendorModel>, i: int)
    requires
        0 <= i < products.len(),
    ensures
        ({
            let p = products[i];
            let all = device_json::choices_json(products, vendors);
            &&& all is List && all->List_0.len() == products.len()
            &&& all->List_0[i].member("id"@) == Some(Json::Text(p.id))
            &&& all->List_0[i].member("vendor_id"@) == Some(Json::Text(p.vendor_id))
            &&& all->List_0[i].member("name"@) == Some(Json::Text(p.name))
            &&& all->List_0[i].member("category"@) == Some(Json::Text(p.category))
            &&& vendors.contains_key(p.vendor_id) ==> all->List_0[i].member("vendor_name"@) == Some(
                Json::Text(vendors[p.vendor_id].name),
            )
            &&& !vendors.contains_key(p.vendor_id) ==> all->List_0[i].member("vendor_name"@) == Some(Json::Text(p.vendor_id))
        }),
{
    lemma_product_words();
}

}
