//! The rooms page: what is told of a device and of a room.

use vstd::prelude::*;

use crate::device::DeviceModel;
use crate::json;
use crate::json::Json;
use crate::laws::frame;
use crate::laws::texts;
use crate::pages::layout;
use crate::pages::rooms;
use crate::pages::rooms_frame;
use crate::records::{DocModel, GoveeModel, LightGroupModel, RoomModel};
use crate::text;
use crate::unify::UnifiedModel;

verus! {

broadcast use vstd::string::group_string_axioms;

/// What tells the names of the members apart.
proof fn lemma_member_names()
    ensures
        "device_id"@.len() == 9,
        "display_name"@.len() == 12,
        "custom_name"@.len() == 11,
        "effective_name"@.len() == 14,
        "kind"@.len() == 4,
        "category"@.len() == 8,
        "category_icon"@.len() == 13,
        "ip"@.len() == 2,
        "mac"@.len() == 3,
        "room"@.len() == 4,
        "is_active"@.len() == 9,
        "is_govee"@.len() == 8,
        "is_hue"@.len() == 6,
        "hue_id"@.len() == 6,
        "hue_on"@.len() == 6,
        "hue_bri"@.len() == 7,
        "is_shelly"@.len() == 9,
        "govee_on"@.len() == 8,
        "govee_brightness"@.len() == 16,
        "govee_color"@.len() == 11,
        "govee_kelvin"@.len() == 12,
        "govee_sku"@.len() == 9,
        "web_url"@.len() == 7,
        "metadata"@.len() == 8,
        "device_id"@[3] == 'i',
        "is_active"@[3] == 'a',
        "is_shelly"@[3] == 's',
        "govee_sku"@[3] == 'e',
        "display_name"@[0] == 'd',
        "govee_kelvin"@[0] == 'g',
        "custom_name"@[0] == 'c',
        "govee_color"@[0] == 'g',
        "kind"@[0] == 'k',
        "room"@[0] == 'r',
        "category"@[0] == 'c',
        "is_govee"@[0] == 'i',
        "govee_on"@[0] == 'g',
        "metadata"@[0] == 'm',
        "is_hue"@[4] == 'u',
        "hue_id"@[4] == 'i',
        "hue_on"@[4] == 'o',
        "hue_bri"@[0] == 'h',
        "web_url"@[0] == 'w',
{
    reveal_strlit("device_id");
    reveal_strlit("display_name");
    reveal_strlit("custom_name");
    reveal_strlit("effective_name");
    reveal_strlit("kind");
    reveal_strlit("category");
    reveal_strlit("category_icon");
    reveal_strlit("ip");
    reveal_strlit("mac");
    reveal_strlit("room");
    reveal_strlit("is_active");
    reveal_strlit("is_govee");
    reveal_strlit("is_hue");
    reveal_strlit("hue_id");
    reveal_strlit("hue_on");
    reveal_strlit("hue_bri");
    reveal_strlit("is_shelly");
    reveal_strlit("govee_on");
    reveal_strlit("govee_brightness");
    reveal_strlit("govee_color");
    reveal_strlit("govee_kelvin");
    reveal_strlit("govee_sku");
    reveal_strlit("web_url");
    reveal_strlit("metadata");
}


/// `d` reports `value` under `key`.
pub open spec fn reports(d: DeviceModel, key: Seq<char>, value: Seq<char>) -> bool {
    d.metadata.contains_key(key) && d.metadata[key] == value
}

/// What is told of a device on the rooms page under `key`.
pub open spec fn told(
    u: UnifiedModel,
    docs: Map<Seq<char>, DocModel>,
    states: Map<Seq<char>, GoveeModel>,
    key: Seq<char>,
) -> Option<Json> {
    rooms::room_device_json(u, docs, states).member(key)
}

/// A Hue light is told to be on where it reports so, off where it reports anything else, and on
/// where it reports nothing; with the brightness that it reports.
pub proof fn hue_lights_are_told_as_they_report(
    u: UnifiedModel,
    docs: Map<Seq<char>, DocModel>,
    states: Map<Seq<char>, GoveeModel>,
    n: u64,
)
    ensures
        reports(u.primary, "hue_on"@, "true"@) ==> told(u, docs, states, "hue_on"@) == Some(Json::Bool(true)),
        u.primary.metadata.contains_key("hue_on"@) && u.primary.metadata["hue_on"@] != "true"@ ==> told(
            u,
            docs,
            states,
            "hue_on"@,
        ) == Some(Json::Bool(false)),
        !u.primary.metadata.contains_key("hue_on"@) ==> told(u, docs, states, "hue_on"@) == Some(Json::Bool(true)),
        reports(u.primary, "hue_bri"@, text::decimal(n as nat)) ==> told(u, docs, states, "hue_bri"@) == Some(
            Json::Unsigned(n),
        ),
        u.primary.metadata.contains_key("hue_light_id"@) ==> told(u, docs, states, "hue_id"@) == Some(
            Json::Text(u.primary.metadata["hue_light_id"@]),
        ),
        told(u, docs, states, "is_hue"@) == Some(
            Json::Bool(
                u.primary.module_id == "philips-hue"@ || reports(u.primary, "source"@, "philips-hue"@) || reports(
                    u.primary,
                    "protocol"@,
                    "zigbee"@,
                ),
            ),
        ),
{
    lemma_member_names();
    texts::written_numbers_are_read_back(n as nat, u64::MAX as nat);
}

/// What a device reports of itself is told as it is.
pub proof fn devices_are_told_as_they_report(
    u: UnifiedModel,
    docs: Map<Seq<char>, DocModel>,
    states: Map<Seq<char>, GoveeModel>,
    k: Seq<char>,
)
    ensures
        told(u, docs, states, "device_id"@) == Some(Json::Text(u.primary.device_id)),
        told(u, docs, states, "display_name"@) == Some(Json::Text(u.primary.display_name)),
        told(u, docs, states, "kind"@) == Some(Json::Text(u.primary.kind)),
        u.primary.metadata.contains_key("mac"@) ==> told(u, docs, states, "mac"@) == Some(
            Json::Text(u.primary.metadata["mac"@]),
        ),
        u.primary.metadata.contains_key("category"@) ==> told(u, docs, states, "category"@) == Some(
            Json::Text(u.primary.metadata["category"@]),
        ),
        !u.primary.metadata.contains_key("category"@) ==> told(u, docs, states, "category"@) == Some(
            Json::Text(u.primary.kind),
        ),
        told(u, docs, states, "web_url"@) == Some(
            if u.primary.metadata.contains_key("web_url"@) {
                Json::Text(u.primary.metadata["web_url"@])
            } else {
                Json::Null
            },
        ),
        told(u, docs, states, "is_active"@) == Some(
            Json::Bool(u.primary.metadata.contains_key("status"@) ==> u.primary.metadata["status"@] == "active"@),
        ),
        told(u, docs, states, "metadata"@) is Some && told(u, docs, states, "metadata"@)->0.member(k) == (
        if u.primary.metadata.contains_key(k) {
            Some(Json::Text(u.primary.metadata[k]))
        } else {
            None
        }),
{
    lemma_member_names();
}

/// The device or one of its interfaces tells the maker of lights, by its vendor, its name or its host name.
pub open spec fn tells_govee(d: DeviceModel) -> bool {
    ||| text::has(text::lowercase(d.display_name), "govee"@)
    ||| d.metadata.contains_key("vendor"@) && text::has(text::lowercase(d.metadata["vendor"@]), "govee"@)
    ||| d.metadata.contains_key("hostname"@) && text::has(text::lowercase(d.metadata["hostname"@]), "govee"@)
}

/// Makers are told by what the device and its interfaces say of themselves, and a device without a sign of
/// its own gets the usual one.
pub proof fn makers_are_told_by_their_names(
    u: UnifiedModel,
    docs: Map<Seq<char>, DocModel>,
    states: Map<Seq<char>, GoveeModel>,
    i: int,
)
    ensures
        ({
            let d = u.primary;
            let others = u.secondary_interfaces;
            let shelly = text::has(text::lowercase(d.display_name), "shelly"@) || (d.metadata.contains_key("hostname"@)
                && text::has(text::lowercase(d.metadata["hostname"@]), "shelly"@));
            &&& told(u, docs, states, "is_shelly"@) == Some(Json::Bool(shelly))
            &&& tells_govee(d) ==> told(u, docs, states, "is_govee"@) == Some(Json::Bool(true))
            &&& 0 <= i < others.len() && tells_govee(others[i]) ==> told(u, docs, states, "is_govee"@) == Some(
                Json::Bool(true),
            )
            &&& !tells_govee(d) && (forall|j: int| 0 <= j < others.len() ==> !tells_govee(#[trigger] others[j]))
                && rooms::govee_state(states, u) is None ==> told(u, docs, states, "is_govee"@) == Some(Json::Bool(false))
            &&& d.metadata.contains_key("category_icon"@) ==> told(u, docs, states, "category_icon"@) == Some(
                Json::Text(d.metadata["category_icon"@]),
            )
            &&& !d.metadata.contains_key("category_icon"@) ==> told(u, docs, states, "category_icon"@) == Some(
                Json::Text("📱"@),
            )
        }),
{
    lemma_member_names();
    let others = u.secondary_interfaces;
    assert forall|e: DeviceModel| #[trigger] tells_govee(e) == rooms::is_govee_interface(e) by {}
    if 0 <= i < others.len() && tells_govee(others[i]) {
        assert(rooms::is_govee_interface(others[i]));
    }
    if rooms::looks_like_govee(u) && !rooms::is_govee_interface(u.primary) {
        let j = choose|j: int| 0 <= j < others.len() && rooms::is_govee_interface(#[trigger] others[j]);
        assert(tells_govee(others[j]));
    }
}

/// A light of whose state Govee reported, at the address of the device, is told in that state, and
/// without a report as off.
pub proof fn govee_lights_are_told_in_their_state(
    u: UnifiedModel,
    docs: Map<Seq<char>, DocModel>,
    states: Map<Seq<char>, GoveeModel>,
    ip: Seq<char>,
)
    requires
        reports(u.primary, "ip"@, ip),
        ip.len() > 0,
        ip != "-"@,
    ensures
        told(u, docs, states, "ip"@) == Some(Json::Text(ip)),
        told(u, docs, states, "govee_on"@) == Some(Json::Bool(states.contains_key(ip) && states[ip].on_off)),
        states.contains_key(ip) ==> {
            &&& told(u, docs, states, "is_govee"@) == Some(Json::Bool(true))
            &&& told(u, docs, states, "govee_brightness"@) == Some(Json::Unsigned(states[ip].brightness))
            &&& told(u, docs, states, "govee_kelvin"@) == Some(Json::Unsigned(states[ip].color_tem_kelvin))
            &&& told(u, docs, states, "govee_sku"@) == Some(Json::Text(states[ip].sku))
            &&& told(u, docs, states, "govee_color"@) == Some(
                Json::List(
                    seq![
                        Json::Unsigned(states[ip].color.0 as u64),
                        Json::Unsigned(states[ip].color.1 as u64),
                        Json::Unsigned(states[ip].color.2 as u64),
                    ],
                ),
            )
        },
{
    lemma_member_names();
}

/// A device is told with the name and the room that are written down under its MAC address, or
/// under its id where it has none. Without a written name it goes by its own.
pub proof fn written_names_and_rooms_are_told(
    u: UnifiedModel,
    docs: Map<Seq<char>, DocModel>,
    states: Map<Seq<char>, GoveeModel>,
    key: Seq<char>,
)
    requires
        if u.primary.metadata.contains_key("mac"@) && u.primary.metadata["mac"@].len() > 0 {
            key == u.primary.metadata["mac"@]
        } else {
            key == u.primary.device_id
        },
        docs.contains_key(key),
    ensures
        docs[key].room is Some ==> told(u, docs, states, "room"@) == Some(Json::Text(docs[key].room->0)),
        docs[key].name is Some && docs[key].name->0.len() > 0 ==> told(u, docs, states, "effective_name"@) == Some(
            Json::Text(docs[key].name->0),
        ) && told(u, docs, states, "custom_name"@) == Some(Json::Text(docs[key].name->0)),
        docs[key].name is None ==> told(u, docs, states, "effective_name"@) == Some(Json::Text(u.primary.display_name)),
        docs[key].room is None && u.primary.metadata.contains_key("room"@) ==> told(u, docs, states, "room"@) == Some(
            Json::Text(u.primary.metadata["room"@]),
        ),
{
    lemma_member_names();
}

/// The page carries the data of all rooms, all devices and all groups of lights, each under its own
/// name, and every device and every group is told in its place.
pub proof fn the_page_carries_its_data(
    title: Seq<char>,
    list: Seq<RoomModel>,
    items: Seq<UnifiedModel>,
    docs: Map<Seq<char>, DocModel>,
    states: Map<Seq<char>, GoveeModel>,
    groups: Seq<LightGroupModel>,
    written_rooms: Seq<char>,
    written_devices: Seq<char>,
    written_groups: Seq<char>,
)
    requires
        json::compact_text(rooms::rooms_json(list, docs, items)) == Some(written_rooms),
        json::compact_text(rooms::room_devices_json(items, docs, states)) == Some(written_devices),
        json::compact_text(rooms::light_groups_json(groups)) == Some(written_groups),
    ensures
        text::has(
            layout::page(title, "rooms"@, rooms::rooms_content(list, items, docs, states, groups)),
            written_rooms + ";\n        const allDevicesData = "@ + written_devices + ";\n        let allLightGroupsData = "@
                + written_groups,
        ),
        match rooms::room_devices_json(items, docs, states) {
            Json::List(told_devices) => told_devices.len() == items.len() && forall|i: int|
                0 <= i < items.len() ==> #[trigger] told_devices[i] == rooms::room_device_json(items[i], docs, states),
            _ => false,
        },
{
    let content = rooms::rooms_content(list, items, docs, states, groups);
    let data = written_rooms + ";\n        const allDevicesData = "@ + written_devices
        + ";\n        let allLightGroupsData = "@ + written_groups;
    let assigned = rooms::assigned_count(docs, items);
    let before = rooms_frame::CONTENT_0@ + text::decimal((items.len() - assigned) as nat) + rooms_frame::CONTENT_1@
        + text::decimal(assigned) + rooms_frame::CONTENT_2@ + text::decimal(list.len()) + rooms_frame::CONTENT_3@
        + rooms_frame::CONTENT_4@;
    let after = rooms_frame::CONTENT_7@ + rooms_frame::CONTENT_8@ + rooms_frame::CONTENT_9@ + rooms_frame::CONTENT_10@;
    assert(content =~= before + data + after);
    texts::lemma_stands_between(before, data, after);
    frame::pages_hold_their_content(title, "rooms"@, content, data);
}

}
