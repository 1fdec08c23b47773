//! The rooms page: which devices are in which room, and how its lights can be switched.

use serde_json::Value;
use vstd::prelude::*;

use crate::device::{DeviceModel, DeviceRecord};
use crate::json;
use crate::json::Json;
use crate::pages::device_data;
use crate::pages::layout;
use crate::pages::rooms_frame;
use crate::records::{
    DeviceDocumentation, DocModel, GoveeModel, GoveeState, LightGroup, LightGroupModel, RoomModel,
    RoomRecord,
};
use crate::text;
use crate::text_map;
use crate::text_map::TextMap;
use crate::unify::{UnifiedDevice, UnifiedModel};

verus! {

broadcast use vstd::string::group_string_axioms;

// ---------------------------------------------------------------------------------------
// Documentation and rooms
// ---------------------------------------------------------------------------------------

/// The documentation of an interface by its MAC address, as it is or in small letters, or by
/// its id.
pub open spec fn interface_doc(docs: Map<Seq<char>, DocModel>, d: DeviceModel) -> Option<DocModel> {
    let mac = d.meta_or_empty("mac"@);
    if docs.contains_key(mac) {
        Some(docs[mac])
    } else if docs.contains_key(text::lowercase(mac)) {
        Some(docs[text::lowercase(mac)])
    } else {
        text_map::lookup(docs, d.device_id)
    }
}

/// The documentation of the primary interface: first by the key under which it is kept.
pub open spec fn primary_doc(docs: Map<Seq<char>, DocModel>, d: DeviceModel) -> Option<DocModel> {
    let key = device_data::doc_key(d.meta_or_empty("mac"@), d.device_id);
    if docs.contains_key(key) {
        Some(docs[key])
    } else {
        interface_doc(docs, d)
    }
}

/// The room that a documentation names, else the one that the interface reports.
pub open spec fn named_room(doc: Option<DocModel>, d: DeviceModel) -> Option<Seq<char>> {
    match doc {
        Some(x) => if x.room is Some {
            x.room
        } else {
            d.meta("room"@)
        },
        None => d.meta("room"@),
    }
}

/// The room of the first of `others` that names one.
pub open spec fn first_room(docs: Map<Seq<char>, DocModel>, others: Seq<DeviceModel>) -> Option<Seq<char>>
    decreases others.len(),
{
    if others.len() == 0 {
        None
    } else {
        let before = first_room(docs, others.drop_last());
        if before is Some {
            before
        } else {
            named_room(interface_doc(docs, others.last()), others.last())
        }
    }
}

/// The room of a device: the one that its primary interface names, else the first one that
/// another interface names.
pub open spec fn assigned_room(docs: Map<Seq<char>, DocModel>, u: UnifiedModel) -> Option<Seq<char>> {
    let own = named_room(primary_doc(docs, u.primary), u.primary);
    if own is Some {
        own
    } else {
        first_room(docs, u.secondary_interfaces)
    }
}

/// The device is in a room.
pub open spec fn is_assigned(docs: Map<Seq<char>, DocModel>, u: UnifiedModel) -> bool {
    match assigned_room(docs, u) {
        Some(r) => text::trimmed(r).len() > 0,
        None => false,
    }
}

/// The device is in the room `name`.
pub open spec fn is_in_room(docs: Map<Seq<char>, DocModel>, u: UnifiedModel, name: Seq<char>) -> bool {
    is_assigned(docs, u) && assigned_room(docs, u) == Some(name)
}

/// How many devices are in a room.
pub open spec fn assigned_count(docs: Map<Seq<char>, DocModel>, list: Seq<UnifiedModel>) -> nat
    decreases list.len(),
{
    if list.len() == 0 {
        0
    } else {
        assigned_count(docs, list.drop_last()) + if is_assigned(docs, list.last()) {
            1nat
        } else {
            0nat
        }
    }
}

/// How many devices are in the room `name`.
pub open spec fn room_count(docs: Map<Seq<char>, DocModel>, list: Seq<UnifiedModel>, name: Seq<char>) -> nat
    decreases list.len(),
{
    if list.len() == 0 {
        0
    } else {
        room_count(docs, list.drop_last(), name) + if is_in_room(docs, list.last(), name) {
            1nat
        } else {
            0nat
        }
    }
}

fn interface_doc_of<'a>(
    docs: &'a TextMap<DeviceDocumentation>,
    d: &DeviceRecord,
) -> (r: Option<&'a DeviceDocumentation>)
    ensures
        r.deep_view() == interface_doc(docs@, d.deep_view()),
{
    let mac = d.meta_or_empty("mac");
    match docs.get(mac.as_str()) {
        Some(doc) => Some(doc),
        None => match docs.get(mac.as_str().to_lowercase().as_str()) {
            Some(doc) => Some(doc),
            None => docs.get(d.device_id.as_str()),
        },
    }
}

pub(crate) fn primary_doc_of<'a>(
    docs: &'a TextMap<DeviceDocumentation>,
    d: &DeviceRecord,
) -> (r: Option<&'a DeviceDocumentation>)
    ensures
        r.deep_view() == primary_doc(docs@, d.deep_view()),
{
    let mac = d.meta_or_empty("mac");
    let key = device_data::doc_key_of(mac.as_str(), d.device_id.as_str());
    match docs.get(key.as_str()) {
        Some(doc) => Some(doc),
        None => interface_doc_of(docs, d),
    }
}

fn reported_room(d: &DeviceRecord) -> (r: Option<String>)
    ensures
        r.deep_view() == d.deep_view().meta("room"@),
{
    match d.meta("room") {
        Some(s) => Some(s.clone()),
        None => None,
    }
}

pub(crate) fn named_room_of(doc: Option<&DeviceDocumentation>, d: &DeviceRecord) -> (r: Option<String>)
    ensures
        r.deep_view() == named_room(doc.deep_view(), d.deep_view()),
{
    match doc {
        Some(x) => match &x.room {
            Some(room) => Some(room.clone()),
            None => reported_room(d),
        },
        None => reported_room(d),
    }
}

proof fn lemma_first_room_stays(docs: Map<Seq<char>, DocModel>, others: Seq<DeviceModel>, n: int)
    requires
        0 <= n <= others.len(),
        first_room(docs, others.take(n)) is Some,
    ensures
        first_room(docs, others) == first_room(docs, others.take(n)),
    decreases others.len(),
{
    if n < others.len() {
        assert(others.drop_last().take(n) =~= others.take(n));
        lemma_first_room_stays(docs, others.drop_last(), n);
    } else {
        assert(others.take(n) =~= others);
    }
}

fn first_room_of(docs: &TextMap<DeviceDocumentation>, others: &[DeviceRecord]) -> (r: Option<String>)
    ensures
        r.deep_view() == first_room(docs@, others.deep_view()),
{
    let ghost all = others.deep_view();
    let mut i: usize = 0;
    while i < others.len()
        invariant
            i <= others@.len(),
            all == others.deep_view(),
            first_room(docs@, all.take(i as int)) is None,
        decreases others@.len() - i,
    {
        let d = &others[i];
        assert(all.take(i + 1).drop_last() =~= all.take(i as int));
        assert(all.take(i + 1).last() == d.deep_view());
        let room = named_room_of(interface_doc_of(docs, d), d);
        if room.is_some() {
            proof {
                lemma_first_room_stays(docs@, all, i + 1);
            }
            return room;
        }
        i = i + 1;
    }
    assert(all.take(i as int) =~= all);
    None
}

fn assigned_room_of(docs: &TextMap<DeviceDocumentation>, u: &UnifiedDevice) -> (r: Option<String>)
    ensures
        r.deep_view() == assigned_room(docs@, u.deep_view()),
{
    let own = named_room_of(primary_doc_of(docs, &u.primary), &u.primary);
    if own.is_some() {
        own
    } else {
        first_room_of(docs, u.secondary_interfaces.as_slice())
    }
}

fn count_assigned(docs: &TextMap<DeviceDocumentation>, list: &[UnifiedDevice]) -> (r: usize)
    ensures
        r == assigned_count(docs@, list.deep_view()),
        r <= list@.len(),
{
    let ghost all = list.deep_view();
    let mut r: usize = 0;
    let mut i: usize = 0;
    while i < list.len()
        invariant
            i <= list@.len(),
            all == list.deep_view(),
            r <= i,
            r == assigned_count(docs@, all.take(i as int)),
        decreases list@.len() - i,
    {
        assert(all.take(i + 1).drop_last() =~= all.take(i as int));
        assert(all.take(i + 1).last() == list@[i as int].deep_view());
        match assigned_room_of(docs, &list[i]) {
            Some(room) => {
                if !text::blank(text::trim(room.as_str()).as_str()) {
                    r = r + 1;
                }
            },
            None => {},
        }
        i = i + 1;
    }
    assert(all.take(i as int) =~= all);
    r
}

fn count_in_room(docs: &TextMap<DeviceDocumentation>, list: &[UnifiedDevice], name: &str) -> (r: usize)
    ensures
        r == room_count(docs@, list.deep_view(), name@),
{
    let ghost all = list.deep_view();
    let mut r: usize = 0;
    let mut i: usize = 0;
    while i < list.len()
        invariant
            i <= list@.len(),
            all == list.deep_view(),
            r <= i,
            r == room_count(docs@, all.take(i as int), name@),
        decreases list@.len() - i,
    {
        assert(all.take(i + 1).drop_last() =~= all.take(i as int));
        assert(all.take(i + 1).last() == list@[i as int].deep_view());
        match assigned_room_of(docs, &list[i]) {
            Some(room) => {
                if !text::blank(text::trim(room.as_str()).as_str()) && text::same(room.as_str(), name) {
                    r = r + 1;
                }
            },
            None => {},
        }
        i = i + 1;
    }
    assert(all.take(i as int) =~= all);
    r
}

// ---------------------------------------------------------------------------------------
// Data of the rooms
// ---------------------------------------------------------------------------------------

fn text_or(value: &Option<String>, otherwise: &str) -> (r: String)
    ensures
        r@ == text::or_text(value.deep_view(), otherwise@),
{
    match value {
        Some(x) => x.clone(),
        None => otherwise.to_owned(),
    }
}

/// A room, with the number of its devices.
pub open spec fn room_json(room: RoomModel, count: nat) -> Json {
    Json::Object(
        json::no_members().insert(
            "id"@,
            Json::Text(room.id),
        ).insert(
            "name"@,
            Json::Text(room.name),
        ).insert(
            "floor"@,
            Json::Text(text::or_text(room.floor, "Sonstige"@)),
        ).insert(
            "icon"@,
            Json::Text(text::or_text(room.icon, "📍"@)),
        ).insert(
            "archetype"@,
            Json::Text(text::or_text(room.archetype, ""@)),
        ).insert(
            "matter_tag"@,
            Json::Text(text::or_text(room.matter_tag, ""@)),
        ).insert(
            "hue_group_id"@,
            Json::Text(text::or_text(room.hue_group_id, ""@)),
        ).insert(
            "hue_class"@,
            Json::Text(text::or_text(room.hue_class, ""@)),
        ).insert(
            "device_count"@,
            Json::Unsigned(count as u64),
        ),
    )
}

fn room_value(room: &RoomRecord, count: usize) -> (r: Value)
    ensures
        json::json_of(r) == room_json(room.deep_view(), count as nat),
{
    let mut o = json::new_members();
    json::put(&mut o, "id", json::string(room.id.as_str()));
    json::put(&mut o, "name", json::string(room.name.as_str()));
    json::put(&mut o, "floor", json::string(text_or(&room.floor, "Sonstige").as_str()));
    json::put(&mut o, "icon", json::string(text_or(&room.icon, "📍").as_str()));
    json::put(&mut o, "archetype", json::string(text_or(&room.archetype, "").as_str()));
    json::put(&mut o, "matter_tag", json::string(text_or(&room.matter_tag, "").as_str()));
    json::put(&mut o, "hue_group_id", json::string(text_or(&room.hue_group_id, "").as_str()));
    json::put(&mut o, "hue_class", json::string(text_or(&room.hue_class, "").as_str()));
    json::put(&mut o, "device_count", json::unsigned(count as u64));
    json::object(o)
}

/// The rooms, each with the number of its devices.
pub open spec fn rooms_json(rooms: Seq<RoomModel>, docs: Map<Seq<char>, DocModel>, list: Seq<UnifiedModel>) -> Json {
    Json::List(Seq::new(rooms.len(), |i: int| room_json(rooms[i], room_count(docs, list, rooms[i].name))))
}

fn rooms_value(rooms: &[RoomRecord], docs: &TextMap<DeviceDocumentation>, list: &[UnifiedDevice]) -> (r: Value)
    ensures
        json::json_of(r) == rooms_json(rooms.deep_view(), docs@, list.deep_view()),
{
    let ghost all = rooms.deep_view();
    let ghost expected = rooms_json(all, docs@, list.deep_view())->List_0;
    let mut values: Vec<Value> = Vec::new();
    let mut i: usize = 0;
    while i < rooms.len()
        invariant
            i <= rooms@.len(),
            all == rooms.deep_view(),
            expected == rooms_json(all, docs@, list.deep_view())->List_0,
            values@.len() == i,
            forall|k: int| 0 <= k < i ==> json::json_of(#[trigger] values@[k]) == expected[k],
        decreases rooms@.len() - i,
    {
        assert(all[i as int] == rooms@[i as int].deep_view());
        let n: usize = count_in_room(docs, list, rooms[i].name.as_str());
        values.push(room_value(&rooms[i], n));
        i = i + 1;
    }
    assert(json::jsons(values@) =~= expected);
    json::array(values)
}

// ---------------------------------------------------------------------------------------
// Data of the devices
// ---------------------------------------------------------------------------------------

/// The documentation of the first of `others` that has one.
pub open spec fn first_doc(docs: Map<Seq<char>, DocModel>, others: Seq<DeviceModel>) -> Option<DocModel>
    decreases others.len(),
{
    if others.len() == 0 {
        None
    } else {
        let before = first_doc(docs, others.drop_last());
        if before is Some {
            before
        } else {
            interface_doc(docs, others.last())
        }
    }
}

/// The documentation of a device: that of its primary interface, else the first one that
/// another interface has.
pub open spec fn any_doc(docs: Map<Seq<char>, DocModel>, u: UnifiedModel) -> Option<DocModel> {
    let own = primary_doc(docs, u.primary);
    if own is Some {
        own
    } else {
        first_doc(docs, u.secondary_interfaces)
    }
}

proof fn lemma_first_doc_stays(docs: Map<Seq<char>, DocModel>, others: Seq<DeviceModel>, n: int)
    requires
        0 <= n <= others.len(),
        first_doc(docs, others.take(n)) is Some,
    ensures
        first_doc(docs, others) == first_doc(docs, others.take(n)),
    decreases others.len(),
{
    if n < others.len() {
        assert(others.drop_last().take(n) =~= others.take(n));
        lemma_first_doc_stays(docs, others.drop_last(), n);
    } else {
        assert(others.take(n) =~= others);
    }
}

fn any_doc_of<'a>(docs: &'a TextMap<DeviceDocumentation>, u: &UnifiedDevice) -> (r: Option<&'a DeviceDocumentation>)
    ensures
        r.deep_view() == any_doc(docs@, u.deep_view()),
{
    let own = primary_doc_of(docs, &u.primary);
    if own.is_some() {
        return own;
    }
    let ghost all = u.deep_view().secondary_interfaces;
    let mut i: usize = 0;
    while i < u.secondary_interfaces.len()
        invariant
            i <= u.secondary_interfaces@.len(),
            all == u.deep_view().secondary_interfaces,
            primary_doc(docs@, u.deep_view().primary) is None,
            first_doc(docs@, all.take(i as int)) is None,
        decreases u.secondary_interfaces@.len() - i,
    {
        let d = &u.secondary_interfaces[i];
        assert(all.take(i + 1).drop_last() =~= all.take(i as int));
        assert(all.take(i + 1).last() == d.deep_view());
        let doc = interface_doc_of(docs, d);
        if doc.is_some() {
            proof {
                lemma_first_doc_stays(docs@, all, i + 1);
            }
            return doc;
        }
        i = i + 1;
    }
    assert(all.take(i as int) =~= all);
    None
}

/// An address that can be used: not empty, no hyphen, no remark in brackets.
pub open spec fn is_usable(ip: Seq<char>) -> bool {
    ip.len() > 0 && ip != "-"@ && !ip.contains('(')
}

/// The first usable address of `others`.
pub open spec fn first_ip(others: Seq<DeviceModel>) -> Option<Seq<char>>
    decreases others.len(),
{
    if others.len() == 0 {
        None
    } else {
        let before = first_ip(others.drop_last());
        if before is Some {
            before
        } else {
            match others.last().meta("ip"@) {
                Some(ip) => if is_usable(ip) {
                    Some(ip)
                } else {
                    None
                },
                None => None,
            }
        }
    }
}

/// The address of a device: that of its primary interface, else the first usable one of the
/// others, as far as there is one.
pub open spec fn device_ip(u: UnifiedModel) -> Seq<char> {
    let own = u.primary.meta_or_empty("ip"@);
    if own.len() > 0 && own != "-"@ {
        own
    } else {
        text::or_text(first_ip(u.secondary_interfaces), own)
    }
}

pub(crate) fn is_usable_ip(ip: &str) -> (r: bool)
    ensures
        r == is_usable(ip@),
{
    !text::blank(ip) && !text::same(ip, "-") && !text::holds(ip, '(')
}

proof fn lemma_first_ip_stays(others: Seq<DeviceModel>, n: int)
    requires
        0 <= n <= others.len(),
        first_ip(others.take(n)) is Some,
    ensures
        first_ip(others) == first_ip(others.take(n)),
    decreases others.len(),
{
    if n < others.len() {
        assert(others.drop_last().take(n) =~= others.take(n));
        lemma_first_ip_stays(others.drop_last(), n);
    } else {
        assert(others.take(n) =~= others);
    }
}

fn device_ip_of(u: &UnifiedDevice) -> (r: String)
    ensures
        r@ == device_ip(u.deep_view()),
{
    let own = u.primary.meta_or_empty("ip");
    if !text::blank(own.as_str()) && !text::same(own.as_str(), "-") {
        return own;
    }
    let ghost all = u.deep_view().secondary_interfaces;
    let mut i: usize = 0;
    while i < u.secondary_interfaces.len()
        invariant
            i <= u.secondary_interfaces@.len(),
            all == u.deep_view().secondary_interfaces,
            own@ == u.deep_view().primary.meta_or_empty("ip"@),
            !(own@.len() > 0 && own@ != "-"@),
            first_ip(all.take(i as int)) is None,
        decreases u.secondary_interfaces@.len() - i,
    {
        let d = &u.secondary_interfaces[i];
        assert(all.take(i + 1).drop_last() =~= all.take(i as int));
        assert(all.take(i + 1).last() == d.deep_view());
        match d.meta("ip") {
            Some(ip) => {
                if is_usable_ip(ip.as_str()) {
                    proof {
                        lemma_first_ip_stays(all, i + 1);
                    }
                    return ip.clone();
                }
            },
            None => {},
        }
        i = i + 1;
    }
    assert(all.take(i as int) =~= all);
    own
}

/// The reported value under `key` holds `word`, whatever the case of its letters.
pub open spec fn meta_mentions(d: DeviceModel, key: Seq<char>, word: Seq<char>) -> bool {
    match d.meta(key) {
        Some(s) => text::has(text::lowercase(s), word),
        None => false,
    }
}

pub(crate) fn meta_mentions_word(d: &DeviceRecord, key: &str, word: &str) -> (r: bool)
    ensures
        r == meta_mentions(d.deep_view(), key@, word@),
{
    match d.meta(key) {
        Some(s) => text::contains(s.as_str().to_lowercase().as_str(), word),
        None => false,
    }
}

/// The interface is that of a Govee device.
pub open spec fn is_govee_interface(d: DeviceModel) -> bool {
    meta_mentions(d, "vendor"@, "govee"@) || text::has(text::lowercase(d.display_name), "govee"@) || meta_mentions(
        d,
        "hostname"@,
        "govee"@,
    )
}

pub(crate) fn is_govee_interface_of(d: &DeviceRecord) -> (r: bool)
    ensures
        r == is_govee_interface(d.deep_view()),
{
    meta_mentions_word(d, "vendor", "govee") || text::contains(d.display_name.as_str().to_lowercase().as_str(), "govee")
        || meta_mentions_word(d, "hostname", "govee")
}

/// One of the interfaces is that of a Govee device.
pub open spec fn looks_like_govee(u: UnifiedModel) -> bool {
    is_govee_interface(u.primary) || exists|i: int|
        0 <= i < u.secondary_interfaces.len() && is_govee_interface(#[trigger] u.secondary_interfaces[i])
}

fn looks_like_govee_device(u: &UnifiedDevice) -> (r: bool)
    ensures
        r == looks_like_govee(u.deep_view()),
{
    if is_govee_interface_of(&u.primary) {
        return true;
    }
    let ghost all = u.deep_view().secondary_interfaces;
    let mut i: usize = 0;
    while i < u.secondary_interfaces.len()
        invariant
            i <= u.secondary_interfaces@.len(),
            all == u.deep_view().secondary_interfaces,
            forall|k: int| 0 <= k < i ==> !is_govee_interface(#[trigger] all[k]),
        decreases u.secondary_interfaces@.len() - i,
    {
        assert(all[i as int] == u.secondary_interfaces@[i as int].deep_view());
        if is_govee_interface_of(&u.secondary_interfaces[i]) {
            return true;
        }
        i = i + 1;
    }
    false
}

/// The device is a light of the Hue bridge.
pub open spec fn is_hue_light(d: DeviceModel) -> bool {
    d.module_id == "philips-hue"@ || d.meta("source"@) == Some("philips-hue"@) || d.meta("protocol"@) == Some("zigbee"@)
}

fn is_hue_light_of(d: &DeviceRecord) -> (r: bool)
    ensures
        r == is_hue_light(d.deep_view()),
{
    text::same(d.module_id.as_str(), "philips-hue") || d.meta_is("source", "philips-hue") || d.meta_is("protocol", "zigbee")
}

/// The light is on; so it is taken to be where it does not tell.
pub open spec fn hue_is_on(d: DeviceModel) -> bool {
    d.meta("hue_on"@) is None || d.meta("hue_on"@) == Some("true"@)
}

/// The brightness that a Hue light reports; 254 where it reports no number.
pub open spec fn hue_brightness(d: DeviceModel) -> u64 {
    match d.meta("hue_bri"@) {
        Some(s) => match text::parsed_unsigned(s, u64::MAX as nat) {
            Some(n) => n as u64,
            None => 254,
        },
        None => 254,
    }
}

fn hue_brightness_of(d: &DeviceRecord) -> (r: u64)
    ensures
        r == hue_brightness(d.deep_view()),
{
    match d.meta("hue_bri") {
        Some(s) => match text::parse_unsigned(s.as_str(), u64::MAX) {
            Some(n) => n,
            None => 254,
        },
        None => 254,
    }
}

/// The name or the host name tells that the device is a Shelly.
pub open spec fn is_shelly(d: DeviceModel) -> bool {
    text::has(text::lowercase(d.display_name), "shelly"@) || meta_mentions(d, "hostname"@, "shelly"@)
}

fn is_shelly_device(d: &DeviceRecord) -> (r: bool)
    ensures
        r == is_shelly(d.deep_view()),
{
    text::contains(d.display_name.as_str().to_lowercase().as_str(), "shelly") || meta_mentions_word(d, "hostname", "shelly")
}

/// The state of the first of `others` that is a known Govee light.
pub open spec fn first_state(states: Map<Seq<char>, GoveeModel>, others: Seq<DeviceModel>) -> Option<GoveeModel>
    decreases others.len(),
{
    if others.len() == 0 {
        None
    } else {
        let before = first_state(states, others.drop_last());
        if before is Some {
            before
        } else {
            match others.last().meta("ip"@) {
                Some(ip) => text_map::lookup(states, ip),
                None => None,
            }
        }
    }
}

/// The state that a Govee light reported: by the address of the device, or by those of its
/// other interfaces where it has none.
pub open spec fn govee_state(states: Map<Seq<char>, GoveeModel>, u: UnifiedModel) -> Option<GoveeModel> {
    if device_ip(u).len() > 0 {
        text_map::lookup(states, device_ip(u))
    } else {
        first_state(states, u.secondary_interfaces)
    }
}

proof fn lemma_first_state_stays(states: Map<Seq<char>, GoveeModel>, others: Seq<DeviceModel>, n: int)
    requires
        0 <= n <= others.len(),
        first_state(states, others.take(n)) is Some,
    ensures
        first_state(states, others) == first_state(states, others.take(n)),
    decreases others.len(),
{
    if n < others.len() {
        assert(others.drop_last().take(n) =~= others.take(n));
        lemma_first_state_stays(states, others.drop_last(), n);
    } else {
        assert(others.take(n) =~= others);
    }
}

fn govee_state_of<'a>(states: &'a TextMap<GoveeState>, u: &UnifiedDevice) -> (r: Option<&'a GoveeState>)
    ensures
        r.deep_view() == govee_state(states@, u.deep_view()),
{
    let ip = device_ip_of(u);
    if !text::blank(ip.as_str()) {
        return states.get(ip.as_str());
    }
    let ghost all = u.deep_view().secondary_interfaces;
    let mut i: usize = 0;
    while i < u.secondary_interfaces.len()
        invariant
            i <= u.secondary_interfaces@.len(),
            all == u.deep_view().secondary_interfaces,
            device_ip(u.deep_view()).len() == 0,
            first_state(states@, all.take(i as int)) is None,
        decreases u.secondary_interfaces@.len() - i,
    {
        let d = &u.secondary_interfaces[i];
        assert(all.take(i + 1).drop_last() =~= all.take(i as int));
        assert(all.take(i + 1).last() == d.deep_view());
        match d.meta("ip") {
            Some(ip) => {
                let state = states.get(ip.as_str());
                if state.is_some() {
                    proof {
                        lemma_first_state_stays(states@, all, i + 1);
                    }
                    return state;
                }
            },
            None => {},
        }
        i = i + 1;
    }
    assert(all.take(i as int) =~= all);
    None
}

/// The name that is written down; empty where there is none.
pub open spec fn written_name(doc: Option<DocModel>) -> Seq<char> {
    match doc {
        Some(x) => text::or_empty(x.name),
        None => Seq::empty(),
    }
}

fn written_name_of(doc: Option<&DeviceDocumentation>) -> (r: String)
    ensures
        r@ == written_name(doc.deep_view()),
{
    match doc {
        Some(x) => device_data::text_or_empty(&x.name),
        None => text::empty(),
    }
}

/// The address that the script gets: where the device has none, that of its light.
pub open spec fn script_ip(states: Map<Seq<char>, GoveeModel>, u: UnifiedModel) -> Seq<char> {
    match govee_state(states, u) {
        Some(state) => if device_ip(u).len() == 0 {
            state.ip
        } else {
            device_ip(u)
        },
        None => device_ip(u),
    }
}

fn script_ip_of(states: &TextMap<GoveeState>, u: &UnifiedDevice) -> (r: String)
    ensures
        r@ == script_ip(states@, u.deep_view()),
{
    let ip = device_ip_of(u);
    match govee_state_of(states, u) {
        Some(state) => if text::blank(ip.as_str()) {
            state.ip.clone()
        } else {
            ip
        },
        None => ip,
    }
}

/// A color as a list of its three parts.
pub open spec fn color_json(color: (u8, u8, u8)) -> Json {
    Json::List(seq![Json::Unsigned(color.0 as u64), Json::Unsigned(color.1 as u64), Json::Unsigned(color.2 as u64)])
}

fn color_value(color: (u8, u8, u8)) -> (r: Value)
    ensures
        json::json_of(r) == color_json(color),
{
    let mut values: Vec<Value> = Vec::new();
    values.push(json::unsigned(color.0 as u64));
    values.push(json::unsigned(color.1 as u64));
    values.push(json::unsigned(color.2 as u64));
    assert(json::jsons(values@) =~= color_json(color)->List_0);
    json::array(values)
}

/// What the script gets of a Govee light: off, bright and white where its state is not known.
pub open spec fn light_state(state: Option<GoveeModel>) -> GoveeModel {
    match state {
        Some(s) => s,
        None => GoveeModel {
            ip: Seq::empty(),
            on_off: false,
            brightness: 100,
            color: (255u8, 255u8, 255u8),
            color_tem_kelvin: 0,
            sku: Seq::empty(),
        },
    }
}

fn light_state_of(state: Option<&GoveeState>) -> (r: GoveeState)
    ensures
        r.deep_view() == light_state(state.deep_view()),
{
    match state {
        Some(s) => GoveeState {
            ip: s.ip.clone(),
            on_off: s.on_off,
            brightness: s.brightness,
            color: s.color,
            color_tem_kelvin: s.color_tem_kelvin,
            sku: s.sku.clone(),
        },
        None => GoveeState {
            ip: text::empty(),
            on_off: false,
            brightness: 100,
            color: (255u8, 255u8, 255u8),
            color_tem_kelvin: 0,
            sku: text::empty(),
        },
    }
}

/// All that the script gets of a device.
pub open spec fn room_device_json(
    u: UnifiedModel,
    docs: Map<Seq<char>, DocModel>,
    states: Map<Seq<char>, GoveeModel>,
) -> Json {
    let d = u.primary;
    let doc = any_doc(docs, u);
    let state = govee_state(states, u);
    let light = light_state(state);
    Json::Object(
        json::no_members().insert(
            "device_id"@,
            Json::Text(d.device_id),
        ).insert(
            "display_name"@,
            Json::Text(d.display_name),
        ).insert(
            "custom_name"@,
            Json::Text(written_name(doc)),
        ).insert(
            "effective_name"@,
            Json::Text(if written_name(doc).len() > 0 { written_name(doc) } else { d.display_name }),
        ).insert(
            "kind"@,
            Json::Text(d.kind),
        ).insert(
            "category"@,
            Json::Text(text::or_text(d.meta("category"@), d.kind)),
        ).insert(
            "category_icon"@,
            Json::Text(text::or_text(d.meta("category_icon"@), "📱"@)),
        ).insert(
            "ip"@,
            Json::Text(script_ip(states, u)),
        ).insert(
            "mac"@,
            Json::Text(d.meta_or_empty("mac"@)),
        ).insert(
            "room"@,
            Json::Text(text::or_text(named_room(doc, d), ""@)),
        ).insert(
            "is_active"@,
            Json::Bool(device_data::status_of(d) == "active"@),
        ).insert(
            "is_govee"@,
            Json::Bool(looks_like_govee(u) || state is Some),
        ).insert(
            "is_hue"@,
            Json::Bool(is_hue_light(d)),
        ).insert(
            "hue_id"@,
            Json::Text(d.meta_or_empty("hue_light_id"@)),
        ).insert(
            "hue_on"@,
            Json::Bool(hue_is_on(d)),
        ).insert(
            "hue_bri"@,
            Json::Unsigned(hue_brightness(d)),
        ).insert(
            "is_shelly"@,
            Json::Bool(is_shelly(d)),
        ).insert(
            "govee_on"@,
            Json::Bool(light.on_off),
        ).insert(
            "govee_brightness"@,
            Json::Unsigned(light.brightness),
        ).insert(
            "govee_color"@,
            color_json(light.color),
        ).insert(
            "govee_kelvin"@,
            Json::Unsigned(light.color_tem_kelvin),
        ).insert(
            "govee_sku"@,
            Json::Text(light.sku),
        ).insert(
            "web_url"@,
            json::optional_text(d.meta("web_url"@)),
        ).insert(
            "metadata"@,
            json::text_object(d.metadata),
        ),
    )
}

fn room_device_value(u: &UnifiedDevice, docs: &TextMap<DeviceDocumentation>, states: &TextMap<GoveeState>) -> (r: Value)
    ensures
        json::json_of(r) == room_device_json(u.deep_view(), docs@, states@),
{
    let d = &u.primary;
    let doc = any_doc_of(docs, u);
    let state = govee_state_of(states, u);
    let light = light_state_of(state);
    let ip = script_ip_of(states, u);
    let written = written_name_of(doc);
    let name = if text::blank(written.as_str()) {
        d.display_name.clone()
    } else {
        written.clone()
    };
    let room = text_or(&named_room_of(doc, d), "");
    let web_url = match d.meta("web_url") {
        Some(url) => Some(url.clone()),
        None => None,
    };
    let active = text::same(device_data::device_status(d).as_str(), "active");
    let on = d.meta("hue_on").is_none() || d.meta_is("hue_on", "true");
    let mut o = json::new_members();
    json::put(&mut o, "device_id", json::string(d.device_id.as_str()));
    json::put(&mut o, "display_name", json::string(d.display_name.as_str()));
    json::put(&mut o, "custom_name", json::string(written.as_str()));
    json::put(&mut o, "effective_name", json::string(name.as_str()));
    json::put(&mut o, "kind", json::string(d.kind.as_str()));
    json::put(&mut o, "category", json::string(device_data::meta_or(d, "category", d.kind.as_str()).as_str()));
    json::put(&mut o, "category_icon", json::string(device_data::meta_or(d, "category_icon", "📱").as_str()));
    json::put(&mut o, "ip", json::string(ip.as_str()));
    json::put(&mut o, "mac", json::string(d.meta_or_empty("mac").as_str()));
    json::put(&mut o, "room", json::string(room.as_str()));
    json::put(&mut o, "is_active", json::boolean(active));
    json::put(&mut o, "is_govee", json::boolean(looks_like_govee_device(u) || state.is_some()));
    json::put(&mut o, "is_hue", json::boolean(is_hue_light_of(d)));
    json::put(&mut o, "hue_id", json::string(d.meta_or_empty("hue_light_id").as_str()));
    json::put(&mut o, "hue_on", json::boolean(on));
    json::put(&mut o, "hue_bri", json::unsigned(hue_brightness_of(d)));
    json::put(&mut o, "is_shelly", json::boolean(is_shelly_device(d)));
    json::put(&mut o, "govee_on", json::boolean(light.on_off));
    json::put(&mut o, "govee_brightness", json::unsigned(light.brightness));
    json::put(&mut o, "govee_color", color_value(light.color));
    json::put(&mut o, "govee_kelvin", json::unsigned(light.color_tem_kelvin));
    json::put(&mut o, "govee_sku", json::string(light.sku.as_str()));
    json::put(&mut o, "web_url", json::optional_string(&web_url));
    json::put(&mut o, "metadata", json::string_map(&d.metadata));
    json::object(o)
}

/// What the script gets of the devices.
pub open spec fn room_devices_json(
    items: Seq<UnifiedModel>,
    docs: Map<Seq<char>, DocModel>,
    states: Map<Seq<char>, GoveeModel>,
) -> Json {
    Json::List(Seq::new(items.len(), |i: int| room_device_json(items[i], docs, states)))
}

fn room_devices_value(
    items: &[UnifiedDevice],
    docs: &TextMap<DeviceDocumentation>,
    states: &TextMap<GoveeState>,
) -> (r: Value)
    ensures
        json::json_of(r) == room_devices_json(items.deep_view(), docs@, states@),
{
    let ghost all = items.deep_view();
    let mut values: Vec<Value> = Vec::new();
    let mut i: usize = 0;
    while i < items.len()
        invariant
            i <= items@.len(),
            all == items.deep_view(),
            values@.len() == i,
            forall|k: int| 0 <= k < i ==> json::json_of(#[trigger] values@[k]) == room_device_json(all[k], docs@, states@),
        decreases items@.len() - i,
    {
        values.push(room_device_value(&items[i], docs, states));
        i = i + 1;
    }
    assert(json::jsons(values@) =~= room_devices_json(all, docs@, states@)->List_0);
    json::array(values)
}

/// A group of lights.
pub open spec fn light_group_json(g: LightGroupModel) -> Json {
    Json::Object(
        json::no_members().insert(
            "id"@,
            Json::Text(g.id),
        ).insert(
            "name"@,
            Json::Text(g.name),
        ).insert(
            "room"@,
            Json::Text(g.room),
        ).insert(
            "device_ids"@,
            json::text_list(g.device_ids),
        ).insert(
            "icon"@,
            Json::Text(text::or_text(g.icon, "💡"@)),
        ).insert(
            "created_at"@,
            Json::Text(g.created_at),
        ).insert(
            "updated_at"@,
            Json::Text(g.updated_at),
        ),
    )
}

fn light_group_value(g: &LightGroup) -> (r: Value)
    ensures
        json::json_of(r) == light_group_json(g.deep_view()),
{
    let mut o = json::new_members();
    json::put(&mut o, "id", json::string(g.id.as_str()));
    json::put(&mut o, "name", json::string(g.name.as_str()));
    json::put(&mut o, "room", json::string(g.room.as_str()));
    json::put(&mut o, "device_ids", json::strings(&g.device_ids));
    json::put(&mut o, "icon", json::string(text_or(&g.icon, "💡").as_str()));
    json::put(&mut o, "created_at", json::string(g.created_at.as_str()));
    json::put(&mut o, "updated_at", json::string(g.updated_at.as_str()));
    json::object(o)
}

/// The groups of lights.
pub open spec fn light_groups_json(items: Seq<LightGroupModel>) -> Json {
    Json::List(Seq::new(items.len(), |i: int| light_group_json(items[i])))
}

fn light_groups_value(items: &[LightGroup]) -> (r: Value)
    ensures
        json::json_of(r) == light_groups_json(items.deep_view()),
{
    let ghost all = items.deep_view();
    let mut values: Vec<Value> = Vec::new();
    let mut i: usize = 0;
    while i < items.len()
        invariant
            i <= items@.len(),
            all == items.deep_view(),
            values@.len() == i,
            forall|k: int| 0 <= k < i ==> json::json_of(#[trigger] values@[k]) == light_group_json(all[k]),
        decreases items@.len() - i,
    {
        values.push(light_group_value(&items[i]));
        i = i + 1;
    }
    assert(json::jsons(values@) =~= light_groups_json(all)->List_0);
    json::array(values)
}

// ---------------------------------------------------------------------------------------
// The page
// ---------------------------------------------------------------------------------------

/// The content of the rooms page.
pub open spec fn rooms_content(
    rooms: Seq<RoomModel>,
    list: Seq<UnifiedModel>,
    docs: Map<Seq<char>, DocModel>,
    states: Map<Seq<char>, GoveeModel>,
    groups: Seq<LightGroupModel>,
) -> Seq<char> {
    let assigned = assigned_count(docs, list);
    rooms_frame::content_html(
        text::decimal((list.len() - assigned) as nat),
        text::decimal(assigned),
        text::decimal(rooms.len()),
        text::or_text(json::compact_text(rooms_json(rooms, docs, list)), "[]"@),
        text::or_text(json::compact_text(room_devices_json(list, docs, states)), "[]"@),
        text::or_text(json::compact_text(light_groups_json(groups)), "[]"@),
    )
}

/// The rooms page.
pub fn render_rooms_page(
    title: &str,
    rooms: &[RoomRecord],
    unified_devices: &[UnifiedDevice],
    docs: &TextMap<DeviceDocumentation>,
    govee_states: &TextMap<GoveeState>,
    light_groups: &[LightGroup],
) -> (r: String)
    ensures
        r@ == layout::page(
            title@,
            "rooms"@,
            rooms_content(
                rooms.deep_view(),
                unified_devices.deep_view(),
                docs@,
                govee_states@,
                light_groups.deep_view(),
            ),
        ),
{
    let assigned: usize = count_assigned(docs, unified_devices);
    let room_data = json::text_or(&rooms_value(rooms, docs, unified_devices), "[]");
    let device_data = json::text_or(&room_devices_value(unified_devices, docs, govee_states), "[]");
    let group_data = json::text_or(&light_groups_value(light_groups), "[]");
    let content = rooms_frame::content(
        text::count(unified_devices.len() - assigned).as_str(),
        text::count(assigned).as_str(),
        text::count(rooms.len()).as_str(),
        room_data.as_str(),
        device_data.as_str(),
        group_data.as_str(),
    );
    layout::page_layout(title, "rooms", content.as_str())
}

/// No device is counted in two rooms, nor in a room without being counted as assigned.
pub proof fn rooms_do_not_share_devices(
    docs: Map<Seq<char>, DocModel>,
    list: Seq<UnifiedModel>,
    one: Seq<char>,
    other: Seq<char>,
)
    requires
        one != other,
    ensures
        room_count(docs, list, one) + room_count(docs, list, other) <= assigned_count(docs, list) <= list.len(),
    decreases list.len(),
{
    if list.len() > 0 {
        rooms_do_not_share_devices(docs, list.drop_last(), one, other);
    }
}

}
