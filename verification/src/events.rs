//! Events of Bluetooth devices, with the name and the room of the gateway that heard them.

use serde_json::Value;
use vstd::prelude::*;

use crate::device::{DeviceModel, DeviceRecord};
use crate::json;
use crate::json::Json;
use crate::records::{DeviceDocumentation, DocModel};
use crate::text;
use crate::text_map;
use crate::text_map::TextMap;

verus! {

broadcast use vstd::string::group_string_axioms;

/// An id without separators, in small letters.
pub open spec fn bare_id(id: Seq<char>) -> Seq<char> {
    text::lowercase(text::without(id, seq!['-', '_', ':']))
}

/// The event names the address of the device, by itself or within the gateway's description.
pub open spec fn names_ip(event: Json, d: DeviceModel) -> bool {
    let ip = d.meta_or_empty("ip"@);
    let described = text::or_empty(event.member_text("gateway"@));
    event.member_text("gateway_ip"@) == Some(ip) || (described.len() > 0 && text::bytes(ip) > 6 && text::has(described, ip))
}

/// The id of the gateway and the MAC address or the id of the device overlap.
pub open spec fn names_id(event: Json, d: DeviceModel) -> bool {
    match event.member_text("gateway_id"@) {
        Some(id) => {
            let bare = bare_id(id);
            let mac = bare_id(d.meta_or_empty("mac"@));
            bare.len() > 0 && (text::has(bare, mac) || text::has(mac, bare) || text::has(
                text::lowercase(d.device_id),
                bare,
            ))
        },
        None => false,
    }
}

/// The first device that an event names as its gateway.
pub open spec fn gateway_of(event: Json, devices: Seq<DeviceModel>) -> Option<DeviceModel>
    decreases devices.len(),
{
    if devices.len() == 0 {
        None
    } else {
        let before = gateway_of(event, devices.drop_last());
        if before is Some {
            before
        } else if names_ip(event, devices.last()) || names_id(event, devices.last()) {
            Some(devices.last())
        } else {
            None
        }
    }
}

/// The documentation of a gateway, by its id or by its MAC address.
pub open spec fn gateway_doc(docs: Map<Seq<char>, DocModel>, d: DeviceModel) -> Option<DocModel> {
    if docs.contains_key(d.device_id) {
        Some(docs[d.device_id])
    } else {
        text_map::lookup(docs, d.meta_or_empty("mac"@))
    }
}

/// The name of a gateway: the one written down, else its own, else its host name.
pub open spec fn gateway_name(docs: Map<Seq<char>, DocModel>, d: DeviceModel) -> Option<Seq<char>> {
    let host = d.meta_or_empty("hostname"@);
    let written = match gateway_doc(docs, d) {
        Some(doc) => doc.name,
        None => None,
    };
    if written is Some {
        written
    } else if d.display_name.len() > 0 {
        Some(d.display_name)
    } else if host.len() > 0 {
        Some(host)
    } else {
        None
    }
}

/// The room that the words in a name tell.
pub open spec fn room_in_words(words: Seq<char>) -> Option<Seq<char>> {
    if text::has(words, "wohnzimmer"@) || text::has(words, "living"@) {
        Some("Wohnzimmer"@)
    } else if text::has(words, "büro"@) || text::has(words, "buero"@) || text::has(words, "office"@) {
        Some("Büro"@)
    } else if text::has(words, "küche"@) || text::has(words, "kueche"@) || text::has(words, "kitchen"@) {
        Some("Küche"@)
    } else if text::has(words, "schlafzimmer"@) || text::has(words, "bedroom"@) {
        Some("Schlafzimmer"@)
    } else if text::has(words, "balkon"@) || text::has(words, "balcony"@) {
        Some("Balkon"@)
    } else if text::has(words, "flur"@) || text::has(words, "hall"@) {
        Some("Flur"@)
    } else if text::has(words, "keller"@) || text::has(words, "basement"@) {
        Some("Keller"@)
    } else if text::has(words, "garage"@) {
        Some("Garage"@)
    } else {
        None
    }
}

/// The room of a gateway: the one written down, else the one that its names tell.
pub open spec fn gateway_room(docs: Map<Seq<char>, DocModel>, d: DeviceModel) -> Option<Seq<char>> {
    let written = match gateway_doc(docs, d) {
        Some(doc) => doc.room,
        None => None,
    };
    if written is Some {
        written
    } else {
        room_in_words(text::lowercase(d.display_name + " "@ + d.meta_or_empty("hostname"@)))
    }
}

/// The room that is written down for the device that sent the event.
pub open spec fn sender_room(docs: Map<Seq<char>, DocModel>, event: Json) -> Option<Seq<char>> {
    match text_map::lookup(docs, text::or_empty(event.member_text("mac"@))) {
        Some(doc) => doc.room,
        None => None,
    }
}

/// The name of the gateway of an event.
pub open spec fn event_gateway_name(event: Json, devices: Seq<DeviceModel>, docs: Map<Seq<char>, DocModel>) -> Option<
    Seq<char>,
> {
    match gateway_of(event, devices) {
        Some(d) => gateway_name(docs, d),
        None => None,
    }
}

/// The room of an event: that of its gateway, else that of the sender.
pub open spec fn event_room(
    event: Json,
    devices: Seq<DeviceModel>,
    docs: Map<Seq<char>, DocModel>,
) -> Option<Seq<char>> {
    let heard = match gateway_of(event, devices) {
        Some(d) => gateway_room(docs, d),
        None => None,
    };
    if heard is Some {
        heard
    } else {
        sender_room(docs, event)
    }
}

/// `m` with the text `value` under `key`, where there is one.
pub open spec fn with_text(m: Map<Seq<char>, Json>, key: Seq<char>, value: Option<Seq<char>>) -> Map<Seq<char>, Json> {
    match value {
        Some(s) => m.insert(key, Json::Text(s)),
        None => m,
    }
}

/// An event with the name and the room of its gateway. What is no object stays as it is.
pub open spec fn enriched(event: Json, devices: Seq<DeviceModel>, docs: Map<Seq<char>, DocModel>) -> Json {
    match event {
        Json::Object(m) => Json::Object(
            with_text(
                with_text(m, "gateway_name"@, event_gateway_name(event, devices, docs)),
                "room"@,
                event_room(event, devices, docs),
            ),
        ),
        _ => event,
    }
}

/// The events with the names and the rooms of their gateways.
pub open spec fn enriched_list(
    events: Seq<Json>,
    devices: Seq<DeviceModel>,
    docs: Map<Seq<char>, DocModel>,
) -> Seq<Json> {
    Seq::new(events.len(), |i: int| enriched(events[i], devices, docs))
}

/// The text that is passed on for the text `raw`, which stays as it is where it is no list.
pub open spec fn enriched_text(raw: Seq<char>, devices: Seq<DeviceModel>, docs: Map<Seq<char>, DocModel>) -> Seq<char> {
    match json::parsed(raw) {
        Some(Json::List(events)) => text::or_text(
            json::compact_text(Json::List(enriched_list(events, devices, docs))),
            raw,
        ),
        _ => raw,
    }
}

fn bare_id_of(id: &str) -> (r: String)
    ensures
        r@ == bare_id(id@),
{
    text::strip(id, &['-', '_', ':']).as_str().to_lowercase()
}

fn names_ip_of(event: &Value, d: &DeviceRecord) -> (r: bool)
    ensures
        r == names_ip(json::json_of(*event), d.deep_view()),
{
    let ip = d.meta_or_empty("ip");
    match json::get_text(event, "gateway_ip") {
        Some(s) => {
            if text::same(s.as_str(), ip.as_str()) {
                return true;
            }
        },
        None => {},
    }
    match json::get_text(event, "gateway") {
        Some(described) => !text::blank(described.as_str()) && text::byte_len(ip.as_str()) > 6 && text::contains(
            described.as_str(),
            ip.as_str(),
        ),
        None => false,
    }
}

fn names_id_of(event: &Value, d: &DeviceRecord) -> (r: bool)
    ensures
        r == names_id(json::json_of(*event), d.deep_view()),
{
    match json::get_text(event, "gateway_id") {
        Some(id) => {
            let bare = bare_id_of(id.as_str());
            let mac = bare_id_of(d.meta_or_empty("mac").as_str());
            !text::blank(bare.as_str()) && (text::contains(bare.as_str(), mac.as_str()) || text::contains(
                mac.as_str(),
                bare.as_str(),
            ) || text::contains(d.device_id.as_str().to_lowercase().as_str(), bare.as_str()))
        },
        None => false,
    }
}

proof fn lemma_gateway_stays(event: Json, devices: Seq<DeviceModel>, n: int)
    requires
        0 <= n <= devices.len(),
        gateway_of(event, devices.take(n)) is Some,
    ensures
        gateway_of(event, devices) == gateway_of(event, devices.take(n)),
    decreases devices.len(),
{
    if n < devices.len() {
        assert(devices.drop_last().take(n) =~= devices.take(n));
        lemma_gateway_stays(event, devices.drop_last(), n);
    } else {
        assert(devices.take(n) =~= devices);
    }
}

fn find_gateway<'a>(event: &Value, devices: &'a [DeviceRecord]) -> (r: Option<&'a DeviceRecord>)
    ensures
        r.deep_view() == gateway_of(json::json_of(*event), devices.deep_view()),
{
    let ghost all = devices.deep_view();
    let mut i: usize = 0;
    while i < devices.len()
        invariant
            i <= devices@.len(),
            all == devices.deep_view(),
            gateway_of(json::json_of(*event), all.take(i as int)) is None,
        decreases devices@.len() - i,
    {
        let d = &devices[i];
        assert(all.take(i + 1).drop_last() =~= all.take(i as int));
        assert(all.take(i + 1).last() == d.deep_view());
        if names_ip_of(event, d) || names_id_of(event, d) {
            proof {
                lemma_gateway_stays(json::json_of(*event), all, i + 1);
            }
            return Some(d);
        }
        i = i + 1;
    }
    assert(all.take(i as int) =~= all);
    None
}

fn gateway_doc_of<'a>(docs: &'a TextMap<DeviceDocumentation>, d: &DeviceRecord) -> (r: Option<&'a DeviceDocumentation>)
    ensures
        r.deep_view() == gateway_doc(docs@, d.deep_view()),
{
    match docs.get(d.device_id.as_str()) {
        Some(doc) => Some(doc),
        None => docs.get(d.meta_or_empty("mac").as_str()),
    }
}

fn gateway_name_of(docs: &TextMap<DeviceDocumentation>, d: &DeviceRecord) -> (r: Option<String>)
    ensures
        r.deep_view() == gateway_name(docs@, d.deep_view()),
{
    match gateway_doc_of(docs, d) {
        Some(doc) => match &doc.name {
            Some(name) => {
                return Some(name.clone());
            },
            None => {},
        },
        None => {},
    }
    let host = d.meta_or_empty("hostname");
    if !text::blank(d.display_name.as_str()) {
        Some(d.display_name.clone())
    } else if !text::blank(host.as_str()) {
        Some(host)
    } else {
        None
    }
}

fn room_in(words: &str) -> (r: Option<&'static str>)
    ensures
        r.deep_view() == room_in_words(words@),
{
    if text::contains(words, "wohnzimmer") || text::contains(words, "living") {
        Some("Wohnzimmer")
    } else if text::contains(words, "büro") || text::contains(words, "buero") || text::contains(words, "office") {
        Some("Büro")
    } else if text::contains(words, "küche") || text::contains(words, "kueche") || text::contains(words, "kitchen") {
        Some("Küche")
    } else if text::contains(words, "schlafzimmer") || text::contains(words, "bedroom") {
        Some("Schlafzimmer")
    } else if text::contains(words, "balkon") || text::contains(words, "balcony") {
        Some("Balkon")
    } else if text::contains(words, "flur") || text::contains(words, "hall") {
        Some("Flur")
    } else if text::contains(words, "keller") || text::contains(words, "basement") {
        Some("Keller")
    } else if text::contains(words, "garage") {
        Some("Garage")
    } else {
        None
    }
}

fn gateway_room_of(docs: &TextMap<DeviceDocumentation>, d: &DeviceRecord) -> (r: Option<String>)
    ensures
        r.deep_view() == gateway_room(docs@, d.deep_view()),
{
    match gateway_doc_of(docs, d) {
        Some(doc) => match &doc.room {
            Some(room) => {
                return Some(room.clone());
            },
            None => {},
        },
        None => {},
    }
    let mut words = d.display_name.clone();
    words.append(" ");
    words.append(d.meta_or_empty("hostname").as_str());
    match room_in(words.as_str().to_lowercase().as_str()) {
        Some(room) => Some(room.to_owned()),
        None => None,
    }
}

fn sender_room_of(docs: &TextMap<DeviceDocumentation>, event: &Value) -> (r: Option<String>)
    ensures
        r.deep_view() == sender_room(docs@, json::json_of(*event)),
{
    let mac = match json::get_text(event, "mac") {
        Some(s) => s,
        None => text::empty(),
    };
    match docs.get(mac.as_str()) {
        Some(doc) => match &doc.room {
            Some(room) => Some(room.clone()),
            None => None,
        },
        None => None,
    }
}

/// An event with the name and the room of its gateway.
pub fn enrich_event(event: &Value, devices: &[DeviceRecord], docs: &TextMap<DeviceDocumentation>) -> (r: Value)
    ensures
        json::json_of(r) == enriched(json::json_of(*event), devices.deep_view(), docs@),
{
    match event.as_object() {
        Some(m) => {
            let mut o = json::copy_members(m);
            let gateway = find_gateway(event, devices);
            let name = match gateway {
                Some(d) => gateway_name_of(docs, d),
                None => None,
            };
            let heard = match gateway {
                Some(d) => gateway_room_of(docs, d),
                None => None,
            };
            let room = if heard.is_some() {
                heard
            } else {
                sender_room_of(docs, event)
            };
            match name {
                Some(s) => json::put(&mut o, "gateway_name", json::string(s.as_str())),
                None => {},
            }
            match room {
                Some(s) => json::put(&mut o, "room", json::string(s.as_str())),
                None => {},
            }
            json::object(o)
        },
        None => json::copy(event),
    }
}

/// The events with the names and the rooms of their gateways, as text. A text that is no list
/// of events is passed on as it is.
pub fn enrich_events(raw: &str, devices: &[DeviceRecord], docs: &TextMap<DeviceDocumentation>) -> (r: String)
    ensures
        r@ == enriched_text(raw@, devices.deep_view(), docs@),
{
    let parsed = match json::parse(raw) {
        Some(v) => v,
        None => {
            return raw.to_owned();
        },
    };
    let events = match parsed.as_array() {
        Some(list) => list,
        None => {
            return raw.to_owned();
        },
    };
    let ghost all = json::jsons(events@);
    let ghost expected = enriched_list(all, devices.deep_view(), docs@);
    let mut values: Vec<Value> = Vec::new();
    let mut i: usize = 0;
    while i < events.len()
        invariant
            i <= events@.len(),
            all == json::jsons(events@),
            expected == enriched_list(all, devices.deep_view(), docs@),
            values@.len() == i,
            forall|k: int| 0 <= k < i ==> json::json_of(#[trigger] values@[k]) == expected[k],
        decreases events@.len() - i,
    {
        assert(all[i as int] == json::json_of(events@[i as int]));
        values.push(enrich_event(&events[i], devices, docs));
        i = i + 1;
    }
    assert(json::jsons(values@) =~= expected);
    json::text_or(&json::array(values), raw)
}

/// Enriching an event changes nothing but the name of its gateway and its room.
pub proof fn enriching_keeps_the_rest(
    event: Json,
    devices: Seq<DeviceModel>,
    docs: Map<Seq<char>, DocModel>,
    key: Seq<char>,
)
    requires
        key != "gateway_name"@,
        key != "room"@,
    ensures
        enriched(event, devices, docs).member(key) == event.member(key),
{
}

}
