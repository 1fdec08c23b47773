//! Rooms: how many devices they hold, what follows when one is renamed, and what the Hue
//! bridge says of them.

use serde_json::Value;
use vstd::prelude::*;

use crate::docs;
use crate::docs::DocsModel;
use crate::json;
use crate::json::Json;
use crate::records::{DeviceDocumentation, DocModel, LightGroup, LightGroupModel, RoomModel, RoomRecord};
use crate::text;
use crate::text_map;
use crate::text_map::{Duplicate, TextMap};

verus! {

broadcast use vstd::string::group_string_axioms;

// ---------------------------------------------------------------------------------------
// Rooms with their devices
// ---------------------------------------------------------------------------------------

/// A room with the number of devices that are documented in it.
#[derive(Debug)]
pub struct RoomWithCount {
    pub room: RoomRecord,
    pub device_count: usize,
}

/// What a `RoomWithCount` stands for.
#[verifier::ext_equal]
pub struct RoomCountModel {
    pub room: RoomModel,
    pub device_count: nat,
}

impl DeepView for RoomWithCount {
    type V = RoomCountModel;

    open spec fn deep_view(&self) -> RoomCountModel {
        RoomCountModel { room: self.room.deep_view(), device_count: self.device_count as nat }
    }
}

/// The name of a room in small letters, without space around it.
pub open spec fn plain_room(name: Seq<char>) -> Seq<char> {
    text::lowercase(text::trimmed(name))
}

/// The documentation names the room `plain`.
pub open spec fn doc_names_room(doc: DocModel, plain: Seq<char>) -> bool {
    match doc.room {
        Some(r) => plain_room(r) == plain,
        None => false,
    }
}

/// How many of the documentations under `keys` name the room `plain`.
pub open spec fn docs_in_room(docs: DocsModel, keys: Seq<Seq<char>>, plain: Seq<char>) -> nat
    decreases keys.len(),
{
    if keys.len() == 0 {
        0
    } else {
        docs_in_room(docs, keys.drop_last(), plain) + if doc_names_room(docs[keys.last()], plain) {
            1nat
        } else {
            0nat
        }
    }
}

/// The rooms, each with the number of devices that are documented in it. `keys` are those of
/// the documentations.
pub open spec fn rooms_with_counts(
    rooms: Seq<RoomModel>,
    docs: DocsModel,
    keys: Seq<Seq<char>>,
) -> Seq<RoomCountModel> {
    Seq::new(
        rooms.len(),
        |i: int| RoomCountModel { room: rooms[i], device_count: docs_in_room(docs, keys, plain_room(rooms[i].name)) },
    )
}

fn plain_room_of(name: &str) -> (r: String)
    ensures
        r@ == plain_room(name@),
{
    text::trim(name).as_str().to_lowercase()
}

fn count_docs_in_room(store: &TextMap<DeviceDocumentation>, plain: &str) -> (r: usize)
    ensures
        r == docs_in_room(store@, store.keys(), plain@),
{
    let ghost keys = store.keys();
    let size: usize = store.len();
    let mut r: usize = 0;
    let mut i: usize = 0;
    while i < size
        invariant
            i <= size,
            size == keys.len(),
            keys == store.keys(),
            r <= i,
            r == docs_in_room(store@, keys.take(i as int), plain@),
        decreases size - i,
    {
        assert(keys.take(i + 1).drop_last() =~= keys.take(i as int));
        let doc = store.value_at(i);
        assert(doc.deep_view() == store@[keys.take(i + 1).last()]);
        match &doc.room {
            Some(room) => {
                if text::same(plain_room_of(room.as_str()).as_str(), plain) {
                    r = r + 1;
                }
            },
            None => {},
        }
        i = i + 1;
    }
    assert(keys.take(i as int) =~= keys);
    r
}

/// The rooms, each with the number of devices that are documented in it.
pub fn count_rooms(rooms: &[RoomRecord], store: &TextMap<DeviceDocumentation>) -> (r: Vec<RoomWithCount>)
    ensures
        r.deep_view() == rooms_with_counts(rooms.deep_view(), store@, store.keys()),
{
    let ghost all = rooms.deep_view();
    let ghost expected = rooms_with_counts(all, store@, store.keys());
    let mut r: Vec<RoomWithCount> = Vec::new();
    let mut i: usize = 0;
    while i < rooms.len()
        invariant
            i <= rooms@.len(),
            all == rooms.deep_view(),
            expected == rooms_with_counts(all, store@, store.keys()),
            r@.len() == i,
            forall|k: int| 0 <= k < i ==> (#[trigger] r@[k]).deep_view() == expected[k],
        decreases rooms@.len() - i,
    {
        assert(all[i as int] == rooms@[i as int].deep_view());
        let plain = plain_room_of(rooms[i].name.as_str());
        r.push(RoomWithCount { room: rooms[i].duplicate(), device_count: count_docs_in_room(store, plain.as_str()) });
        i = i + 1;
    }
    assert(r.deep_view() =~= expected);
    r
}

// ---------------------------------------------------------------------------------------
// Saving a room
// ---------------------------------------------------------------------------------------

/// The room has an id by which an earlier version of it can be found.
pub fn has_id(room: &RoomRecord) -> (r: bool)
    ensures
        r == (text::trimmed(room.deep_view().id).len() > 0),
{
    !text::blank(text::trim(room.id.as_str()).as_str())
}

/// A room as it is saved: without a Hue group of its own it keeps that of its earlier version.
pub open spec fn room_to_save(room: RoomModel, earlier: Option<RoomModel>) -> RoomModel {
    RoomModel {
        hue_group_id: if room.hue_group_id is Some {
            room.hue_group_id
        } else {
            match earlier {
                Some(r) => r.hue_group_id,
                None => None,
            }
        },
        ..room
    }
}

/// A room as it is saved.
pub fn prepare_room(room: &RoomRecord, earlier: &Option<RoomRecord>) -> (r: RoomRecord)
    ensures
        r.deep_view() == room_to_save(room.deep_view(), earlier.deep_view()),
{
    let mut r = room.duplicate();
    if r.hue_group_id.is_none() {
        r.hue_group_id = match earlier {
            Some(e) => e.hue_group_id.duplicate(),
            None => None,
        };
    }
    r
}

/// The name differs in more than the case of its letters.
pub open spec fn is_renamed(old_name: Seq<char>, new_name: Seq<char>) -> bool {
    text::lowercase(old_name) != text::lowercase(new_name)
}

pub fn room_renamed(old_name: &str, new_name: &str) -> (r: bool)
    ensures
        r == is_renamed(old_name@, new_name@),
{
    !text::same(old_name.to_lowercase().as_str(), new_name.to_lowercase().as_str())
}

/// The documentation is of a device in the room `old_name`.
pub open spec fn is_doc_in(doc: DocModel, old_name: Seq<char>) -> bool {
    match doc.room {
        Some(r) => text::lowercase(r) == text::lowercase(old_name),
        None => false,
    }
}

/// A documentation after the room `old_name` was renamed.
pub open spec fn doc_after_rename(doc: DocModel, old_name: Seq<char>, new_name: Seq<char>, now: Seq<char>) -> DocModel {
    if is_doc_in(doc, old_name) {
        DocModel { room: Some(new_name), updated_at: now, ..doc }
    } else {
        doc
    }
}

/// The documentations after the room `old_name` was renamed.
pub open spec fn docs_after_rename(
    docs: DocsModel,
    old_name: Seq<char>,
    new_name: Seq<char>,
    now: Seq<char>,
) -> DocsModel {
    Map::new(|k: Seq<char>| docs.contains_key(k), |k: Seq<char>| doc_after_rename(docs[k], old_name, new_name, now))
}

/// A device is documented in the room `old_name`.
pub open spec fn any_doc_in(docs: DocsModel, old_name: Seq<char>) -> bool {
    exists|k: Seq<char>| #[trigger] docs.contains_key(k) && is_doc_in(docs[k], old_name)
}

/// Moves the documented devices of a room that was renamed, and says whether there were any.
pub fn rename_room_in_docs(
    store: &mut TextMap<DeviceDocumentation>,
    old_name: &str,
    new_name: &str,
    now: &str,
) -> (changed: bool)
    ensures
        final(store)@ == docs_after_rename(old(store)@, old_name@, new_name@, now@),
        changed == any_doc_in(old(store)@, old_name@),
{
    let ghost before = store@;
    let ghost keys = store.keys();
    let size: usize = store.len();
    let small = old_name.to_lowercase();
    let mut changed = false;
    let mut i: usize = 0;
    while i < size
        invariant
            i <= size,
            size == keys.len(),
            keys == store.keys(),
            keys.no_duplicates(),
            small@ == text::lowercase(old_name@),
            forall|k: Seq<char>| #[trigger] before.contains_key(k) <==> keys.contains(k),
            forall|k: Seq<char>| #[trigger] store@.contains_key(k) <==> before.contains_key(k),
            forall|j: int|
                0 <= j < i ==> store@[#[trigger] keys[j]] == doc_after_rename(before[keys[j]], old_name@, new_name@, now@),
            forall|j: int| i <= j < size ==> store@[#[trigger] keys[j]] == before[keys[j]],
            changed == (exists|j: int| 0 <= j < i && is_doc_in(before[#[trigger] keys[j]], old_name@)),
        decreases size - i,
    {
        let key = store.key_at(i).to_owned();
        let doc = store.value_at(i).duplicate();
        assert(doc.deep_view() == before[keys[i as int]]);
        assert(keys.contains(key@));
        let inside = match &doc.room {
            Some(room) => text::same(room.as_str().to_lowercase().as_str(), small.as_str()),
            None => false,
        };
        if inside {
            let after = DeviceDocumentation {
                name: doc.name,
                notes: doc.notes,
                room: Some(new_name.to_owned()),
                manual_url: doc.manual_url,
                product_id: doc.product_id,
                updated_at: now.to_owned(),
            };
            store.insert(key, after);
            changed = true;
            assert(is_doc_in(before[keys[i as int]], old_name@));
        }
        i = i + 1;
    }
    proof {
        assert forall|k: Seq<char>| #[trigger] before.contains_key(k) implies store@[k] == doc_after_rename(
            before[k],
            old_name@,
            new_name@,
            now@,
        ) by {
            let j = keys.index_of(k);
            assert(keys.contains(k));
            assert(keys[j] == k);
        }
        assert(store@ =~= docs_after_rename(before, old_name@, new_name@, now@));
        if changed {
            let j = choose|j: int| 0 <= j < size && is_doc_in(before[#[trigger] keys[j]], old_name@);
            assert(keys.contains(keys[j]));
            assert(before.contains_key(keys[j]));
        } else {
            assert forall|k: Seq<char>| #[trigger] before.contains_key(k) implies !is_doc_in(before[k], old_name@) by {
                let j = keys.index_of(k);
                assert(keys.contains(k));
                assert(keys[j] == k);
            }
        }
    }
    changed
}

/// The groups of lights in the room `old_name`, moved to the room `new_name`.
pub open spec fn moved_groups(
    groups: Seq<LightGroupModel>,
    old_name: Seq<char>,
    new_name: Seq<char>,
) -> Seq<LightGroupModel>
    decreases groups.len(),
{
    if groups.len() == 0 {
        Seq::empty()
    } else {
        let before = moved_groups(groups.drop_last(), old_name, new_name);
        let g = groups.last();
        if text::lowercase(g.room) == text::lowercase(old_name) {
            before.push(LightGroupModel { room: new_name, ..g })
        } else {
            before
        }
    }
}

/// The groups of lights that have to be saved when a room was renamed.
pub fn rename_room_in_groups(groups: &[LightGroup], old_name: &str, new_name: &str) -> (r: Vec<LightGroup>)
    ensures
        r.deep_view() == moved_groups(groups.deep_view(), old_name@, new_name@),
{
    let ghost all = groups.deep_view();
    let small = old_name.to_lowercase();
    let mut r: Vec<LightGroup> = Vec::new();
    let mut i: usize = 0;
    assert(r.deep_view() =~= Seq::<LightGroupModel>::empty());
    while i < groups.len()
        invariant
            i <= groups@.len(),
            all == groups.deep_view(),
            small@ == text::lowercase(old_name@),
            r.deep_view() == moved_groups(all.take(i as int), old_name@, new_name@),
        decreases groups@.len() - i,
    {
        let g = &groups[i];
        let ghost before = r.deep_view();
        assert(all.take(i + 1).drop_last() =~= all.take(i as int));
        assert(all.take(i + 1).last() == g.deep_view());
        if text::same(g.room.as_str().to_lowercase().as_str(), small.as_str()) {
            let mut moved = g.duplicate();
            moved.room = new_name.to_owned();
            r.push(moved);
            assert(r.deep_view() =~= before.push(moved.deep_view()));
        }
        i = i + 1;
    }
    assert(all.take(i as int) =~= all);
    r
}

/// After a rename no device is documented in the old room, but for a new name that differs
/// only in the case of its letters.
pub proof fn renamed_room_is_left(docs: DocsModel, old_name: Seq<char>, new_name: Seq<char>, now: Seq<char>)
    requires
        is_renamed(old_name, new_name),
    ensures
        !any_doc_in(docs_after_rename(docs, old_name, new_name, now), old_name),
{
}

/// A rename leaves all but the rooms and the times as they are.
pub proof fn rename_keeps_the_rest(
    docs: DocsModel,
    old_name: Seq<char>,
    new_name: Seq<char>,
    now: Seq<char>,
    key: Seq<char>,
)
    requires
        docs.contains_key(key),
    ensures
        ({
            let after = docs_after_rename(docs, old_name, new_name, now);
            &&& after.contains_key(key)
            &&& after[key].name == docs[key].name
            &&& after[key].notes == docs[key].notes
            &&& after[key].manual_url == docs[key].manual_url
            &&& after[key].product_id == docs[key].product_id
        }),
{
}

// ---------------------------------------------------------------------------------------
// The Hue bridge
// ---------------------------------------------------------------------------------------

/// How the bridge is reached.
#[derive(Debug)]
pub struct HueCredentials {
    pub bridge_ip: String,
    pub username: String,
}

/// What a `HueCredentials` stands for.
#[verifier::ext_equal]
pub struct CredentialsModel {
    pub bridge_ip: Seq<char>,
    pub username: Seq<char>,
}

impl DeepView for HueCredentials {
    type V = CredentialsModel;

    open spec fn deep_view(&self) -> CredentialsModel {
        CredentialsModel { bridge_ip: self.bridge_ip@, username: self.username@ }
    }
}

/// The credentials in a JSON value; none without a user name.
pub open spec fn credentials_in(creds: Json) -> Option<CredentialsModel> {
    let username = text::or_empty(creds.member_text("username"@));
    if username.len() > 0 {
        Some(
            CredentialsModel {
                bridge_ip: text::or_text(creds.member_text("bridge_ip"@), "192.168.178.12"@),
                username,
            },
        )
    } else {
        None
    }
}

/// The credentials in a JSON value.
pub fn read_credentials(creds: &Value) -> (r: Option<HueCredentials>)
    ensures
        r.deep_view() == credentials_in(json::json_of(*creds)),
{
    let username = match json::get_text(creds, "username") {
        Some(s) => s,
        None => text::empty(),
    };
    if text::blank(username.as_str()) {
        return None;
    }
    let bridge_ip = match json::get_text(creds, "bridge_ip") {
        Some(s) => s,
        None => "192.168.178.12".to_owned(),
    };
    Some(HueCredentials { bridge_ip, username })
}

/// The credentials in a text.
pub open spec fn credentials_in_text(content: Seq<char>) -> Option<CredentialsModel> {
    match json::parsed(content) {
        Some(creds) => credentials_in(creds),
        None => None,
    }
}

/// The credentials in a text.
pub fn parse_credentials(content: &str) -> (r: Option<HueCredentials>)
    ensures
        r.deep_view() == credentials_in_text(content@),
{
    match json::parse(content) {
        Some(creds) => read_credentials(&creds),
        None => None,
    }
}

/// The address under which the bridge lists its groups.
pub open spec fn groups_url(c: CredentialsModel) -> Seq<char> {
    "http://"@ + c.bridge_ip + "/api/"@ + c.username + "/groups"@
}

pub fn groups_url_of(c: &HueCredentials) -> (r: String)
    ensures
        r@ == groups_url(c.deep_view()),
{
    let mut out = "http://".to_owned();
    out.append(c.bridge_ip.as_str());
    out.append("/api/");
    out.append(c.username.as_str());
    out.append("/groups");
    out
}

/// The class of a room at the bridge: its own, else the one that its kind tells.
pub open spec fn hue_class(room: RoomModel) -> Seq<char> {
    match room.hue_class {
        Some(c) => c,
        None => {
            let kind = text::or_empty(room.archetype);
            if kind == "living_room"@ {
                "Living room"@
            } else if kind == "kitchen"@ {
                "Kitchen"@
            } else if kind == "dining_room"@ {
                "Dining"@
            } else if kind == "bedroom"@ {
                "Bedroom"@
            } else if kind == "kids_room"@ {
                "Kids bedroom"@
            } else if kind == "bathroom"@ {
                "Bathroom"@
            } else if kind == "office"@ {
                "Home office"@
            } else if kind == "hallway"@ {
                "Hallway"@
            } else if kind == "outdoor"@ {
                "Garden"@
            } else if kind == "garage"@ {
                "Garage"@
            } else {
                "Other"@
            }
        },
    }
}

pub fn hue_class_of(room: &RoomRecord) -> (r: String)
    ensures
        r@ == hue_class(room.deep_view()),
{
    match &room.hue_class {
        Some(c) => {
            return c.clone();
        },
        None => {},
    }
    let kind = match &room.archetype {
        Some(k) => k.clone(),
        None => text::empty(),
    };
    let kind = kind.as_str();
    let class = if text::same(kind, "living_room") {
        "Living room"
    } else if text::same(kind, "kitchen") {
        "Kitchen"
    } else if text::same(kind, "dining_room") {
        "Dining"
    } else if text::same(kind, "bedroom") {
        "Bedroom"
    } else if text::same(kind, "kids_room") {
        "Kids bedroom"
    } else if text::same(kind, "bathroom") {
        "Bathroom"
    } else if text::same(kind, "office") {
        "Home office"
    } else if text::same(kind, "hallway") {
        "Hallway"
    } else if text::same(kind, "outdoor") {
        "Garden"
    } else if text::same(kind, "garage") {
        "Garage"
    } else {
        "Other"
    };
    class.to_owned()
}

/// What the bridge is told of a room: where, and what.
pub struct HueUpdate {
    pub url: String,
    pub body: Value,
}

/// What the bridge is told of a room.
pub open spec fn hue_body(room: RoomModel) -> Json {
    Json::Object(json::no_members().insert("name"@, Json::Text(room.name)).insert("class"@, Json::Text(hue_class(room))))
}

/// The address of a group at the bridge.
pub open spec fn group_url(c: CredentialsModel, group: Seq<char>) -> Seq<char> {
    groups_url(c) + "/"@ + group
}

/// What the bridge is told when a room was saved; nothing where the room is no group there.
pub fn hue_update(room: &RoomRecord, c: &HueCredentials) -> (r: Option<HueUpdate>)
    ensures
        match r {
            Some(u) => room.deep_view().hue_group_id is Some && u.url@ == group_url(
                c.deep_view(),
                room.deep_view().hue_group_id->0,
            ) && json::json_of(u.body) == hue_body(room.deep_view()),
            None => room.deep_view().hue_group_id is None,
        },
{
    match &room.hue_group_id {
        Some(group) => {
            let mut url = groups_url_of(c);
            url.append("/");
            url.append(group.as_str());
            let mut o = json::new_members();
            json::put(&mut o, "name", json::string(room.name.as_str()));
            json::put(&mut o, "class", json::string(hue_class_of(room).as_str()));
            Some(HueUpdate { url, body: json::object(o) })
        },
        None => None,
    }
}

// ---------------------------------------------------------------------------------------
// Rooms of the bridge
// ---------------------------------------------------------------------------------------

/// A room that the bridge knows.
#[derive(Debug)]
pub struct HueGroup {
    pub group_id: String,
    pub name: String,
    pub class: String,
    pub lights: Vec<String>,
    pub sensors: Vec<String>,
}

/// What a `HueGroup` stands for.
#[verifier::ext_equal]
pub struct HueGroupModel {
    pub group_id: Seq<char>,
    pub name: Seq<char>,
    pub class: Seq<char>,
    pub lights: Seq<Seq<char>>,
    pub sensors: Seq<Seq<char>>,
}

impl DeepView for HueGroup {
    type V = HueGroupModel;

    open spec fn deep_view(&self) -> HueGroupModel {
        HueGroupModel {
            group_id: self.group_id@,
            name: self.name@,
            class: self.class@,
            lights: self.lights.deep_view(),
            sensors: self.sensors.deep_view(),
        }
    }
}

/// The texts among `items`.
pub open spec fn texts_in(items: Seq<Json>) -> Seq<Seq<char>>
    decreases items.len(),
{
    if items.len() == 0 {
        Seq::empty()
    } else {
        let before = texts_in(items.drop_last());
        match items.last().text() {
            Some(s) => before.push(s),
            None => before,
        }
    }
}

/// The name that the bridge gives a group.
pub open spec fn group_name(g: Json) -> Seq<char> {
    text::trimmed(text::or_empty(g.member_text("name"@)))
}

/// The group is a room or a zone with a name.
pub open spec fn is_room_group(g: Json) -> bool {
    let kind = text::or_empty(g.member_text("type"@));
    (kind == "Room"@ || kind == "Zone"@) && group_name(g).len() > 0
}

/// What the bridge says of the group `id`.
pub open spec fn hue_group(id: Seq<char>, g: Json) -> HueGroupModel {
    HueGroupModel {
        group_id: id,
        name: group_name(g),
        class: text::or_empty(g.member_text("class"@)),
        lights: texts_in(g.member_items("lights"@)),
        sensors: texts_in(g.member_items("sensors"@)),
    }
}

/// The rooms among the groups under `keys`.
pub open spec fn room_groups(groups: Map<Seq<char>, Json>, keys: Seq<Seq<char>>) -> Seq<HueGroupModel>
    decreases keys.len(),
{
    if keys.len() == 0 {
        Seq::empty()
    } else {
        let before = room_groups(groups, keys.drop_last());
        let g = groups[keys.last()];
        if is_room_group(g) {
            before.push(hue_group(keys.last(), g))
        } else {
            before
        }
    }
}

/// The rooms that the bridge knows; nothing where its answer is no object.
pub open spec fn hue_rooms(answer: Json) -> Option<Seq<HueGroupModel>> {
    match answer {
        Json::Object(m) => Some(room_groups(m, json::ordered_keys(m))),
        _ => None,
    }
}

fn text_member(v: &Value, key: &str) -> (r: String)
    ensures
        r@ == text::or_empty(json::json_of(*v).member_text(key@)),
{
    match json::get_text(v, key) {
        Some(s) => s,
        None => text::empty(),
    }
}

fn member_texts(v: &Value, key: &str) -> (r: Vec<String>)
    ensures
        r.deep_view() == texts_in(json::json_of(*v).member_items(key@)),
{
    let mut r: Vec<String> = Vec::new();
    assert(r.deep_view() =~= Seq::<Seq<char>>::empty());
    let items = match json::get(v, key) {
        Some(w) => match w.as_array() {
            Some(items) => items,
            None => {
                return r;
            },
        },
        None => {
            return r;
        },
    };
    let ghost all = json::jsons(items@);
    let mut i: usize = 0;
    assert(all.take(0) =~= Seq::<Json>::empty());
    while i < items.len()
        invariant
            i <= items@.len(),
            all == json::jsons(items@),
            r.deep_view() == texts_in(all.take(i as int)),
        decreases items@.len() - i,
    {
        let ghost before = r.deep_view();
        assert(all.take(i + 1).drop_last() =~= all.take(i as int));
        assert(all.take(i + 1).last() == json::json_of(items@[i as int]));
        match items[i].as_str() {
            Some(s) => {
                r.push(s.to_owned());
                assert(r.deep_view() =~= before.push(s@));
            },
            None => {},
        }
        i = i + 1;
    }
    assert(all.take(i as int) =~= all);
    r
}

/// The rooms that the bridge knows.
pub fn read_hue_rooms(answer: &Value) -> (r: Option<Vec<HueGroup>>)
    ensures
        r.deep_view() == hue_rooms(json::json_of(*answer)),
{
    let m = match answer.as_object() {
        Some(m) => m,
        None => {
            return None;
        },
    };
    let ghost all = json::members(*m);
    let keys = json::keys(m);
    let ghost names = keys.deep_view();
    proof {
        json::lemma_ordered_keys(all, names);
    }
    let mut r: Vec<HueGroup> = Vec::new();
    let mut i: usize = 0;
    assert(r.deep_view() =~= Seq::<HueGroupModel>::empty());
    while i < keys.len()
        invariant
            i <= keys@.len(),
            names == keys.deep_view(),
            all == json::members(*m),
            json::json_of(*answer) == Json::Object(all),
            forall|k: Seq<char>| #[trigger] all.contains_key(k) <==> names.contains(k),
            r.deep_view() == room_groups(all, names.take(i as int)),
        decreases keys@.len() - i,
    {
        let key = keys[i].as_str();
        let ghost before = r.deep_view();
        assert(names.take(i + 1).drop_last() =~= names.take(i as int));
        assert(names[i as int] == key@);
        assert(names.contains(key@));
        assert(all.contains_key(key@));
        match json::get(answer, key) {
            Some(g) => {
                let kind = text_member(g, "type");
                let name = text::trim(text_member(g, "name").as_str());
                if (text::same(kind.as_str(), "Room") || text::same(kind.as_str(), "Zone")) && !text::blank(name.as_str()) {
                    let group = HueGroup {
                        group_id: key.to_owned(),
                        name,
                        class: text_member(g, "class"),
                        lights: member_texts(g, "lights"),
                        sensors: member_texts(g, "sensors"),
                    };
                    r.push(group);
                    assert(r.deep_view() =~= before.push(group.deep_view()));
                }
            },
            None => {},
        }
        i = i + 1;
    }
    assert(names.take(i as int) =~= names);
    Some(r)
}

/// The rooms in the text of the bridge's answer.
pub open spec fn hue_rooms_in_text(answer: Seq<char>) -> Option<Seq<HueGroupModel>> {
    match json::parsed(answer) {
        Some(v) => hue_rooms(v),
        None => None,
    }
}

/// The rooms in the text of the bridge's answer.
pub fn parse_hue_rooms(answer: &str) -> (r: Option<Vec<HueGroup>>)
    ensures
        r.deep_view() == hue_rooms_in_text(answer@),
{
    match json::parse(answer) {
        Some(v) => read_hue_rooms(&v),
        None => None,
    }
}

/// The room of a device.
#[derive(Debug)]
pub struct Assignment {
    pub key: String,
    pub room: String,
}

/// What an `Assignment` stands for.
#[verifier::ext_equal]
pub struct AssignmentModel {
    pub key: Seq<char>,
    pub room: Seq<char>,
}

impl DeepView for Assignment {
    type V = AssignmentModel;

    open spec fn deep_view(&self) -> AssignmentModel {
        AssignmentModel { key: self.key@, room: self.room@ }
    }
}

/// `list` with the devices `ids`, whose keys begin with `prefix`, in the room `room`.
pub open spec fn with_ids(list: Seq<AssignmentModel>, prefix: Seq<char>, ids: Seq<Seq<char>>, room: Seq<char>) -> Seq<
    AssignmentModel,
>
    decreases ids.len(),
{
    if ids.len() == 0 {
        list
    } else {
        with_ids(list, prefix, ids.drop_last(), room).push(AssignmentModel { key: prefix + ids.last(), room })
    }
}

/// The rooms of the lights and of the sensors in `groups`.
pub open spec fn assignments(groups: Seq<HueGroupModel>) -> Seq<AssignmentModel>
    decreases groups.len(),
{
    if groups.len() == 0 {
        Seq::empty()
    } else {
        let g = groups.last();
        with_ids(
            with_ids(assignments(groups.drop_last()), "hue-light-"@, g.lights, g.name),
            "hue-sensor-"@,
            g.sensors,
            g.name,
        )
    }
}

fn add_ids(list: &mut Vec<Assignment>, prefix: &str, ids: &Vec<String>, room: &str)
    ensures
        final(list).deep_view() == with_ids(old(list).deep_view(), prefix@, ids.deep_view(), room@),
{
    let ghost first = list.deep_view();
    let ghost all = ids.deep_view();
    let mut i: usize = 0;
    while i < ids.len()
        invariant
            i <= ids@.len(),
            all == ids.deep_view(),
            list.deep_view() == with_ids(first, prefix@, all.take(i as int), room@),
        decreases ids@.len() - i,
    {
        let ghost before = list.deep_view();
        assert(all.take(i + 1).drop_last() =~= all.take(i as int));
        let mut key = prefix.to_owned();
        key.append(ids[i].as_str());
        let one = Assignment { key, room: room.to_owned() };
        list.push(one);
        assert(list.deep_view() =~= before.push(one.deep_view()));
        i = i + 1;
    }
    assert(all.take(i as int) =~= all);
}

/// The rooms of the lights and of the sensors in `groups`.
pub fn hue_assignments(groups: &[HueGroup]) -> (r: Vec<Assignment>)
    ensures
        r.deep_view() == assignments(groups.deep_view()),
{
    let ghost all = groups.deep_view();
    let mut r: Vec<Assignment> = Vec::new();
    let mut i: usize = 0;
    assert(r.deep_view() =~= Seq::<AssignmentModel>::empty());
    while i < groups.len()
        invariant
            i <= groups@.len(),
            all == groups.deep_view(),
            r.deep_view() == assignments(all.take(i as int)),
        decreases groups@.len() - i,
    {
        let g = &groups[i];
        assert(all.take(i + 1).drop_last() =~= all.take(i as int));
        assert(all.take(i + 1).last() == g.deep_view());
        add_ids(&mut r, "hue-light-", &g.lights, g.name.as_str());
        add_ids(&mut r, "hue-sensor-", &g.sensors, g.name.as_str());
        i = i + 1;
    }
    assert(all.take(i as int) =~= all);
    r
}

/// The device is documented in that room already.
pub open spec fn is_settled(docs: DocsModel, a: AssignmentModel) -> bool {
    docs::doc_of(docs, a.key).room == Some(a.room)
}

/// `docs` with one device in its room.
pub open spec fn with_assignment(docs: DocsModel, a: AssignmentModel, now: Seq<char>) -> DocsModel {
    if is_settled(docs, a) {
        docs
    } else {
        docs.insert(a.key, DocModel { room: Some(a.room), updated_at: now, ..docs::doc_of(docs, a.key) })
    }
}

/// `docs` with all devices of `list` in their rooms, one after the other.
pub open spec fn with_assignments(docs: DocsModel, list: Seq<AssignmentModel>, now: Seq<char>) -> DocsModel
    decreases list.len(),
{
    if list.len() == 0 {
        docs
    } else {
        with_assignment(with_assignments(docs, list.drop_last(), now), list.last(), now)
    }
}

/// How many devices of `list` come into another room.
pub open spec fn moves(docs: DocsModel, list: Seq<AssignmentModel>, now: Seq<char>) -> nat
    decreases list.len(),
{
    if list.len() == 0 {
        0
    } else {
        moves(docs, list.drop_last(), now) + if is_settled(with_assignments(docs, list.drop_last(), now), list.last()) {
            0nat
        } else {
            1nat
        }
    }
}

/// Writes down the rooms of devices, and counts those that come into another room.
pub fn assign_rooms(store: &mut TextMap<DeviceDocumentation>, list: &[Assignment], now: &str) -> (moved: usize)
    ensures
        final(store)@ == with_assignments(old(store)@, list.deep_view(), now@),
        moved == moves(old(store)@, list.deep_view(), now@),
{
    let ghost first = store@;
    let ghost all = list.deep_view();
    let mut moved: usize = 0;
    let mut i: usize = 0;
    assert(all.take(0) =~= Seq::<AssignmentModel>::empty());
    while i < list.len()
        invariant
            i <= list@.len(),
            moved <= i,
            all == list.deep_view(),
            store@ == with_assignments(first, all.take(i as int), now@),
            moved == moves(first, all.take(i as int), now@),
        decreases list@.len() - i,
    {
        let a = &list[i];
        assert(all.take(i + 1).drop_last() =~= all.take(i as int));
        assert(all.take(i + 1).last() == a.deep_view());
        let doc = docs::get_device_doc(store, a.key.as_str());
        let settled = match &doc.room {
            Some(room) => text::same(room.as_str(), a.room.as_str()),
            None => false,
        };
        if !settled {
            let after = DeviceDocumentation {
                name: doc.name,
                notes: doc.notes,
                room: Some(a.room.clone()),
                manual_url: doc.manual_url,
                product_id: doc.product_id,
                updated_at: now.to_owned(),
            };
            store.insert(a.key.clone(), after);
            moved = moved + 1;
        }
        i = i + 1;
    }
    assert(all.take(i as int) =~= all);
    moved
}

/// What is answered to a request to import the rooms of the bridge.
pub open spec fn import_message(rooms: nat, devices: nat) -> Seq<char> {
    text::decimal(rooms) + " Räume importiert und "@ + text::decimal(devices) + " Geräte zugeordnet."@
}

/// What is answered to a request to import the rooms of the bridge.
pub fn import_message_of(rooms: usize, devices: usize) -> (r: String)
    ensures
        r@ == import_message(rooms as nat, devices as nat),
{
    let mut out = text::count(rooms);
    out.append(" Räume importiert und ");
    out.append(text::count(devices).as_str());
    out.append(" Geräte zugeordnet.");
    out
}

/// Behind an import, the device that came last in the list is in its room.
pub proof fn last_assignment_holds(docs: DocsModel, list: Seq<AssignmentModel>, now: Seq<char>)
    requires
        list.len() > 0,
    ensures
        is_settled(with_assignments(docs, list, now), list.last()),
{
}

/// A device that is not in the list keeps its documentation.
pub proof fn import_leaves_other_devices(docs: DocsModel, list: Seq<AssignmentModel>, now: Seq<char>, key: Seq<char>)
    requires
        forall|i: int| 0 <= i < list.len() ==> (#[trigger] list[i]).key != key,
    ensures
        text_map::lookup(with_assignments(docs, list, now), key) == text_map::lookup(docs, key),
    decreases list.len(),
{
    if list.len() > 0 {
        assert(list[list.len() - 1].key != key);
        assert forall|i: int| 0 <= i < list.drop_last().len() implies (#[trigger] list.drop_last()[i]).key != key by {
            assert(list[i].key != key);
        }
        import_leaves_other_devices(docs, list.drop_last(), now, key);
    }
}

/// No device is put into two different rooms.
pub open spec fn agree(list: Seq<AssignmentModel>) -> bool {
    forall|i: int, j: int|
        0 <= i < list.len() && 0 <= j < list.len() && (#[trigger] list[i]).key == (#[trigger] list[j]).key ==> list[i].room
            == list[j].room
}

/// No light and no sensor is in two groups of different names.
pub open spec fn groups_agree(groups: Seq<HueGroupModel>) -> bool {
    forall|i: int, j: int, x: Seq<char>|
        #![trigger groups[i].lights.contains(x), groups[j].lights.contains(x)]
        #![trigger groups[i].sensors.contains(x), groups[j].sensors.contains(x)]
        0 <= i < groups.len() && 0 <= j < groups.len() && ((groups[i].lights.contains(x) && groups[j].lights.contains(x))
            || (groups[i].sensors.contains(x) && groups[j].sensors.contains(x))) ==> groups[i].name == groups[j].name
}

/// The assignment puts a light or a sensor of `g` into the room of that name.
pub open spec fn comes_from(a: AssignmentModel, g: HueGroupModel) -> bool {
    &&& a.room == g.name
    &&& {
        ||| exists|x: Seq<char>| #[trigger] g.lights.contains(x) && a.key == "hue-light-"@ + x
        ||| exists|x: Seq<char>| #[trigger] g.sensors.contains(x) && a.key == "hue-sensor-"@ + x
    }
}

pub proof fn lemma_with_ids(list: Seq<AssignmentModel>, prefix: Seq<char>, ids: Seq<Seq<char>>, room: Seq<char>, n: int)
    requires
        0 <= n < with_ids(list, prefix, ids, room).len(),
    ensures
        n < list.len() ==> with_ids(list, prefix, ids, room)[n] == list[n],
        n >= list.len() ==> {
            let a = with_ids(list, prefix, ids, room)[n];
            a.room == room && exists|x: Seq<char>| #[trigger] ids.contains(x) && a.key == prefix + x
        },
    decreases ids.len(),
{
    if ids.len() > 0 {
        let rest = ids.drop_last();
        let before = with_ids(list, prefix, rest, room);
        lemma_with_ids_grows(list, prefix, rest, room);
        if n < before.len() {
            lemma_with_ids(list, prefix, rest, room, n);
            if n >= list.len() {
                let x = choose|x: Seq<char>| #[trigger] rest.contains(x) && before[n].key == prefix + x;
                let i = rest.index_of(x);
                assert(ids[i] == x);
                assert(ids.contains(x));
            }
        } else {
            assert(ids[ids.len() - 1] == ids.last());
            assert(ids.contains(ids.last()));
        }
    }
}

pub proof fn lemma_with_ids_grows(list: Seq<AssignmentModel>, prefix: Seq<char>, ids: Seq<Seq<char>>, room: Seq<char>)
    ensures
        with_ids(list, prefix, ids, room).len() == list.len() + ids.len(),
    decreases ids.len(),
{
    if ids.len() > 0 {
        lemma_with_ids_grows(list, prefix, ids.drop_last(), room);
    }
}

pub proof fn lemma_origin(groups: Seq<HueGroupModel>, n: int)
    requires
        0 <= n < assignments(groups).len(),
    ensures
        exists|g: int| 0 <= g < groups.len() && comes_from(assignments(groups)[n], #[trigger] groups[g]),
    decreases groups.len(),
{
    if groups.len() > 0 {
        let rest = groups.drop_last();
        let g = groups.last();
        let first = assignments(rest);
        let second = with_ids(first, "hue-light-"@, g.lights, g.name);
        let a = assignments(groups)[n];
        lemma_with_ids_grows(first, "hue-light-"@, g.lights, g.name);
        lemma_with_ids_grows(second, "hue-sensor-"@, g.sensors, g.name);
        lemma_with_ids(second, "hue-sensor-"@, g.sensors, g.name, n);
        if n < second.len() {
            lemma_with_ids(first, "hue-light-"@, g.lights, g.name, n);
        }
        if n < first.len() {
            lemma_origin(rest, n);
            let i = choose|i: int| 0 <= i < rest.len() && comes_from(first[n], #[trigger] rest[i]);
            assert(groups[i] == rest[i]);
        } else {
            assert(comes_from(a, groups[groups.len() - 1]));
        }
    }
}

proof fn lemma_groups_agree(groups: Seq<HueGroupModel>)
    requires
        groups_agree(groups),
    ensures
        agree(assignments(groups)),
{
    let list = assignments(groups);
    reveal_strlit("hue-light-");
    reveal_strlit("hue-sensor-");
    assert forall|i: int, j: int|
        0 <= i < list.len() && 0 <= j < list.len() && (#[trigger] list[i]).key == (#[trigger] list[j]).key implies list[i].room
        == list[j].room by {
        lemma_origin(groups, i);
        lemma_origin(groups, j);
        let g = choose|g: int| 0 <= g < groups.len() && comes_from(list[i], #[trigger] groups[g]);
        let h = choose|h: int| 0 <= h < groups.len() && comes_from(list[j], #[trigger] groups[h]);
        let key = list[i].key;
        if exists|x: Seq<char>| #[trigger] groups[g].lights.contains(x) && key == "hue-light-"@ + x {
            let x = choose|x: Seq<char>| #[trigger] groups[g].lights.contains(x) && key == "hue-light-"@ + x;
            assert(key[4] == 'l');
            let y = choose|y: Seq<char>| #[trigger] groups[h].lights.contains(y) && key == "hue-light-"@ + y;
            assert(exists|y: Seq<char>| #[trigger] groups[h].lights.contains(y) && key == "hue-light-"@ + y) by {
                if exists|y: Seq<char>| #[trigger] groups[h].sensors.contains(y) && key == "hue-sensor-"@ + y {
                    assert(key[4] == 's');
                }
            }
            assert(x =~= key.skip(10));
            assert(y =~= key.skip(10));
        } else {
            let x = choose|x: Seq<char>| #[trigger] groups[g].sensors.contains(x) && key == "hue-sensor-"@ + x;
            assert(key[4] == 's');
            let y = choose|y: Seq<char>| #[trigger] groups[h].sensors.contains(y) && key == "hue-sensor-"@ + y;
            assert(exists|y: Seq<char>| #[trigger] groups[h].sensors.contains(y) && key == "hue-sensor-"@ + y) by {
                if exists|y: Seq<char>| #[trigger] groups[h].lights.contains(y) && key == "hue-light-"@ + y {
                    assert(key[4] == 'l');
                }
            }
            assert(x =~= key.skip(11));
            assert(y =~= key.skip(11));
        }
    }
}

proof fn lemma_all_settled(docs: DocsModel, list: Seq<AssignmentModel>, now: Seq<char>)
    requires
        agree(list),
    ensures
        forall|i: int| 0 <= i < list.len() ==> is_settled(with_assignments(docs, list, now), #[trigger] list[i]),
    decreases list.len(),
{
    if list.len() > 0 {
        let rest = list.drop_last();
        let a = list.last();
        let mid = with_assignments(docs, rest, now);
        let after = with_assignments(docs, list, now);
        assert forall|i: int, j: int|
            0 <= i < rest.len() && 0 <= j < rest.len() && (#[trigger] rest[i]).key == (#[trigger] rest[j]).key implies rest[i].room
            == rest[j].room by {
            assert(rest[i] == list[i] && rest[j] == list[j]);
        }
        lemma_all_settled(docs, rest, now);
        assert forall|i: int| 0 <= i < list.len() implies is_settled(after, #[trigger] list[i]) by {
            if i < rest.len() {
                assert(rest[i] == list[i]);
                assert(is_settled(mid, rest[i]));
                assert(list[i].key == list[list.len() - 1].key ==> list[i].room == a.room);
            }
        }
    }
}

proof fn lemma_settled_stay(docs: DocsModel, list: Seq<AssignmentModel>, now: Seq<char>)
    requires
        forall|i: int| 0 <= i < list.len() ==> is_settled(docs, #[trigger] list[i]),
    ensures
        with_assignments(docs, list, now) == docs,
        moves(docs, list, now) == 0,
    decreases list.len(),
{
    if list.len() > 0 {
        let rest = list.drop_last();
        assert forall|i: int| 0 <= i < rest.len() implies is_settled(docs, #[trigger] rest[i]) by {
            assert(rest[i] == list[i]);
        }
        lemma_settled_stay(docs, rest, now);
        assert(is_settled(docs, list[list.len() - 1]));
    }
}

/// Importing the same rooms a second time, whenever that is, moves no device and leaves the
/// documentation as it is, where no light and no sensor is in two groups of different names.
pub proof fn second_import_moves_nothing(
    docs: DocsModel,
    groups: Seq<HueGroupModel>,
    now: Seq<char>,
    later: Seq<char>,
)
    requires
        groups_agree(groups),
    ensures
        ({
            let list = assignments(groups);
            let once = with_assignments(docs, list, now);
            with_assignments(once, list, later) == once && moves(once, list, later) == 0
        }),
{
    lemma_groups_agree(groups);
    lemma_all_settled(docs, assignments(groups), now);
    lemma_settled_stay(with_assignments(docs, assignments(groups), now), assignments(groups), later);
}

}
