//! Rooms: importing them from the bridge, renaming them, counting what is in them.

use vstd::prelude::*;

use crate::docs::DocsModel;
use crate::json;
use crate::json::Json;
use crate::records::{DocModel, LightGroupModel, RoomModel};
use crate::rooms;
use crate::rooms::{AssignmentModel, CredentialsModel, HueGroupModel};
use crate::text;

verus! {

broadcast use vstd::string::group_string_axioms;

// ---------------------------------------------------------------------------------------
// Importing rooms
// ---------------------------------------------------------------------------------------

/// The list puts no device into two different rooms.
pub open spec fn consistent(list: Seq<AssignmentModel>) -> bool {
    forall|i: int, j: int|
        0 <= i < list.len() && 0 <= j < list.len() && (#[trigger] list[i]).key == (#[trigger] list[j]).key ==> list[i].room
            == list[j].room
}

/// What is written down of a device is kept, but for its room and the time of the change.
pub open spec fn rest_is_kept(docs: DocsModel, after: DocsModel, key: Seq<char>) -> bool {
    if docs.contains_key(key) {
        &&& after[key].name == docs[key].name
        &&& after[key].notes == docs[key].notes
        &&& after[key].manual_url == docs[key].manual_url
        &&& after[key].product_id == docs[key].product_id
    } else {
        &&& after[key].name is None
        &&& after[key].notes.len() == 0
        &&& after[key].manual_url is None
        &&& after[key].product_id is None
    }
}

/// Behind an import every device of the list is documented in the room that the list gives it, and
/// nothing else that was written down of it is lost.
pub proof fn import_puts_every_device_into_its_room(
    docs: DocsModel,
    list: Seq<AssignmentModel>,
    now: Seq<char>,
    i: int,
)
    requires
        consistent(list),
        0 <= i < list.len(),
    ensures
        ({
            let after = rooms::with_assignments(docs, list, now);
            &&& after.contains_key(list[i].key)
            &&& after[list[i].key].room == Some(list[i].room)
            &&& rest_is_kept(docs, after, list[i].key)
        }),
    decreases list.len(),
{
    let rest = list.drop_last();
    let a = list.last();
    let mid = rooms::with_assignments(docs, rest, now);
    assert(list[list.len() - 1] == a);
    lemma_import_keeps_the_rest(docs, rest, now, a.key);
    lemma_import_keeps_the_rest(docs, list, now, list[i].key);
    if i < list.len() - 1 {
        assert(rest[i] == list[i]);
        assert forall|m: int, n: int|
            0 <= m < rest.len() && 0 <= n < rest.len() && (#[trigger] rest[m]).key == (#[trigger] rest[n]).key implies rest[m].room
            == rest[n].room by {
            assert(rest[m] == list[m] && rest[n] == list[n]);
        }
        import_puts_every_device_into_its_room(docs, rest, now, i);
        if a.key == list[i].key {
            assert(list[i].room == list[list.len() - 1].room);
        }
    }
}

proof fn lemma_import_keeps_the_rest(docs: DocsModel, list: Seq<AssignmentModel>, now: Seq<char>, key: Seq<char>)
    ensures
        ({
            let after = rooms::with_assignments(docs, list, now);
            &&& docs.contains_key(key) ==> after.contains_key(key)
            &&& after.contains_key(key) ==> rest_is_kept(docs, after, key)
        }),
    decreases list.len(),
{
    if list.len() > 0 {
        lemma_import_keeps_the_rest(docs, list.drop_last(), now, key);
    }
}

/// One more device in the list: it is counted as moved, and the time of the change is written down,
/// exactly where it was not documented in that room before.
pub proof fn moved_devices_are_counted_and_dated(
    docs: DocsModel,
    list: Seq<AssignmentModel>,
    a: AssignmentModel,
    now: Seq<char>,
)
    ensures
        ({
            let before = rooms::with_assignments(docs, list, now);
            let after = rooms::with_assignments(docs, list.push(a), now);
            let there = before.contains_key(a.key) && before[a.key].room == Some(a.room);
            &&& rooms::moves(docs, list.push(a), now) == rooms::moves(docs, list, now) + if there { 0int } else { 1 }
            &&& there ==> after == before
            &&& !there ==> after.contains_key(a.key) && after[a.key].updated_at == now && after[a.key].room == Some(a.room)
            &&& forall|k: Seq<char>| k != a.key ==> (#[trigger] after.contains_key(k) <==> before.contains_key(k))
            &&& forall|k: Seq<char>| k != a.key && before.contains_key(k) ==> #[trigger] after[k] == before[k]
        }),
{
    assert(list.push(a).drop_last() =~= list);
}

/// An import of nothing moves nothing.
pub proof fn empty_import_moves_nothing(docs: DocsModel, list: Seq<AssignmentModel>, now: Seq<char>)
    requires
        list.len() == 0,
    ensures
        rooms::with_assignments(docs, list, now) == docs,
        rooms::moves(docs, list, now) == 0,
{
}

/// Every light and every sensor of a group is put into the room of that name.
pub proof fn groups_bring_their_lights_and_sensors(groups: Seq<HueGroupModel>, g: int, x: Seq<char>)
    requires
        0 <= g < groups.len(),
    ensures
        groups[g].lights.contains(x) ==> rooms::assignments(groups).contains(
            AssignmentModel { key: "hue-light-"@ + x, room: groups[g].name },
        ),
        groups[g].sensors.contains(x) ==> rooms::assignments(groups).contains(
            AssignmentModel { key: "hue-sensor-"@ + x, room: groups[g].name },
        ),
    decreases groups.len(),
{
    let rest = groups.drop_last();
    let last = groups.last();
    let first = rooms::assignments(rest);
    let second = rooms::with_ids(first, "hue-light-"@, last.lights, last.name);
    let all = rooms::assignments(groups);
    lemma_prefix(first, "hue-light-"@, last.lights, last.name);
    lemma_prefix(second, "hue-sensor-"@, last.sensors, last.name);
    if g < groups.len() - 1 {
        assert(rest[g] == groups[g]);
        groups_bring_their_lights_and_sensors(rest, g, x);
        assert forall|a: AssignmentModel| first.contains(a) implies #[trigger] all.contains(a) by {
            let n = first.index_of(a);
            assert(second[n] == a);
            assert(all[n] == a);
        }
    } else {
        if last.lights.contains(x) {
            let n = last.lights.index_of(x);
            lemma_id_added(first, "hue-light-"@, last.lights, last.name, n);
            assert(all[first.len() + n] == second[first.len() + n]);
        }
        if last.sensors.contains(x) {
            let n = last.sensors.index_of(x);
            lemma_id_added(second, "hue-sensor-"@, last.sensors, last.name, n);
        }
    }
}

proof fn lemma_prefix(list: Seq<AssignmentModel>, prefix: Seq<char>, ids: Seq<Seq<char>>, room: Seq<char>)
    ensures
        rooms::with_ids(list, prefix, ids, room).len() == list.len() + ids.len(),
        forall|i: int| 0 <= i < list.len() ==> #[trigger] rooms::with_ids(list, prefix, ids, room)[i] == list[i],
    decreases ids.len(),
{
    if ids.len() > 0 {
        lemma_prefix(list, prefix, ids.drop_last(), room);
    }
}

proof fn lemma_id_added(list: Seq<AssignmentModel>, prefix: Seq<char>, ids: Seq<Seq<char>>, room: Seq<char>, n: int)
    requires
        0 <= n < ids.len(),
    ensures
        rooms::with_ids(list, prefix, ids, room).len() == list.len() + ids.len(),
        rooms::with_ids(list, prefix, ids, room)[list.len() + n] == (AssignmentModel { key: prefix + ids[n], room }),
    decreases ids.len(),
{
    lemma_prefix(list, prefix, ids.drop_last(), room);
    if n < ids.len() - 1 {
        lemma_id_added(list, prefix, ids.drop_last(), room, n);
    }
}

/// Nothing else is put anywhere.
pub proof fn only_lights_and_sensors_of_groups_are_assigned(groups: Seq<HueGroupModel>, n: int)
    requires
        0 <= n < rooms::assignments(groups).len(),
    ensures
        exists|g: int|
            0 <= g < groups.len() && rooms::assignments(groups)[n].room == (#[trigger] groups[g]).name && exists|x: Seq<char>|
                (groups[g].lights.contains(x) && rooms::assignments(groups)[n].key == "hue-light-"@ + x) || (
                groups[g].sensors.contains(x) && rooms::assignments(groups)[n].key == #[trigger] ("hue-sensor-"@ + x)),
{
    rooms::lemma_origin(groups, n);
    let a = rooms::assignments(groups)[n];
    let g = choose|g: int| 0 <= g < groups.len() && rooms::comes_from(a, #[trigger] groups[g]);
    if exists|x: Seq<char>| #[trigger] groups[g].lights.contains(x) && a.key == "hue-light-"@ + x {
        let x = choose|x: Seq<char>| #[trigger] groups[g].lights.contains(x) && a.key == "hue-light-"@ + x;
        let spare = "hue-sensor-"@ + x;
    } else {
        let x = choose|x: Seq<char>| #[trigger] groups[g].sensors.contains(x) && a.key == "hue-sensor-"@ + x;
        let spare = "hue-sensor-"@ + x;
    }
}

/// The bridge says of a group that it is a room or a zone and calls it `name`.
pub open spec fn is_room_called(g: Map<Seq<char>, Json>, name: Seq<char>) -> bool {
    &&& g.contains_key("type"@)
    &&& g["type"@] == Json::Text("Room"@) || g["type"@] == Json::Text("Zone"@)
    &&& g.contains_key("name"@)
    &&& g["name"@] == Json::Text(name)
}

/// The bridge lists `x` under `key` of a group.
pub open spec fn lists(g: Map<Seq<char>, Json>, key: Seq<char>, x: Seq<char>) -> bool {
    g.contains_key(key) && match g[key] {
        Json::List(items) => items.contains(Json::Text(x)),
        _ => false,
    }
}

/// Every room and every zone of the bridge is imported, with the lights and the sensors that the
/// bridge lists in it and no others.
pub proof fn rooms_of_the_bridge_are_read(
    answer: Map<Seq<char>, Json>,
    keys: Seq<Seq<char>>,
    id: Seq<char>,
    g: Map<Seq<char>, Json>,
    name: Seq<char>,
)
    requires
        json::are_keys(answer, keys),
        json::in_order(keys),
        answer.contains_key(id),
        answer[id] == Json::Object(g),
        is_room_called(g, name),
        text::trimmed(name).len() > 0,
    ensures
        rooms::hue_rooms(Json::Object(answer)) is Some,
        exists|n: int|
            0 <= n < rooms::hue_rooms(Json::Object(answer))->0.len() && {
                let group = #[trigger] rooms::hue_rooms(Json::Object(answer))->0[n];
                &&& group.group_id == id
                &&& group.name == text::trimmed(name)
                &&& forall|x: Seq<char>| #[trigger] group.lights.contains(x) <==> lists(g, "lights"@, x)
                &&& forall|x: Seq<char>| #[trigger] group.sensors.contains(x) <==> lists(g, "sensors"@, x)
            },
{
    json::lemma_ordered_keys(answer, keys);
    assert(keys.contains(id));
    lemma_room_read(answer, keys, keys.index_of(id));
    let list = rooms::room_groups(answer, keys);
    let group = rooms::hue_group(id, answer[id]);
    let n = list.index_of(group);
    assert(list[n] == group);
    assert forall|x: Seq<char>| #[trigger] group.lights.contains(x) <==> lists(g, "lights"@, x) by {
        lemma_texts_in(answer[id].member_items("lights"@), x);
    }
    assert forall|x: Seq<char>| #[trigger] group.sensors.contains(x) <==> lists(g, "sensors"@, x) by {
        lemma_texts_in(answer[id].member_items("sensors"@), x);
    }
    assert(rooms::hue_rooms(Json::Object(answer))->0[n] == group);
}

proof fn lemma_texts_in(items: Seq<Json>, x: Seq<char>)
    ensures
        rooms::texts_in(items).contains(x) <==> items.contains(Json::Text(x)),
    decreases items.len(),
{
    if items.len() > 0 {
        let rest = items.drop_last();
        let last = items.last();
        lemma_texts_in(rest, x);
        assert(rest.push(last) =~= items);
        crate::text_map::lemma_push_contains(rest, last);
        match last {
            Json::Text(s) => {
                crate::text_map::lemma_push_contains(rooms::texts_in(rest), s);
            },
            _ => {},
        }
    }
}

proof fn lemma_room_read(answer: Map<Seq<char>, Json>, keys: Seq<Seq<char>>, k: int)
    requires
        0 <= k < keys.len(),
        rooms::is_room_group(answer[keys[k]]),
    ensures
        rooms::room_groups(answer, keys).contains(rooms::hue_group(keys[k], answer[keys[k]])),
    decreases keys.len(),
{
    let rest = keys.drop_last();
    let before = rooms::room_groups(answer, rest);
    let group = rooms::hue_group(keys[k], answer[keys[k]]);
    if k == keys.len() - 1 {
        assert(rooms::room_groups(answer, keys)[before.len() as int] == group);
    } else {
        assert(rest[k] == keys[k]);
        lemma_room_read(answer, rest, k);
        let n = before.index_of(group);
        assert(rooms::room_groups(answer, keys)[n] == group);
    }
}

/// Nothing but rooms and zones with a name is imported.
pub proof fn only_rooms_of_the_bridge_are_read(answer: Map<Seq<char>, Json>, keys: Seq<Seq<char>>, n: int)
    requires
        json::are_keys(answer, keys),
        json::in_order(keys),
        0 <= n < rooms::hue_rooms(Json::Object(answer))->0.len(),
    ensures
        ({
            let group = rooms::hue_rooms(Json::Object(answer))->0[n];
            &&& answer.contains_key(group.group_id)
            &&& answer[group.group_id] is Object
            &&& exists|name: Seq<char>|
                is_room_called(answer[group.group_id]->Object_0, name) && group.name == #[trigger] text::trimmed(name)
                    && group.name.len() > 0
        }),
{
    json::lemma_ordered_keys(answer, keys);
    lemma_group_read(answer, keys, n);
    let group = rooms::room_groups(answer, keys)[n];
    assert(keys.contains(group.group_id));
    let g = answer[group.group_id];
    reveal_strlit("Room");
    reveal_strlit("Zone");
    assert("Room"@.len() == 4 && "Zone"@.len() == 4);
    let name = text::or_empty(g.member_text("name"@));
    lemma_empty_trims();
    assert(is_room_called(g->Object_0, name));
    let spare = text::trimmed(name);
}

proof fn lemma_empty_trims()
    ensures
        text::trimmed(Seq::empty()).len() == 0,
{
}

proof fn lemma_group_read(answer: Map<Seq<char>, Json>, keys: Seq<Seq<char>>, n: int)
    requires
        0 <= n < rooms::room_groups(answer, keys).len(),
    ensures
        ({
            let group = rooms::room_groups(answer, keys)[n];
            &&& keys.contains(group.group_id)
            &&& rooms::is_room_group(answer[group.group_id])
            &&& group == rooms::hue_group(group.group_id, answer[group.group_id])
        }),
    decreases keys.len(),
{
    if keys.len() > 0 {
        let rest = keys.drop_last();
        let before = rooms::room_groups(answer, rest);
        if n < before.len() {
            lemma_group_read(answer, rest, n);
            let group = before[n];
            assert(keys[rest.index_of(group.group_id)] == group.group_id);
        } else {
            assert(keys[keys.len() - 1] == keys.last());
        }
    }
}

// ---------------------------------------------------------------------------------------
// Renaming a room
// ---------------------------------------------------------------------------------------

/// The texts are the same but for the case of letters.
pub open spec fn same_small(a: Seq<char>, b: Seq<char>) -> bool {
    text::lowercase(a) == text::lowercase(b)
}

/// A device that was documented in the renamed room is documented in the new one, and no other
/// device is touched.
pub proof fn renamed_room_takes_its_devices_along(
    docs: DocsModel,
    old_name: Seq<char>,
    new_name: Seq<char>,
    now: Seq<char>,
    key: Seq<char>,
)
    ensures
        ({
            let after = rooms::docs_after_rename(docs, old_name, new_name, now);
            &&& after.contains_key(key) <==> docs.contains_key(key)
            &&& docs.contains_key(key) ==> match docs[key].room {
                Some(r) => if same_small(r, old_name) {
                    after[key].room == Some(new_name) && after[key].updated_at == now
                } else {
                    after[key] == docs[key]
                },
                None => after[key] == docs[key],
            }
        }),
{
}

/// The groups of lights that were in the renamed room, and only they, are saved with the new room
/// and nothing else changed.
pub proof fn renamed_room_takes_its_groups_along(
    groups: Seq<LightGroupModel>,
    old_name: Seq<char>,
    new_name: Seq<char>,
    g: LightGroupModel,
)
    ensures
        groups.contains(g) && same_small(g.room, old_name) ==> rooms::moved_groups(groups, old_name, new_name).contains(
            LightGroupModel { room: new_name, ..g },
        ),
        rooms::moved_groups(groups, old_name, new_name).contains(g) ==> g.room == new_name && exists|old_room: Seq<char>|
            same_small(old_room, old_name) && #[trigger] groups.contains(LightGroupModel { room: old_room, ..g }),
    decreases groups.len(),
{
    if groups.len() > 0 {
        let rest = groups.drop_last();
        let last = groups.last();
        let before = rooms::moved_groups(rest, old_name, new_name);
        let moved = LightGroupModel { room: new_name, ..last };
        renamed_room_takes_its_groups_along(rest, old_name, new_name, g);
        assert(rest.push(last) =~= groups);
        crate::text_map::lemma_push_contains(rest, last);
        crate::text_map::lemma_push_contains(before, moved);
        if rooms::moved_groups(groups, old_name, new_name).contains(g) {
            if before.contains(g) {
                let r = choose|old_room: Seq<char>|
                    same_small(old_room, old_name) && #[trigger] rest.contains(LightGroupModel { room: old_room, ..g });
                assert(groups.contains(LightGroupModel { room: r, ..g }));
            } else {
                assert(g == moved);
                assert(last == (LightGroupModel { room: last.room, ..g }));
                assert(groups.contains(LightGroupModel { room: last.room, ..g }));
            }
        }
    }
}

/// A room counts as renamed exactly where its name differs in more than the case of its letters.
pub proof fn case_alone_renames_nothing(old_name: Seq<char>, new_name: Seq<char>)
    ensures
        text::same_ignoring_ascii_case(old_name, new_name) ==> !rooms::is_renamed(old_name, new_name),
        rooms::is_renamed(old_name, new_name) ==> old_name != new_name,
        rooms::is_renamed(old_name, new_name) <==> rooms::is_renamed(new_name, old_name),
        !same_small(old_name, new_name) ==> rooms::is_renamed(old_name, new_name),
{
    if text::same_ignoring_ascii_case(old_name, new_name) {
        text::case_of_ascii_letters_is_lowered(old_name, new_name);
    }
}

/// A room is saved as it was given; only its group at the bridge is taken over from before, where
/// it brings none.
pub proof fn saved_rooms_keep_their_group(room: RoomModel, earlier: Option<RoomModel>)
    ensures
        ({
            let saved = rooms::room_to_save(room, earlier);
            &&& saved.id == room.id && saved.name == room.name && saved.floor == room.floor && saved.icon == room.icon
            &&& saved.archetype == room.archetype && saved.matter_tag == room.matter_tag && saved.hue_class == room.hue_class
            &&& room.hue_group_id is Some ==> saved.hue_group_id == room.hue_group_id
            &&& room.hue_group_id is None && earlier is Some ==> saved.hue_group_id == earlier->0.hue_group_id
            &&& room.hue_group_id is None && earlier is None ==> saved.hue_group_id is None
        }),
{
}

// ---------------------------------------------------------------------------------------
// Counting devices
// ---------------------------------------------------------------------------------------

/// Each room is listed in its place, and one more documentation is counted in exactly those rooms
/// whose name is that of its room, but for case and for space around it.
pub proof fn documented_devices_are_counted_in_their_room(
    list: Seq<RoomModel>,
    docs: DocsModel,
    keys: Seq<Seq<char>>,
    key: Seq<char>,
    doc: DocModel,
    i: int,
)
    requires
        0 <= i < list.len(),
        !keys.contains(key),
    ensures
        ({
            let before = rooms::rooms_with_counts(list, docs, keys);
            let after = rooms::rooms_with_counts(list, docs.insert(key, doc), keys.push(key));
            &&& before.len() == after.len() == list.len()
            &&& before[i].room == list[i] && after[i].room == list[i]
            &&& after[i].device_count == before[i].device_count + if doc.room is Some && same_small(
                text::trimmed(doc.room->0),
                text::trimmed(list[i].name),
            ) {
                1int
            } else {
                0
            }
            &&& rooms::rooms_with_counts(list, docs, Seq::empty())[i].device_count == 0
        }),
{
    let plain = text::lowercase(text::trimmed(list[i].name));
    let more = keys.push(key);
    assert(more.drop_last() =~= keys);
    lemma_count_elsewhere(docs, keys, key, doc, plain);
}

proof fn lemma_count_elsewhere(docs: DocsModel, keys: Seq<Seq<char>>, key: Seq<char>, doc: DocModel, plain: Seq<char>)
    requires
        !keys.contains(key),
    ensures
        rooms::docs_in_room(docs.insert(key, doc), keys, plain) == rooms::docs_in_room(docs, keys, plain),
    decreases keys.len(),
{
    if keys.len() > 0 {
        assert(keys.contains(keys[keys.len() - 1]));
        assert(!keys.drop_last().contains(key)) by {
            if keys.drop_last().contains(key) {
                assert(keys[keys.drop_last().index_of(key)] == key);
            }
        }
        lemma_count_elsewhere(docs, keys.drop_last(), key, doc, plain);
    }
}

// ---------------------------------------------------------------------------------------
// Telling the bridge
// ---------------------------------------------------------------------------------------

/// The bridge is told the name and the class of a room at the address of its group.
pub proof fn the_bridge_is_told_name_and_class(room: RoomModel, c: CredentialsModel, group: Seq<char>)
    ensures
        rooms::hue_body(room).member("name"@) == Some(Json::Text(room.name)),
        room.hue_class is Some ==> rooms::hue_body(room).member("class"@) == Some(Json::Text(room.hue_class->0)),
        rooms::group_url(c, group) == "http://"@ + c.bridge_ip + "/api/"@ + c.username + "/groups"@ + "/"@ + group,
{
    reveal_strlit("name");
    reveal_strlit("class");
    assert("name"@.len() == 4 && "class"@.len() == 5);
}

/// The kinds of rooms, each with the class that the bridge has for it.
pub open spec fn class_of_kind() -> Seq<(Seq<char>, Seq<char>)> {
    seq![
        ("living_room"@, "Living room"@),
        ("kitchen"@, "Kitchen"@),
        ("dining_room"@, "Dining"@),
        ("bedroom"@, "Bedroom"@),
        ("kids_room"@, "Kids bedroom"@),
        ("bathroom"@, "Bathroom"@),
        ("office"@, "Home office"@),
        ("hallway"@, "Hallway"@),
        ("outdoor"@, "Garden"@),
        ("garage"@, "Garage"@),
    ]
}

/// A room without a class of its own is told to the bridge with the class of its kind, or as some
/// other room where it has no kind.
pub proof fn rooms_have_the_class_of_their_kind(room: RoomModel, i: int)
    requires
        room.hue_class is None,
        0 <= i < class_of_kind().len(),
    ensures
        room.archetype == Some(class_of_kind()[i].0) ==> rooms::hue_class(room) == class_of_kind()[i].1,
        room.archetype is None ==> rooms::hue_class(room) == "Other"@,
{
    reveal_strlit("living_room");
    reveal_strlit("kitchen");
    reveal_strlit("dining_room");
    reveal_strlit("bedroom");
    reveal_strlit("kids_room");
    reveal_strlit("bathroom");
    reveal_strlit("office");
    reveal_strlit("hallway");
    reveal_strlit("outdoor");
    reveal_strlit("garage");
    assert("living_room"@.len() == 11 && "living_room"@[0] == 'l');
    assert("kitchen"@.len() == 7 && "kitchen"@[0] == 'k');
    assert("dining_room"@.len() == 11 && "dining_room"@[0] == 'd');
    assert("bedroom"@.len() == 7 && "bedroom"@[0] == 'b');
    assert("kids_room"@.len() == 9);
    assert("bathroom"@.len() == 8);
    assert("office"@.len() == 6 && "office"@[0] == 'o');
    assert("hallway"@.len() == 7 && "hallway"@[0] == 'h');
    assert("outdoor"@.len() == 7 && "outdoor"@[0] == 'o');
    assert("garage"@.len() == 6 && "garage"@[0] == 'g');
}

/// Credentials are those that stand in the file; without a user name there are none.
pub proof fn credentials_are_read(m: Map<Seq<char>, Json>, ip: Seq<char>, user: Seq<char>)
    requires
        m.contains_key("username"@),
        m["username"@] == Json::Text(user),
        m.contains_key("bridge_ip"@),
        m["bridge_ip"@] == Json::Text(ip),
    ensures
        user.len() > 0 ==> rooms::credentials_in(Json::Object(m)) == Some(CredentialsModel { bridge_ip: ip, username: user }),
        user.len() == 0 ==> rooms::credentials_in(Json::Object(m)) is None,
        rooms::credentials_in(Json::Object(m.remove("username"@))) is None,
{
}

/// Credentials and rooms are read from texts as from what the texts say; a text that says nothing holds
/// neither.
pub proof fn texts_of_the_bridge_are_read(content: Seq<char>)
    ensures
        json::parsed(content) is None ==> rooms::credentials_in_text(content) is None && rooms::hue_rooms_in_text(
            content,
        ) is None,
        json::parsed(content) is Some ==> rooms::credentials_in_text(content) == rooms::credentials_in(
            json::parsed(content)->0,
        ) && rooms::hue_rooms_in_text(content) == rooms::hue_rooms(json::parsed(content)->0),
{
}

/// The answer to an import tells how many rooms came and how many devices moved.
pub proof fn imports_are_answered_with_numbers(count: nat, moved: nat)
    ensures
        rooms::import_message(count, moved) == text::decimal(count) + " Räume importiert und "@ + text::decimal(moved)
            + " Geräte zugeordnet."@,
{
}

/// A rename is told to have moved devices exactly where one is documented in the room, whatever the case of its
/// name.
pub proof fn renames_tell_whether_devices_moved(docs: DocsModel, name: Seq<char>, k: Seq<char>)
    ensures
        docs.contains_key(k) && docs[k].room is Some && text::lowercase(docs[k].room->0) == text::lowercase(name)
            ==> rooms::any_doc_in(docs, name),
        (forall|j: Seq<char>| #[trigger]
            docs.contains_key(j) ==> !(docs[j].room is Some && text::lowercase(docs[j].room->0) == text::lowercase(name)))
            ==> !rooms::any_doc_in(docs, name),
{
    if docs.contains_key(k) && docs[k].room is Some && text::lowercase(docs[k].room->0) == text::lowercase(name) {
        assert(rooms::is_doc_in(docs[k], name));
    }
    if rooms::any_doc_in(docs, name) {
        let j = choose|j: Seq<char>| #[trigger] docs.contains_key(j) && rooms::is_doc_in(docs[j], name);
        assert(docs.contains_key(j));
    }
}

}
