//! The rooms page: which room a device is in, and what is told of rooms and groups.

use vstd::prelude::*;

use crate::device::DeviceModel;
use crate::json;
use crate::json::Json;
use crate::laws::hearing;
use crate::laws::texts;
use crate::pages::rooms;
use crate::pages::rooms_frame;
use crate::records::{DocModel, GoveeModel, LightGroupModel, RoomModel};
use crate::text;
use crate::unify::UnifiedModel;

verus! {

broadcast use vstd::string::group_string_axioms;

/// What tells the names of the members of a room apart.
proof fn lemma_room_words()
    ensures
        "id"@.len() == 2,
        "name"@.len() == 4,
        "floor"@.len() == 5,
        "icon"@.len() == 4,
        "archetype"@.len() == 9,
        "matter_tag"@.len() == 10,
        "hue_group_id"@.len() == 12,
        "hue_class"@.len() == 9,
        "device_count"@.len() == 12,
        "name"@[0] == 'n',
        "icon"@[0] == 'i',
        "archetype"@[0] == 'a',
        "hue_class"@[0] == 'h',
        "hue_group_id"@[0] == 'h',
        "device_count"@[0] == 'd',
{
    reveal_strlit("id");
    reveal_strlit("name");
    reveal_strlit("floor");
    reveal_strlit("icon");
    reveal_strlit("archetype");
    reveal_strlit("matter_tag");
    reveal_strlit("hue_group_id");
    reveal_strlit("hue_class");
    reveal_strlit("device_count");
}

/// What tells the names of the members of a group apart.
proof fn lemma_group_words()
    ensures
        "id"@.len() == 2,
        "name"@.len() == 4,
        "room"@.len() == 4,
        "device_ids"@.len() == 10,
        "icon"@.len() == 4,
        "created_at"@.len() == 10,
        "updated_at"@.len() == 10,
        "name"@[0] == 'n',
        "room"@[0] == 'r',
        "icon"@[0] == 'i',
        "device_ids"@[0] == 'd',
        "created_at"@[0] == 'c',
        "updated_at"@[0] == 'u',
{
    reveal_strlit("id");
    reveal_strlit("name");
    reveal_strlit("room");
    reveal_strlit("device_ids");
    reveal_strlit("icon");
    reveal_strlit("created_at");
    reveal_strlit("updated_at");
}

/// What is written down of a device: under its MAC address, under that address in small letters, or under its
/// id, whichever is there first.
pub open spec fn written(docs: Map<Seq<char>, DocModel>, d: DeviceModel) -> Option<DocModel> {
    let mac = hearing::reported(d, "mac"@);
    if mac.len() > 0 && docs.contains_key(mac) {
        Some(docs[mac])
    } else if mac.len() == 0 && docs.contains_key(d.device_id) {
        Some(docs[d.device_id])
    } else if docs.contains_key(mac) {
        Some(docs[mac])
    } else if docs.contains_key(text::lowercase(mac)) {
        Some(docs[text::lowercase(mac)])
    } else if docs.contains_key(d.device_id) {
        Some(docs[d.device_id])
    } else {
        None
    }
}

/// The same of an interface, which may have no MAC address.
pub open spec fn written_of_interface(docs: Map<Seq<char>, DocModel>, d: DeviceModel) -> Option<DocModel> {
    let mac = hearing::reported(d, "mac"@);
    if docs.contains_key(mac) {
        Some(docs[mac])
    } else if docs.contains_key(text::lowercase(mac)) {
        Some(docs[text::lowercase(mac)])
    } else if docs.contains_key(d.device_id) {
        Some(docs[d.device_id])
    } else {
        None
    }
}

/// The room that is written down, or else the one that is reported.
pub open spec fn room_told(doc: Option<DocModel>, d: DeviceModel) -> Option<Seq<char>> {
    if doc is Some && doc->0.room is Some {
        doc->0.room
    } else if d.metadata.contains_key("room"@) {
        Some(d.metadata["room"@])
    } else {
        None
    }
}

/// A device is in the room that is told of it; where none is, in the one that is told of the first of its
/// interfaces of which one is.
pub proof fn devices_are_in_the_room_that_is_told(docs: Map<Seq<char>, DocModel>, u: UnifiedModel, k: int)
    ensures
        ({
            let own = room_told(written(docs, u.primary), u.primary);
            let others = u.secondary_interfaces;
            &&& own is Some ==> rooms::assigned_room(docs, u) == own
            &&& own is None && 0 <= k < others.len() && room_told(written_of_interface(docs, others[k]), others[k]) is Some
                && (forall|i: int|
                0 <= i < k ==> room_told(written_of_interface(docs, #[trigger] others[i]), others[i]) is None)
                ==> rooms::assigned_room(docs, u) == room_told(written_of_interface(docs, others[k]), others[k])
            &&& own is None && (forall|i: int|
                0 <= i < others.len() ==> room_told(written_of_interface(docs, #[trigger] others[i]), others[i]) is None)
                ==> rooms::assigned_room(docs, u) is None
        }),
{
    let d = u.primary;
    let others = u.secondary_interfaces;
    assert(hearing::reported(d, "mac"@) =~= d.meta_or_empty("mac"@));
    assert(rooms::primary_doc(docs, d) == written(docs, d));
    if 0 <= k < others.len() && room_told(written_of_interface(docs, others[k]), others[k]) is Some && (forall|i: int|
        0 <= i < k ==> room_told(written_of_interface(docs, #[trigger] others[i]), others[i]) is None) {
        lemma_first_room(docs, others, k);
    }
    if forall|i: int|
        0 <= i < others.len() ==> room_told(written_of_interface(docs, #[trigger] others[i]), others[i]) is None {
        lemma_no_room(docs, others);
    }
}

proof fn lemma_first_room(docs: Map<Seq<char>, DocModel>, others: Seq<DeviceModel>, k: int)
    requires
        0 <= k < others.len(),
        room_told(written_of_interface(docs, others[k]), others[k]) is Some,
        forall|i: int| 0 <= i < k ==> room_told(written_of_interface(docs, #[trigger] others[i]), others[i]) is None,
    ensures
        rooms::first_room(docs, others) == room_told(written_of_interface(docs, others[k]), others[k]),
    decreases others.len(),
{
    let rest = others.drop_last();
    let l = others.last();
    assert(hearing::reported(l, "mac"@) =~= l.meta_or_empty("mac"@));
    if k < others.len() - 1 {
        assert(rest[k] == others[k]);
        assert forall|i: int| 0 <= i < k implies room_told(written_of_interface(docs, #[trigger] rest[i]), rest[i]) is None by {
            assert(rest[i] == others[i]);
        }
        lemma_first_room(docs, rest, k);
    } else {
        assert forall|i: int| 0 <= i < rest.len() implies room_told(
            written_of_interface(docs, #[trigger] rest[i]),
            rest[i],
        ) is None by {
            assert(rest[i] == others[i]);
        }
        lemma_no_room(docs, rest);
    }
}

proof fn lemma_no_room(docs: Map<Seq<char>, DocModel>, others: Seq<DeviceModel>)
    requires
        forall|i: int|
            0 <= i < others.len() ==> room_told(written_of_interface(docs, #[trigger] others[i]), others[i]) is None,
    ensures
        rooms::first_room(docs, others) is None,
    decreases others.len(),
{
    if others.len() > 0 {
        let rest = others.drop_last();
        let l = others.last();
        assert(hearing::reported(l, "mac"@) =~= l.meta_or_empty("mac"@));
        assert(others[others.len() - 1] == l);
        assert forall|i: int| 0 <= i < rest.len() implies room_told(
            written_of_interface(docs, #[trigger] rest[i]),
            rest[i],
        ) is None by {
            assert(rest[i] == others[i]);
        }
        lemma_no_room(docs, rest);
    }
}

/// A device counts in its room, and as assigned, where it is told a room that is not blank; each counts once.
pub proof fn devices_count_in_their_room(
    docs: Map<Seq<char>, DocModel>,
    list: Seq<UnifiedModel>,
    u: UnifiedModel,
    name: Seq<char>,
)
    ensures
        ({
            let room = rooms::assigned_room(docs, u);
            let assigned = room is Some && text::trimmed(room->0).len() > 0;
            &&& rooms::assigned_count(docs, Seq::empty()) == 0
            &&& rooms::room_count(docs, Seq::empty(), name) == 0
            &&& rooms::assigned_count(docs, list.push(u)) == rooms::assigned_count(docs, list) + if assigned {
                1int
            } else {
                0int
            }
            &&& rooms::room_count(docs, list.push(u), name) == rooms::room_count(docs, list, name) + if assigned && room->0
                == name {
                1int
            } else {
                0int
            }
        }),
{
    assert(list.push(u).drop_last() =~= list);
    assert(Seq::<UnifiedModel>::empty().len() == 0);
}

/// A text that is given, or another one.
pub open spec fn given_or(s: Option<Seq<char>>, otherwise: Seq<char>) -> Json {
    match s {
        Some(t) => Json::Text(t),
        None => Json::Text(otherwise),
    }
}

/// Every room is told as it is kept, in order, with the number of its devices.
pub proof fn rooms_are_told_as_they_are_kept(
    list: Seq<RoomModel>,
    docs: Map<Seq<char>, DocModel>,
    items: Seq<UnifiedModel>,
    i: int,
)
    requires
        0 <= i < list.len(),
    ensures
        ({
            let all = rooms::rooms_json(list, docs, items);
            let o = all->List_0[i];
            let r = list[i];
            &&& all is List && all->List_0.len() == list.len()
            &&& o.member("id"@) == Some(Json::Text(r.id))
            &&& o.member("name"@) == Some(Json::Text(r.name))
            &&& o.member("floor"@) == Some(given_or(r.floor, "Sonstige"@))
            &&& o.member("icon"@) == Some(given_or(r.icon, "📍"@))
            &&& o.member("archetype"@) == Some(given_or(r.archetype, ""@))
            &&& o.member("matter_tag"@) == Some(given_or(r.matter_tag, ""@))
            &&& o.member("hue_group_id"@) == Some(given_or(r.hue_group_id, ""@))
            &&& o.member("hue_class"@) == Some(given_or(r.hue_class, ""@))
            &&& rooms::room_count(docs, items, r.name) <= u64::MAX ==> o.member("device_count"@) == Some(
                Json::Unsigned(rooms::room_count(docs, items, r.name) as u64),
            )
        }),
{
    lemma_room_words();
}

/// Every group of lights is told as it is kept, in order, with all its devices.
pub proof fn groups_are_told_as_they_are_kept(groups: Seq<LightGroupModel>, i: int, j: int)
    requires
        0 <= i < groups.len(),
        0 <= j < groups[i].device_ids.len(),
    ensures
        ({
            let all = rooms::light_groups_json(groups);
            let o = all->List_0[i];
            let g = groups[i];
            &&& all is List && all->List_0.len() == groups.len()
            &&& o.member("id"@) == Some(Json::Text(g.id))
            &&& o.member("name"@) == Some(Json::Text(g.name))
            &&& o.member("room"@) == Some(Json::Text(g.room))
            &&& o.member("icon"@) == Some(given_or(g.icon, "💡"@))
            &&& o.member("created_at"@) == Some(Json::Text(g.created_at))
            &&& o.member("updated_at"@) == Some(Json::Text(g.updated_at))
            &&& o.member("device_ids"@) is Some && o.member("device_ids"@)->0 is List
            &&& o.member("device_ids"@)->0->List_0.len() == g.device_ids.len()
            &&& o.member("device_ids"@)->0->List_0[j] == Json::Text(g.device_ids[j])
        }),
{
    lemma_group_words();
}

/// The page counts the devices without a room, those with one, and the rooms, in this order.
pub proof fn the_page_counts_its_devices(
    list: Seq<RoomModel>,
    items: Seq<UnifiedModel>,
    docs: Map<Seq<char>, DocModel>,
    states: Map<Seq<char>, GoveeModel>,
    groups: Seq<LightGroupModel>,
)
    ensures
        ({
            let assigned = rooms::assigned_count(docs, items);
            text::has(
                rooms::rooms_content(list, items, docs, states, groups),
                rooms_frame::CONTENT_0@ + text::decimal((items.len() - assigned) as nat) + rooms_frame::CONTENT_1@
                    + text::decimal(assigned) + rooms_frame::CONTENT_2@ + text::decimal(list.len())
                    + rooms_frame::CONTENT_3@,
            )
        }),
{
    let assigned = rooms::assigned_count(docs, items);
    let free = text::decimal((items.len() - assigned) as nat);
    let taken = text::decimal(assigned);
    let n = text::decimal(list.len());
    let a = text::or_text(json::compact_text(rooms::rooms_json(list, docs, items)), "[]"@);
    let b = text::or_text(json::compact_text(rooms::room_devices_json(items, docs, states)), "[]"@);
    let c = text::or_text(json::compact_text(rooms::light_groups_json(groups)), "[]"@);
    let s = rooms_frame::CONTENT_0@ + free + rooms_frame::CONTENT_1@ + taken + rooms_frame::CONTENT_2@ + n
        + rooms_frame::CONTENT_3@;
    texts::lemma_stands_at_the_end(Seq::empty(), s);
    assert(Seq::<char>::empty() + s =~= s);
    texts::lemma_stands_with_four(s, rooms_frame::CONTENT_4@, a, rooms_frame::CONTENT_5@, b, s);
    let t = s + rooms_frame::CONTENT_4@ + a + rooms_frame::CONTENT_5@ + b;
    texts::lemma_stands_with_four(t, rooms_frame::CONTENT_6@, c, rooms_frame::CONTENT_7@, rooms_frame::CONTENT_8@, s);
    let v = t + rooms_frame::CONTENT_6@ + c + rooms_frame::CONTENT_7@ + rooms_frame::CONTENT_8@;
    texts::lemma_stands_with_more(v, rooms_frame::CONTENT_9@, s);
    texts::lemma_stands_with_more(v + rooms_frame::CONTENT_9@, rooms_frame::CONTENT_10@, s);
}

/// The address that a device reports is the one that is told; where it reports none, or a dash, the first
/// usable one of its interfaces is.
pub proof fn addresses_come_from_the_interfaces_too(u: UnifiedModel, k: int)
    ensures
        ({
            let own = hearing::reported(u.primary, "ip"@);
            let others = u.secondary_interfaces;
            let usable = |d: DeviceModel|
                d.metadata.contains_key("ip"@) && d.metadata["ip"@].len() > 0 && d.metadata["ip"@] != "-"@
                    && !d.metadata["ip"@].contains('(');
            &&& own.len() > 0 && own != "-"@ ==> rooms::device_ip(u) == own
            &&& (own.len() == 0 || own == "-"@) && 0 <= k < others.len() && usable(others[k]) && (forall|i: int|
                0 <= i < k ==> !usable(#[trigger] others[i])) ==> rooms::device_ip(u) == others[k].metadata["ip"@]
            &&& (own.len() == 0 || own == "-"@) && (forall|i: int| 0 <= i < others.len() ==> !usable(#[trigger] others[i]))
                ==> rooms::device_ip(u) == own
        }),
{
    let own = hearing::reported(u.primary, "ip"@);
    let others = u.secondary_interfaces;
    let usable = |d: DeviceModel|
        d.metadata.contains_key("ip"@) && d.metadata["ip"@].len() > 0 && d.metadata["ip"@] != "-"@ && !d.metadata["ip"@].contains(
            '(',
        );
    assert(own =~= u.primary.meta_or_empty("ip"@));
    if 0 <= k < others.len() && usable(others[k]) && (forall|i: int| 0 <= i < k ==> !usable(#[trigger] others[i])) {
        lemma_first_ip(others, k, usable);
    }
    if forall|i: int| 0 <= i < others.len() ==> !usable(#[trigger] others[i]) {
        lemma_no_ip(others, usable);
    }
}

proof fn lemma_first_ip(others: Seq<DeviceModel>, k: int, usable: spec_fn(DeviceModel) -> bool)
    requires
        forall|d: DeviceModel|
            #[trigger] usable(d) == (d.metadata.contains_key("ip"@) && d.metadata["ip"@].len() > 0 && d.metadata["ip"@] != "-"@
                && !d.metadata["ip"@].contains('(')),
        0 <= k < others.len(),
        usable(others[k]),
        forall|i: int| 0 <= i < k ==> !usable(#[trigger] others[i]),
    ensures
        rooms::first_ip(others) == Some(others[k].metadata["ip"@]),
    decreases others.len(),
{
    let rest = others.drop_last();
    assert(usable(others.last()) == usable(others[others.len() - 1]));
    if k < others.len() - 1 {
        assert(rest[k] == others[k]);
        assert forall|i: int| 0 <= i < k implies !usable(#[trigger] rest[i]) by {
            assert(rest[i] == others[i]);
        }
        lemma_first_ip(rest, k, usable);
    } else {
        assert forall|i: int| 0 <= i < rest.len() implies !usable(#[trigger] rest[i]) by {
            assert(rest[i] == others[i]);
        }
        lemma_no_ip(rest, usable);
    }
}

proof fn lemma_no_ip(others: Seq<DeviceModel>, usable: spec_fn(DeviceModel) -> bool)
    requires
        forall|d: DeviceModel|
            #[trigger] usable(d) == (d.metadata.contains_key("ip"@) && d.metadata["ip"@].len() > 0 && d.metadata["ip"@] != "-"@
                && !d.metadata["ip"@].contains('(')),
        forall|i: int| 0 <= i < others.len() ==> !usable(#[trigger] others[i]),
    ensures
        rooms::first_ip(others) is None,
    decreases others.len(),
{
    if others.len() > 0 {
        let rest = others.drop_last();
        assert(!usable(others[others.len() - 1]));
        assert(usable(others.last()) == usable(others[others.len() - 1]));
        assert forall|i: int| 0 <= i < rest.len() implies !usable(#[trigger] rest[i]) by {
            assert(rest[i] == others[i]);
        }
        lemma_no_ip(rest, usable);
    }
}

}
