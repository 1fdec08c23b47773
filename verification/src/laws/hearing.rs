//! What is added to an event: the gateway that heard it and the room it comes from.

use vstd::prelude::*;

use crate::device::DeviceModel;
use crate::events;
use crate::json;
use crate::json::Json;
use crate::records::DocModel;
use crate::text;

verus! {

broadcast use vstd::string::group_string_axioms;

/// What the event says under `key`, where that is a text.
pub open spec fn says(m: Map<Seq<char>, Json>, key: Seq<char>) -> Option<Seq<char>> {
    if m.contains_key(key) && m[key] is Text {
        Some(m[key]->Text_0)
    } else {
        None
    }
}

/// What the device reports under `key`, or nothing.
pub open spec fn reported(d: DeviceModel, key: Seq<char>) -> Seq<char> {
    if d.metadata.contains_key(key) {
        d.metadata[key]
    } else {
        Seq::empty()
    }
}

/// An id in small letters, without what separates its parts.
pub open spec fn plain(id: Seq<char>) -> Seq<char> {
    text::lowercase(text::without(id, seq!['-', '_', ':']))
}

/// The event names the device as its gateway: by its address, by a description that holds the
/// address, or by an id that is part of the device's MAC address or id.
pub open spec fn names(m: Map<Seq<char>, Json>, d: DeviceModel) -> bool {
    let ip = reported(d, "ip"@);
    let mac = plain(reported(d, "mac"@));
    ||| says(m, "gateway_ip"@) == Some(ip)
    ||| says(m, "gateway"@) is Some && text::bytes(ip) > 6 && text::has(says(m, "gateway"@)->0, ip)
    ||| says(m, "gateway_id"@) is Some && plain(says(m, "gateway_id"@)->0).len() > 0 && (text::has(
        plain(says(m, "gateway_id"@)->0),
        mac,
    ) || text::has(mac, plain(says(m, "gateway_id"@)->0)) || text::has(
        text::lowercase(d.device_id),
        plain(says(m, "gateway_id"@)->0),
    ))
}

proof fn lemma_empty_bytes()
    ensures
        text::bytes(Seq::<char>::empty()) == 0,
{
    reveal_with_fuel(vstd::utf8::encode_utf8, 1);
    assert(Seq::<char>::empty().len() == 0);
}

proof fn lemma_gateway(m: Map<Seq<char>, Json>, devices: Seq<DeviceModel>, j: int)
    requires
        0 <= j < devices.len(),
        names(m, devices[j]),
        forall|i: int| 0 <= i < j ==> !names(m, #[trigger] devices[i]),
    ensures
        events::gateway_of(Json::Object(m), devices) == Some(devices[j]),
    decreases devices.len(),
{
    let rest = devices.drop_last();
    lemma_named(m, devices.last());
    if j < devices.len() - 1 {
        assert(rest[j] == devices[j]);
        assert forall|i: int| 0 <= i < j implies !names(m, #[trigger] rest[i]) by {
            assert(rest[i] == devices[i]);
        }
        lemma_gateway(m, rest, j);
    } else {
        assert forall|i: int| 0 <= i < rest.len() implies !names(m, #[trigger] rest[i]) by {
            assert(rest[i] == devices[i]);
        }
        lemma_no_gateway(m, rest);
    }
}

proof fn lemma_no_gateway(m: Map<Seq<char>, Json>, devices: Seq<DeviceModel>)
    requires
        forall|i: int| 0 <= i < devices.len() ==> !names(m, #[trigger] devices[i]),
    ensures
        events::gateway_of(Json::Object(m), devices) is None,
    decreases devices.len(),
{
    if devices.len() > 0 {
        let rest = devices.drop_last();
        lemma_named(m, devices.last());
        assert(devices[devices.len() - 1] == devices.last());
        assert forall|i: int| 0 <= i < rest.len() implies !names(m, #[trigger] rest[i]) by {
            assert(rest[i] == devices[i]);
        }
        lemma_no_gateway(m, rest);
    }
}

proof fn lemma_named(m: Map<Seq<char>, Json>, d: DeviceModel)
    ensures
        names(m, d) == (events::names_ip(Json::Object(m), d) || events::names_id(Json::Object(m), d)),
{
    let ip = reported(d, "ip"@);
    assert(ip =~= d.meta_or_empty("ip"@));
    assert(reported(d, "mac"@) =~= d.meta_or_empty("mac"@));
    lemma_empty_bytes();
    if says(m, "gateway"@) is Some {
        let described = says(m, "gateway"@)->0;
        if described.len() == 0 && text::has(described, ip) {
            assert(ip.len() == 0);
            assert(ip =~= Seq::<char>::empty());
        }
    }
}

/// What is written down of the device, by its id or else by its MAC address.
pub open spec fn written(docs: Map<Seq<char>, DocModel>, d: DeviceModel) -> Option<DocModel> {
    if docs.contains_key(d.device_id) {
        Some(docs[d.device_id])
    } else if docs.contains_key(reported(d, "mac"@)) {
        Some(docs[reported(d, "mac"@)])
    } else {
        None
    }
}

/// An event is told with the name of the first device that it names as its gateway: the name that
/// is written down, else the one the device reports, else its host name.
pub proof fn events_tell_their_gateway(
    m: Map<Seq<char>, Json>,
    devices: Seq<DeviceModel>,
    docs: Map<Seq<char>, DocModel>,
    j: int,
)
    requires
        0 <= j < devices.len(),
        names(m, devices[j]),
        forall|i: int| 0 <= i < j ==> !names(m, #[trigger] devices[i]),
    ensures
        ({
            let d = devices[j];
            let doc = written(docs, d);
            let told = events::enriched(Json::Object(m), devices, docs).member("gateway_name"@);
            &&& doc is Some && doc->0.name is Some ==> told == Some(Json::Text(doc->0.name->0))
            &&& !(doc is Some && doc->0.name is Some) && d.display_name.len() > 0 ==> told == Some(
                Json::Text(d.display_name),
            )
            &&& !(doc is Some && doc->0.name is Some) && d.display_name.len() == 0 && reported(d, "hostname"@).len() > 0
                ==> told == Some(Json::Text(reported(d, "hostname"@)))
        }),
{
    lemma_gateway(m, devices, j);
    lemma_two_keys();
    let d = devices[j];
    assert(reported(d, "mac"@) =~= d.meta_or_empty("mac"@));
    assert(reported(d, "hostname"@) =~= d.meta_or_empty("hostname"@));
}

proof fn lemma_two_keys()
    ensures
        "gateway_name"@ != "room"@,
{
    reveal_strlit("gateway_name");
    reveal_strlit("room");
    assert("gateway_name"@.len() == 12);
}

/// The words that tell a room, beside the room; the first that stands in a name tells.
pub open spec fn words_for_rooms() -> Seq<(Seq<char>, Seq<char>)> {
    seq![
        ("wohnzimmer"@, "Wohnzimmer"@),
        ("living"@, "Wohnzimmer"@),
        ("büro"@, "Büro"@),
        ("buero"@, "Büro"@),
        ("office"@, "Büro"@),
        ("küche"@, "Küche"@),
        ("kueche"@, "Küche"@),
        ("kitchen"@, "Küche"@),
        ("schlafzimmer"@, "Schlafzimmer"@),
        ("bedroom"@, "Schlafzimmer"@),
        ("balkon"@, "Balkon"@),
        ("balcony"@, "Balkon"@),
        ("flur"@, "Flur"@),
        ("hall"@, "Flur"@),
        ("keller"@, "Keller"@),
        ("basement"@, "Keller"@),
        ("garage"@, "Garage"@),
    ]
}

/// The room that the first word in `words` tells.
pub open spec fn first_told(words: Seq<char>, k: int) -> bool {
    &&& 0 <= k < words_for_rooms().len()
    &&& text::has(words, words_for_rooms()[k].0)
    &&& forall|i: int| 0 <= i < k ==> !text::has(words, (#[trigger] words_for_rooms()[i]).0)
}

proof fn lemma_room_told(words: Seq<char>, k: int)
    requires
        first_told(words, k),
    ensures
        events::room_in_words(words) == Some(words_for_rooms()[k].1),
{
    let w = words_for_rooms();
    assert(w[0].0 == "wohnzimmer"@ && w[1].0 == "living"@ && w[2].0 == "büro"@ && w[3].0 == "buero"@ && w[4].0 == "office"@);
    assert(w[5].0 == "küche"@ && w[6].0 == "kueche"@ && w[7].0 == "kitchen"@ && w[8].0 == "schlafzimmer"@);
    assert(w[9].0 == "bedroom"@ && w[10].0 == "balkon"@ && w[11].0 == "balcony"@ && w[12].0 == "flur"@);
    assert(w[13].0 == "hall"@ && w[14].0 == "keller"@ && w[15].0 == "basement"@ && w[16].0 == "garage"@);
}

proof fn lemma_no_room_told(words: Seq<char>)
    requires
        forall|i: int| 0 <= i < words_for_rooms().len() ==> !text::has(words, (#[trigger] words_for_rooms()[i]).0),
    ensures
        events::room_in_words(words) is None,
{
    let w = words_for_rooms();
    assert(w[0].0 == "wohnzimmer"@ && w[1].0 == "living"@ && w[2].0 == "büro"@ && w[3].0 == "buero"@ && w[4].0 == "office"@);
    assert(w[5].0 == "küche"@ && w[6].0 == "kueche"@ && w[7].0 == "kitchen"@ && w[8].0 == "schlafzimmer"@);
    assert(w[9].0 == "bedroom"@ && w[10].0 == "balkon"@ && w[11].0 == "balcony"@ && w[12].0 == "flur"@);
    assert(w[13].0 == "hall"@ && w[14].0 == "keller"@ && w[15].0 == "basement"@ && w[16].0 == "garage"@);
}

/// An event comes from the room that is written down of the gateway that heard it; else from the one
/// that the gateway's names tell; else from the one that is written down of the sender.
pub proof fn events_tell_their_room(
    m: Map<Seq<char>, Json>,
    devices: Seq<DeviceModel>,
    docs: Map<Seq<char>, DocModel>,
    j: int,
    k: int,
)
    requires
        0 <= j < devices.len(),
        names(m, devices[j]),
        forall|i: int| 0 <= i < j ==> !names(m, #[trigger] devices[i]),
    ensures
        ({
            let d = devices[j];
            let doc = written(docs, d);
            let told = events::enriched(Json::Object(m), devices, docs).member("room"@);
            let words = text::lowercase(d.display_name + " "@ + reported(d, "hostname"@));
            &&& doc is Some && doc->0.room is Some ==> told == Some(Json::Text(doc->0.room->0))
            &&& !(doc is Some && doc->0.room is Some) && first_told(words, k) ==> told == Some(
                Json::Text(words_for_rooms()[k].1),
            )
            &&& !(doc is Some && doc->0.room is Some) && (forall|i: int|
                0 <= i < words_for_rooms().len() ==> !text::has(words, (#[trigger] words_for_rooms()[i]).0)) && says(
                m,
                "mac"@,
            ) is Some && docs.contains_key(says(m, "mac"@)->0) && docs[says(m, "mac"@)->0].room is Some ==> told == Some(
                Json::Text(docs[says(m, "mac"@)->0].room->0),
            )
        }),
{
    lemma_gateway(m, devices, j);
    lemma_two_keys();
    let d = devices[j];
    let words = text::lowercase(d.display_name + " "@ + reported(d, "hostname"@));
    assert(reported(d, "mac"@) =~= d.meta_or_empty("mac"@));
    assert(reported(d, "hostname"@) =~= d.meta_or_empty("hostname"@));
    if first_told(words, k) {
        lemma_room_told(words, k);
    }
    if forall|i: int| 0 <= i < words_for_rooms().len() ==> !text::has(words, (#[trigger] words_for_rooms()[i]).0) {
        lemma_no_room_told(words);
    }
}

/// An event that names no device is told with the room that is written down of its sender, if any,
/// and with nothing more.
pub proof fn unheard_events_tell_their_sender(
    m: Map<Seq<char>, Json>,
    devices: Seq<DeviceModel>,
    docs: Map<Seq<char>, DocModel>,
)
    requires
        forall|i: int| 0 <= i < devices.len() ==> !names(m, #[trigger] devices[i]),
        says(m, "mac"@) is Some,
        docs.contains_key(says(m, "mac"@)->0),
    ensures
        docs[says(m, "mac"@)->0].room is Some ==> events::enriched(Json::Object(m), devices, docs) == Json::Object(
            m.insert("room"@, Json::Text(docs[says(m, "mac"@)->0].room->0)),
        ),
        docs[says(m, "mac"@)->0].room is None ==> events::enriched(Json::Object(m), devices, docs) == Json::Object(m),
{
    lemma_no_gateway(m, devices);
}

/// A list of events is told event by event, in order; a text that is no list is told as it is.
pub proof fn lists_are_told_event_by_event(
    raw: Seq<char>,
    told: Seq<Json>,
    devices: Seq<DeviceModel>,
    docs: Map<Seq<char>, DocModel>,
)
    ensures
        !(json::parsed(raw) is Some && json::parsed(raw)->0 is List) ==> events::enriched_text(raw, devices, docs) == raw,
        json::parsed(raw) is Some && json::parsed(raw)->0 is List && told.len() == json::parsed(raw)->0->List_0.len() && (
        forall|n: int|
            0 <= n < told.len() ==> #[trigger] told[n] == events::enriched(
                json::parsed(raw)->0->List_0[n],
                devices,
                docs,
            )) && json::compact_text(Json::List(told)) is Some ==> events::enriched_text(raw, devices, docs)
            == json::compact_text(Json::List(told))->0,
{
    if json::parsed(raw) is Some && json::parsed(raw)->0 is List {
        let events = json::parsed(raw)->0->List_0;
        if told.len() == events.len() && (forall|n: int|
            0 <= n < told.len() ==> #[trigger] told[n] == events::enriched(events[n], devices, docs)) {
            assert(told =~= events::enriched_list(events, devices, docs));
        }
    }
}

}
