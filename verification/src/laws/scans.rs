//! Scans of a phone: which devices are taken in, and what is told of them.

use vstd::prelude::*;

use crate::json::Json;
use crate::mobile_ble;
use crate::mobile_ble::{MobileBleScanPayload, ScanFactsModel, ScanItemModel};
use crate::text;

verus! {

broadcast use vstd::string::group_string_axioms;

/// What tells the names of the members apart.
proof fn lemma_names()
    ensures
        "source"@.len() == 6,
        "sources"@.len() == 7,
        "scout"@.len() == 5,
        "family"@.len() == 6,
        "status"@.len() == 6,
        "protocol"@.len() == 8,
        "mac"@.len() == 3,
        "rssi"@.len() == 4,
        "room"@.len() == 4,
        "battery"@.len() == 7,
        "temperature_c"@.len() == 13,
        "humidity_pct"@.len() == 12,
        "illuminance_lux"@.len() == 15,
        "contact_state"@.len() == 13,
        "button_event"@.len() == 12,
        "gateway"@.len() == 7,
        "payload"@.len() == 7,
        "data"@.len() == 4,
        "payload_bytes"@.len() == 13,
        "source"@[1] == 'o',
        "family"@[1] == 'a',
        "status"@[1] == 't',
        "sources"@[0] == 's',
        "battery"@[0] == 'b',
        "gateway"@[0] == 'g',
        "payload"@[0] == 'p',
        "rssi"@[1] == 's',
        "room"@[1] == 'o',
        "data"@[1] == 'a',
        "temperature_c"@[0] == 't',
        "contact_state"@[0] == 'c',
        "payload_bytes"@[0] == 'p',
        "humidity_pct"@[0] == 'h',
        "button_event"@[0] == 'b',
{
    reveal_strlit("source");
    reveal_strlit("sources");
    reveal_strlit("scout");
    reveal_strlit("family");
    reveal_strlit("status");
    reveal_strlit("protocol");
    reveal_strlit("mac");
    reveal_strlit("rssi");
    reveal_strlit("room");
    reveal_strlit("battery");
    reveal_strlit("temperature_c");
    reveal_strlit("humidity_pct");
    reveal_strlit("illuminance_lux");
    reveal_strlit("contact_state");
    reveal_strlit("button_event");
    reveal_strlit("gateway");
    reveal_strlit("payload");
    reveal_strlit("data");
    reveal_strlit("payload_bytes");
}

/// What is told of a scanned device under `key`.
pub open spec fn told(item: ScanItemModel, norm_id: Seq<char>, key: Seq<char>) -> Option<Seq<char>> {
    match mobile_ble::scan_record(item, norm_id) {
        Some(d) => if d.metadata.contains_key(key) {
            Some(d.metadata[key])
        } else {
            None
        },
        None => None,
    }
}

/// A scanned device is told as it was measured: what was not measured is not told.
pub proof fn scanned_devices_are_told_as_measured(item: ScanItemModel, norm_id: Seq<char>)
    requires
        norm_id.len() > 0,
    ensures
        told(item, norm_id, "mac"@) == Some(item.id),
        told(item, norm_id, "protocol"@) == Some("ble"@),
        told(item, norm_id, "status"@) == Some("active"@),
        told(item, norm_id, "room"@) == item.assigned_room,
        told(item, norm_id, "temperature_c"@) == item.temperature_c,
        told(item, norm_id, "humidity_pct"@) == item.humidity_pct,
        told(item, norm_id, "illuminance_lux"@) == item.illuminance_lux,
        told(item, norm_id, "button_event"@) == item.button_event,
        item.contact_open == Some(true) ==> told(item, norm_id, "contact_state"@) == Some("open"@),
        item.contact_open == Some(false) ==> told(item, norm_id, "contact_state"@) == Some("closed"@),
        item.contact_open is None ==> told(item, norm_id, "contact_state"@) is None,
        item.battery is Some ==> told(item, norm_id, "battery"@) == Some(text::decimal(item.battery->0 as nat)),
        item.battery is None ==> told(item, norm_id, "battery"@) is None,
        item.rssi is Some && item.rssi->0 < 0 ==> told(item, norm_id, "rssi"@) == Some(
            seq!['-'] + text::decimal((-item.rssi->0) as nat),
        ),
        item.rssi is Some && item.rssi->0 >= 0 ==> told(item, norm_id, "rssi"@) == Some(text::decimal(item.rssi->0 as nat)),
        item.rssi is None ==> told(item, norm_id, "rssi"@) is None,
        item.family is Some ==> told(item, norm_id, "family"@) == item.family,
        item.scout_name is Some ==> told(item, norm_id, "scout"@) == item.scout_name,
{
    lemma_names();
}

/// A scanned device has the id of its plain form and its own name, and is of the kind that its
/// sensors tell. Without a plain form it is no device.
pub proof fn scanned_devices_have_id_name_and_kind(item: ScanItemModel, norm_id: Seq<char>)
    ensures
        norm_id.len() == 0 ==> mobile_ble::scan_record(item, norm_id) is None,
        norm_id.len() > 0 ==> {
            let d = mobile_ble::scan_record(item, norm_id);
            &&& d is Some
            &&& d->0.device_id == "mobile-ble-"@ + norm_id
            &&& item.name is Some ==> d->0.display_name == item.name->0
            &&& d->0.is_ble()
            &&& item.contact_open is Some ==> d->0.kind == "contact-sensor"@
            &&& item.contact_open is None && item.motion_detected is Some ==> d->0.kind == "motion-sensor"@
            &&& item.contact_open is None && item.motion_detected is None && item.button_event is Some ==> d->0.kind
                == "button"@
            &&& item.contact_open is None && item.motion_detected is None && item.button_event is None ==> d->0.kind
                == "sensor"@
        },
{
    lemma_names();
    if norm_id.len() > 0 {
        let d = mobile_ble::scan_record(item, norm_id)->0;
        assert(d.metadata.contains_key("protocol"@) && d.metadata["protocol"@] == "ble"@);
    }
}

/// The device is on the list of those that are ignored: by its id, by the plain form of it, or by the
/// name that it has.
pub open spec fn on_the_list(item: ScanItemModel, facts: ScanFactsModel) -> bool {
    facts.id_ignored || facts.norm_id_ignored || (facts.name_ignored && item.name is Some && item.name->0.len() > 0)
}

/// One more device in a scan: it is taken in where it is a device and not ignored, counted where it is
/// ignored, and its data is passed on where it is taken in and brings any.
pub proof fn scanned_devices_are_taken_in_unless_ignored(
    items: Seq<ScanItemModel>,
    facts: Seq<ScanFactsModel>,
    n: int,
)
    requires
        0 <= n < items.len(),
        items.len() == facts.len(),
    ensures
        ({
            let here = facts[n].norm_id.len() > 0 && !on_the_list(items[n], facts[n]);
            let there = facts[n].norm_id.len() > 0 && on_the_list(items[n], facts[n]);
            let record = mobile_ble::scan_record(items[n], facts[n].norm_id);
            &&& mobile_ble::records_below(items, facts, n + 1) == (if here {
                mobile_ble::records_below(items, facts, n).push(record->0)
            } else {
                mobile_ble::records_below(items, facts, n)
            })
            &&& mobile_ble::taken_below(items, facts, n + 1) == (if here {
                mobile_ble::taken_below(items, facts, n).push(n)
            } else {
                mobile_ble::taken_below(items, facts, n)
            })
            &&& mobile_ble::ignored_below(items, facts, n + 1) == mobile_ble::ignored_below(items, facts, n) + if there {
                1int
            } else {
                0
            }
            &&& here && items[n].manufacturer_data_hex is Some ==> mobile_ble::forward_below(items, facts, n + 1)
                == mobile_ble::forward_below(items, facts, n).push(
                mobile_ble::forward_json(items[n], items[n].manufacturer_data_hex->0),
            )
            &&& !(here && items[n].manufacturer_data_hex is Some) ==> mobile_ble::forward_below(items, facts, n + 1)
                == mobile_ble::forward_below(items, facts, n)
            &&& mobile_ble::records_below(items, facts, 0).len() == 0
            &&& mobile_ble::forward_below(items, facts, 0).len() == 0
            &&& mobile_ble::ignored_below(items, facts, 0) == 0
        }),
{
}

/// What is passed on of a device is its address, its signal and its data.
pub proof fn passed_on_data_is_that_of_the_device(item: ScanItemModel, data: Seq<char>)
    ensures
        mobile_ble::forward_json(item, data).member("mac"@) == Some(Json::Text(item.id)),
        mobile_ble::forward_json(item, data).member("payload"@) == Some(Json::Text(data)),
        mobile_ble::forward_json(item, data).member("data"@) == Some(Json::Text(data)),
        mobile_ble::forward_json(item, data).member("payload_bytes"@) == Some(Json::Text(data)),
        item.rssi is Some && item.rssi->0 < 0 ==> mobile_ble::forward_json(item, data).member("rssi"@) == Some(
            Json::Negative(item.rssi->0 as i64),
        ),
        item.rssi is Some && item.rssi->0 >= 0 ==> mobile_ble::forward_json(item, data).member("rssi"@) == Some(
            Json::Unsigned(item.rssi->0 as u64),
        ),
        item.scout_name is Some ==> mobile_ble::forward_json(item, data).member("gateway"@) == Some(
            Json::Text(item.scout_name->0),
        ),
{
    lemma_names();
}

/// The id of a scanned device leads back to its plain form; no other device can be forgotten.
pub proof fn scanned_devices_can_be_forgotten(item: ScanItemModel, norm_id: Seq<char>, id: Seq<char>)
    requires
        norm_id.len() > 0,
        !norm_id.contains('m'),
    ensures
        mobile_ble::forgotten_id(mobile_ble::scan_record(item, norm_id)->0.device_id) == Some(norm_id),
        mobile_ble::forgotten_id(id) is Some ==> id.len() >= 11 && id.take(11) == "mobile-ble-"@,
{
    reveal_strlit("mobile-ble-");
    let mark = "mobile-ble-"@;
    let whole = mark + norm_id;
    assert(mark.len() == 11);
    assert(whole.subrange(0, 11) =~= mark);
    assert(whole.skip(11) =~= norm_id);
    if mark.is_prefix_of(norm_id) {
        assert(norm_id.subrange(0, 11)[0] == 'm');
        assert(norm_id.contains(norm_id[0]));
    }
    assert(text::prefix_stripped(norm_id, mark) == norm_id);
    assert(text::prefix_stripped(whole, mark) == norm_id);
    if mobile_ble::forgotten_id(id) is Some {
        assert(id.subrange(0, 11) =~= id.take(11));
    }
}

/// Everything that a phone sent is taken, in order, whether it sent one device or many.
pub proof fn everything_that_was_sent_is_taken(payload: MobileBleScanPayload, i: int)
    ensures
        payload is Single ==> mobile_ble::payload_items(payload) == seq![payload->Single_0.deep_view()],
        payload is Batch ==> mobile_ble::payload_items(payload).len() == payload->Batch_0.len(),
        payload is Batch && 0 <= i < payload->Batch_0.len() ==> mobile_ble::payload_items(payload)[i]
            == payload->Batch_0[i].deep_view(),
{
}

/// A scanned device without a name goes by the first eight bytes of its id; it is a device of this server, and
/// can do what such devices can.
pub proof fn nameless_devices_go_by_their_id(item: ScanItemModel, norm_id: Seq<char>)
    requires
        norm_id.len() > 0,
    ensures
        ({
            let d = mobile_ble::scan_record(item, norm_id)->0;
            &&& item.name is None && text::bytes(item.id) < 8 ==> d.display_name == "BLE "@ + item.id
            &&& item.name is None && text::bytes(item.id) >= 8 ==> d.display_name == "BLE "@ + text::first_bytes(
                item.id,
                8,
            )
            &&& d.module_id == "web"@
            &&& d.capabilities == seq!["ble"@, "mobile-scout"@]
        }),
{
}

/// Forgetting a device keeps every other one, in order.
pub proof fn forgetting_keeps_the_others(ids: Seq<Seq<char>>, target: Seq<char>, n: int)
    requires
        0 <= n < ids.len(),
    ensures
        mobile_ble::kept_below(ids, target, 0).len() == 0,
        ids[n] == target ==> mobile_ble::kept_below(ids, target, n + 1) == mobile_ble::kept_below(ids, target, n),
        ids[n] != target ==> mobile_ble::kept_below(ids, target, n + 1) == mobile_ble::kept_below(ids, target, n).push(n),
{
}

/// A scanned device is told to come from a phone; what it does not say of itself is as usual.
pub proof fn scanned_devices_come_from_a_phone(item: ScanItemModel, norm_id: Seq<char>, data: Seq<char>)
    requires
        norm_id.len() > 0,
    ensures
        told(item, norm_id, "source"@) == Some("mobile-scout"@),
        told(item, norm_id, "sources"@) == Some("mobile-scout,ble"@),
        item.scout_name is None ==> told(item, norm_id, "scout"@) == Some("iPhone"@),
        item.family is None ==> told(item, norm_id, "family"@) == Some("Bluetooth LE"@),
        item.scout_name is None ==> mobile_ble::forward_json(item, data).member("gateway"@) == Some(
            Json::Text("iPhone (Mobile Scout)"@),
        ),
        item.rssi is None ==> mobile_ble::forward_json(item, data).member("rssi"@) == Some(Json::Negative(-70i64)),
{
    lemma_names();
}

}
