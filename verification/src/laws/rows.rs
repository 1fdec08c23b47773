//! The devices page: the row of a device.

use vstd::prelude::*;

use crate::device::DeviceModel;
use crate::fabrics;
use crate::laws::hearing;
use crate::laws::texts;
use crate::pages::device_data;
use crate::pages::device_data::{FactsModel, HouseholdModel};
use crate::pages::device_parts;
use crate::pages::device_row;
use crate::pages::device_row::Medium;
use crate::records::{DocModel, FabricModel, GatewayModel};
use crate::text;
use crate::unify::UnifiedModel;

verus! {

broadcast use vstd::string::group_string_axioms;

/// `d` reports `value` under `key`.
pub open spec fn reports(d: DeviceModel, key: Seq<char>, value: Seq<char>) -> bool {
    d.metadata.contains_key(key) && d.metadata[key] == value
}

/// The MAC address in small letters, without space around it.
pub open spec fn small_address(d: DeviceModel) -> Seq<char> {
    text::lowercase(text::trimmed(hearing::reported(d, "mac"@)))
}

/// What is written down of the device: under its MAC address in small letters, else under its id.
pub open spec fn is_written(docs: Map<Seq<char>, DocModel>, d: DeviceModel, doc: DocModel) -> bool {
    if small_address(d).len() > 0 && docs.contains_key(small_address(d)) {
        doc == docs[small_address(d)]
    } else {
        docs.contains_key(d.device_id) && doc == docs[d.device_id] && !(small_address(d).len() > 0 && docs.contains_key(
            text::lowercase(small_address(d)),
        ))
    }
}

/// The state that the device reports; active where it reports none.
pub open spec fn state(d: DeviceModel) -> Seq<char> {
    if d.metadata.contains_key("status"@) {
        d.metadata["status"@]
    } else {
        "active"@
    }
}

/// A row tells the device's id, state and name, whether it is active and whether it is ignored, its room and
/// its module, and it marks what is ignored and what is written about.
pub proof fn rows_tell_the_device(
    u: UnifiedModel,
    facts: FactsModel,
    home: HouseholdModel,
    group: Seq<char>,
    doc: DocModel,
)
    requires
        is_written(home.docs, u.primary, doc),
    ensures
        ({
            let d = u.primary;
            let ignored = facts.id_ignored || (small_address(d).len() > 0 && facts.small_mac_ignored);
            let active = state(d) == "active"@;
            let sources = device_row::source_text(home.gateways, d);
            let room = text::trimmed(
                if doc.room is Some {
                    doc.room->0
                } else {
                    hearing::reported(d, "room"@)
                },
            );
            let record = device_data::room_named(home.rooms, room);
            device_row::device_row(u, facts, home, group) == device_parts::row_html(
                d.device_id,
                state(d),
                if active { "true"@ } else { "false"@ },
                if ignored { "true"@ } else { "false"@ },
                sources,
                room,
                device_data::floor_of(record, facts.trimmed_room_floor),
                if active {
                    device_parts::DOT_ACTIVE@
                } else if state(d) == "archive"@ {
                    device_parts::DOT_ARCHIVE@
                } else {
                    device_parts::DOT_OFFLINE@
                },
                if doc.name is Some && text::trimmed(doc.name->0).len() > 0 { doc.name->0 } else { d.display_name },
                device_row::offline_badge(state(d), hearing::reported(d, "last_seen"@)),
                if ignored { device_parts::IGNORED_BADGE@ } else { ""@ },
                device_row::room_badge(room, record),
                if text::trimmed(doc.notes).len() > 0 || doc.manual_url is Some || doc.name is Some {
                    device_parts::DOC_ICON@
                } else {
                    ""@
                },
                device_row::fabric_badges(
                    fabrics::device_fabrics(d, u.secondary_interfaces, home.fabric_metas),
                ),
                d.module_id,
                device_row::source_badges(device_data::sources_in(sources)),
                device_row::network_cell(u, group),
                device_row::buttons(d, group, state(d), sources),
            )
        }),
{
    let d = u.primary;
    assert(hearing::reported(d, "mac"@) =~= d.meta_or_empty("mac"@));
    assert(hearing::reported(d, "room"@) =~= d.meta_or_empty("room"@));
    assert(hearing::reported(d, "last_seen"@) =~= d.meta_or_empty("last_seen"@));
    assert(device_row::row_doc(home, d) == doc);
}

/// A device that is not active is told to be archived or offline, with the time it was last seen where that
/// is known; of an active one nothing of the kind is told.
pub proof fn absent_devices_are_marked(state: Seq<char>, seen: Seq<char>)
    ensures
        state == "active"@ ==> device_row::offline_badge(state, seen).len() == 0,
        state == "archive"@ ==> text::has(device_row::offline_badge(state, seen), device_parts::ARCHIVE_BADGE_0@),
        state == "archive"@ && seen.len() > 0 ==> text::has(device_row::offline_badge(state, seen), seen),
        state != "active"@ && state != "archive"@ ==> text::has(
            device_row::offline_badge(state, seen),
            device_parts::OFFLINE_BADGE_0@,
        ),
        state != "active"@ && state != "archive"@ && seen.len() > 0 ==> text::has(
            device_row::offline_badge(state, seen),
            seen,
        ),
{
    reveal_strlit("active");
    reveal_strlit("archive");
    assert("active"@.len() == 6 && "archive"@.len() == 7);
    let badge = device_row::offline_badge(state, seen);
    let none = Seq::<char>::empty();
    if state == "archive"@ {
        let hint = if seen.len() > 0 {
            device_parts::archive_seen_hint_html(seen)
        } else {
            device_parts::HINT_ARCHIVE@
        };
        assert(badge =~= none + device_parts::ARCHIVE_BADGE_0@ + (hint + device_parts::ARCHIVE_BADGE_1@));
        texts::lemma_stands_between(none, device_parts::ARCHIVE_BADGE_0@, hint + device_parts::ARCHIVE_BADGE_1@);
        if seen.len() > 0 {
            texts::lemma_stands_between(device_parts::ARCHIVE_SEEN_HINT_0@, seen, device_parts::ARCHIVE_SEEN_HINT_1@);
            texts::lemma_stands_in_the_whole(device_parts::ARCHIVE_BADGE_0@, hint, device_parts::ARCHIVE_BADGE_1@, seen);
        }
    } else if state != "active"@ {
        let hint = if seen.len() > 0 {
            device_parts::seen_hint_html(seen)
        } else {
            none
        };
        assert(badge =~= none + device_parts::OFFLINE_BADGE_0@ + (hint + device_parts::OFFLINE_BADGE_1@));
        texts::lemma_stands_between(none, device_parts::OFFLINE_BADGE_0@, hint + device_parts::OFFLINE_BADGE_1@);
        if seen.len() > 0 {
            texts::lemma_stands_between(device_parts::SEEN_HINT_0@, seen, device_parts::SEEN_HINT_1@);
            texts::lemma_stands_in_the_whole(device_parts::OFFLINE_BADGE_0@, hint, device_parts::OFFLINE_BADGE_1@, seen);
        }
    }
}

/// The device speaks Zigbee.
pub open spec fn speaks_zigbee(d: DeviceModel) -> bool {
    reports(d, "protocol"@, "zigbee"@) || d.module_id == "philips-hue"@ || reports(d, "source"@, "philips-hue"@)
}

/// The device speaks Bluetooth.
pub open spec fn speaks_bluetooth(d: DeviceModel) -> bool {
    reports(d, "protocol"@, "ble"@) || d.module_id == "bthome"@ || reports(d, "source"@, "bthome"@) || reports(
        d,
        "source"@,
        "mobile-ble"@,
    )
}

/// The device reports an address that is one.
pub open spec fn has_address(d: DeviceModel) -> bool {
    d.metadata.contains_key("ip"@) && d.metadata["ip"@].len() > 0 && d.metadata["ip"@] != "Layer 2"@ && d.metadata["ip"@]
        != "-"@
}

/// A device is shown at the address it reports; without one by the way it speaks.
pub proof fn devices_are_shown_at_their_address(d: DeviceModel, group: Seq<char>)
    ensures
        has_address(d) ==> device_row::shown_address(d, group) == d.metadata["ip"@],
        !has_address(d) && speaks_zigbee(d) && d.metadata.contains_key("bridge_ip"@) ==> device_row::shown_address(d, group)
            == device_parts::zigbee_address_html(d.metadata["bridge_ip"@]),
        !has_address(d) && speaks_zigbee(d) && !d.metadata.contains_key("bridge_ip"@) && d.metadata.contains_key(
            "gateway"@,
        ) ==> device_row::shown_address(d, group) == device_parts::zigbee_address_html(d.metadata["gateway"@]),
        !has_address(d) && speaks_zigbee(d) && !d.metadata.contains_key("bridge_ip"@) && !d.metadata.contains_key(
            "gateway"@,
        ) ==> device_row::shown_address(d, group) == device_parts::zigbee_address_html("Hue Bridge"@),
        !has_address(d) && !speaks_zigbee(d) && speaks_bluetooth(d) ==> device_row::shown_address(d, group)
            == "Bluetooth LE"@,
        !has_address(d) && !speaks_zigbee(d) && !speaks_bluetooth(d) && group == "switch"@ ==> device_row::shown_address(
            d,
            group,
        ) == "Layer 2 (Unmanaged)"@,
        !has_address(d) && !speaks_zigbee(d) && !speaks_bluetooth(d) && group != "switch"@ ==> device_row::shown_address(
            d,
            group,
        ) == "Non-IP Device"@,
{
    reveal_strlit("-");
}

/// A device can be pinged exactly where it has an address; elsewhere the row tells why it cannot.
pub proof fn devices_with_an_address_can_be_pinged(d: DeviceModel, group: Seq<char>)
    ensures
        ({
            let b = device_row::ping_button(d, group);
            let reachable = d.metadata.contains_key("ip"@) && text::is_ipv4(d.metadata["ip"@]);
            &&& reachable ==> b == device_parts::ping_button_html(d.device_id)
            &&& !reachable && speaks_zigbee(d) ==> b == device_parts::UNREACHABLE_ZIGBEE@
            &&& !reachable && !speaks_zigbee(d) && speaks_bluetooth(d) ==> b == device_parts::UNREACHABLE_BLE@
            &&& !reachable && !speaks_zigbee(d) && !speaks_bluetooth(d) && group == "switch"@ ==> b
                == device_parts::UNREACHABLE_SWITCH@
            &&& !reachable && !speaks_zigbee(d) && !speaks_bluetooth(d) && group != "switch"@ ==> b
                == device_parts::UNREACHABLE@
        }),
{
    reveal_strlit("-");
    assert(!"-"@.contains('.'));
    texts::lemma_split_piece("-"@, '.');
}

/// A Hue light that reports to be on has a button that says so, any other Hue light one that says it is
/// off; what is no Hue light has none.
pub proof fn hue_lights_have_a_button(d: DeviceModel, sources: Seq<char>, rest: Seq<char>)
    ensures
        ({
            let b = device_row::light_button(d, sources);
            let light = text::has(sources, "philips-hue"@) && d.kind == "lighting"@;
            let id = if d.metadata.contains_key("light_id"@) {
                d.metadata["light_id"@]
            } else {
                rest
            };
            let named = d.metadata.contains_key("light_id"@) || (d.device_id == "hue-light-"@ + rest && !rest.contains(
                'h',
            ));
            &&& !light ==> b.len() == 0
            &&& light && named && reports(d, "power_state"@, "on"@) ==> b == device_parts::light_button_html(
                "rgba(234,179,8,0.2)"@,
                "#eab308"@,
                id,
                "💡 An"@,
            )
            &&& light && named && !reports(d, "power_state"@, "on"@) ==> b == device_parts::light_button_html(
                "var(--surface)"@,
                "var(--border)"@,
                id,
                "🔌 Aus"@,
            )
        }),
{
    reveal_strlit("hue-light-");
    if d.device_id == "hue-light-"@ + rest && !rest.contains('h') {
        texts::lemma_mark_removed("hue-light-"@, rest);
    }
}

/// An active device offers its light or else its page; one that is not active offers to be pinged as well.
pub proof fn buttons_fit_the_state(d: DeviceModel, group: Seq<char>, state: Seq<char>, sources: Seq<char>)
    ensures
        ({
            let all = device_row::buttons(d, group, state, sources);
            let light = device_row::light_button(d, sources);
            let ping = device_row::ping_button(d, group);
            let page = d.metadata.contains_key("web_url"@);
            &&& state == "active"@ && light.len() > 0 ==> all == light
            &&& state == "active"@ && light.len() == 0 && page ==> all == device_parts::web_button_html(
                d.metadata["web_url"@],
            )
            &&& state == "active"@ && light.len() == 0 && !page ==> all.len() == 0
            &&& state != "active"@ && light.len() > 0 ==> all == device_parts::light_and_ping_html(light, ping)
            &&& state != "active"@ && light.len() == 0 && !page ==> all == ping
            &&& state != "active"@ && light.len() == 0 && page && device_parts::WEB_BUTTON_0@.len() > 0 ==> all
                == device_parts::ping_and_web_html(ping, device_parts::web_button_html(d.metadata["web_url"@]))
        }),
{
}

/// The network cell shows the address, the MAC address where there is one, and the vendor where there is
/// one beside it.
pub proof fn network_cells_show_what_is_known(u: UnifiedModel, group: Seq<char>)
    ensures
        ({
            let cell = device_row::network_cell(u, group);
            let address = device_row::shown_address(u.primary, group);
            let badges = device_row::interface_badges(u, group);
            let mac = small_address(u.primary);
            let vendor = hearing::reported(u.primary, "vendor"@);
            &&& mac.len() == 0 ==> cell == device_parts::network_cell_html(address, badges)
            &&& mac.len() > 0 && vendor.len() == 0 ==> cell == device_parts::network_mac_cell_html(address, badges, mac)
            &&& mac.len() > 0 && vendor.len() > 0 ==> cell == device_parts::network_vendor_cell_html(
                address,
                badges,
                mac,
                vendor,
            )
        }),
{
    assert(hearing::reported(u.primary, "mac"@) =~= u.primary.meta_or_empty("mac"@));
    assert(hearing::reported(u.primary, "vendor"@) =~= u.primary.meta_or_empty("vendor"@));
}

/// The interface speaks Bluetooth.
pub open spec fn by_bluetooth(d: DeviceModel) -> bool {
    reports(d, "protocol"@, "ble"@) || reports(d, "source"@, "mobile-ble"@) || reports(d, "source"@, "mobile-scout"@)
        || reports(d, "source"@, "bthome"@) || "mobile-ble-"@.is_prefix_of(d.device_id)
}

/// A kind of device that goes by radio.
pub open spec fn goes_by_radio(kind: Seq<char>) -> bool {
    kind == "smart-plug"@ || kind == "tablet"@ || kind == "phone"@ || kind == "wearable"@
}

/// A name that tells a radio.
pub open spec fn tells_radio(name: Seq<char>, host: Seq<char>) -> bool {
    ||| text::has(name, "wlan"@) || text::has(name, "wifi"@) || text::has(name, "-2"@)
    ||| text::has(name, "plug"@) || text::has(name, "plus1"@) || text::has(name, "ipad"@) || text::has(name, "iphone"@)
    ||| text::has(host, "wlan"@) || text::has(host, "wifi"@) || text::has(host, "-2"@)
    ||| text::has(host, "ipad"@) || text::has(host, "iphone"@)
}

/// An interface counts as Bluetooth where it speaks it; as wireless where it is a further interface, reports
/// so, or is of a kind or a name that is; and as wired otherwise.
pub proof fn interfaces_count_by_their_medium(d: DeviceModel, further: bool, group: Seq<char>)
    ensures
        ({
            let host = if d.metadata.contains_key("hostname"@) {
                text::lowercase(d.metadata["hostname"@])
            } else {
                Seq::empty()
            };
            let wireless = further || reports(d, "interface"@, "wlan"@) || reports(d, "interface"@, "wifi"@)
                || goes_by_radio(d.kind) || goes_by_radio(group) || tells_radio(text::lowercase(d.display_name), host);
            &&& by_bluetooth(d) ==> device_row::medium(d, further, group) == Medium::Ble
            &&& !by_bluetooth(d) && wireless ==> device_row::medium(d, further, group) == Medium::Wlan
            &&& !by_bluetooth(d) && !wireless ==> device_row::medium(d, further, group) == Medium::Lan
        }),
{
    reveal_strlit("wlan");
    reveal_strlit("wifi");
    reveal_strlit("ble");
    reveal_strlit("mobile-ble");
    reveal_strlit("mobile-scout");
    reveal_strlit("bthome");
    assert(Seq::<char>::empty().len() == 0);
}

/// A device with further interfaces is marked with their number, itself counted, and with the media that they
/// use, wired first and Bluetooth last; one without is not marked.
pub proof fn interfaces_are_counted(u: UnifiedModel, group: Seq<char>)
    ensures
        ({
            let badge = device_row::interface_badges(u, group);
            let lan = device_row::uses(u, group, Medium::Lan);
            let wlan = device_row::uses(u, group, Medium::Wlan);
            let ble = device_row::uses(u, group, Medium::Ble);
            let number = text::decimal((u.secondary_interfaces.len() + 1) as nat);
            let marked = |names: Seq<Seq<char>>| device_parts::interface_badge_html(number, text::joined(names, " + "@));
            &&& u.secondary_interfaces.len() == 0 ==> badge.len() == 0
            &&& u.secondary_interfaces.len() > 0 && lan && wlan && ble ==> badge == marked(seq!["LAN"@, "WLAN"@, "BLE"@])
            &&& u.secondary_interfaces.len() > 0 && lan && wlan && !ble ==> badge == marked(seq!["LAN"@, "WLAN"@])
            &&& u.secondary_interfaces.len() > 0 && lan && !wlan && ble ==> badge == marked(seq!["LAN"@, "BLE"@])
            &&& u.secondary_interfaces.len() > 0 && !lan && wlan && ble ==> badge == marked(seq!["WLAN"@, "BLE"@])
            &&& u.secondary_interfaces.len() > 0 && !lan && wlan && !ble ==> badge == marked(seq!["WLAN"@])
            &&& u.secondary_interfaces.len() > 0 && !lan && !wlan && ble ==> badge == marked(seq!["BLE"@])
        }),
{
    let lan = device_row::uses(u, group, Medium::Lan);
    let wlan = device_row::uses(u, group, Medium::Wlan);
    let ble = device_row::uses(u, group, Medium::Ble);
    let names = device_row::medium_names(lan, wlan, ble);
    if lan && wlan && ble {
        assert(names =~= seq!["LAN"@, "WLAN"@, "BLE"@]);
    } else if lan && wlan {
        assert(names =~= seq!["LAN"@, "WLAN"@]);
    } else if lan && ble {
        assert(names =~= seq!["LAN"@, "BLE"@]);
    } else if wlan && ble {
        assert(names =~= seq!["WLAN"@, "BLE"@]);
    } else if wlan {
        assert(names =~= seq!["WLAN"@]);
    } else if ble {
        assert(names =~= seq!["BLE"@]);
    }
}

/// A medium is used where one of the interfaces goes by it.
pub proof fn used_media_are_those_of_the_interfaces(u: UnifiedModel, group: Seq<char>, i: int, m: Medium)
    requires
        0 <= i < u.secondary_interfaces.len(),
    ensures
        device_row::medium(u.primary, false, group) == m ==> device_row::uses(u, group, m),
        device_row::medium(u.secondary_interfaces[i], true, group) == m ==> device_row::uses(u, group, m),
        device_row::medium(u.primary, false, group) != m && (forall|k: int|
            0 <= k < u.secondary_interfaces.len() ==> device_row::medium(#[trigger] u.secondary_interfaces[k], true, group)
                != m) ==> !device_row::uses(u, group, m),
{
}

/// The gateway serves the device's address.
pub open spec fn serves(g: GatewayModel, d: DeviceModel) -> bool {
    let own = text::without(text::lowercase(hearing::reported(d, "mac"@)), seq![':', '-']);
    g.ble_supported && (g.ip == hearing::reported(d, "ip"@) || (own.len() > 0 && text::without(
        text::lowercase(g.mac),
        seq![':', '-'],
    ) == own))
}

/// The sources of a device are those that it reports, as a list or as one, with the mark of a gateway behind
/// them where it is one and does not say so.
pub proof fn gateways_are_told_as_sources(gateways: Seq<GatewayModel>, d: DeviceModel)
    ensures
        ({
            let own = if d.metadata.contains_key("sources"@) {
                d.metadata["sources"@]
            } else {
                hearing::reported(d, "source"@)
            };
            let gateway = exists|i: int| 0 <= i < gateways.len() && serves(#[trigger] gateways[i], d);
            let told = device_row::source_text(gateways, d);
            let list = device_data::sources_of(gateways, d);
            &&& !gateway || text::has(own, "shelly-gateway"@) ==> told == own
            &&& gateway && !text::has(own, "shelly-gateway"@) && own.len() > 0 ==> told == own + ",shelly-gateway"@
            &&& gateway && own.len() == 0 ==> told == "shelly-gateway"@
            &&& !gateway ==> list == device_data::sources_in(own)
            &&& gateway ==> list.contains("shelly-gateway"@)
            &&& gateway && !device_data::sources_in(own).contains("shelly-gateway"@) ==> list == device_data::sources_in(
                own,
            ).push("shelly-gateway"@)
        }),
{
    reveal_strlit("shelly-gateway");
    assert(hearing::reported(d, "ip"@) =~= d.meta_or_empty("ip"@));
    assert(hearing::reported(d, "mac"@) =~= d.meta_or_empty("mac"@));
    assert(hearing::reported(d, "source"@) =~= d.meta_or_empty("source"@));
    let gateway = exists|i: int| 0 <= i < gateways.len() && serves(#[trigger] gateways[i], d);
    if gateway {
        let i = choose|i: int| 0 <= i < gateways.len() && serves(#[trigger] gateways[i], d);
        assert(device_data::is_gateway_for(gateways[i], d.meta_or_empty("ip"@), d.meta_or_empty("mac"@)));
    }
    if device_data::is_gateway(gateways, d) {
        let i = choose|i: int|
            0 <= i < gateways.len() && device_data::is_gateway_for(
                #[trigger] gateways[i],
                d.meta_or_empty("ip"@),
                d.meta_or_empty("mac"@),
            );
        assert(serves(gateways[i], d));
    }
    let own = if d.metadata.contains_key("sources"@) {
        d.metadata["sources"@]
    } else {
        hearing::reported(d, "source"@)
    };
    let sources = device_data::sources_in(own);
    assert(sources.push("shelly-gateway"@).last() == "shelly-gateway"@);
    assert(sources.push("shelly-gateway"@)[sources.len() as int] == "shelly-gateway"@);
}

/// The sources in a text are what stands between its commas, without the space around them and without
/// blank ones.
pub proof fn sources_stand_between_commas(before: Seq<char>, one: Seq<char>)
    requires
        !one.contains(','),
    ensures
        text::trimmed(one).len() > 0 ==> device_data::sources_in(before + seq![','] + one) == device_data::sources_in(
            before,
        ).push(text::trimmed(one)),
        text::trimmed(one).len() == 0 ==> device_data::sources_in(before + seq![','] + one) == device_data::sources_in(
            before,
        ),
        text::trimmed(one).len() > 0 ==> device_data::sources_in(one) == seq![text::trimmed(one)],
        text::trimmed(one).len() == 0 ==> device_data::sources_in(one).len() == 0,
{
    texts::lemma_split_more(before, one, ',');
    texts::lemma_split_piece(one, ',');
    let parts = text::split_at_char(before, ',');
    assert(parts.push(one).drop_last() =~= parts);
    assert(seq![one].drop_last() =~= Seq::<Seq<char>>::empty());
    assert(seq![one].last() == one);
    assert(device_data::trimmed_parts(Seq::<Seq<char>>::empty()) =~= Seq::<Seq<char>>::empty());
}

/// Every source and every fabric has its mark, in order.
pub proof fn marks_follow_in_order(
    sources: Seq<Seq<char>>,
    s: Seq<char>,
    fabrics: Seq<FabricModel>,
    f: FabricModel,
)
    ensures
        device_row::source_badges(Seq::empty()).len() == 0,
        device_row::source_badges(sources.push(s)) == device_row::source_badges(sources)
            + device_parts::source_badge_html(device_row::source_look(s).1, s, device_row::source_look(s).0),
        device_row::fabric_badges(Seq::empty()).len() == 0,
        device_row::fabric_badges(fabrics.push(f)) == device_row::fabric_badges(fabrics)
            + device_parts::fabric_badge_html(f.fabric_id, f.node_id, f.fabric_icon, f.fabric_name),
{
    assert(sources.push(s).drop_last() =~= sources);
    assert(fabrics.push(f).drop_last() =~= fabrics);
    assert(Seq::<FabricModel>::empty().len() == 0);
    assert(Seq::<Seq<char>>::empty().len() == 0);
}

/// A room is marked with its sign, one without a sign or a record with a door, and no room with nothing.
pub proof fn rooms_are_marked_with_their_sign(room: Seq<char>, home: HouseholdModel)
    ensures
        ({
            let record = device_data::room_named(home.rooms, room);
            &&& room.len() == 0 ==> device_row::room_badge(room, record).len() == 0
            &&& room.len() > 0 && record is Some && record->0.icon is Some ==> device_row::room_badge(room, record)
                == device_parts::room_badge_html(room, record->0.icon->0)
            &&& room.len() > 0 && (record is None || record->0.icon is None) ==> device_row::room_badge(room, record)
                == device_parts::room_badge_html(room, "🚪"@)
        }),
{
}

/// What tells the sources apart.
proof fn lemma_source_words()
    ensures
        "arp"@.len() == 3,
        "ping"@.len() == 4,
        "active-probe"@.len() == 12,
        "http-probe"@.len() == 10,
        "mdns"@.len() == 4,
        "ssdp"@.len() == 4,
        "fritzbox-tr064"@.len() == 14,
        "matter"@.len() == 6,
        "matter-mdns"@.len() == 11,
        "home-assistant"@.len() == 14,
        "mdns_homeassistant"@.len() == 18,
        "bthome"@.len() == 6,
        "bthome-v2"@.len() == 9,
        "shelly-gateway"@.len() == 14,
        "philips-hue"@.len() == 11,
        "hue"@.len() == 3,
        "zigbee"@.len() == 6,
        "ble"@.len() == 3,
        "arp"@[0] == 'a',
        "hue"@[0] == 'h',
        "ble"@[0] == 'b',
        "ping"@[0] == 'p',
        "mdns"@[0] == 'm',
        "ssdp"@[0] == 's',
        "fritzbox-tr064"@[0] == 'f',
        "home-assistant"@[0] == 'h',
        "shelly-gateway"@[0] == 's',
        "matter"@[0] == 'm',
        "bthome"@[0] == 'b',
        "zigbee"@[0] == 'z',
        "matter-mdns"@[0] == 'm',
        "philips-hue"@[0] == 'p',
{
    reveal_strlit("arp");
    reveal_strlit("ping");
    reveal_strlit("active-probe");
    reveal_strlit("http-probe");
    reveal_strlit("mdns");
    reveal_strlit("ssdp");
    reveal_strlit("fritzbox-tr064");
    reveal_strlit("matter");
    reveal_strlit("matter-mdns");
    reveal_strlit("home-assistant");
    reveal_strlit("mdns_homeassistant");
    reveal_strlit("bthome");
    reveal_strlit("bthome-v2");
    reveal_strlit("shelly-gateway");
    reveal_strlit("philips-hue");
    reveal_strlit("hue");
    reveal_strlit("zigbee");
    reveal_strlit("ble");
}

/// The known sources, each with its label and its colour.
pub open spec fn known_sources() -> Seq<(Seq<char>, Seq<char>, Seq<char>)> {
    seq![
        ("arp"@, "ARP"@, "#6366f1"@),
        ("ping"@, "Ping"@, "#0284c7"@),
        ("active-probe"@, "Ping"@, "#0284c7"@),
        ("http-probe"@, "Web"@, "#0ea5e9"@),
        ("mdns"@, "mDNS"@, "#8b5cf6"@),
        ("ssdp"@, "SSDP"@, "#d97706"@),
        ("fritzbox-tr064"@, "TR-064"@, "#059669"@),
        ("matter"@, "Matter"@, "#10b981"@),
        ("matter-mdns"@, "Matter"@, "#10b981"@),
        ("home-assistant"@, "HA"@, "#0284c7"@),
        ("mdns_homeassistant"@, "HA"@, "#0284c7"@),
        ("bthome"@, "BTHome"@, "#3b82f6"@),
        ("bthome-v2"@, "BTHome"@, "#3b82f6"@),
        ("shelly-gateway"@, "Shelly BLE"@, "#0284c7"@),
        ("philips-hue"@, "Hue"@, "#eab308"@),
        ("hue"@, "Hue"@, "#eab308"@),
        ("zigbee"@, "Zigbee"@, "#eab308"@),
        ("ble"@, "BLE"@, "#6366f1"@),
    ]
}

/// A known source has its label and its colour; any other goes by its own name.
pub proof fn sources_have_their_look(i: int, other: Seq<char>)
    requires
        0 <= i < known_sources().len(),
    ensures
        device_row::source_look(known_sources()[i].0) == (known_sources()[i].1, known_sources()[i].2),
        (forall|j: int| 0 <= j < known_sources().len() ==> (#[trigger] known_sources()[j]).0 != other)
            ==> device_row::source_look(other) == (other, "#64748b"@),
{
    lemma_source_words();
    let t = known_sources()[i];
    assert(i == 0 ==> t == ("arp"@, "ARP"@, "#6366f1"@));
    assert(i == 1 ==> t == ("ping"@, "Ping"@, "#0284c7"@));
    assert(i == 2 ==> t == ("active-probe"@, "Ping"@, "#0284c7"@));
    assert(i == 3 ==> t == ("http-probe"@, "Web"@, "#0ea5e9"@));
    assert(i == 4 ==> t == ("mdns"@, "mDNS"@, "#8b5cf6"@));
    assert(i == 5 ==> t == ("ssdp"@, "SSDP"@, "#d97706"@));
    assert(i == 6 ==> t == ("fritzbox-tr064"@, "TR-064"@, "#059669"@));
    assert(i == 7 ==> t == ("matter"@, "Matter"@, "#10b981"@));
    assert(i == 8 ==> t == ("matter-mdns"@, "Matter"@, "#10b981"@));
    assert(i == 9 ==> t == ("home-assistant"@, "HA"@, "#0284c7"@));
    assert(i == 10 ==> t == ("mdns_homeassistant"@, "HA"@, "#0284c7"@));
    assert(i == 11 ==> t == ("bthome"@, "BTHome"@, "#3b82f6"@));
    assert(i == 12 ==> t == ("bthome-v2"@, "BTHome"@, "#3b82f6"@));
    assert(i == 13 ==> t == ("shelly-gateway"@, "Shelly BLE"@, "#0284c7"@));
    assert(i == 14 ==> t == ("philips-hue"@, "Hue"@, "#eab308"@));
    assert(i == 15 ==> t == ("hue"@, "Hue"@, "#eab308"@));
    assert(i == 16 ==> t == ("zigbee"@, "Zigbee"@, "#eab308"@));
    assert(i == 17 ==> t == ("ble"@, "BLE"@, "#6366f1"@));
    if forall|j: int| 0 <= j < known_sources().len() ==> (#[trigger] known_sources()[j]).0 != other {
        assert(known_sources()[0].0 == "arp"@);
        assert(known_sources()[1].0 == "ping"@);
        assert(known_sources()[2].0 == "active-probe"@);
        assert(known_sources()[3].0 == "http-probe"@);
        assert(known_sources()[4].0 == "mdns"@);
        assert(known_sources()[5].0 == "ssdp"@);
        assert(known_sources()[6].0 == "fritzbox-tr064"@);
        assert(known_sources()[7].0 == "matter"@);
        assert(known_sources()[8].0 == "matter-mdns"@);
        assert(known_sources()[9].0 == "home-assistant"@);
        assert(known_sources()[10].0 == "mdns_homeassistant"@);
        assert(known_sources()[11].0 == "bthome"@);
        assert(known_sources()[12].0 == "bthome-v2"@);
        assert(known_sources()[13].0 == "shelly-gateway"@);
        assert(known_sources()[14].0 == "philips-hue"@);
        assert(known_sources()[15].0 == "hue"@);
        assert(known_sources()[16].0 == "zigbee"@);
        assert(known_sources()[17].0 == "ble"@);
    }
}

}
