//! The row of a device in the list.

use vstd::prelude::*;

use crate::device::{DeviceModel, DeviceRecord};
use crate::fabrics;
use crate::pages::device_data;
use crate::pages::device_data::{DeviceFacts, FactsModel, Household, HouseholdModel};
use crate::pages::device_parts;
use crate::records::{
    ClientMatterFabric, DeviceDocumentation, DocModel, FabricModel, GatewayModel, RoomModel, RoomRecord,
    VerifiedShellyGateway,
};
use crate::text;
use crate::unify::{UnifiedDevice, UnifiedModel};

verus! {

broadcast use vstd::string::group_string_axioms;

// ---------------------------------------------------------------------------------------
// Marks for fabrics and interfaces
// ---------------------------------------------------------------------------------------

/// The marks of the Matter fabrics.
pub open spec fn fabric_badges(fabrics: Seq<FabricModel>) -> Seq<char>
    decreases fabrics.len(),
{
    if fabrics.len() == 0 {
        Seq::empty()
    } else {
        let f = fabrics.last();
        fabric_badges(fabrics.drop_last()) + device_parts::fabric_badge_html(
            f.fabric_id,
            f.node_id,
            f.fabric_icon,
            f.fabric_name,
        )
    }
}

fn fabric_badges_of(fabrics: &Vec<ClientMatterFabric>) -> (r: String)
    ensures
        r@ == fabric_badges(fabrics.deep_view()),
{
    let ghost all = fabrics.deep_view();
    let mut r = text::empty();
    let mut i: usize = 0;
    while i < fabrics.len()
        invariant
            i <= fabrics@.len(),
            all == fabrics.deep_view(),
            r@ == fabric_badges(all.take(i as int)),
        decreases fabrics@.len() - i,
    {
        let f = &fabrics[i];
        assert(all.take(i + 1).drop_last() =~= all.take(i as int));
        assert(all.take(i + 1).last() == f.deep_view());
        r.append(
            device_parts::fabric_badge(
                f.fabric_id.as_str(),
                f.node_id.as_str(),
                f.fabric_icon.as_str(),
                f.fabric_name.as_str(),
            ).as_str(),
        );
        i = i + 1;
    }
    assert(all.take(i as int) =~= all);
    r
}

/// How an interface is connected.
#[derive(PartialEq, Eq, Structural, Clone, Copy)]
pub enum Medium {
    Lan,
    Wlan,
    Ble,
}

/// The interface speaks Bluetooth.
pub open spec fn is_ble_interface(d: DeviceModel) -> bool {
    let source = d.meta_or_empty("source"@);
    d.meta_or_empty("protocol"@) == "ble"@ || source == "mobile-ble"@ || source == "mobile-scout"@ || source == "bthome"@
        || "mobile-ble-"@.is_prefix_of(d.device_id)
}

/// Kinds of devices that are connected without a cable.
pub open spec fn is_mobile_kind(kind: Seq<char>) -> bool {
    kind == "smart-plug"@ || kind == "tablet"@ || kind == "phone"@ || kind == "wearable"@
}

/// The name or the host name tells that the device is connected without a cable.
pub open spec fn has_mobile_name(name: Seq<char>, host: Seq<char>) -> bool {
    ||| text::has(name, "wlan"@)
    ||| text::has(host, "wlan"@)
    ||| text::has(name, "wifi"@)
    ||| text::has(host, "wifi"@)
    ||| text::has(name, "-2"@)
    ||| text::has(host, "-2"@)
    ||| text::has(name, "plug"@)
    ||| text::has(name, "plus1"@)
    ||| text::has(name, "ipad"@)
    ||| text::has(name, "iphone"@)
    ||| text::has(host, "ipad"@)
    ||| text::has(host, "iphone"@)
}

/// How the interface `d` of a device in the category `group` is connected.
pub open spec fn medium(d: DeviceModel, secondary: bool, group: Seq<char>) -> Medium {
    let interface = d.meta_or_empty("interface"@);
    if is_ble_interface(d) {
        Medium::Ble
    } else if secondary || interface == "wlan"@ || interface == "wifi"@ || is_mobile_kind(d.kind) || is_mobile_kind(group)
        || has_mobile_name(text::lowercase(d.display_name), host_in_small_letters(d)) {
        Medium::Wlan
    } else {
        Medium::Lan
    }
}

/// The host name in small letters; empty where the device reports none.
pub open spec fn host_in_small_letters(d: DeviceModel) -> Seq<char> {
    match d.meta("hostname"@) {
        Some(h) => text::lowercase(h),
        None => Seq::empty(),
    }
}

fn is_ble_interface_of(d: &DeviceRecord) -> (r: bool)
    ensures
        r == is_ble_interface(d.deep_view()),
{
    let source = d.meta_or_empty("source");
    let protocol = d.meta_or_empty("protocol");
    text::same(protocol.as_str(), "ble") || text::same(source.as_str(), "mobile-ble") || text::same(
        source.as_str(),
        "mobile-scout",
    ) || text::same(source.as_str(), "bthome") || text::starts_with(d.device_id.as_str(), "mobile-ble-")
}

fn is_mobile_kind_of(kind: &str) -> (r: bool)
    ensures
        r == is_mobile_kind(kind@),
{
    text::same(kind, "smart-plug") || text::same(kind, "tablet") || text::same(kind, "phone") || text::same(kind, "wearable")
}

fn has_mobile_name_of(name: &str, host: &str) -> (r: bool)
    ensures
        r == has_mobile_name(name@, host@),
{
    text::contains(name, "wlan") || text::contains(host, "wlan") || text::contains(name, "wifi") || text::contains(
        host,
        "wifi",
    ) || text::contains(name, "-2") || text::contains(host, "-2") || text::contains(name, "plug") || text::contains(
        name,
        "plus1",
    ) || text::contains(name, "ipad") || text::contains(name, "iphone") || text::contains(host, "ipad") || text::contains(
        host,
        "iphone",
    )
}

fn medium_of(d: &DeviceRecord, secondary: bool, group: &str) -> (r: Medium)
    ensures
        r == medium(d.deep_view(), secondary, group@),
{
    if is_ble_interface_of(d) {
        return Medium::Ble;
    }
    let interface = d.meta_or_empty("interface");
    let name = d.display_name.as_str().to_lowercase();
    let host = match d.meta("hostname") {
        Some(h) => h.as_str().to_lowercase(),
        None => text::empty(),
    };
    if secondary || text::same(interface.as_str(), "wlan") || text::same(interface.as_str(), "wifi") || is_mobile_kind_of(
        d.kind.as_str(),
    ) || is_mobile_kind_of(group) || has_mobile_name_of(name.as_str(), host.as_str()) {
        Medium::Wlan
    } else {
        Medium::Lan
    }
}

/// One of the interfaces of `u` is connected by `m`.
pub open spec fn uses(u: UnifiedModel, group: Seq<char>, m: Medium) -> bool {
    medium(u.primary, false, group) == m || exists|i: int|
        0 <= i < u.secondary_interfaces.len() && medium(#[trigger] u.secondary_interfaces[i], true, group) == m
}

fn uses_medium(u: &UnifiedDevice, group: &str, m: Medium) -> (r: bool)
    ensures
        r == uses(u.deep_view(), group@, m),
{
    if medium_of(&u.primary, false, group) == m {
        return true;
    }
    let ghost all = u.deep_view().secondary_interfaces;
    let mut i: usize = 0;
    while i < u.secondary_interfaces.len()
        invariant
            i <= u.secondary_interfaces@.len(),
            all == u.deep_view().secondary_interfaces,
            forall|j: int| 0 <= j < i ==> medium(#[trigger] all[j], true, group@) != m,
        decreases u.secondary_interfaces@.len() - i,
    {
        assert(all[i as int] == u.secondary_interfaces@[i as int].deep_view());
        if medium_of(&u.secondary_interfaces[i], true, group) == m {
            return true;
        }
        i = i + 1;
    }
    false
}

/// The names of the media that are used.
pub open spec fn medium_names(lan: bool, wlan: bool, ble: bool) -> Seq<Seq<char>> {
    let one = if lan {
        seq!["LAN"@]
    } else {
        Seq::empty()
    };
    let two = if wlan {
        one.push("WLAN"@)
    } else {
        one
    };
    if ble {
        two.push("BLE"@)
    } else {
        two
    }
}

fn medium_names_of(lan: bool, wlan: bool, ble: bool) -> (r: Vec<String>)
    ensures
        r.deep_view() == medium_names(lan, wlan, ble),
{
    let mut r: Vec<String> = Vec::new();
    assert(r.deep_view() =~= Seq::<Seq<char>>::empty());
    if lan {
        r.push("LAN".to_owned());
    }
    let ghost one = r.deep_view();
    assert(one =~= if lan { seq!["LAN"@] } else { Seq::empty() });
    if wlan {
        r.push("WLAN".to_owned());
        assert(r.deep_view() =~= one.push("WLAN"@));
    }
    let ghost two = r.deep_view();
    if ble {
        r.push("BLE".to_owned());
        assert(r.deep_view() =~= two.push("BLE"@));
    }
    r
}

/// The mark of a device with several interfaces; nothing where there is only one.
pub open spec fn interface_badges(u: UnifiedModel, group: Seq<char>) -> Seq<char> {
    if u.secondary_interfaces.len() == 0 {
        Seq::empty()
    } else {
        device_parts::interface_badge_html(
            text::decimal(u.secondary_interfaces.len() + 1),
            text::joined(
                medium_names(uses(u, group, Medium::Lan), uses(u, group, Medium::Wlan), uses(u, group, Medium::Ble)),
                " + "@,
            ),
        )
    }
}

fn interface_badges_of(u: &UnifiedDevice, group: &str) -> (r: String)
    ensures
        r@ == interface_badges(u.deep_view(), group@),
{
    if u.secondary_interfaces.len() == 0 {
        return text::empty();
    }
    let names = medium_names_of(
        uses_medium(u, group, Medium::Lan),
        uses_medium(u, group, Medium::Wlan),
        uses_medium(u, group, Medium::Ble),
    );
    let total = text::digits(u.secondary_interfaces.len() as u128 + 1);
    let label = text::join(&names, " + ");
    device_parts::interface_badge(total.as_str(), label.as_str())
}

// ---------------------------------------------------------------------------------------
// Addresses
// ---------------------------------------------------------------------------------------

pub open spec fn is_zigbee(d: DeviceModel) -> bool {
    d.meta("protocol"@) == Some("zigbee"@) || d.module_id == "philips-hue"@ || d.meta("source"@) == Some("philips-hue"@)
}

pub open spec fn is_bluetooth(d: DeviceModel) -> bool {
    d.meta("protocol"@) == Some("ble"@) || d.module_id == "bthome"@ || d.meta("source"@) == Some("bthome"@)
        || d.meta("source"@) == Some("mobile-ble"@)
}

fn is_zigbee_device(d: &DeviceRecord) -> (r: bool)
    ensures
        r == is_zigbee(d.deep_view()),
{
    d.meta_is("protocol", "zigbee") || text::same(d.module_id.as_str(), "philips-hue") || d.meta_is("source", "philips-hue")
}

fn is_bluetooth_device(d: &DeviceRecord) -> (r: bool)
    ensures
        r == is_bluetooth(d.deep_view()),
{
    d.meta_is("protocol", "ble") || text::same(d.module_id.as_str(), "bthome") || d.meta_is("source", "bthome")
        || d.meta_is("source", "mobile-ble")
}

/// The address that a device reports; a hyphen where it reports none.
pub open spec fn ip_or_dash(d: DeviceModel) -> Seq<char> {
    text::or_text(d.meta("ip"@), "-"@)
}

/// The bridge or the gateway of a Zigbee device.
pub open spec fn zigbee_gateway(d: DeviceModel) -> Seq<char> {
    match d.meta("bridge_ip"@) {
        Some(g) => g,
        None => text::or_text(d.meta("gateway"@), "Hue Bridge"@),
    }
}

/// The address that is shown, or what stands in its place.
pub open spec fn shown_address(d: DeviceModel, group: Seq<char>) -> Seq<char> {
    let ip = ip_or_dash(d);
    if ip.len() > 0 && ip != "Layer 2"@ && ip != "-"@ {
        ip
    } else if is_zigbee(d) {
        device_parts::zigbee_address_html(zigbee_gateway(d))
    } else if is_bluetooth(d) {
        "Bluetooth LE"@
    } else if group == "switch"@ {
        "Layer 2 (Unmanaged)"@
    } else {
        "Non-IP Device"@
    }
}

fn ip_or_dash_of(d: &DeviceRecord) -> (r: String)
    ensures
        r@ == ip_or_dash(d.deep_view()),
{
    device_data::meta_or(d, "ip", "-")
}

fn shown_address_of(d: &DeviceRecord, group: &str) -> (r: String)
    ensures
        r@ == shown_address(d.deep_view(), group@),
{
    let ip = ip_or_dash_of(d);
    if !text::blank(ip.as_str()) && !text::same(ip.as_str(), "Layer 2") && !text::same(ip.as_str(), "-") {
        ip
    } else if is_zigbee_device(d) {
        let gateway = match d.meta("bridge_ip") {
            Some(g) => g.clone(),
            None => device_data::meta_or(d, "gateway", "Hue Bridge"),
        };
        device_parts::zigbee_address(gateway.as_str())
    } else if is_bluetooth_device(d) {
        "Bluetooth LE".to_owned()
    } else if text::same(group, "switch") {
        "Layer 2 (Unmanaged)".to_owned()
    } else {
        "Non-IP Device".to_owned()
    }
}

/// The cell with the addresses of a device.
pub open spec fn network_cell(u: UnifiedModel, group: Seq<char>) -> Seq<char> {
    let address = shown_address(u.primary, group);
    let badges = interface_badges(u, group);
    let mac = device_data::small_mac(u.primary);
    let vendor = u.primary.meta_or_empty("vendor"@);
    if mac.len() == 0 {
        device_parts::network_cell_html(address, badges)
    } else if vendor.len() == 0 {
        device_parts::network_mac_cell_html(address, badges, mac)
    } else {
        device_parts::network_vendor_cell_html(address, badges, mac, vendor)
    }
}

fn network_cell_of(u: &UnifiedDevice, group: &str) -> (r: String)
    ensures
        r@ == network_cell(u.deep_view(), group@),
{
    let address = shown_address_of(&u.primary, group);
    let badges = interface_badges_of(u, group);
    let mac = device_data::small_mac_of(&u.primary);
    let vendor = u.primary.meta_or_empty("vendor");
    if text::blank(mac.as_str()) {
        device_parts::network_cell(address.as_str(), badges.as_str())
    } else if text::blank(vendor.as_str()) {
        device_parts::network_mac_cell(address.as_str(), badges.as_str(), mac.as_str())
    } else {
        device_parts::network_vendor_cell(address.as_str(), badges.as_str(), mac.as_str(), vendor.as_str())
    }
}

// ---------------------------------------------------------------------------------------
// State
// ---------------------------------------------------------------------------------------

pub open spec fn status_dot(status: Seq<char>) -> Seq<char> {
    if status == "active"@ {
        device_parts::DOT_ACTIVE@
    } else if status == "archive"@ {
        device_parts::DOT_ARCHIVE@
    } else {
        device_parts::DOT_OFFLINE@
    }
}

fn status_dot_of(status: &str) -> (r: &'static str)
    ensures
        r@ == status_dot(status@),
{
    if text::same(status, "active") {
        device_parts::DOT_ACTIVE
    } else if text::same(status, "archive") {
        device_parts::DOT_ARCHIVE
    } else {
        device_parts::DOT_OFFLINE
    }
}

/// The badge of a device that is not online.
pub open spec fn offline_badge(status: Seq<char>, last_seen: Seq<char>) -> Seq<char> {
    if status == "archive"@ {
        device_parts::archive_badge_html(
            if last_seen.len() > 0 {
                device_parts::archive_seen_hint_html(last_seen)
            } else {
                device_parts::HINT_ARCHIVE@
            },
        )
    } else if status != "active"@ {
        device_parts::offline_badge_html(
            if last_seen.len() > 0 {
                device_parts::seen_hint_html(last_seen)
            } else {
                Seq::empty()
            },
        )
    } else {
        Seq::empty()
    }
}

fn offline_badge_of(status: &str, last_seen: &str) -> (r: String)
    ensures
        r@ == offline_badge(status@, last_seen@),
{
    if text::same(status, "archive") {
        let hint = if text::blank(last_seen) {
            device_parts::HINT_ARCHIVE.to_owned()
        } else {
            device_parts::archive_seen_hint(last_seen)
        };
        device_parts::archive_badge(hint.as_str())
    } else if !text::same(status, "active") {
        let hint = if text::blank(last_seen) {
            text::empty()
        } else {
            device_parts::seen_hint(last_seen)
        };
        device_parts::offline_badge(hint.as_str())
    } else {
        text::empty()
    }
}

// ---------------------------------------------------------------------------------------
// Sources
// ---------------------------------------------------------------------------------------

/// The sources of a device as one text; a verified gateway is named among them.
pub open spec fn source_text(gateways: Seq<GatewayModel>, d: DeviceModel) -> Seq<char> {
    let reported = device_data::reported_sources(d);
    if device_data::is_gateway(gateways, d) && !text::has(reported, "shelly-gateway"@) {
        if reported.len() > 0 {
            reported + ",shelly-gateway"@
        } else {
            "shelly-gateway"@
        }
    } else {
        reported
    }
}

fn source_text_of(gateways: &Vec<VerifiedShellyGateway>, d: &DeviceRecord) -> (r: String)
    ensures
        r@ == source_text(gateways.deep_view(), d.deep_view()),
{
    let mut reported = device_data::reported_sources_of(d);
    if device_data::is_gateway_device(gateways, d) && !text::contains(reported.as_str(), "shelly-gateway") {
        if text::blank(reported.as_str()) {
            "shelly-gateway".to_owned()
        } else {
            reported.append(",shelly-gateway");
            reported
        }
    } else {
        reported
    }
}

/// The label and the color of a source.
pub open spec fn source_look(source: Seq<char>) -> (Seq<char>, Seq<char>) {
    if source == "arp"@ {
        ("ARP"@, "#6366f1"@)
    } else if source == "ping"@ || source == "active-probe"@ {
        ("Ping"@, "#0284c7"@)
    } else if source == "http-probe"@ {
        ("Web"@, "#0ea5e9"@)
    } else if source == "mdns"@ {
        ("mDNS"@, "#8b5cf6"@)
    } else if source == "ssdp"@ {
        ("SSDP"@, "#d97706"@)
    } else if source == "fritzbox-tr064"@ {
        ("TR-064"@, "#059669"@)
    } else if source == "matter"@ || source == "matter-mdns"@ {
        ("Matter"@, "#10b981"@)
    } else if source == "home-assistant"@ || source == "mdns_homeassistant"@ {
        ("HA"@, "#0284c7"@)
    } else if source == "bthome"@ || source == "bthome-v2"@ {
        ("BTHome"@, "#3b82f6"@)
    } else if source == "shelly-gateway"@ {
        ("Shelly BLE"@, "#0284c7"@)
    } else if source == "philips-hue"@ || source == "hue"@ {
        ("Hue"@, "#eab308"@)
    } else if source == "zigbee"@ {
        ("Zigbee"@, "#eab308"@)
    } else if source == "ble"@ {
        ("BLE"@, "#6366f1"@)
    } else {
        (source, "#64748b"@)
    }
}

fn source_look_of(source: &str) -> (r: (&str, &str))
    ensures
        (r.0@, r.1@) == source_look(source@),
{
    if text::same(source, "arp") {
        ("ARP", "#6366f1")
    } else if text::same(source, "ping") || text::same(source, "active-probe") {
        ("Ping", "#0284c7")
    } else if text::same(source, "http-probe") {
        ("Web", "#0ea5e9")
    } else if text::same(source, "mdns") {
        ("mDNS", "#8b5cf6")
    } else if text::same(source, "ssdp") {
        ("SSDP", "#d97706")
    } else if text::same(source, "fritzbox-tr064") {
        ("TR-064", "#059669")
    } else if text::same(source, "matter") || text::same(source, "matter-mdns") {
        ("Matter", "#10b981")
    } else if text::same(source, "home-assistant") || text::same(source, "mdns_homeassistant") {
        ("HA", "#0284c7")
    } else if text::same(source, "bthome") || text::same(source, "bthome-v2") {
        ("BTHome", "#3b82f6")
    } else if text::same(source, "shelly-gateway") {
        ("Shelly BLE", "#0284c7")
    } else if text::same(source, "philips-hue") || text::same(source, "hue") {
        ("Hue", "#eab308")
    } else if text::same(source, "zigbee") {
        ("Zigbee", "#eab308")
    } else if text::same(source, "ble") {
        ("BLE", "#6366f1")
    } else {
        (source, "#64748b")
    }
}

/// The marks of the sources.
pub open spec fn source_badges(sources: Seq<Seq<char>>) -> Seq<char>
    decreases sources.len(),
{
    if sources.len() == 0 {
        Seq::empty()
    } else {
        let s = sources.last();
        source_badges(sources.drop_last()) + device_parts::source_badge_html(source_look(s).1, s, source_look(s).0)
    }
}

fn source_badges_of(sources: &Vec<String>) -> (r: String)
    ensures
        r@ == source_badges(sources.deep_view()),
{
    let ghost all = sources.deep_view();
    let mut r = text::empty();
    let mut i: usize = 0;
    while i < sources.len()
        invariant
            i <= sources@.len(),
            all == sources.deep_view(),
            r@ == source_badges(all.take(i as int)),
        decreases sources@.len() - i,
    {
        let s = sources[i].as_str();
        assert(all.take(i + 1).drop_last() =~= all.take(i as int));
        assert(all.take(i + 1).last() == s@);
        let (label, color) = source_look_of(s);
        r.append(device_parts::source_badge(color, s, label).as_str());
        i = i + 1;
    }
    assert(all.take(i as int) =~= all);
    r
}

// ---------------------------------------------------------------------------------------
// Buttons
// ---------------------------------------------------------------------------------------

/// The id of a Hue light.
pub open spec fn light_id(d: DeviceModel) -> Seq<char> {
    match d.meta("light_id"@) {
        Some(id) => id,
        None => text::replaced(d.device_id, "hue-light-"@, ""@),
    }
}

/// The button that switches a Hue light; nothing for other devices.
pub open spec fn light_button(d: DeviceModel, sources: Seq<char>) -> Seq<char> {
    if text::has(sources, "philips-hue"@) && d.kind == "lighting"@ {
        if d.meta("power_state"@) == Some("on"@) {
            device_parts::light_button_html("rgba(234,179,8,0.2)"@, "#eab308"@, light_id(d), "💡 An"@)
        } else {
            device_parts::light_button_html("var(--surface)"@, "var(--border)"@, light_id(d), "🔌 Aus"@)
        }
    } else {
        Seq::empty()
    }
}

fn light_button_of(d: &DeviceRecord, sources: &str) -> (r: String)
    ensures
        r@ == light_button(d.deep_view(), sources@),
{
    if text::contains(sources, "philips-hue") && text::same(d.kind.as_str(), "lighting") {
        proof {
            reveal_strlit("hue-light-");
        }
        let id = match d.meta("light_id") {
            Some(id) => id.clone(),
            None => text::replace(d.device_id.as_str(), "hue-light-", ""),
        };
        if d.meta_is("power_state", "on") {
            device_parts::light_button("rgba(234,179,8,0.2)", "#eab308", id.as_str(), "💡 An")
        } else {
            device_parts::light_button("var(--surface)", "var(--border)", id.as_str(), "🔌 Aus")
        }
    } else {
        text::empty()
    }
}

/// The link to the pages of a device; nothing where it has none.
pub open spec fn web_button(d: DeviceModel) -> Seq<char> {
    match d.meta("web_url"@) {
        Some(url) => device_parts::web_button_html(url),
        None => Seq::empty(),
    }
}

fn web_button_of(d: &DeviceRecord) -> (r: String)
    ensures
        r@ == web_button(d.deep_view()),
{
    match d.meta("web_url") {
        Some(url) => device_parts::web_button(url.as_str()),
        None => text::empty(),
    }
}

/// The button that asks whether a device answers, or what stands in its place where the device
/// has no address.
pub open spec fn ping_button(d: DeviceModel, group: Seq<char>) -> Seq<char> {
    if text::is_ipv4(ip_or_dash(d)) {
        device_parts::ping_button_html(d.device_id)
    } else if is_zigbee(d) {
        device_parts::UNREACHABLE_ZIGBEE@
    } else if is_bluetooth(d) {
        device_parts::UNREACHABLE_BLE@
    } else if group == "switch"@ {
        device_parts::UNREACHABLE_SWITCH@
    } else {
        device_parts::UNREACHABLE@
    }
}

fn ping_button_of(d: &DeviceRecord, group: &str) -> (r: String)
    ensures
        r@ == ping_button(d.deep_view(), group@),
{
    if text::ipv4(ip_or_dash_of(d).as_str()) {
        device_parts::ping_button(d.device_id.as_str())
    } else if is_zigbee_device(d) {
        device_parts::UNREACHABLE_ZIGBEE.to_owned()
    } else if is_bluetooth_device(d) {
        device_parts::UNREACHABLE_BLE.to_owned()
    } else if text::same(group, "switch") {
        device_parts::UNREACHABLE_SWITCH.to_owned()
    } else {
        device_parts::UNREACHABLE.to_owned()
    }
}

/// The buttons of a device: one that is offline can be asked for, a light can be switched, and
/// the pages of a device can be opened.
pub open spec fn buttons(d: DeviceModel, group: Seq<char>, status: Seq<char>, sources: Seq<char>) -> Seq<char> {
    let light = light_button(d, sources);
    let web = web_button(d);
    let ping = ping_button(d, group);
    if status != "active"@ {
        if light.len() > 0 {
            device_parts::light_and_ping_html(light, ping)
        } else if web.len() > 0 {
            device_parts::ping_and_web_html(ping, web)
        } else {
            ping
        }
    } else if light.len() > 0 {
        light
    } else {
        web
    }
}

fn buttons_of(d: &DeviceRecord, group: &str, status: &str, sources: &str) -> (r: String)
    ensures
        r@ == buttons(d.deep_view(), group@, status@, sources@),
{
    let light = light_button_of(d, sources);
    let web = web_button_of(d);
    if !text::same(status, "active") {
        let ping = ping_button_of(d, group);
        if !text::blank(light.as_str()) {
            device_parts::light_and_ping(light.as_str(), ping.as_str())
        } else if !text::blank(web.as_str()) {
            device_parts::ping_and_web(ping.as_str(), web.as_str())
        } else {
            ping
        }
    } else if !text::blank(light.as_str()) {
        light
    } else {
        web
    }
}

// ---------------------------------------------------------------------------------------
// The row
// ---------------------------------------------------------------------------------------

/// Something is written down about the device.
pub open spec fn is_documented(doc: DocModel) -> bool {
    text::trimmed(doc.notes).len() > 0 || doc.manual_url is Some || doc.name is Some
}

fn is_documented_doc(doc: &DeviceDocumentation) -> (r: bool)
    ensures
        r == is_documented(doc.deep_view()),
{
    !text::blank(text::trim(doc.notes.as_str()).as_str()) || doc.manual_url.is_some() || doc.name.is_some()
}

/// The mark of the room; nothing where the room is not known.
pub open spec fn room_badge(room: Seq<char>, record: Option<RoomModel>) -> Seq<char> {
    if room.len() == 0 {
        Seq::empty()
    } else {
        let icon = match record {
            Some(r) => text::or_text(r.icon, "🚪"@),
            None => "🚪"@,
        };
        device_parts::room_badge_html(room, icon)
    }
}

fn room_badge_of(room: &str, record: Option<&RoomRecord>) -> (r: String)
    ensures
        r@ == room_badge(room@, record.deep_view()),
{
    if text::blank(room) {
        return text::empty();
    }
    let icon = match record {
        Some(r) => match &r.icon {
            Some(icon) => icon.clone(),
            None => "🚪".to_owned(),
        },
        None => "🚪".to_owned(),
    };
    device_parts::room_badge(room, icon.as_str())
}

/// The device is marked as ignored in the list.
pub open spec fn is_ignored_in_list(d: DeviceModel, facts: FactsModel) -> bool {
    facts.id_ignored || (device_data::small_mac(d).len() > 0 && facts.small_mac_ignored)
}

/// The documentation that the list goes by.
pub open spec fn row_doc(home: HouseholdModel, d: DeviceModel) -> DocModel {
    device_data::doc_for(home.docs, device_data::small_mac(d), d.device_id)
}

/// The room that the list shows.
pub open spec fn row_room(home: HouseholdModel, d: DeviceModel) -> Seq<char> {
    text::trimmed(device_data::room_of(row_doc(home, d), d))
}

/// The room that the list of devices shows for a device.
pub fn room_in_list(home: &Household, d: &DeviceRecord) -> (r: String)
    ensures
        r@ == row_room(home.deep_view(), d.deep_view()),
{
    let mac = device_data::small_mac_of(d);
    let doc = device_data::find_doc(&home.docs, mac.as_str(), d.device_id.as_str());
    text::trim(device_data::device_room(&doc, d).as_str())
}

/// The row of a device in the category `group`.
pub open spec fn device_row(u: UnifiedModel, facts: FactsModel, home: HouseholdModel, group: Seq<char>) -> Seq<char> {
    let d = u.primary;
    let doc = row_doc(home, d);
    let status = device_data::status_of(d);
    let ignored = is_ignored_in_list(d, facts);
    let sources = source_text(home.gateways, d);
    let room = row_room(home, d);
    let record = device_data::room_named(home.rooms, room);
    device_parts::row_html(
        d.device_id,
        status,
        text::bool_word(status == "active"@),
        text::bool_word(ignored),
        sources,
        room,
        device_data::floor_of(record, facts.trimmed_room_floor),
        status_dot(status),
        device_data::shown_name(doc, d),
        offline_badge(status, d.meta_or_empty("last_seen"@)),
        if ignored {
            device_parts::IGNORED_BADGE@
        } else {
            ""@
        },
        room_badge(room, record),
        if is_documented(doc) {
            device_parts::DOC_ICON@
        } else {
            ""@
        },
        fabric_badges(fabrics::device_fabrics(d, u.secondary_interfaces, home.fabric_metas)),
        d.module_id,
        source_badges(device_data::sources_in(sources)),
        network_cell(u, group),
        buttons(d, group, status, sources),
    )
}

/// The row of a device in the category `group`.
pub(crate) fn device_row_of(u: &UnifiedDevice, facts: &DeviceFacts, home: &Household, group: &str) -> (r: String)
    requires
        fabrics::can_list_fabrics(
            u.deep_view().primary,
            u.deep_view().secondary_interfaces,
            home.deep_view().fabric_metas,
        ),
    ensures
        r@ == device_row(u.deep_view(), facts.deep_view(), home.deep_view(), group@),
{
    let d = &u.primary;
    let mac = device_data::small_mac_of(d);
    let doc = device_data::find_doc(&home.docs, mac.as_str(), d.device_id.as_str());
    let status = device_data::device_status(d);
    let ignored = facts.id_ignored || (!text::blank(mac.as_str()) && facts.small_mac_ignored);
    let sources = source_text_of(&home.gateways, d);
    let room = text::trim(device_data::device_room(&doc, d).as_str());
    let record = device_data::find_room(&home.rooms, room.as_str());
    let floor = device_data::floor_for(record, &facts.trimmed_room_floor);
    let name = device_data::shown_name_of(&doc, d);
    let offline = offline_badge_of(status.as_str(), d.meta_or_empty("last_seen").as_str());
    let room_mark = room_badge_of(room.as_str(), record);
    let fabric_list = fabrics::extract_device_matter_fabrics(d, u.secondary_interfaces.as_slice(), &home.fabric_metas);
    let fabric_marks = fabric_badges_of(&fabric_list);
    let source_list = device_data::split_sources(sources.as_str());
    let source_marks = source_badges_of(&source_list);
    let network = network_cell_of(u, group);
    let actions = buttons_of(d, group, status.as_str(), sources.as_str());
    device_parts::row(
        d.device_id.as_str(),
        status.as_str(),
        text::word(text::same(status.as_str(), "active")),
        text::word(ignored),
        sources.as_str(),
        room.as_str(),
        floor.as_str(),
        status_dot_of(status.as_str()),
        name.as_str(),
        offline.as_str(),
        if ignored {
            device_parts::IGNORED_BADGE
        } else {
            ""
        },
        room_mark.as_str(),
        if is_documented_doc(&doc) {
            device_parts::DOC_ICON
        } else {
            ""
        },
        fabric_marks.as_str(),
        d.module_id.as_str(),
        source_marks.as_str(),
        network.as_str(),
        actions.as_str(),
    )
}

}
