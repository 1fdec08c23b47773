//! The pieces of which the list of devices is made.

use vstd::prelude::*;

verus! {

broadcast use vstd::string::group_string_axioms;

/// The mark of a device that is online.
pub const DOT_ACTIVE: &'static str = r#"<span class="status-dot" style="background:#10b981; display:inline-block; width:8px; height:8px; border-radius:50%; margin-right:6px;" title="Online / Active"></span>"#;

/// The mark of a device that only the router remembers.
pub const DOT_ARCHIVE: &'static str = r#"<span class="status-dot" style="background:#cbd5e1; display:inline-block; width:8px; height:8px; border-radius:50%; margin-right:6px;" title="Router Archive (FRITZ!Box)"></span>"#;

/// The mark of a device that is offline.
pub const DOT_OFFLINE: &'static str = r#"<span class="status-dot" style="background:#94a3b8; display:inline-block; width:8px; height:8px; border-radius:50%; margin-right:6px;" title="Offline / Former (HomeNode)"></span>"#;

/// The hint at a device of which only the router knows.
pub const HINT_ARCHIVE: &'static str = r#" title="Reines FRITZ!Box Router-Archiv""#;

/// The mark of a device that is documented.
pub const DOC_ICON: &'static str = r#" <span style="color:var(--status-green); font-size:11px;" title="Documentation / Name saved">📝✓</span>"#;

/// In place of a button for a Zigbee device.
pub const UNREACHABLE_ZIGBEE: &'static str = r#"<span class="badge" style="background:#fef3c7; color:#92400e; font-size:10px; padding:2px 6px; border:1px solid #fde68a;" title="Zigbee Gerät nicht erreichbar">Offline</span>"#;

/// In place of a button for a Bluetooth device.
pub const UNREACHABLE_BLE: &'static str = r#"<span class="badge" style="background:#e0f2fe; color:#0369a1; font-size:10px; padding:2px 6px; border:1px solid #bae6fd;" title="Bluetooth LE Gerät nicht in Reichweite">Offline</span>"#;

/// In place of a button for a switch without an address.
pub const UNREACHABLE_SWITCH: &'static str = r#"<span class="badge" style="background:#f1f5f9; color:#94a3b8; font-size:11px; padding:3px 6px; border:1px solid #e2e8f0;" title="Reines Layer-2-Gerät ohne IP-Adresse">L2 Switch</span>"#;

/// In place of a button for another device without an address.
pub const UNREACHABLE: &'static str = r#"<span class="badge" style="background:#f1f5f9; color:#94a3b8; font-size:11px; padding:3px 6px; border:1px solid #e2e8f0;" title="Gerät ohne eigene IP-Adresse">No IP</span>"#;

/// The mark of a device that is ignored.
pub const IGNORED_BADGE: &'static str = r#" <span class="badge" style="background:#fee2e2; color:#b91c1c; font-size:10px; border:1px solid #fca5a5; padding:1px 5px;" title="Nachbargerät / Ignoriert">🚫 Ignoriert</span>"#;

pub const FABRIC_BADGE_0: &'static str = r#" <span class="badge" style="background:#059669; color:#fff; font-size:10px; padding:2px 6px; border-radius:4px; margin-left:3px;" title="Matter Fabric: "#;

pub const FABRIC_BADGE_1: &'static str = r#" (Node ID: "#;

pub const FABRIC_BADGE_2: &'static str = r#")">✨ "#;

pub const FABRIC_BADGE_3: &'static str = r#" "#;

pub const FABRIC_BADGE_4: &'static str = r#"</span>"#;

/// The mark of a Matter fabric.
pub open spec fn fabric_badge_html(
    fabric_id: Seq<char>,
    node_id: Seq<char>,
    fabric_icon: Seq<char>,
    fabric_name: Seq<char>,
) -> Seq<char> {
    FABRIC_BADGE_0@ + fabric_id + FABRIC_BADGE_1@ + node_id + FABRIC_BADGE_2@ + fabric_icon + FABRIC_BADGE_3@ + fabric_name + FABRIC_BADGE_4@
}

/// The mark of a Matter fabric.
pub fn fabric_badge(fabric_id: &str, node_id: &str, fabric_icon: &str, fabric_name: &str) -> (r: String)
    ensures
        r@ == fabric_badge_html(fabric_id@, node_id@, fabric_icon@, fabric_name@),
{
    let mut out = FABRIC_BADGE_0.to_owned();
    out.append(fabric_id);
    out.append(FABRIC_BADGE_1);
    out.append(node_id);
    out.append(FABRIC_BADGE_2);
    out.append(fabric_icon);
    out.append(FABRIC_BADGE_3);
    out.append(fabric_name);
    out.append(FABRIC_BADGE_4);
    out
}

pub const INTERFACE_BADGE_0: &'static str = r#" <span class="badge badge-dual" title="Multi-interface device ("#;

pub const INTERFACE_BADGE_1: &'static str = r#" interfaces)">"#;

pub const INTERFACE_BADGE_2: &'static str = r#" ("#;

pub const INTERFACE_BADGE_3: &'static str = r#")</span>"#;

/// The mark of a device with several interfaces.
pub open spec fn interface_badge_html(total: Seq<char>, label: Seq<char>) -> Seq<char> {
    INTERFACE_BADGE_0@ + total + INTERFACE_BADGE_1@ + label + INTERFACE_BADGE_2@ + total + INTERFACE_BADGE_3@
}

/// The mark of a device with several interfaces.
pub fn interface_badge(total: &str, label: &str) -> (r: String)
    ensures
        r@ == interface_badge_html(total@, label@),
{
    let mut out = INTERFACE_BADGE_0.to_owned();
    out.append(total);
    out.append(INTERFACE_BADGE_1);
    out.append(label);
    out.append(INTERFACE_BADGE_2);
    out.append(total);
    out.append(INTERFACE_BADGE_3);
    out
}

pub const WEB_BUTTON_0: &'static str = r#"<a href=""#;

pub const WEB_BUTTON_1: &'static str = r#"" target="_blank" class="btn-sm btn-web" onclick="event.stopPropagation()" title="Open Web Interface">🌐 Web UI</a>"#;

/// The link to the pages of a device.
pub open spec fn web_button_html(url: Seq<char>) -> Seq<char> {
    WEB_BUTTON_0@ + url + WEB_BUTTON_1@
}

/// The link to the pages of a device.
pub fn web_button(url: &str) -> (r: String)
    ensures
        r@ == web_button_html(url@),
{
    let mut out = WEB_BUTTON_0.to_owned();
    out.append(url);
    out.append(WEB_BUTTON_1);
    out
}

pub const ARCHIVE_SEEN_HINT_0: &'static str = r#" title="In FRITZ!Box hinterlegt: "#;

pub const ARCHIVE_SEEN_HINT_1: &'static str = r#"""#;

/// The hint when the router last saw a device.
pub open spec fn archive_seen_hint_html(last_seen: Seq<char>) -> Seq<char> {
    ARCHIVE_SEEN_HINT_0@ + last_seen + ARCHIVE_SEEN_HINT_1@
}

/// The hint when the router last saw a device.
pub fn archive_seen_hint(last_seen: &str) -> (r: String)
    ensures
        r@ == archive_seen_hint_html(last_seen@),
{
    let mut out = ARCHIVE_SEEN_HINT_0.to_owned();
    out.append(last_seen);
    out.append(ARCHIVE_SEEN_HINT_1);
    out
}

pub const ARCHIVE_BADGE_0: &'static str = r#" <span class="badge" style="background:#f8fafc; color:#94a3b8; font-size:10px; border:1px dashed #cbd5e1; padding:1px 5px;""#;

pub const ARCHIVE_BADGE_1: &'static str = r#">📦 Archiv</span>"#;

/// The badge of a device that only the router remembers.
pub open spec fn archive_badge_html(hint: Seq<char>) -> Seq<char> {
    ARCHIVE_BADGE_0@ + hint + ARCHIVE_BADGE_1@
}

/// The badge of a device that only the router remembers.
pub fn archive_badge(hint: &str) -> (r: String)
    ensures
        r@ == archive_badge_html(hint@),
{
    let mut out = ARCHIVE_BADGE_0.to_owned();
    out.append(hint);
    out.append(ARCHIVE_BADGE_1);
    out
}

pub const SEEN_HINT_0: &'static str = r#" title="Zuletzt online: "#;

pub const SEEN_HINT_1: &'static str = r#"""#;

/// The hint when a device was last online.
pub open spec fn seen_hint_html(last_seen: Seq<char>) -> Seq<char> {
    SEEN_HINT_0@ + last_seen + SEEN_HINT_1@
}

/// The hint when a device was last online.
pub fn seen_hint(last_seen: &str) -> (r: String)
    ensures
        r@ == seen_hint_html(last_seen@),
{
    let mut out = SEEN_HINT_0.to_owned();
    out.append(last_seen);
    out.append(SEEN_HINT_1);
    out
}

pub const OFFLINE_BADGE_0: &'static str = r#" <span class="badge" style="background:#f1f5f9; color:#64748b; font-size:10px; border:1px solid #cbd5e1; padding:1px 5px;""#;

pub const OFFLINE_BADGE_1: &'static str = r#">⚪ Offline</span>"#;

/// The badge of a device that is offline.
pub open spec fn offline_badge_html(hint: Seq<char>) -> Seq<char> {
    OFFLINE_BADGE_0@ + hint + OFFLINE_BADGE_1@
}

/// The badge of a device that is offline.
pub fn offline_badge(hint: &str) -> (r: String)
    ensures
        r@ == offline_badge_html(hint@),
{
    let mut out = OFFLINE_BADGE_0.to_owned();
    out.append(hint);
    out.append(OFFLINE_BADGE_1);
    out
}

pub const SOURCE_BADGE_0: &'static str = r#" <span class="badge" style="background:"#;

pub const SOURCE_BADGE_1: &'static str = r#"; color:#fff; font-size:9px; padding:1px 4px; border-radius:3px; opacity:0.85; margin-left:3px;" title="Interface: "#;

pub const SOURCE_BADGE_2: &'static str = r#"">"#;

pub const SOURCE_BADGE_3: &'static str = r#"</span>"#;

/// The mark of a source.
pub open spec fn source_badge_html(color: Seq<char>, source: Seq<char>, label: Seq<char>) -> Seq<char> {
    SOURCE_BADGE_0@ + color + SOURCE_BADGE_1@ + source + SOURCE_BADGE_2@ + label + SOURCE_BADGE_3@
}

/// The mark of a source.
pub fn source_badge(color: &str, source: &str, label: &str) -> (r: String)
    ensures
        r@ == source_badge_html(color@, source@, label@),
{
    let mut out = SOURCE_BADGE_0.to_owned();
    out.append(color);
    out.append(SOURCE_BADGE_1);
    out.append(source);
    out.append(SOURCE_BADGE_2);
    out.append(label);
    out.append(SOURCE_BADGE_3);
    out
}

pub const LIGHT_BUTTON_0: &'static str = r#"<button type="button" class="btn-sm" style="background:"#;

pub const LIGHT_BUTTON_1: &'static str = r#"; border:1px solid "#;

pub const LIGHT_BUTTON_2: &'static str = r#"; font-weight:600; font-size:11px; padding:2px 8px; border-radius:4px; cursor:pointer;" onclick="event.stopPropagation(); toggleHueLight('"#;

pub const LIGHT_BUTTON_3: &'static str = r#"')" title="Licht umschalten">"#;

pub const LIGHT_BUTTON_4: &'static str = r#"</button>"#;

/// The button that switches a light.
pub open spec fn light_button_html(
    color: Seq<char>,
    border: Seq<char>,
    light_id: Seq<char>,
    label: Seq<char>,
) -> Seq<char> {
    LIGHT_BUTTON_0@ + color + LIGHT_BUTTON_1@ + border + LIGHT_BUTTON_2@ + light_id + LIGHT_BUTTON_3@ + label + LIGHT_BUTTON_4@
}

/// The button that switches a light.
pub fn light_button(color: &str, border: &str, light_id: &str, label: &str) -> (r: String)
    ensures
        r@ == light_button_html(color@, border@, light_id@, label@),
{
    let mut out = LIGHT_BUTTON_0.to_owned();
    out.append(color);
    out.append(LIGHT_BUTTON_1);
    out.append(border);
    out.append(LIGHT_BUTTON_2);
    out.append(light_id);
    out.append(LIGHT_BUTTON_3);
    out.append(label);
    out.append(LIGHT_BUTTON_4);
    out
}

pub const PING_BUTTON_0: &'static str = r#"<button type="button" class="btn-sm btn-ping" data-ping-id=""#;

pub const PING_BUTTON_1: &'static str = r#"" onclick="event.stopPropagation(); pingDevice('"#;

pub const PING_BUTTON_2: &'static str = r#"', this)" title="Ping device to check reachability">📡 Ping</button>"#;

/// The button that asks whether a device answers.
pub open spec fn ping_button_html(id: Seq<char>) -> Seq<char> {
    PING_BUTTON_0@ + id + PING_BUTTON_1@ + id + PING_BUTTON_2@
}

/// The button that asks whether a device answers.
pub fn ping_button(id: &str) -> (r: String)
    ensures
        r@ == ping_button_html(id@),
{
    let mut out = PING_BUTTON_0.to_owned();
    out.append(id);
    out.append(PING_BUTTON_1);
    out.append(id);
    out.append(PING_BUTTON_2);
    out
}

pub const LIGHT_AND_PING_0: &'static str = r#"<div style="display:inline-flex; gap:6px; justify-content:flex-end; align-items:center;">"#;

pub const LIGHT_AND_PING_1: &'static str = r#"</div>"#;

/// Two buttons side by side.
pub open spec fn light_and_ping_html(light: Seq<char>, ping: Seq<char>) -> Seq<char> {
    LIGHT_AND_PING_0@ + light + ping + LIGHT_AND_PING_1@
}

/// Two buttons side by side.
pub fn light_and_ping(light: &str, ping: &str) -> (r: String)
    ensures
        r@ == light_and_ping_html(light@, ping@),
{
    let mut out = LIGHT_AND_PING_0.to_owned();
    out.append(light);
    out.append(ping);
    out.append(LIGHT_AND_PING_1);
    out
}

pub const PING_AND_WEB_0: &'static str = r#"<div style="display:inline-flex; gap:6px; justify-content:flex-end; align-items:center;">"#;

pub const PING_AND_WEB_1: &'static str = r#"</div>"#;

/// Two buttons side by side.
pub open spec fn ping_and_web_html(ping: Seq<char>, web: Seq<char>) -> Seq<char> {
    PING_AND_WEB_0@ + ping + web + PING_AND_WEB_1@
}

/// Two buttons side by side.
pub fn ping_and_web(ping: &str, web: &str) -> (r: String)
    ensures
        r@ == ping_and_web_html(ping@, web@),
{
    let mut out = PING_AND_WEB_0.to_owned();
    out.append(ping);
    out.append(web);
    out.append(PING_AND_WEB_1);
    out
}

pub const ROOM_BADGE_0: &'static str = r#" <span class="badge" style="background:#e0e7ff; color:#3730a3; font-size:10px; padding:1px 5px; border-radius:3px; margin-left:3px;" title="Raum: "#;

pub const ROOM_BADGE_1: &'static str = r#"">"#;

pub const ROOM_BADGE_2: &'static str = r#" "#;

pub const ROOM_BADGE_3: &'static str = r#"</span>"#;

/// The mark of a room.
pub open spec fn room_badge_html(room: Seq<char>, icon: Seq<char>) -> Seq<char> {
    ROOM_BADGE_0@ + room + ROOM_BADGE_1@ + icon + ROOM_BADGE_2@ + room + ROOM_BADGE_3@
}

/// The mark of a room.
pub fn room_badge(room: &str, icon: &str) -> (r: String)
    ensures
        r@ == room_badge_html(room@, icon@),
{
    let mut out = ROOM_BADGE_0.to_owned();
    out.append(room);
    out.append(ROOM_BADGE_1);
    out.append(icon);
    out.append(ROOM_BADGE_2);
    out.append(room);
    out.append(ROOM_BADGE_3);
    out
}

pub const NETWORK_CELL_0: &'static str = r#"<code>"#;

pub const NETWORK_CELL_1: &'static str = r#"</code>"#;

/// The address of a device.
pub open spec fn network_cell_html(address: Seq<char>, badges: Seq<char>) -> Seq<char> {
    NETWORK_CELL_0@ + address + NETWORK_CELL_1@ + badges
}

/// The address of a device.
pub fn network_cell(address: &str, badges: &str) -> (r: String)
    ensures
        r@ == network_cell_html(address@, badges@),
{
    let mut out = NETWORK_CELL_0.to_owned();
    out.append(address);
    out.append(NETWORK_CELL_1);
    out.append(badges);
    out
}

pub const NETWORK_MAC_CELL_0: &'static str = r#"<code>"#;

pub const NETWORK_MAC_CELL_1: &'static str = r#"</code>"#;

pub const NETWORK_MAC_CELL_2: &'static str = r#"<br><small style="color:var(--muted)">"#;

pub const NETWORK_MAC_CELL_3: &'static str = r#"</small>"#;

/// The address and the MAC address of a device.
pub open spec fn network_mac_cell_html(address: Seq<char>, badges: Seq<char>, mac: Seq<char>) -> Seq<char> {
    NETWORK_MAC_CELL_0@ + address + NETWORK_MAC_CELL_1@ + badges + NETWORK_MAC_CELL_2@ + mac + NETWORK_MAC_CELL_3@
}

/// The address and the MAC address of a device.
pub fn network_mac_cell(address: &str, badges: &str, mac: &str) -> (r: String)
    ensures
        r@ == network_mac_cell_html(address@, badges@, mac@),
{
    let mut out = NETWORK_MAC_CELL_0.to_owned();
    out.append(address);
    out.append(NETWORK_MAC_CELL_1);
    out.append(badges);
    out.append(NETWORK_MAC_CELL_2);
    out.append(mac);
    out.append(NETWORK_MAC_CELL_3);
    out
}

pub const NETWORK_VENDOR_CELL_0: &'static str = r#"<code>"#;

pub const NETWORK_VENDOR_CELL_1: &'static str = r#"</code>"#;

pub const NETWORK_VENDOR_CELL_2: &'static str = r#"<br><small style="color:var(--muted)">"#;

pub const NETWORK_VENDOR_CELL_3: &'static str = r#" &bull; "#;

pub const NETWORK_VENDOR_CELL_4: &'static str = r#"</small>"#;

/// The address, the MAC address and the vendor of a device.
pub open spec fn network_vendor_cell_html(
    address: Seq<char>,
    badges: Seq<char>,
    mac: Seq<char>,
    vendor: Seq<char>,
) -> Seq<char> {
    NETWORK_VENDOR_CELL_0@ + address + NETWORK_VENDOR_CELL_1@ + badges + NETWORK_VENDOR_CELL_2@ + mac + NETWORK_VENDOR_CELL_3@ + vendor + NETWORK_VENDOR_CELL_4@
}

/// The address, the MAC address and the vendor of a device.
pub fn network_vendor_cell(address: &str, badges: &str, mac: &str, vendor: &str) -> (r: String)
    ensures
        r@ == network_vendor_cell_html(address@, badges@, mac@, vendor@),
{
    let mut out = NETWORK_VENDOR_CELL_0.to_owned();
    out.append(address);
    out.append(NETWORK_VENDOR_CELL_1);
    out.append(badges);
    out.append(NETWORK_VENDOR_CELL_2);
    out.append(mac);
    out.append(NETWORK_VENDOR_CELL_3);
    out.append(vendor);
    out.append(NETWORK_VENDOR_CELL_4);
    out
}

pub const ZIGBEE_ADDRESS_0: &'static str = r#"Zigbee (via "#;

pub const ZIGBEE_ADDRESS_1: &'static str = r#")"#;

/// What stands in place of the address of a Zigbee device.
pub open spec fn zigbee_address_html(gateway: Seq<char>) -> Seq<char> {
    ZIGBEE_ADDRESS_0@ + gateway + ZIGBEE_ADDRESS_1@
}

/// What stands in place of the address of a Zigbee device.
pub fn zigbee_address(gateway: &str) -> (r: String)
    ensures
        r@ == zigbee_address_html(gateway@),
{
    let mut out = ZIGBEE_ADDRESS_0.to_owned();
    out.append(gateway);
    out.append(ZIGBEE_ADDRESS_1);
    out
}

pub const ROW_0: &'static str = r#"<tr class="device-item" data-id=""#;

pub const ROW_1: &'static str = r#"" data-status=""#;

pub const ROW_2: &'static str = r#"" data-active=""#;

pub const ROW_3: &'static str = r#"" data-ignored=""#;

pub const ROW_4: &'static str = r#"" data-sources=""#;

pub const ROW_5: &'static str = r#"" data-room=""#;

pub const ROW_6: &'static str = r#"" data-floor=""#;

pub const ROW_7: &'static str = r#"" onclick="selectDevice('"#;

pub const ROW_8: &'static str = r#"')">
                        <td>"#;

pub const ROW_9: &'static str = r#"<strong class="dev-display-name">"#;

pub const ROW_10: &'static str = r#"</strong>"#;

pub const ROW_11: &'static str = r#"<br><small style="color:var(--muted)">"#;

pub const ROW_12: &'static str = r#" &bull; "#;

pub const ROW_13: &'static str = r#"</small>"#;

pub const ROW_14: &'static str = r#"</td>
                        <td>"#;

pub const ROW_15: &'static str = r#"</td>
                        <td style="text-align:right;">"#;

pub const ROW_16: &'static str = r#"</td>
                    </tr>"#;

/// A row of the list.
pub open spec fn row_html(
    id: Seq<char>,
    status: Seq<char>,
    active: Seq<char>,
    ignored: Seq<char>,
    sources: Seq<char>,
    room: Seq<char>,
    floor: Seq<char>,
    dot: Seq<char>,
    name: Seq<char>,
    offline: Seq<char>,
    ignored_mark: Seq<char>,
    room_mark: Seq<char>,
    doc_mark: Seq<char>,
    fabric_marks: Seq<char>,
    module: Seq<char>,
    source_marks: Seq<char>,
    network: Seq<char>,
    actions: Seq<char>,
) -> Seq<char> {
    ROW_0@ + id + ROW_1@ + status + ROW_2@ + active + ROW_3@ + ignored + ROW_4@ + sources + ROW_5@ + room + ROW_6@ + floor + ROW_7@ + id + ROW_8@ + dot + ROW_9@ + name + ROW_10@ + offline + ignored_mark + room_mark + doc_mark + fabric_marks + ROW_11@ + id + ROW_12@ + module + ROW_13@ + source_marks + ROW_14@ + network + ROW_15@ + actions + ROW_16@
}

/// A row of the list.
pub fn row(
    id: &str,
    status: &str,
    active: &str,
    ignored: &str,
    sources: &str,
    room: &str,
    floor: &str,
    dot: &str,
    name: &str,
    offline: &str,
    ignored_mark: &str,
    room_mark: &str,
    doc_mark: &str,
    fabric_marks: &str,
    module: &str,
    source_marks: &str,
    network: &str,
    actions: &str,
) -> (r: String)
    ensures
        r@ == row_html(id@, status@, active@, ignored@, sources@, room@, floor@, dot@, name@, offline@, ignored_mark@, room_mark@, doc_mark@, fabric_marks@, module@, source_marks@, network@, actions@),
{
    let mut out = ROW_0.to_owned();
    out.append(id);
    out.append(ROW_1);
    out.append(status);
    out.append(ROW_2);
    out.append(active);
    out.append(ROW_3);
    out.append(ignored);
    out.append(ROW_4);
    out.append(sources);
    out.append(ROW_5);
    out.append(room);
    out.append(ROW_6);
    out.append(floor);
    out.append(ROW_7);
    out.append(id);
    out.append(ROW_8);
    out.append(dot);
    out.append(ROW_9);
    out.append(name);
    out.append(ROW_10);
    out.append(offline);
    out.append(ignored_mark);
    out.append(room_mark);
    out.append(doc_mark);
    out.append(fabric_marks);
    out.append(ROW_11);
    out.append(id);
    out.append(ROW_12);
    out.append(module);
    out.append(ROW_13);
    out.append(source_marks);
    out.append(ROW_14);
    out.append(network);
    out.append(ROW_15);
    out.append(actions);
    out.append(ROW_16);
    out
}

pub const GROUP_CARD_0: &'static str = r#"<div class="card device-group" data-category=""#;

pub const GROUP_CARD_1: &'static str = r#"">
                <div class="group-header">
                    <h3>"#;

pub const GROUP_CARD_2: &'static str = r#" "#;

pub const GROUP_CARD_3: &'static str = r#" <span class="badge">"#;

pub const GROUP_CARD_4: &'static str = r#"</span></h3>
                </div>
                <div style="overflow-x:auto">
                    <table>
                        <thead>
                            <tr>
                                <th>Device</th>
                                <th>Network (IP / MAC)</th>
                                <th style="text-align:right;">Quick Action</th>
                            </tr>
                        </thead>
                        <tbody>"#;

pub const GROUP_CARD_5: &'static str = r#"</tbody>
                    </table>
                </div>
            </div>"#;

/// The rows of a category.
pub open spec fn group_card_html(
    key: Seq<char>,
    icon: Seq<char>,
    title: Seq<char>,
    count: Seq<char>,
    rows: Seq<char>,
) -> Seq<char> {
    GROUP_CARD_0@ + key + GROUP_CARD_1@ + icon + GROUP_CARD_2@ + title + GROUP_CARD_3@ + count + GROUP_CARD_4@ + rows + GROUP_CARD_5@
}

/// The rows of a category.
pub fn group_card(key: &str, icon: &str, title: &str, count: &str, rows: &str) -> (r: String)
    ensures
        r@ == group_card_html(key@, icon@, title@, count@, rows@),
{
    let mut out = GROUP_CARD_0.to_owned();
    out.append(key);
    out.append(GROUP_CARD_1);
    out.append(icon);
    out.append(GROUP_CARD_2);
    out.append(title);
    out.append(GROUP_CARD_3);
    out.append(count);
    out.append(GROUP_CARD_4);
    out.append(rows);
    out.append(GROUP_CARD_5);
    out
}

pub const ALL_PILL_0: &'static str = r#"<button type="button" class="pill active" onclick="selectCategory('all', this)">All ("#;

pub const ALL_PILL_1: &'static str = r#")</button>"#;

/// The filter that shows all devices.
pub open spec fn all_pill_html(count: Seq<char>) -> Seq<char> {
    ALL_PILL_0@ + count + ALL_PILL_1@
}

/// The filter that shows all devices.
pub fn all_pill(count: &str) -> (r: String)
    ensures
        r@ == all_pill_html(count@),
{
    let mut out = ALL_PILL_0.to_owned();
    out.append(count);
    out.append(ALL_PILL_1);
    out
}

pub const CATEGORY_PILL_0: &'static str = r#"<button type="button" class="pill" onclick="selectCategory('"#;

pub const CATEGORY_PILL_1: &'static str = r#"', this)">"#;

pub const CATEGORY_PILL_2: &'static str = r#" "#;

pub const CATEGORY_PILL_3: &'static str = r#" ("#;

pub const CATEGORY_PILL_4: &'static str = r#")</button>"#;

/// The filter that shows one category.
pub open spec fn category_pill_html(key: Seq<char>, icon: Seq<char>, title: Seq<char>, count: Seq<char>) -> Seq<char> {
    CATEGORY_PILL_0@ + key + CATEGORY_PILL_1@ + icon + CATEGORY_PILL_2@ + title + CATEGORY_PILL_3@ + count + CATEGORY_PILL_4@
}

/// The filter that shows one category.
pub fn category_pill(key: &str, icon: &str, title: &str, count: &str) -> (r: String)
    ensures
        r@ == category_pill_html(key@, icon@, title@, count@),
{
    let mut out = CATEGORY_PILL_0.to_owned();
    out.append(key);
    out.append(CATEGORY_PILL_1);
    out.append(icon);
    out.append(CATEGORY_PILL_2);
    out.append(title);
    out.append(CATEGORY_PILL_3);
    out.append(count);
    out.append(CATEGORY_PILL_4);
    out
}

pub const FLOOR_START_0: &'static str = r#"<optgroup label=""#;

pub const FLOOR_START_1: &'static str = r#"">"#;

/// The start of the rooms of a floor.
pub open spec fn floor_start_html(floor: Seq<char>) -> Seq<char> {
    FLOOR_START_0@ + floor + FLOOR_START_1@
}

/// The start of the rooms of a floor.
pub fn floor_start(floor: &str) -> (r: String)
    ensures
        r@ == floor_start_html(floor@),
{
    let mut out = FLOOR_START_0.to_owned();
    out.append(floor);
    out.append(FLOOR_START_1);
    out
}

pub const ROOM_OPTION_0: &'static str = r#"<option value=""#;

pub const ROOM_OPTION_1: &'static str = r#"">"#;

pub const ROOM_OPTION_2: &'static str = r#" "#;

pub const ROOM_OPTION_3: &'static str = r#"</option>"#;

/// A room that can be chosen.
pub open spec fn room_option_html(name: Seq<char>, icon: Seq<char>) -> Seq<char> {
    ROOM_OPTION_0@ + name + ROOM_OPTION_1@ + icon + ROOM_OPTION_2@ + name + ROOM_OPTION_3@
}

/// A room that can be chosen.
pub fn room_option(name: &str, icon: &str) -> (r: String)
    ensures
        r@ == room_option_html(name@, icon@),
{
    let mut out = ROOM_OPTION_0.to_owned();
    out.append(name);
    out.append(ROOM_OPTION_1);
    out.append(icon);
    out.append(ROOM_OPTION_2);
    out.append(name);
    out.append(ROOM_OPTION_3);
    out
}

/// The choices that stand before the rooms.
pub const ROOM_OPTIONS: &'static str = r#"<option value="all">Alle Räume</option><option value="unassigned">-- Ohne Raum --</option>"#;

}
