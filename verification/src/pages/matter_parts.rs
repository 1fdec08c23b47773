//! The pieces of which the Matter page is made.

use vstd::prelude::*;

verus! {

broadcast use vstd::string::group_string_axioms;

pub const SUMMARY_0: &'static str = r#"<div style="display:grid; grid-template-columns:repeat(auto-fit, minmax(240px, 1fr)); gap:16px; margin-bottom:20px;">
            <div class="card" style="margin:0;">
                <div style="font-size:12px; font-weight:600; color:var(--muted); text-transform:uppercase;">Operational Fabrics</div>
                <div style="font-size:28px; font-weight:700; color:var(--primary); margin:4px 0;">"#;

pub const SUMMARY_1: &'static str = r#"</div>
                <div style="font-size:12px; color:var(--muted);">Multi-ecosystem Matter fabrics active</div>
            </div>
            <div class="card" style="margin:0;">
                <div style="font-size:12px; font-weight:600; color:var(--muted); text-transform:uppercase;">Matter Endpoints</div>
                <div style="font-size:28px; font-weight:700; color:var(--status-green); margin:4px 0;">"#;

pub const SUMMARY_2: &'static str = r#" Nodes / "#;

pub const SUMMARY_3: &'static str = r#" Devices</div>
                <div style="font-size:12px; color:var(--muted);">Active operational node announcements</div>
            </div>
            <div class="card" style="margin:0;">
                <div style="font-size:12px; font-weight:600; color:var(--muted); text-transform:uppercase;">Multi-Admin Coverage</div>
                <div style="font-size:28px; font-weight:700; color:#8b5cf6; margin:4px 0;">"#;

pub const SUMMARY_4: &'static str = r#" Devices ("#;

pub const SUMMARY_5: &'static str = r#"%)</div>
                <div style="font-size:12px; color:var(--muted);">Co-managed across Apple Home &amp; Home Assistant</div>
            </div>
        </div>"#;

/// The figures at the top of the page.
pub open spec fn summary_html(
    fabrics: Seq<char>,
    nodes: Seq<char>,
    devices: Seq<char>,
    shared: Seq<char>,
    percent: Seq<char>,
) -> Seq<char> {
    SUMMARY_0@ + fabrics + SUMMARY_1@ + nodes + SUMMARY_2@ + devices + SUMMARY_3@ + shared + SUMMARY_4@ + percent + SUMMARY_5@
}

/// The figures at the top of the page.
pub fn summary(fabrics: &str, nodes: &str, devices: &str, shared: &str, percent: &str) -> (r: String)
    ensures
        r@ == summary_html(fabrics@, nodes@, devices@, shared@, percent@),
{
    let mut out = SUMMARY_0.to_owned();
    out.append(fabrics);
    out.append(SUMMARY_1);
    out.append(nodes);
    out.append(SUMMARY_2);
    out.append(devices);
    out.append(SUMMARY_3);
    out.append(shared);
    out.append(SUMMARY_4);
    out.append(percent);
    out.append(SUMMARY_5);
    out
}

pub const CHIP_0: &'static str = r#"<span class="badge" style="margin:3px 4px 3px 0; padding:4px 8px; font-size:11px; background:var(--bg); border:1px solid var(--border);">"#;

pub const CHIP_1: &'static str = r#" <strong>"#;

pub const CHIP_2: &'static str = r#"</strong> <code>Node: "#;

pub const CHIP_3: &'static str = r#"</code> (:"#;

pub const CHIP_4: &'static str = r#" "#;

pub const CHIP_5: &'static str = r#")</span>"#;

/// The mark of a member of a fabric.
pub open spec fn chip_html(
    icon: Seq<char>,
    name: Seq<char>,
    node_id: Seq<char>,
    port: Seq<char>,
    interface: Seq<char>,
) -> Seq<char> {
    CHIP_0@ + icon + CHIP_1@ + name + CHIP_2@ + node_id + CHIP_3@ + port + CHIP_4@ + interface + CHIP_5@
}

/// The mark of a member of a fabric.
pub fn chip(icon: &str, name: &str, node_id: &str, port: &str, interface: &str) -> (r: String)
    ensures
        r@ == chip_html(icon@, name@, node_id@, port@, interface@),
{
    let mut out = CHIP_0.to_owned();
    out.append(icon);
    out.append(CHIP_1);
    out.append(name);
    out.append(CHIP_2);
    out.append(node_id);
    out.append(CHIP_3);
    out.append(port);
    out.append(CHIP_4);
    out.append(interface);
    out.append(CHIP_5);
    out
}

/// What is shown of a fabric without members.
pub const NO_MEMBERS: &'static str = r#"<span style="color:var(--muted); font-size:12px;">No active members currently advertising.</span>"#;

pub const FABRIC_CARD_0: &'static str = r#"<div class="card" style="margin-bottom:16px;">
                <div style="display:flex; justify-content:space-between; align-items:flex-start; flex-wrap:wrap; gap:10px;">
                    <div>
                        <div style="display:flex; align-items:center; gap:8px;">
                            <span style="font-size:24px;">"#;

pub const FABRIC_CARD_1: &'static str = r#"</span>
                            <div>
                                <h3 style="margin:0; font-size:17px;">"#;

pub const FABRIC_CARD_2: &'static str = r#"</h3>
                                <div style="font-size:11px; color:var(--muted); font-family:monospace; margin-top:2px;">
                                    Compressed Fabric ID: <strong>"#;

pub const FABRIC_CARD_3: &'static str = r#"</strong> &bull; <span class="badge" style="background:#dcfce7; color:#166534; font-weight:600;">"#;

pub const FABRIC_CARD_4: &'static str = r#" Commissioned Nodes</span>
                                </div>
                            </div>
                        </div>
                        <p style="font-size:12px; color:var(--muted); margin-top:6px;">"#;

pub const FABRIC_CARD_5: &'static str = r#"</p>
                    </div>
                    <button type="button" class="btn btn-sm" onclick="renameMatterFabric('"#;

pub const FABRIC_CARD_6: &'static str = r#"', '"#;

pub const FABRIC_CARD_7: &'static str = r#"', '"#;

pub const FABRIC_CARD_8: &'static str = r#"')">✏️ Rename Fabric</button>
                </div>
                <div style="margin-top:12px; padding-top:10px; border-top:1px solid var(--border);">
                    <div style="font-size:11px; font-weight:600; text-transform:uppercase; color:var(--muted); margin-bottom:6px;">Member Devices &amp; Node Assignments</div>
                    <div style="display:flex; flex-wrap:wrap;">"#;

pub const FABRIC_CARD_9: &'static str = r#"</div>
                </div>
            </div>"#;

/// The card of a fabric.
pub open spec fn fabric_card_html(
    icon: Seq<char>,
    name: Seq<char>,
    fabric_id: Seq<char>,
    count: Seq<char>,
    description: Seq<char>,
    quoted_name: Seq<char>,
    quoted_icon: Seq<char>,
    chips: Seq<char>,
) -> Seq<char> {
    FABRIC_CARD_0@ + icon + FABRIC_CARD_1@ + name + FABRIC_CARD_2@ + fabric_id + FABRIC_CARD_3@ + count + FABRIC_CARD_4@ + description + FABRIC_CARD_5@ + fabric_id + FABRIC_CARD_6@ + quoted_name + FABRIC_CARD_7@ + quoted_icon + FABRIC_CARD_8@ + chips + FABRIC_CARD_9@
}

/// The card of a fabric.
pub fn fabric_card(
    icon: &str,
    name: &str,
    fabric_id: &str,
    count: &str,
    description: &str,
    quoted_name: &str,
    quoted_icon: &str,
    chips: &str,
) -> (r: String)
    ensures
        r@ == fabric_card_html(icon@, name@, fabric_id@, count@, description@, quoted_name@, quoted_icon@, chips@),
{
    let mut out = FABRIC_CARD_0.to_owned();
    out.append(icon);
    out.append(FABRIC_CARD_1);
    out.append(name);
    out.append(FABRIC_CARD_2);
    out.append(fabric_id);
    out.append(FABRIC_CARD_3);
    out.append(count);
    out.append(FABRIC_CARD_4);
    out.append(description);
    out.append(FABRIC_CARD_5);
    out.append(fabric_id);
    out.append(FABRIC_CARD_6);
    out.append(quoted_name);
    out.append(FABRIC_CARD_7);
    out.append(quoted_icon);
    out.append(FABRIC_CARD_8);
    out.append(chips);
    out.append(FABRIC_CARD_9);
    out
}

pub const FABRIC_HEAD_0: &'static str = r#"<th style="text-align:center;">"#;

pub const FABRIC_HEAD_1: &'static str = r#" "#;

pub const FABRIC_HEAD_2: &'static str = r#"</th>"#;

/// The head of the column of a fabric.
pub open spec fn fabric_head_html(icon: Seq<char>, name: Seq<char>) -> Seq<char> {
    FABRIC_HEAD_0@ + icon + FABRIC_HEAD_1@ + name + FABRIC_HEAD_2@
}

/// The head of the column of a fabric.
pub fn fabric_head(icon: &str, name: &str) -> (r: String)
    ensures
        r@ == fabric_head_html(icon@, name@),
{
    let mut out = FABRIC_HEAD_0.to_owned();
    out.append(icon);
    out.append(FABRIC_HEAD_1);
    out.append(name);
    out.append(FABRIC_HEAD_2);
    out
}

pub const MEMBER_CELL_0: &'static str = r#"<td style="text-align:center;"><span class="badge" style="background:#dcfce7; color:#166534; font-weight:600; padding:3px 7px;">✓ <code>0x"#;

pub const MEMBER_CELL_1: &'static str = r#"</code></span><br><small style="color:var(--muted); font-size:10px;">:"#;

pub const MEMBER_CELL_2: &'static str = r#" &bull; "#;

pub const MEMBER_CELL_3: &'static str = r#"</small></td>"#;

/// The cell of a device that belongs to a fabric.
pub open spec fn member_cell_html(node_id: Seq<char>, port: Seq<char>, interface: Seq<char>) -> Seq<char> {
    MEMBER_CELL_0@ + node_id + MEMBER_CELL_1@ + port + MEMBER_CELL_2@ + interface + MEMBER_CELL_3@
}

/// The cell of a device that belongs to a fabric.
pub fn member_cell(node_id: &str, port: &str, interface: &str) -> (r: String)
    ensures
        r@ == member_cell_html(node_id@, port@, interface@),
{
    let mut out = MEMBER_CELL_0.to_owned();
    out.append(node_id);
    out.append(MEMBER_CELL_1);
    out.append(port);
    out.append(MEMBER_CELL_2);
    out.append(interface);
    out.append(MEMBER_CELL_3);
    out
}

/// The cell of a device that does not belong to a fabric.
pub const NO_MEMBER_CELL: &'static str = r#"<td style="text-align:center; color:var(--muted); opacity:0.35;">—</td>"#;

pub const WEB_BUTTON_0: &'static str = r#"<a href=""#;

pub const WEB_BUTTON_1: &'static str = r#"" target="_blank" class="btn-sm btn-web" style="text-decoration:none;">🌐 Web UI</a>"#;

/// The link to the pages of a device.
pub open spec fn web_button_html(url: Seq<char>) -> Seq<char> {
    WEB_BUTTON_0@ + url + WEB_BUTTON_1@
}

/// The link to the pages of a device.
pub fn web_button(url: &str) -> (r: String)
    ensures
        r@ == web_button_html(url@),
{
    let mut out = WEB_BUTTON_0.to_owned();
    out.append(url);
    out.append(WEB_BUTTON_1);
    out
}

pub const ADDRESS_0: &'static str = r#"<code>"#;

pub const ADDRESS_1: &'static str = r#"</code>"#;

/// The address of a device.
pub open spec fn address_html(ip: Seq<char>) -> Seq<char> {
    ADDRESS_0@ + ip + ADDRESS_1@
}

/// The address of a device.
pub fn address(ip: &str) -> (r: String)
    ensures
        r@ == address_html(ip@),
{
    let mut out = ADDRESS_0.to_owned();
    out.append(ip);
    out.append(ADDRESS_1);
    out
}

pub const ADDRESSES_0: &'static str = r#"<code>"#;

pub const ADDRESSES_1: &'static str = r#"</code><br><small style="color:var(--muted);">"#;

pub const ADDRESSES_2: &'static str = r#"</small>"#;

/// The address and the MAC address of a device.
pub open spec fn addresses_html(ip: Seq<char>, mac: Seq<char>) -> Seq<char> {
    ADDRESSES_0@ + ip + ADDRESSES_1@ + mac + ADDRESSES_2@
}

/// The address and the MAC address of a device.
pub fn addresses(ip: &str, mac: &str) -> (r: String)
    ensures
        r@ == addresses_html(ip@, mac@),
{
    let mut out = ADDRESSES_0.to_owned();
    out.append(ip);
    out.append(ADDRESSES_1);
    out.append(mac);
    out.append(ADDRESSES_2);
    out
}

pub const DEVICE_ROW_0: &'static str = r#"<tr>
                <td><strong>"#;

pub const DEVICE_ROW_1: &'static str = r#"</strong><br><small style="color:var(--muted);">"#;

pub const DEVICE_ROW_2: &'static str = r#"</small></td>
                <td>"#;

pub const DEVICE_ROW_3: &'static str = r#"</td>
                "#;

pub const DEVICE_ROW_4: &'static str = r#"
                <td style="text-align:right;">"#;

pub const DEVICE_ROW_5: &'static str = r#"</td>
            </tr>"#;

/// The row of a device.
pub open spec fn device_row_html(
    name: Seq<char>,
    vendor: Seq<char>,
    network: Seq<char>,
    cells: Seq<char>,
    web: Seq<char>,
) -> Seq<char> {
    DEVICE_ROW_0@ + name + DEVICE_ROW_1@ + vendor + DEVICE_ROW_2@ + network + DEVICE_ROW_3@ + cells + DEVICE_ROW_4@ + web + DEVICE_ROW_5@
}

/// The row of a device.
pub fn device_row(name: &str, vendor: &str, network: &str, cells: &str, web: &str) -> (r: String)
    ensures
        r@ == device_row_html(name@, vendor@, network@, cells@, web@),
{
    let mut out = DEVICE_ROW_0.to_owned();
    out.append(name);
    out.append(DEVICE_ROW_1);
    out.append(vendor);
    out.append(DEVICE_ROW_2);
    out.append(network);
    out.append(DEVICE_ROW_3);
    out.append(cells);
    out.append(DEVICE_ROW_4);
    out.append(web);
    out.append(DEVICE_ROW_5);
    out
}

/// The script of the page.
pub const SCRIPT: &'static str = r#"
    <script>
    async function renameMatterFabric(fabricId, currentName, currentIcon) {
        const newName = prompt(`Enter friendly label for Matter Fabric (${fabricId}):`, currentName);
        if (!newName || !newName.trim()) return;
        const newIcon = prompt(`Enter emoji/icon for ${newName}:`, currentIcon || '✨') || '✨';

        try {
            const res = await fetch('/api/matter/fabrics/' + encodeURIComponent(fabricId), {
                method: 'POST',
                headers: { 'Content-Type': 'application/json' },
                body: JSON.stringify({ name: newName.trim(), icon: newIcon.trim() })
            });
            if (res.ok) {
                window.location.reload();
            } else {
                alert('Failed to update Matter fabric label.');
            }
        } catch (e) {
            alert('Network error: ' + e);
        }
    }
    </script>
    "#;

pub const CONTENT_0: &'static str = r#"
        <div class="toolbar">
            <div>
                <h2>✨ Matter Fabrics &amp; Ecosystems</h2>
                <p style="font-size:12px; color:var(--muted); margin-top:2px;">
                    Multi-Admin operational fabrics, node credentials, and cross-ecosystem synchronization discovered via mDNS (<code>_matter._tcp</code>).
                </p>
            </div>
            <form action="/scan" method="POST" style="margin:0;">
                <button type="submit" class="btn btn-primary">
                    <span>🔄</span> <span>Scan Matter Fabrics Now</span>
                </button>
            </form>
        </div>

        "#;

pub const CONTENT_1: &'static str = r#"

        <div style="margin-bottom:24px;">
            <h3 style="font-size:15px; margin-bottom:12px;">Active Operational Fabrics ("#;

pub const CONTENT_2: &'static str = r#")</h3>
            "#;

pub const CONTENT_3: &'static str = r#"
        </div>

        <div class="card" style="margin-bottom:24px;">
            <div style="display:flex; justify-content:space-between; align-items:center; margin-bottom:12px;">
                <div>
                    <h3 style="font-size:15px;">Multi-Admin Cross-Ecosystem Matrix</h3>
                    <p style="font-size:12px; color:var(--muted); margin-top:2px;">
                        Status of all Matter devices co-commissioned across Apple Home, Home Assistant, and vendor fabrics.
                    </p>
                </div>
                <span class="badge" style="font-size:11px;">"#;

pub const CONTENT_4: &'static str = r#" Matter Devices</span>
            </div>
            <div style="overflow-x:auto;">
                <table>
                    <thead><tr>"#;

pub const CONTENT_5: &'static str = r#"</tr></thead>
                    <tbody>"#;

pub const CONTENT_6: &'static str = r#"</tbody>
                </table>
            </div>
        </div>

        <div class="card" style="background:var(--bg); border:1px dashed var(--border);">
            <div style="font-size:13px; font-weight:700; color:var(--text); margin-bottom:4px;">🧵 Thread Mesh &amp; Border Router Intelligence</div>
            <p style="font-size:12px; color:var(--muted);">
                Matter-over-Thread devices on your network communicate across the Thread mesh network coordinated by your Apple TV / HomePod Thread Border Router. They advertise IPv6 link-local addresses without requiring standard IPv4 DHCP leases and are automatically correlated by HomeNode.
            </p>
        </div>
        "#;

pub const CONTENT_7: &'static str = r#"
        "#;

/// The content of the page.
pub open spec fn content_html(
    summary: Seq<char>,
    fabrics: Seq<char>,
    cards: Seq<char>,
    devices: Seq<char>,
    head: Seq<char>,
    rows: Seq<char>,
    script: Seq<char>,
) -> Seq<char> {
    CONTENT_0@ + summary + CONTENT_1@ + fabrics + CONTENT_2@ + cards + CONTENT_3@ + devices + CONTENT_4@ + head + CONTENT_5@ + rows + CONTENT_6@ + script + CONTENT_7@
}

/// The content of the page.
pub fn content(
    summary: &str,
    fabrics: &str,
    cards: &str,
    devices: &str,
    head: &str,
    rows: &str,
    script: &str,
) -> (r: String)
    ensures
        r@ == content_html(summary@, fabrics@, cards@, devices@, head@, rows@, script@),
{
    let mut out = CONTENT_0.to_owned();
    out.append(summary);
    out.append(CONTENT_1);
    out.append(fabrics);
    out.append(CONTENT_2);
    out.append(cards);
    out.append(CONTENT_3);
    out.append(devices);
    out.append(CONTENT_4);
    out.append(head);
    out.append(CONTENT_5);
    out.append(rows);
    out.append(CONTENT_6);
    out.append(script);
    out.append(CONTENT_7);
    out
}

}
