//! The pieces of which the hardware catalog is made.

use vstd::prelude::*;

verus! {

broadcast use vstd::string::group_string_axioms;

pub const VENDOR_OPTION_0: &'static str = r#"<option value=""#;

pub const VENDOR_OPTION_1: &'static str = r#"">"#;

pub const VENDOR_OPTION_2: &'static str = r#" "#;

pub const VENDOR_OPTION_3: &'static str = r#"</option>"#;

/// A vendor that can be chosen.
pub open spec fn vendor_option_html(id: Seq<char>, icon: Seq<char>, name: Seq<char>) -> Seq<char> {
    VENDOR_OPTION_0@ + id + VENDOR_OPTION_1@ + icon + VENDOR_OPTION_2@ + name + VENDOR_OPTION_3@
}

/// A vendor that can be chosen.
pub fn vendor_option(id: &str, icon: &str, name: &str) -> (r: String)
    ensures
        r@ == vendor_option_html(id@, icon@, name@),
{
    let mut out = VENDOR_OPTION_0.to_owned();
    out.append(id);
    out.append(VENDOR_OPTION_1);
    out.append(icon);
    out.append(VENDOR_OPTION_2);
    out.append(name);
    out.append(VENDOR_OPTION_3);
    out
}

pub const WEBSITE_LINK_0: &'static str = r#"<a href=""#;

pub const WEBSITE_LINK_1: &'static str = r#"" target="_blank" style="color:var(--primary); text-decoration:none; font-size:13px; font-weight:600;">🌐 Website ↗</a>"#;

/// The link to the pages of a vendor.
pub open spec fn website_link_html(url: Seq<char>) -> Seq<char> {
    WEBSITE_LINK_0@ + url + WEBSITE_LINK_1@
}

/// The link to the pages of a vendor.
pub fn website_link(url: &str) -> (r: String)
    ensures
        r@ == website_link_html(url@),
{
    let mut out = WEBSITE_LINK_0.to_owned();
    out.append(url);
    out.append(WEBSITE_LINK_1);
    out
}

pub const SUPPORT_LINK_0: &'static str = r#" <a href=""#;

pub const SUPPORT_LINK_1: &'static str = r#"" target="_blank" style="color:var(--muted); text-decoration:none; font-size:13px;">[Support] ↗</a>"#;

/// The link to the support of a vendor.
pub open spec fn support_link_html(url: Seq<char>) -> Seq<char> {
    SUPPORT_LINK_0@ + url + SUPPORT_LINK_1@
}

/// The link to the support of a vendor.
pub fn support_link(url: &str) -> (r: String)
    ensures
        r@ == support_link_html(url@),
{
    let mut out = SUPPORT_LINK_0.to_owned();
    out.append(url);
    out.append(SUPPORT_LINK_1);
    out
}

pub const PROTOCOL_BADGE_0: &'static str = r#"<span class="badge" style="font-size:11px;">"#;

pub const PROTOCOL_BADGE_1: &'static str = r#"</span> "#;

/// The mark of a protocol.
pub open spec fn protocol_badge_html(protocol: Seq<char>) -> Seq<char> {
    PROTOCOL_BADGE_0@ + protocol + PROTOCOL_BADGE_1@
}

/// The mark of a protocol.
pub fn protocol_badge(protocol: &str) -> (r: String)
    ensures
        r@ == protocol_badge_html(protocol@),
{
    let mut out = PROTOCOL_BADGE_0.to_owned();
    out.append(protocol);
    out.append(PROTOCOL_BADGE_1);
    out
}

pub const PREFIX_CODE_0: &'static str = r#"<code>"#;

pub const PREFIX_CODE_1: &'static str = r#"</code>"#;

/// A prefix of MAC addresses.
pub open spec fn prefix_code_html(prefix: Seq<char>) -> Seq<char> {
    PREFIX_CODE_0@ + prefix + PREFIX_CODE_1@
}

/// A prefix of MAC addresses.
pub fn prefix_code(prefix: &str) -> (r: String)
    ensures
        r@ == prefix_code_html(prefix@),
{
    let mut out = PREFIX_CODE_0.to_owned();
    out.append(prefix);
    out.append(PREFIX_CODE_1);
    out
}

pub const PREFIX_LINE_0: &'static str = r#"<div style="font-size:11px; color:var(--muted); margin-top:4px;">MAC Prefixes: "#;

pub const PREFIX_LINE_1: &'static str = r#"</div>"#;

/// The prefixes of MAC addresses of a vendor.
pub open spec fn prefix_line_html(prefixes: Seq<char>) -> Seq<char> {
    PREFIX_LINE_0@ + prefixes + PREFIX_LINE_1@
}

/// The prefixes of MAC addresses of a vendor.
pub fn prefix_line(prefixes: &str) -> (r: String)
    ensures
        r@ == prefix_line_html(prefixes@),
{
    let mut out = PREFIX_LINE_0.to_owned();
    out.append(prefixes);
    out.append(PREFIX_LINE_1);
    out
}

pub const DESCRIPTION_0: &'static str = r#"<p style="font-size:13px; color:var(--muted); margin-top:6px; margin-bottom:12px;">"#;

pub const DESCRIPTION_1: &'static str = r#"</p>"#;

/// The description of a vendor.
pub open spec fn description_html(words: Seq<char>) -> Seq<char> {
    DESCRIPTION_0@ + words + DESCRIPTION_1@
}

/// The description of a vendor.
pub fn description(words: &str) -> (r: String)
    ensures
        r@ == description_html(words@),
{
    let mut out = DESCRIPTION_0.to_owned();
    out.append(words);
    out.append(DESCRIPTION_1);
    out
}

pub const MATTER_BADGE_0: &'static str = r#"<br><span class="badge" style="background:#059669; color:#fff; font-size:10px; margin-top:3px;">✨ Matter: "#;

pub const MATTER_BADGE_1: &'static str = r#"</span>"#;

/// The mark of a product that speaks Matter.
pub open spec fn matter_badge_html(kind: Seq<char>) -> Seq<char> {
    MATTER_BADGE_0@ + kind + MATTER_BADGE_1@
}

/// The mark of a product that speaks Matter.
pub fn matter_badge(kind: &str) -> (r: String)
    ensures
        r@ == matter_badge_html(kind@),
{
    let mut out = MATTER_BADGE_0.to_owned();
    out.append(kind);
    out.append(MATTER_BADGE_1);
    out
}

pub const MANUAL_LINK_0: &'static str = r#"<a href=""#;

pub const MANUAL_LINK_1: &'static str = r#"" target="_blank" class="btn-sm btn-web" style="text-decoration:none;">📖 Manual ↗</a>"#;

/// The link to the manual of a product.
pub open spec fn manual_link_html(url: Seq<char>) -> Seq<char> {
    MANUAL_LINK_0@ + url + MANUAL_LINK_1@
}

/// The link to the manual of a product.
pub fn manual_link(url: &str) -> (r: String)
    ensures
        r@ == manual_link_html(url@),
{
    let mut out = MANUAL_LINK_0.to_owned();
    out.append(url);
    out.append(MANUAL_LINK_1);
    out
}

pub const CONNECTIVITY_BADGE_0: &'static str = r#"<span class="badge" style="font-size:10px;">"#;

pub const CONNECTIVITY_BADGE_1: &'static str = r#"</span>"#;

/// The mark of a way to connect.
pub open spec fn connectivity_badge_html(way: Seq<char>) -> Seq<char> {
    CONNECTIVITY_BADGE_0@ + way + CONNECTIVITY_BADGE_1@
}

/// The mark of a way to connect.
pub fn connectivity_badge(way: &str) -> (r: String)
    ensures
        r@ == connectivity_badge_html(way@),
{
    let mut out = CONNECTIVITY_BADGE_0.to_owned();
    out.append(way);
    out.append(CONNECTIVITY_BADGE_1);
    out
}

pub const PRODUCT_ROW_0: &'static str = r#"<tr>
                    <td><strong>"#;

pub const PRODUCT_ROW_1: &'static str = r#" "#;

pub const PRODUCT_ROW_2: &'static str = r#"</strong>"#;

pub const PRODUCT_ROW_3: &'static str = r#"<br><small style="color:var(--muted)">Model: <code>"#;

pub const PRODUCT_ROW_4: &'static str = r#"</code></small></td>
                    <td><span class="badge badge-kind">"#;

pub const PRODUCT_ROW_5: &'static str = r#"</span></td>
                    <td>"#;

pub const PRODUCT_ROW_6: &'static str = r#"</td>
                    <td><code>"#;

pub const PRODUCT_ROW_7: &'static str = r#"</code></td>
                    <td style="max-width:320px; font-size:12px; color:var(--muted);">"#;

pub const PRODUCT_ROW_8: &'static str = r#"</td>
                    <td style="text-align:right;">"#;

pub const PRODUCT_ROW_9: &'static str = r#"</td>
                </tr>"#;

/// The row of a product.
pub open spec fn product_row_html(
    icon: Seq<char>,
    name: Seq<char>,
    matter: Seq<char>,
    model: Seq<char>,
    category: Seq<char>,
    connectivity: Seq<char>,
    ports: Seq<char>,
    specs: Seq<char>,
    manual: Seq<char>,
) -> Seq<char> {
    PRODUCT_ROW_0@ + icon + PRODUCT_ROW_1@ + name + PRODUCT_ROW_2@ + matter + PRODUCT_ROW_3@ + model + PRODUCT_ROW_4@ + category + PRODUCT_ROW_5@ + connectivity + PRODUCT_ROW_6@ + ports + PRODUCT_ROW_7@ + specs + PRODUCT_ROW_8@ + manual + PRODUCT_ROW_9@
}

/// The row of a product.
pub fn product_row(
    icon: &str,
    name: &str,
    matter: &str,
    model: &str,
    category: &str,
    connectivity: &str,
    ports: &str,
    specs: &str,
    manual: &str,
) -> (r: String)
    ensures
        r@ == product_row_html(icon@, name@, matter@, model@, category@, connectivity@, ports@, specs@, manual@),
{
    let mut out = PRODUCT_ROW_0.to_owned();
    out.append(icon);
    out.append(PRODUCT_ROW_1);
    out.append(name);
    out.append(PRODUCT_ROW_2);
    out.append(matter);
    out.append(PRODUCT_ROW_3);
    out.append(model);
    out.append(PRODUCT_ROW_4);
    out.append(category);
    out.append(PRODUCT_ROW_5);
    out.append(connectivity);
    out.append(PRODUCT_ROW_6);
    out.append(ports);
    out.append(PRODUCT_ROW_7);
    out.append(specs);
    out.append(PRODUCT_ROW_8);
    out.append(manual);
    out.append(PRODUCT_ROW_9);
    out
}

/// What is shown of a vendor without products.
pub const NO_PRODUCTS: &'static str = r#"<div style="font-size:12px; color:var(--muted); font-style:italic;">No registered products under this vendor yet.</div>"#;

pub const PRODUCT_TABLE_0: &'static str = r#"<div style="overflow-x:auto;">
                    <table>
                        <thead>
                            <tr>
                                <th>Product Model</th>
                                <th>Category</th>
                                <th>Connectivity</th>
                                <th>Default Ports</th>
                                <th>Specifications</th>
                                <th style="text-align:right;">Documentation</th>
                            </tr>
                        </thead>
                        <tbody>"#;

pub const PRODUCT_TABLE_1: &'static str = r#"</tbody>
                    </table>
                </div>"#;

/// The products of a vendor.
pub open spec fn product_table_html(rows: Seq<char>) -> Seq<char> {
    PRODUCT_TABLE_0@ + rows + PRODUCT_TABLE_1@
}

/// The products of a vendor.
pub fn product_table(rows: &str) -> (r: String)
    ensures
        r@ == product_table_html(rows@),
{
    let mut out = PRODUCT_TABLE_0.to_owned();
    out.append(rows);
    out.append(PRODUCT_TABLE_1);
    out
}

pub const VENDOR_CARD_0: &'static str = r#"<div class="card vendor-card" data-name=""#;

pub const VENDOR_CARD_1: &'static str = r#"" data-id=""#;

pub const VENDOR_CARD_2: &'static str = r#"">
                <div style="display:flex; justify-content:space-between; align-items:flex-start; flex-wrap:wrap; gap:10px; margin-bottom:8px;">
                    <div>
                        <h3 style="font-size:18px; display:flex; align-items:center; gap:8px;">
                            <span>"#;

pub const VENDOR_CARD_3: &'static str = r#"</span> <span>"#;

pub const VENDOR_CARD_4: &'static str = r#"</span>
                        </h3>
                        <div style="margin-top:4px;">"#;

pub const VENDOR_CARD_5: &'static str = r#" "#;

pub const VENDOR_CARD_6: &'static str = r#"</div>
                        "#;

pub const VENDOR_CARD_7: &'static str = r#"
                    </div>
                    <div>"#;

pub const VENDOR_CARD_8: &'static str = r#"</div>
                </div>
                "#;

pub const VENDOR_CARD_9: &'static str = r#"
                <div style="margin-top:10px;">
                    <div style="font-size:12px; font-weight:600; color:var(--muted); text-transform:uppercase; margin-bottom:6px;">
                        Known Hardware Models ("#;

pub const VENDOR_CARD_10: &'static str = r#"):
                    </div>
                    "#;

pub const VENDOR_CARD_11: &'static str = r#"
                </div>
            </div>"#;

/// The card of a vendor.
pub open spec fn vendor_card_html(
    small_name: Seq<char>,
    id: Seq<char>,
    icon: Seq<char>,
    name: Seq<char>,
    website: Seq<char>,
    support: Seq<char>,
    prefixes: Seq<char>,
    protocols: Seq<char>,
    description: Seq<char>,
    count: Seq<char>,
    products: Seq<char>,
) -> Seq<char> {
    VENDOR_CARD_0@ + small_name + VENDOR_CARD_1@ + id + VENDOR_CARD_2@ + icon + VENDOR_CARD_3@ + name + VENDOR_CARD_4@ + website + VENDOR_CARD_5@ + support + VENDOR_CARD_6@ + prefixes + VENDOR_CARD_7@ + protocols + VENDOR_CARD_8@ + description + VENDOR_CARD_9@ + count + VENDOR_CARD_10@ + products + VENDOR_CARD_11@
}

/// The card of a vendor.
pub fn vendor_card(
    small_name: &str,
    id: &str,
    icon: &str,
    name: &str,
    website: &str,
    support: &str,
    prefixes: &str,
    protocols: &str,
    description: &str,
    count: &str,
    products: &str,
) -> (r: String)
    ensures
        r@ == vendor_card_html(small_name@, id@, icon@, name@, website@, support@, prefixes@, protocols@, description@, count@, products@),
{
    let mut out = VENDOR_CARD_0.to_owned();
    out.append(small_name);
    out.append(VENDOR_CARD_1);
    out.append(id);
    out.append(VENDOR_CARD_2);
    out.append(icon);
    out.append(VENDOR_CARD_3);
    out.append(name);
    out.append(VENDOR_CARD_4);
    out.append(website);
    out.append(VENDOR_CARD_5);
    out.append(support);
    out.append(VENDOR_CARD_6);
    out.append(prefixes);
    out.append(VENDOR_CARD_7);
    out.append(protocols);
    out.append(VENDOR_CARD_8);
    out.append(description);
    out.append(VENDOR_CARD_9);
    out.append(count);
    out.append(VENDOR_CARD_10);
    out.append(products);
    out.append(VENDOR_CARD_11);
    out
}

pub const CONTENT_0: &'static str = r#"
        <div class="toolbar" style="align-items:flex-start; margin-bottom:20px;">
            <div>
                <h2>Vendor & Product Database</h2>
                <p style="color:var(--muted); font-size:13px;">
                    Central smart hardware profiles, IEEE OUI manufacturer mappings, Matter profiles, and product specifications.
                </p>
                <div style="display:flex; gap:10px; margin-top:8px; flex-wrap:wrap;">
                    <span class="badge" style="font-size:12px; padding:4px 10px;">🏢 "#;

pub const CONTENT_1: &'static str = r#" Vendors</span>
                    <span class="badge" style="font-size:12px; padding:4px 10px;">🔌 "#;

pub const CONTENT_2: &'static str = r#" Hardware Models</span>
                    <span class="badge" style="font-size:12px; padding:4px 10px; background:#059669; color:#fff;">✨ "#;

pub const CONTENT_3: &'static str = r#" Matter-Certified</span>
                </div>
            </div>
            <div style="display:flex; gap:8px; flex-wrap:wrap;">
                <button type="button" class="btn btn-primary" onclick="openModal('add-product-modal')">➕ Add Product</button>
                <button type="button" class="btn" style="background:var(--badge-bg); color:var(--text);" onclick="openModal('add-vendor-modal')">🏢 Add Vendor</button>
            </div>
        </div>

        <div style="margin-bottom:20px;">
            <input type="text" id="catalog-search" class="form-control" placeholder="🔍 Filter vendors, products, protocols, categories..." oninput="filterCatalog()" />
        </div>

        <div id="vendor-list">
            "#;

pub const CONTENT_4: &'static str = r#"
        </div>

        <!-- Add Vendor Modal -->
        <div id="add-vendor-modal" style="display:none; position:fixed; top:0; left:0; width:100%; height:100%; background:rgba(0,0,0,0.5); z-index:999; overflow-y:auto;">
            <div class="card" style="max-width:560px; margin:40px auto; padding:24px;">
                <div style="display:flex; justify-content:space-between; align-items:center; margin-bottom:16px;">
                    <h3>🏢 Add New Hardware Vendor</h3>
                    <button type="button" class="btn-sm" onclick="closeModal('add-vendor-modal')">✕</button>
                </div>
                <form id="add-vendor-form" onsubmit="submitVendor(event)">
                    <div style="margin-bottom:10px;">
                        <label style="font-size:12px; font-weight:600;">Vendor ID (slug, e.g. shelly, avm)</label>
                        <input type="text" id="v-id" class="form-control" required placeholder="acme" />
                    </div>
                    <div style="margin-bottom:10px;">
                        <label style="font-size:12px; font-weight:600;">Vendor Name</label>
                        <input type="text" id="v-name" class="form-control" required placeholder="Acme Smart Devices Corp" />
                    </div>
                    <div style="display:grid; grid-template-columns:1fr 1fr; gap:10px; margin-bottom:10px;">
                        <div>
                            <label style="font-size:12px; font-weight:600;">Website URL</label>
                            <input type="url" id="v-web" class="form-control" placeholder="https://..." />
                        </div>
                        <div>
                            <label style="font-size:12px; font-weight:600;">Icon Emoji</label>
                            <input type="text" id="v-icon" class="form-control" value="🏢" />
                        </div>
                    </div>
                    <div style="margin-bottom:10px;">
                        <label style="font-size:12px; font-weight:600;">IEEE MAC OUI Prefixes (comma-separated)</label>
                        <input type="text" id="v-oui" class="form-control" placeholder="00:11:22, 33:44:55" />
                    </div>
                    <div style="margin-bottom:10px;">
                        <label style="font-size:12px; font-weight:600;">Supported Protocols (comma-separated)</label>
                        <input type="text" id="v-proto" class="form-control" placeholder="wifi, matter, lan, ble" />
                    </div>
                    <div style="margin-bottom:14px;">
                        <label style="font-size:12px; font-weight:600;">Description</label>
                        <textarea id="v-desc" class="form-control" placeholder="Vendor summary..."></textarea>
                    </div>
                    <div style="display:flex; justify-content:flex-end; gap:8px;">
                        <button type="button" class="btn" style="background:var(--badge-bg); color:var(--text);" onclick="closeModal('add-vendor-modal')">Cancel</button>
                        <button type="submit" class="btn btn-primary">Save Vendor</button>
                    </div>
                </form>
            </div>
        </div>

        <!-- Add Product Modal -->
        <div id="add-product-modal" style="display:none; position:fixed; top:0; left:0; width:100%; height:100%; background:rgba(0,0,0,0.5); z-index:999; overflow-y:auto;">
            <div class="card" style="max-width:620px; margin:40px auto; padding:24px;">
                <div style="display:flex; justify-content:space-between; align-items:center; margin-bottom:16px;">
                    <h3>🔌 Add New Hardware Product</h3>
                    <button type="button" class="btn-sm" onclick="closeModal('add-product-modal')">✕</button>
                </div>
                <form id="add-product-form" onsubmit="submitProduct(event)">
                    <div style="display:grid; grid-template-columns:1fr 1fr; gap:10px; margin-bottom:10px;">
                        <div>
                            <label style="font-size:12px; font-weight:600;">Manufacturer / Vendor</label>
                            <select id="p-vendor" class="form-control" required>
                                "#;

pub const CONTENT_5: &'static str = r#"
                            </select>
                        </div>
                        <div>
                            <label style="font-size:12px; font-weight:600;">Product ID (slug)</label>
                            <input type="text" id="p-id" class="form-control" required placeholder="shelly_plus_1" />
                        </div>
                    </div>
                    <div style="display:grid; grid-template-columns:2fr 1fr; gap:10px; margin-bottom:10px;">
                        <div>
                            <label style="font-size:12px; font-weight:600;">Product Commercial Name</label>
                            <input type="text" id="p-name" class="form-control" required placeholder="Shelly Plus 1" />
                        </div>
                        <div>
                            <label style="font-size:12px; font-weight:600;">Model / Part Number</label>
                            <input type="text" id="p-model" class="form-control" placeholder="SNSW-001X16EU" />
                        </div>
                    </div>
                    <div style="display:grid; grid-template-columns:1fr 1fr; gap:10px; margin-bottom:10px;">
                        <div>
                            <label style="font-size:12px; font-weight:600;">Category</label>
                            <select id="p-category" class="form-control">
                                <option value="energy">Solar & Energy (energy)</option>
                                <option value="smart-plug">Smart Plugs & Sockets (smart-plug)</option>
                                <option value="router">Routers & Gateways (router)</option>
                                <option value="sensor">Sensors & Detectors (sensor)</option>
                                <option value="lighting">Smart Lighting (lighting)</option>
                                <option value="hub">Smart Home Hubs (hub)</option>
                                <option value="nas">Network Storage & NAS (nas)</option>
                                <option value="display">Smart Displays & Clocks (display)</option>
                                <option value="computer">Computers & Laptops (computer)</option>
                                <option value="appliance">Home Appliances (appliance)</option>
                                <option value="audio">Audio & Speakers (audio)</option>
                                <option value="vpn">VPN & Virtual Devices (vpn)</option>
                                <option value="network-device">Network & Other Devices</option>
                            </select>
                        </div>
                        <div>
                            <label style="font-size:12px; font-weight:600;">Category Icon</label>
                            <input type="text" id="p-icon" class="form-control" value="⚡" />
                        </div>
                    </div>
                    <div style="margin-bottom:10px;">
                        <label style="font-size:12px; font-weight:600;">Matter Device Type Profile (Optional)</label>
                        <input type="text" id="p-matter" class="form-control" placeholder="e.g. On/Off Light (0x0100), Electrical Sensor (0x0503)" />
                    </div>
                    <div style="display:grid; grid-template-columns:1fr 1fr; gap:10px; margin-bottom:10px;">
                        <div>
                            <label style="font-size:12px; font-weight:600;">Connectivity (comma-separated)</label>
                            <input type="text" id="p-conn" class="form-control" placeholder="wifi, lan, bluetooth" />
                        </div>
                        <div>
                            <label style="font-size:12px; font-weight:600;">Default Listening Ports</label>
                            <input type="text" id="p-ports" class="form-control" placeholder="80, 443" />
                        </div>
                    </div>
                    <div style="margin-bottom:10px;">
                        <label style="font-size:12px; font-weight:600;">Hostname Patterns (comma-separated substrings for auto-match)</label>
                        <input type="text" id="p-patterns" class="form-control" placeholder="shellyplus1, shelly-1" />
                    </div>
                    <div style="margin-bottom:10px;">
                        <label style="font-size:12px; font-weight:600;">Official Manual / Documentation URL</label>
                        <input type="url" id="p-doc" class="form-control" placeholder="https://..." />
                    </div>
                    <div style="margin-bottom:14px;">
                        <label style="font-size:12px; font-weight:600;">Hardware Specifications</label>
                        <textarea id="p-specs" class="form-control" placeholder="Key technical specifications, voltage, relays..."></textarea>
                    </div>
                    <div style="display:flex; justify-content:flex-end; gap:8px;">
                        <button type="button" class="btn" style="background:var(--badge-bg); color:var(--text);" onclick="closeModal('add-product-modal')">Cancel</button>
                        <button type="submit" class="btn btn-primary">Save Product</button>
                    </div>
                </form>
            </div>
        </div>

        <script>
        function filterCatalog() {
            const q = (document.getElementById('catalog-search').value || '').toLowerCase();
            const cards = document.querySelectorAll('.vendor-card');
            cards.forEach(card => {
                const text = card.innerText.toLowerCase();
                if (!q || text.includes(q)) {
                    card.style.display = '';
                } else {
                    card.style.display = 'none';
                }
            });
        }

        function openModal(id) {
            const el = document.getElementById(id);
            if (el) el.style.display = 'block';
        }

        function closeModal(id) {
            const el = document.getElementById(id);
            if (el) el.style.display = 'none';
        }

        async function submitVendor(e) {
            e.preventDefault();
            const ouiRaw = document.getElementById('v-oui').value || '';
            const protoRaw = document.getElementById('v-proto').value || '';
            const vendor = {
                id: document.getElementById('v-id').value.trim(),
                name: document.getElementById('v-name').value.trim(),
                website: document.getElementById('v-web').value.trim() || null,
                support_url: null,
                icon: document.getElementById('v-icon').value.trim() || '🏢',
                oui_prefixes: ouiRaw.split(',').map(s => s.trim().toLowerCase()).filter(Boolean),
                protocols: protoRaw.split(',').map(s => s.trim().toLowerCase()).filter(Boolean),
                description: document.getElementById('v-desc').value.trim() || null
            };

            const res = await fetch('/api/catalog/vendor', {
                method: 'POST',
                headers: { 'Content-Type': 'application/json' },
                body: JSON.stringify(vendor)
            });

            if (res.ok) {
                window.location.reload();
            } else {
                alert('Failed to save vendor');
            }
        }

        async function submitProduct(e) {
            e.preventDefault();
            const connRaw = document.getElementById('p-conn').value || '';
            const portsRaw = document.getElementById('p-ports').value || '';
            const patRaw = document.getElementById('p-patterns').value || '';

            const product = {
                id: document.getElementById('p-id').value.trim(),
                vendor_id: document.getElementById('p-vendor').value,
                name: document.getElementById('p-name').value.trim(),
                model_number: document.getElementById('p-model').value.trim() || null,
                category: document.getElementById('p-category').value,
                category_icon: document.getElementById('p-icon').value.trim() || '🔌',
                connectivity: connRaw.split(',').map(s => s.trim().toLowerCase()).filter(Boolean),
                matter_device_type: document.getElementById('p-matter').value.trim() || null,
                default_ports: portsRaw.split(',').map(s => parseInt(s.trim())).filter(n => !isNaN(n)),
                hostname_patterns: patRaw.split(',').map(s => s.trim().toLowerCase()).filter(Boolean),
                documentation_url: document.getElementById('p-doc').value.trim() || null,
                specs: document.getElementById('p-specs').value.trim() || null,
                rhai_script_ref: null
            };

            const res = await fetch('/api/catalog/product', {
                method: 'POST',
                headers: { 'Content-Type': 'application/json' },
                body: JSON.stringify(product)
            });

            if (res.ok) {
                window.location.reload();
            } else {
                alert('Failed to save product');
            }
        }
        </script>
        "#;

/// The content of the page.
pub open spec fn content_html(
    vendors: Seq<char>,
    products: Seq<char>,
    matter: Seq<char>,
    cards: Seq<char>,
    options: Seq<char>,
) -> Seq<char> {
    CONTENT_0@ + vendors + CONTENT_1@ + products + CONTENT_2@ + matter + CONTENT_3@ + cards + CONTENT_4@ + options + CONTENT_5@
}

/// The content of the page.
pub fn content(vendors: &str, products: &str, matter: &str, cards: &str, options: &str) -> (r: String)
    ensures
        r@ == content_html(vendors@, products@, matter@, cards@, options@),
{
    let mut out = CONTENT_0.to_owned();
    out.append(vendors);
    out.append(CONTENT_1);
    out.append(products);
    out.append(CONTENT_2);
    out.append(matter);
    out.append(CONTENT_3);
    out.append(cards);
    out.append(CONTENT_4);
    out.append(options);
    out.append(CONTENT_5);
    out
}

}
