use homenode_web::device::DeviceRecord;
use homenode_web::html::escape_html_str;
use homenode_web::lights::scene_steps;
use homenode_web::ordering::{sort_positions, SortKey};
use homenode_web::pages::catalog::render_catalog_page;
use homenode_web::pages::device_data::{DeviceFacts, Household};
use homenode_web::pages::devices::{devices_showable, render_devices_page, try_render_devices_page};
use homenode_web::pages::layout::page_layout;
use homenode_web::pages::overview::{
    count_active, format_health_state, render_dashboard_page, render_energy_page, render_error, render_status_page,
    ModuleHealth, ModuleManifest, ModuleStatus,
};
use homenode_web::pages::rooms::render_rooms_page;
use homenode_web::records::{
    DeviceDocumentation, GoveeState, LightGroup, MatterFabricMeta, Product, RoomRecord, Vendor, VerifiedShellyGateway,
};
use homenode_web::text_map::TextMap;
use homenode_web::unify::build_unified_devices;
use serde_json::Value;

fn device(module: &str, id: &str, name: &str, kind: &str, meta: &[(&str, &str)]) -> DeviceRecord {
    let mut metadata = TextMap::new();
    for (k, v) in meta {
        metadata.insert(k.to_string(), v.to_string());
    }
    DeviceRecord {
        module_id: module.to_string(),
        device_id: id.to_string(),
        display_name: name.to_string(),
        kind: kind.to_string(),
        capabilities: vec![],
        metadata,
    }
}

fn net(id: &str, name: &str, meta: &[(&str, &str)]) -> DeviceRecord {
    device("network-discovery", id, name, "network-device", meta)
}

fn plain_facts() -> DeviceFacts {
    DeviceFacts {
        id_ignored: false,
        mac_ignored: false,
        small_mac_ignored: false,
        matched_product: None,
        room_floor: None,
        trimmed_room_floor: None,
    }
}

fn household() -> Household {
    Household {
        docs: TextMap::new(),
        category_overrides: TextMap::new(),
        fabric_metas: TextMap::new(),
        gateways: vec![],
        rooms: vec![],
        products_by_id: TextMap::new(),
        vendors_by_id: TextMap::new(),
    }
}

fn room(id: &str, name: &str, floor: Option<&str>) -> RoomRecord {
    RoomRecord {
        id: id.to_string(),
        name: name.to_string(),
        floor: floor.map(|s| s.to_string()),
        icon: None,
        archetype: None,
        matter_tag: None,
        hue_group_id: None,
        hue_class: None,
    }
}

fn product(id: &str, vendor: &str, matter: Option<&str>) -> Product {
    Product {
        id: id.to_string(),
        vendor_id: vendor.to_string(),
        name: format!("Product {id}"),
        model_number: None,
        category: "nas".to_string(),
        category_icon: "🗄️".to_string(),
        connectivity: vec!["LAN".to_string()],
        matter_device_type: matter.map(|s| s.to_string()),
        default_ports: vec![80, 443],
        documentation_url: None,
        specs: None,
        rhai_script_ref: None,
    }
}

fn vendor(id: &str, name: &str) -> Vendor {
    Vendor {
        id: id.to_string(),
        name: name.to_string(),
        icon: "🏢".to_string(),
        website: Some("http://v".to_string()),
        support_url: None,
        protocols: vec!["Zigbee".to_string()],
        oui_prefixes: vec!["AA:BB:CC".to_string()],
        description: None,
    }
}

/// The JSON that stands behind `start` in the page, up to the next semicolon at the end of a line.
fn json_behind(page: &str, start: &str) -> Value {
    let at = page.find(start).unwrap() + start.len();
    let rest = &page[at..];
    let end = rest.find(";\n").unwrap();
    serde_json::from_str(&rest[..end]).unwrap()
}

// Layout

#[test]
fn markup_is_escaped() {
    assert_eq!(escape_html_str("a<b> & \"c\" 'd'"), "a&lt;b&gt; &amp; &quot;c&quot; 'd'");
    assert_eq!(escape_html_str("&lt;"), "&amp;lt;");
}

#[test]
fn the_open_tab_is_marked() {
    let page = page_layout("My Home", "rooms", "<p>here</p>");
    assert!(page.contains("My Home"));
    assert!(page.contains("<p>here</p>"));
    assert_eq!(page.matches("class=\"active\"").count() + page.matches(" active\"").count(), 1);
    assert!(page.starts_with("<!DOCTYPE html>"));
}

#[test]
fn errors_are_shown() {
    let page = render_error("T", "devices", "no socket");
    assert!(page.contains("Error loading runtime snapshot</h3><p>no socket</p>"));
}

#[test]
fn health_states() {
    assert_eq!(format_health_state(1), ("Starting", "status-starting"));
    assert_eq!(format_health_state(2), ("Ready", "status-ready"));
    assert_eq!(format_health_state(3), ("Degraded", "status-starting"));
    assert_eq!(format_health_state(4), ("Stopped", "status-error"));
    assert_eq!(format_health_state(5), ("Failed", "status-error"));
    assert_eq!(format_health_state(0), ("Unknown", "status-error"));
    assert_eq!(format_health_state(-1), ("Unknown", "status-error"));
}

#[test]
fn active_devices_are_counted() {
    let devices = vec![
        net("a", "A", &[]),
        net("b", "B", &[("status", "active")]),
        net("c", "C", &[("status", "inactive")]),
    ];
    assert_eq!(count_active(&devices), 2);
    assert!(render_dashboard_page("T", &devices).contains("HomeNode Live Dashboard"));
    assert!(render_energy_page("T").contains("<!DOCTYPE html>"));
}

#[test]
fn modules_are_listed() {
    let modules = vec![
        ModuleStatus {
            manifest: Some(ModuleManifest {
                id: "philips-hue".to_string(),
                display_name: "Hue".to_string(),
                version: "1.2".to_string(),
            }),
            health: Some(ModuleHealth { state: 2, message: "fine".to_string() }),
            connected: true,
        },
        ModuleStatus { manifest: None, health: None, connected: true },
    ];
    let page = render_status_page("T", &modules);
    assert!(page.contains("Integration Modules (2)"));
    assert!(page.contains(
        "<tr><td><strong>Hue</strong><br><small style=\"color:var(--muted)\">philips-hue</small></td><td><span class=\"status-dot status-ready\"></span>Ready</td><td>1.2</td><td>fine</td></tr>"
    ));
    assert!(page.contains("Philips Hue Bridge Integration"));
    assert!(!render_status_page("T", &modules[1..]).contains("Philips Hue Bridge Integration"));
}

// Order

#[test]
fn positions_are_sorted_by_rank_and_name() {
    let key = |rank: u32, name: &str| SortKey { rank, name: name.to_string() };
    let keys = vec![key(2, "a"), key(1, "b"), key(1, "a"), key(2, "a"), key(1, "B")];
    assert_eq!(sort_positions(&keys), vec![4, 2, 1, 0, 3]);
}

// Devices

#[test]
fn no_devices_are_told() {
    let page = render_devices_page("T", &[], &TextMap::new(), &[], &household(), &[], "[]", "{}");
    assert!(page.contains("No devices detected yet"));
}

#[test]
fn the_devices_page_counts_and_groups() {
    let devices = vec![
        net("net-1", "Server", &[("ip", "10.0.0.1"), ("category", "nas"), ("mac", "AA:01")]),
        net("net-2", "Phone", &[("ip", "10.0.0.2"), ("category", "phone"), ("status", "inactive")]),
        net("net-3", "Old", &[("ip", "10.0.0.3"), ("category", "gateway"), ("status", "archive")]),
        net("net-4", "Neighbour", &[("ip", "10.0.0.4"), ("category", "nas")]),
    ];
    let facts = vec![
        plain_facts(),
        plain_facts(),
        plain_facts(),
        DeviceFacts { id_ignored: true, ..plain_facts() },
    ];
    let links = TextMap::new();
    let home = household();
    assert!(devices_showable(&devices, &links, &facts, &home));
    let page = render_devices_page("T", &devices, &links, &facts, &home, &[], "[]", "{}");
    assert!(page.contains("<button type=\"button\" class=\"pill active\" onclick=\"selectCategory('all', this)\">All (4)</button>"));
    assert!(page.contains("onclick=\"selectCategory('nas', this)\">🗄️ Network Storage & NAS (2)</button>"));
    let phone = page.find("data-category=\"phone\"").unwrap();
    let nas = page.find("data-category=\"nas\"").unwrap();
    let router = page.find("data-category=\"router\"").unwrap();
    assert!(phone < nas && nas < router);
    assert!(page.contains("data-id=\"net-4\" data-status=\"active\" data-active=\"true\" data-ignored=\"true\""));
    assert!(page.contains("data-id=\"net-3\" data-status=\"archive\" data-active=\"false\" data-ignored=\"false\""));
    assert!(page.contains("📦 Archiv"));
    assert!(page.contains("⚪ Offline"));
    assert!(page.contains("🚫 Ignoriert"));
    assert!(page.contains("<code>10.0.0.1</code><br><small style=\"color:var(--muted)\">aa:01</small>"));
    assert!(try_render_devices_page("T", &devices, &links, &facts[1..], &home, &[], "[]", "{}").is_none());
    assert_eq!(try_render_devices_page("T", &devices, &links, &facts, &home, &[], "[]", "{}"), Some(page));
}

#[test]
fn the_devices_page_hands_data_to_its_script() {
    let devices = vec![
        net(
            "net-1",
            "Server",
            &[
                ("ip", "10.0.0.1"),
                ("mac", "AA:01"),
                ("category", "nas"),
                ("sources", "arp, ping,,"),
                ("matter_fabrics", r#"[{"fabric_id":"F1","node_id":"1"}]"#),
            ],
        ),
        device("bthome", "ble-1", "Server", "sensor", &[("protocol", "ble"), ("rssi", "-50")]),
        net("net-2", "Other-2", &[("ip", "10.0.0.2")]),
        net("net-3", "other", &[("ip", "10.0.0.3")]),
    ];
    let mut links = TextMap::new();
    links.insert("net-1".to_string(), vec!["ble-1".to_string()]);
    let mut home = household();
    home.docs.insert(
        "aa:01".to_string(),
        DeviceDocumentation {
            name: Some("My Server".to_string()),
            notes: "n".to_string(),
            room: Some("flur".to_string()),
            manual_url: None,
            product_id: Some("p".to_string()),
            updated_at: "t".to_string(),
        },
    );
    home.rooms.push(room("flur", "Flur", Some("EG")));
    home.products_by_id.insert("p".to_string(), product("p", "v", None));
    home.vendors_by_id.insert("v".to_string(), vendor("v", "Vendor"));
    home.gateways.push(VerifiedShellyGateway {
        ip: "10.0.0.1".to_string(),
        id: String::new(),
        mac: String::new(),
        model: String::new(),
        gen: 2,
        name: String::new(),
        ble_supported: true,
        ble_enabled: true,
        ws_connected: false,
        last_seen: String::new(),
    });
    home.category_overrides.insert("net-2".to_string(), "hub".to_string());
    let facts = vec![plain_facts(), plain_facts(), DeviceFacts { room_floor: Some("OG".to_string()), ..plain_facts() }];
    let products = vec![product("p", "v", None), product("q", "w", None)];
    let page = render_devices_page("T", &devices, &links, &facts, &home, &products, "[1]", "{\"a\":2}");
    let all = json_behind(&page, "<script>\n    const allDevices = ");
    assert_eq!(all.as_array().unwrap().len(), 3);
    let one = &all[0];
    assert_eq!(one["display_name"], "My Server");
    assert_eq!(one["original_name"], "Server");
    assert_eq!(one["category"], "nas");
    assert_eq!(one["doc_key"], "AA:01");
    assert_eq!(one["room"], "flur");
    assert_eq!(one["floor"], "EG");
    assert_eq!(one["web_url"], Value::Null);
    assert_eq!(one["product"]["vendor_name"], "Vendor");
    assert_eq!(one["product"]["default_ports"][1], 443);
    assert_eq!(one["secondaries"][0]["device_id"], "ble-1");
    assert_eq!(one["secondaries"][0]["rssi"], "-50");
    assert_eq!(one["candidate"], Value::Null);
    assert_eq!(one["matter_fabrics"][0]["fabric_name"], "Fabric F1");
    assert_eq!(one["matter_fabrics"][0]["port"], 5540);
    assert_eq!(one["sources"].as_array().unwrap().len(), 3);
    assert_eq!(one["sources"][2], "shelly-gateway");
    assert_eq!(one["is_active"], true);
    assert_eq!(one["metadata"]["ip"], "10.0.0.1");
    assert_eq!(all[1]["category"], "hub");
    assert_eq!(all[1]["category_title"], "Smart Home Hubs");
    assert_eq!(all[1]["candidate"]["device_id"], "net-3");
    assert_eq!(all[2]["floor"], "OG");
    assert_eq!(all[2]["product"], Value::Null);
    let choices = json_behind(&page, ";\n    const allProducts = ");
    assert_eq!(choices[0]["vendor_name"], "Vendor");
    assert_eq!(choices[1]["vendor_name"], "w");
    assert!(page.contains("\n    let allRooms = [1];\n    const allGoveeStates = {\"a\":2};\n"));
    assert!(page.contains("LAN + BLE (2)"));
    assert!(page.contains("title=\"Raum: flur\">🚪 flur</span>"));
}

// Rooms

#[test]
fn the_rooms_page_places_devices() {
    let devices = vec![
        net("net-10-0-0-1", "Govee strip", &[("ip", "10.0.0.1"), ("room", "Flur")]),
        device("philips-hue", "hue-light-1", "Hue", "lighting", &[("hue_on", "false"), ("hue_bri", "17")]),
        net("net-2", "Box", &[("ip", "10.0.0.2"), ("room", "  ")]),
    ];
    let list = build_unified_devices(&devices, &TextMap::new());
    let mut docs = TextMap::new();
    docs.insert(
        "hue-light-1".to_string(),
        DeviceDocumentation { room: Some("Flur".to_string()), ..DeviceDocumentation::default() },
    );
    let mut states = TextMap::new();
    states.insert(
        "10.0.0.1".to_string(),
        GoveeState {
            ip: "10.0.0.1".to_string(),
            on_off: true,
            brightness: 42,
            color: (1, 2, 3),
            color_tem_kelvin: 2700,
            sku: "H1".to_string(),
        },
    );
    let groups = vec![LightGroup {
        id: "g".to_string(),
        name: "G".to_string(),
        room: "Flur".to_string(),
        device_ids: vec!["net-10-0-0-1".to_string()],
        icon: None,
        created_at: String::new(),
        updated_at: String::new(),
    }];
    let rooms = vec![room("flur", "Flur", Some("EG")), room("bad", "Bad", None)];
    let page = render_rooms_page("T", &rooms, &list, &docs, &states, &groups);
    let all = json_behind(&page, "<script>\n        const allRoomsData = ");
    assert_eq!(all[0]["device_count"], 2);
    assert_eq!(all[0]["floor"], "EG");
    assert_eq!(all[1]["device_count"], 0);
    assert_eq!(all[1]["floor"], "Sonstige");
    let shown = json_behind(&page, ";\n        const allDevicesData = ");
    assert_eq!(shown.as_array().unwrap().len(), 3);
    assert_eq!(shown[0]["device_id"], "net-10-0-0-1");
    assert_eq!(shown[0]["room"], "Flur");
    assert_eq!(shown[1]["room"], "Flur");
    assert_eq!(shown[2]["display_name"], "Box");
}

#[test]
fn the_rooms_offer_their_scenes() {
    let page = render_rooms_page("T", &[], &[], &TextMap::new(), &TextMap::new(), &[]);
    for (name, label) in [
        ("all_on", "💡 Alles An"),
        ("all_off", "🔌 Alles Aus"),
        ("relax", "🛋️ Gemütlich"),
        ("focus", "💼 Hell / Fokus"),
        ("evening", "🌆 Abend"),
        ("night", "🌙 Nachtlicht"),
    ] {
        assert!(page.contains(&format!("onclick=\"activateRoomScene('{name}', this)\">{label}</button>")));
        assert!(!scene_steps(name).is_empty());
    }
}

// Catalog

#[test]
fn the_catalog_lists_vendors_and_products() {
    let products = vec![product("p", "v", Some("On/Off Light")), product("q", "v", None)];
    let vendors = vec![vendor("v", "Vendor"), vendor("w", "Empty")];
    let by_vendor = vec![products.clone(), vec![]];
    let page = render_catalog_page("T", &vendors, &by_vendor, &products);
    assert!(page.contains("Product p"));
    assert!(page.contains("On/Off Light"));
    assert!(page.contains("Empty"));
    assert!(page.contains("AA:BB:CC"));
    assert!(page.contains("href=\"http://v\""));
}

#[test]
fn copies_and_defaults_of_records() {
    let meta = MatterFabricMeta::default();
    assert_eq!((meta.name.as_str(), meta.icon.as_str(), meta.description.as_str()), ("", "", ""));
    let d = net("a", "A", &[("x", "y"), ("z", "w")]);
    let copy = d.clone();
    assert_eq!(copy.metadata.len(), 2);
    assert_eq!(copy.metadata.key_at(1), "z");
    assert_eq!(copy.metadata.value_at(0), "y");
}
