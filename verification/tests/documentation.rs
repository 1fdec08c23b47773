use homenode_web::device::DeviceRecord;
use homenode_web::docs::{
    assign_device_product, claim_device, get_device_doc, save_device_doc, seed_govee_docs, seed_matter_fabrics,
    update_device_category, update_matter_fabric, ClaimDevicePayload, SaveDocRequest, UpdateMatterFabric,
};
use homenode_web::events::{enrich_event, enrich_events};
use homenode_web::history::{change_history, change_history_text, ip_from_history, ip_from_history_text, plain_id_of, Change};
use homenode_web::records::{DeviceDocumentation, LightGroup, MatterFabricMeta, Product, RoomRecord};
use homenode_web::rooms::{
    assign_rooms, count_rooms, groups_url_of, has_id, hue_assignments, hue_class_of, hue_update, import_message_of,
    parse_credentials, parse_hue_rooms, prepare_room, rename_room_in_docs, rename_room_in_groups, room_renamed,
    Assignment, HueCredentials,
};
use homenode_web::text_map::TextMap;
use serde_json::Value;

fn some(s: &str) -> Option<String> {
    Some(s.to_string())
}

fn json(s: &str) -> Value {
    serde_json::from_str(s).unwrap()
}

fn device(id: &str, name: &str, meta: &[(&str, &str)]) -> DeviceRecord {
    let mut metadata = TextMap::new();
    for (k, v) in meta {
        metadata.insert(k.to_string(), v.to_string());
    }
    DeviceRecord {
        module_id: "network-discovery".to_string(),
        device_id: id.to_string(),
        display_name: name.to_string(),
        kind: "network-device".to_string(),
        capabilities: vec![],
        metadata,
    }
}

fn in_room(room: &str) -> DeviceDocumentation {
    DeviceDocumentation { room: some(room), ..DeviceDocumentation::default() }
}

fn room(id: &str, name: &str) -> RoomRecord {
    RoomRecord {
        id: id.to_string(),
        name: name.to_string(),
        floor: None,
        icon: None,
        archetype: None,
        matter_tag: None,
        hue_group_id: None,
        hue_class: None,
    }
}

fn product(id: &str, url: Option<&str>) -> Product {
    Product {
        id: id.to_string(),
        vendor_id: "v".to_string(),
        name: "P".to_string(),
        model_number: None,
        category: "iot".to_string(),
        category_icon: "💡".to_string(),
        connectivity: vec![],
        matter_device_type: None,
        default_ports: vec![],
        documentation_url: url.map(|s| s.to_string()),
        specs: None,
        rhai_script_ref: None,
    }
}

// Documentation

#[test]
fn saved_documentation_is_read_back() {
    let mut store = TextMap::new();
    let request = SaveDocRequest {
        name: some("  Lamp "),
        room: some(" Flur"),
        notes: some(" as is "),
        manual_url: some("   "),
    };
    let (name, room) = save_device_doc(&mut store, "d", &request, "now");
    assert_eq!(name, some("Lamp"));
    assert_eq!(room, some("Flur"));
    let doc = get_device_doc(&store, "d");
    assert_eq!(doc.name, some("Lamp"));
    assert_eq!(doc.room, some("Flur"));
    assert_eq!(doc.notes, " as is ");
    assert_eq!(doc.manual_url, None);
    assert_eq!(doc.product_id, None);
    assert_eq!(doc.updated_at, "now");
    assert_eq!(get_device_doc(&store, "other").updated_at, "");
}

#[test]
fn empty_documentation_is_removed() {
    let mut store = TextMap::new();
    store.insert("d".to_string(), in_room("Flur"));
    let request = SaveDocRequest { name: some(" "), room: None, notes: some("  "), manual_url: None };
    assert_eq!(save_device_doc(&mut store, "d", &request, "now"), (None, None));
    assert!(!store.contains_key("d"));
}

#[test]
fn saving_keeps_the_product_of_a_device() {
    let mut store = TextMap::new();
    let mut doc = in_room("Flur");
    doc.product_id = some("p1");
    store.insert("d".to_string(), doc);
    let request = SaveDocRequest { name: None, room: None, notes: None, manual_url: None };
    save_device_doc(&mut store, "d", &request, "now");
    let doc = get_device_doc(&store, "d");
    assert_eq!(doc.product_id, some("p1"));
    assert_eq!(doc.room, None);
}

#[test]
fn claiming_sets_what_is_not_blank() {
    let mut store = TextMap::new();
    store.insert("d".to_string(), in_room("Flur"));
    let payload = ClaimDevicePayload {
        id: "d".to_string(),
        name: some(" Tag "),
        family: some("f"),
        assigned_room: some("  "),
    };
    claim_device(&mut store, &payload, "now");
    let doc = get_device_doc(&store, "d");
    assert_eq!(doc.name, some(" Tag "));
    assert_eq!(doc.room, some("Flur"));
    assert_eq!(doc.updated_at, "now");
    let nothing = ClaimDevicePayload { id: "e".to_string(), name: None, family: None, assigned_room: None };
    claim_device(&mut store, &nothing, "then");
    assert!(store.contains_key("e"));
}

#[test]
fn assigning_a_product_fills_the_manual() {
    let mut store = TextMap::new();
    assign_device_product(&mut store, "d", &Some(product("p", Some("http://m"))), "now");
    assert_eq!(get_device_doc(&store, "d").product_id, some("p"));
    assert_eq!(get_device_doc(&store, "d").manual_url, some("http://m"));
    assign_device_product(&mut store, "d", &Some(product("q", Some("http://n"))), "later");
    assert_eq!(get_device_doc(&store, "d").product_id, some("q"));
    assert_eq!(get_device_doc(&store, "d").manual_url, some("http://m"));
    assign_device_product(&mut store, "e", &None, "later");
    assert!(!store.contains_key("e"));
}

#[test]
fn categories_are_chosen_and_taken_back() {
    let mut categories = TextMap::new();
    update_device_category(&mut categories, "d", "  NAS ");
    assert_eq!(categories.get("d").map(|s| s.as_str()), Some("nas"));
    update_device_category(&mut categories, "e", "hub");
    update_device_category(&mut categories, "d", "   ");
    assert!(!categories.contains_key("d"));
    assert!(categories.contains_key("e"));
}

#[test]
fn fabrics_are_updated() {
    let mut fabrics: TextMap<MatterFabricMeta> = TextMap::new();
    let request = UpdateMatterFabric { name: " Home ".to_string(), icon: some("  "), description: None };
    update_matter_fabric(&mut fabrics, " ab12 ", &request);
    let meta = fabrics.get("AB12").unwrap();
    assert_eq!((meta.name.as_str(), meta.icon.as_str(), meta.description.as_str()), ("Home", "✨", ""));
    let request = UpdateMatterFabric { name: "H".to_string(), icon: some(" 🏠 "), description: some(" d ") };
    update_matter_fabric(&mut fabrics, "AB12", &request);
    let meta = fabrics.get("AB12").unwrap();
    assert_eq!((meta.name.as_str(), meta.icon.as_str(), meta.description.as_str()), ("H", "🏠", "d"));
}

#[test]
fn fabrics_are_seeded_once() {
    let mut fabrics: TextMap<MatterFabricMeta> = TextMap::new();
    let own = MatterFabricMeta { name: "Mine".to_string(), ..MatterFabricMeta::default() };
    fabrics.insert("4518A03EC84FB6E7".to_string(), own);
    assert!(seed_matter_fabrics(&mut fabrics));
    assert_eq!(fabrics.len(), 3);
    assert_eq!(fabrics.get("4518A03EC84FB6E7").unwrap().name, "Mine");
    assert_eq!(fabrics.get("6ABEDCB982EC2223").unwrap().name, "Apple Home");
    assert_eq!(fabrics.get("A38D674BFAAFF432").unwrap().description, "Direct vendor fabric (e.g. Govee)");
    assert!(!seed_matter_fabrics(&mut fabrics));
}

#[test]
fn lights_are_documented_once() {
    let mut store = TextMap::new();
    store.insert("net-192-168-178-41".to_string(), in_room("Keller"));
    assert!(seed_govee_docs(&mut store, "now"));
    assert_eq!(store.len(), 4);
    assert!(!store.contains_key("d0:c9:07:a4:c0:dc"));
    let doc = get_device_doc(&store, "d0:c9:07:39:f4:4c");
    assert_eq!(doc.name, some("Govee LED EG Links"));
    assert_eq!(doc.room, some("Wohnzimmer"));
    assert_eq!(doc.product_id, some("govee_rgbic_light"));
    assert_eq!(doc.updated_at, "now");
    assert!(!seed_govee_docs(&mut store, "later"));
}

// History

const HISTORY: &str = r#"{"version":1,"records":{
    "AA:01":{"ip":"10.0.0.1","hostname":"alpha","display_name":"old"},
    "b":{"device_id":" NET-2 ","mac":"AA:02","ip":"10.0.0.2","hostname":""},
    "c":{"ip":"10.0.0.3","is_active":false},
    "d":"no object"}}"#;

#[test]
fn names_go_to_the_history() {
    let history = json(HISTORY);
    let after = change_history(&history, " aa:01", &Change::Rename(some("new"))).unwrap();
    assert_eq!(after["records"]["AA:01"]["display_name"], json("\"new\""));
    assert_eq!(after["records"]["b"], history["records"]["b"]);
    assert_eq!(after["version"], json("1"));
}

#[test]
fn names_go_back_to_what_is_reported() {
    let history = json(HISTORY);
    let after = change_history(&history, "AA:01", &Change::Rename(None)).unwrap();
    assert_eq!(after["records"]["AA:01"]["display_name"], json("\"alpha\""));
    let after = change_history(&history, "aa:02", &Change::Rename(None)).unwrap();
    assert_eq!(after["records"]["b"]["display_name"], json("\" NET-2 \""));
    let after = change_history(&history, "c", &Change::Rename(None)).unwrap();
    assert_eq!(after["records"]["c"]["display_name"], json("\"Unknown Device\""));
}

#[test]
fn answers_go_to_the_history() {
    let history = json(HISTORY);
    let answered = Change::Answered("10.0.0.3".to_string(), "now".to_string());
    let after = change_history(&history, "net-2", &answered).unwrap();
    assert_eq!(after["records"]["b"]["is_active"], json("true"));
    assert_eq!(after["records"]["b"]["last_seen"], json("\"now\""));
    assert_eq!(after["records"]["c"]["is_active"], json("true"));
    assert_eq!(after["records"]["AA:01"], history["records"]["AA:01"]);
}

#[test]
fn other_devices_leave_the_history_alone() {
    assert!(change_history(&json(HISTORY), "e", &Change::Rename(some("x"))).is_none());
    assert!(change_history(&json(HISTORY), "d", &Change::Rename(some("x"))).is_none());
    assert!(change_history(&json("{\"records\":[]}"), "e", &Change::Rename(some("x"))).is_none());
    assert!(change_history_text("no json", "AA:01", &Change::Rename(some("x"))).is_none());
}

#[test]
fn history_text_is_written_out() {
    let text = change_history_text("{\"records\":{\"a\":{\"ip\":\"1\"}}}", "A", &Change::Rename(some("x"))).unwrap();
    assert_eq!(
        text,
        "{\n  \"records\": {\n    \"a\": {\n      \"display_name\": \"x\",\n      \"ip\": \"1\"\n    }\n  }\n}"
    );
}

#[test]
fn history_remembers_addresses() {
    assert_eq!(ip_from_history(&json(HISTORY), "net-2"), some("10.0.0.2"));
    assert_eq!(ip_from_history_text(HISTORY, "aa:01 "), some("10.0.0.1"));
    assert_eq!(ip_from_history_text(HISTORY, "d"), None);
    assert_eq!(ip_from_history_text(HISTORY, "e"), None);
    assert_eq!(ip_from_history_text("", "a"), None);
    assert_eq!(plain_id_of(" AA:01\n"), "aa:01");
}

#[test]
fn the_first_record_in_key_order_counts() {
    let text = "{\"records\":{\"z\":{\"mac\":\"m\",\"ip\":\"2\"},\"y\":{\"mac\":\"M\",\"ip\":\"1\"}}}";
    assert_eq!(ip_from_history_text(text, "m"), some("1"));
}

// Events

#[test]
fn events_get_the_name_and_room_of_their_gateway() {
    let devices = vec![
        device("net-1", "Shelly im Büro", &[("ip", "10.0.0.11"), ("mac", "AA:BB:CC:DD:EE:01")]),
        device("net-2", "", &[("ip", "10.0.0.12"), ("mac", "AA:BB:CC:DD:EE:02"), ("hostname", "kitchen-plug")]),
    ];
    let mut docs = TextMap::new();
    let event = enrich_event(&json(r#"{"gateway_ip":"10.0.0.11","mac":"x"}"#), &devices, &docs);
    assert_eq!(event, json(r#"{"gateway_ip":"10.0.0.11","mac":"x","gateway_name":"Shelly im Büro","room":"Büro"}"#));
    let event = enrich_event(&json(r#"{"gateway_id":"shelly-aabbccddee02"}"#), &devices, &docs);
    assert_eq!(event["gateway_name"], json("\"kitchen-plug\""));
    assert_eq!(event["room"], json("\"Küche\""));
    let mut doc = in_room("Salon");
    doc.name = some("Gate");
    docs.insert("AA:BB:CC:DD:EE:01".to_string(), doc);
    let event = enrich_event(&json(r#"{"gateway":"via 10.0.0.11"}"#), &devices, &docs);
    assert_eq!(event["gateway_name"], json("\"Gate\""));
    assert_eq!(event["room"], json("\"Salon\""));
}

#[test]
fn events_fall_back_to_the_room_of_the_device() {
    let mut docs = TextMap::new();
    docs.insert("m1".to_string(), in_room("Keller"));
    let event = enrich_event(&json(r#"{"mac":"m1"}"#), &[], &docs);
    assert_eq!(event, json(r#"{"mac":"m1","room":"Keller"}"#));
    let event = enrich_event(&json(r#"{"mac":"m2"}"#), &[], &docs);
    assert_eq!(event, json(r#"{"mac":"m2"}"#));
    assert_eq!(enrich_event(&json("7"), &[], &docs), json("7"));
}

#[test]
fn events_that_are_no_list_are_passed_on() {
    let docs = TextMap::new();
    assert_eq!(enrich_events("oops", &[], &docs), "oops");
    assert_eq!(enrich_events("{\"a\": 1}", &[], &docs), "{\"a\": 1}");
    assert_eq!(enrich_events("[ ]", &[], &docs), "[]");
    assert_eq!(enrich_events("[{\"b\":1, \"a\":[]}, 2]", &[], &docs), "[{\"a\":[],\"b\":1},2]");
}

// Rooms

#[test]
fn rooms_are_counted_without_regard_to_case() {
    let mut store = TextMap::new();
    store.insert("a".to_string(), in_room(" flur "));
    store.insert("b".to_string(), in_room("Flur"));
    store.insert("c".to_string(), in_room("Bad"));
    store.insert("d".to_string(), DeviceDocumentation::default());
    let counts = count_rooms(&[room("flur", "FLUR"), room("k", "Keller")], &store);
    assert_eq!(counts[0].device_count, 2);
    assert_eq!(counts[0].room.id, "flur");
    assert_eq!(counts[1].device_count, 0);
}

#[test]
fn saving_a_room_keeps_its_hue_group() {
    assert!(has_id(&room("a", "A")));
    assert!(!has_id(&room("  ", "A")));
    let mut earlier = room("a", "A");
    earlier.hue_group_id = some("7");
    assert_eq!(prepare_room(&room("a", "B"), &Some(earlier.clone())).hue_group_id, some("7"));
    let mut with_group = room("a", "B");
    with_group.hue_group_id = some("9");
    assert_eq!(prepare_room(&with_group, &Some(earlier)).hue_group_id, some("9"));
    assert_eq!(prepare_room(&room("a", "B"), &None).hue_group_id, None);
}

#[test]
fn renaming_a_room_reaches_documentation_and_groups() {
    assert!(room_renamed("Flur", "Diele"));
    assert!(!room_renamed("Flur", "FLUR"));
    let mut store = TextMap::new();
    store.insert("a".to_string(), in_room("FLUR"));
    store.insert("b".to_string(), in_room("Bad"));
    assert!(rename_room_in_docs(&mut store, "Flur", "Diele", "now"));
    assert_eq!(get_device_doc(&store, "a").room, some("Diele"));
    assert_eq!(get_device_doc(&store, "a").updated_at, "now");
    assert_eq!(get_device_doc(&store, "b").room, some("Bad"));
    assert_eq!(get_device_doc(&store, "b").updated_at, "");
    assert!(!rename_room_in_docs(&mut store, "Flur", "Diele", "later"));
    let group = |id: &str, room: &str| LightGroup {
        id: id.to_string(),
        name: "G".to_string(),
        room: room.to_string(),
        device_ids: vec![],
        icon: None,
        created_at: String::new(),
        updated_at: String::new(),
    };
    let changed = rename_room_in_groups(&[group("1", "flur"), group("2", "Bad")], "Flur", "Diele");
    assert_eq!(changed.len(), 1);
    assert_eq!((changed[0].id.as_str(), changed[0].room.as_str()), ("1", "Diele"));
}

#[test]
fn hue_credentials_are_read() {
    let c = parse_credentials("{\"bridge_ip\":\"10.0.0.9\",\"username\":\"u\"}").unwrap();
    assert_eq!((c.bridge_ip.as_str(), c.username.as_str()), ("10.0.0.9", "u"));
    let c = parse_credentials("{\"username\":\"u\"}").unwrap();
    assert_eq!(c.bridge_ip, "192.168.178.12");
    assert_eq!(groups_url_of(&c), "http://192.168.178.12/api/u/groups");
    assert!(parse_credentials("{\"username\":\"\"}").is_none());
    assert!(parse_credentials("{}").is_none());
    assert!(parse_credentials("x").is_none());
}

#[test]
fn rooms_are_sent_to_the_bridge() {
    let c = HueCredentials { bridge_ip: "10.0.0.9".to_string(), username: "u".to_string() };
    let mut r = room("a", "Küche");
    assert!(hue_update(&r, &c).is_none());
    r.hue_group_id = some("4");
    r.archetype = some("kitchen");
    let update = hue_update(&r, &c).unwrap();
    assert_eq!(update.url, "http://10.0.0.9/api/u/groups/4");
    assert_eq!(update.body, json("{\"name\":\"Küche\",\"class\":\"Kitchen\"}"));
    r.hue_class = some("Attic");
    assert_eq!(hue_class_of(&r), "Attic");
    for (archetype, class) in [
        ("living_room", "Living room"),
        ("dining_room", "Dining"),
        ("bedroom", "Bedroom"),
        ("kids_room", "Kids bedroom"),
        ("bathroom", "Bathroom"),
        ("office", "Home office"),
        ("hallway", "Hallway"),
        ("outdoor", "Garden"),
        ("garage", "Garage"),
        ("cellar", "Other"),
    ] {
        let mut r = room("a", "A");
        r.archetype = some(archetype);
        assert_eq!(hue_class_of(&r), class);
    }
    assert_eq!(hue_class_of(&room("a", "A")), "Other");
}

#[test]
fn rooms_come_from_the_bridge() {
    let answer = r#"{
        "1":{"type":"Room","name":" Flur ","class":"Hallway","lights":["1",2,"3"],"sensors":["9"]},
        "2":{"type":"Zone","name":"Oben","lights":["1"]},
        "3":{"type":"LightGroup","name":"Rest","lights":["5"]},
        "4":{"type":"Room","name":"  "}}"#;
    let groups = parse_hue_rooms(answer).unwrap();
    assert_eq!(groups.len(), 2);
    assert_eq!((groups[0].group_id.as_str(), groups[0].name.as_str(), groups[0].class.as_str()), ("1", "Flur", "Hallway"));
    assert_eq!(groups[1].class, "");
    let list = hue_assignments(&groups);
    let pairs: Vec<(&str, &str)> = list.iter().map(|a| (a.key.as_str(), a.room.as_str())).collect();
    assert_eq!(
        pairs,
        vec![("hue-light-1", "Flur"), ("hue-light-3", "Flur"), ("hue-sensor-9", "Flur"), ("hue-light-1", "Oben")]
    );
    let mut store = TextMap::new();
    store.insert("hue-light-3".to_string(), in_room("Flur"));
    assert_eq!(assign_rooms(&mut store, &list, "now"), 3);
    assert_eq!(get_device_doc(&store, "hue-light-1").room, some("Oben"));
    assert_eq!(get_device_doc(&store, "hue-light-3").updated_at, "");
    assert_eq!(get_device_doc(&store, "hue-sensor-9").updated_at, "now");
    assert_eq!(import_message_of(2, 3), "2 Räume importiert und 3 Geräte zugeordnet.");
    assert!(parse_hue_rooms("[]").is_none());
    assert!(parse_hue_rooms("").is_none());
}

#[test]
fn a_second_import_moves_nothing() {
    let answer = r#"{"1":{"type":"Room","name":"Flur","lights":["1","2","1"],"sensors":["1"]},
        "2":{"type":"Room","name":"Bad","lights":["3"]}}"#;
    let list = hue_assignments(&parse_hue_rooms(answer).unwrap());
    let mut store = TextMap::new();
    assert_eq!(assign_rooms(&mut store, &list, "first"), 4);
    assert_eq!(assign_rooms(&mut store, &list, "second"), 0);
    assert_eq!(get_device_doc(&store, "hue-light-1").updated_at, "first");
    assert_eq!(get_device_doc(&store, "hue-light-3").room, some("Bad"));
}

#[test]
fn assignments_leave_other_devices_alone() {
    let mut store = TextMap::new();
    store.insert("x".to_string(), in_room("Bad"));
    let list = vec![Assignment { key: "y".to_string(), room: "Flur".to_string() }];
    assert_eq!(assign_rooms(&mut store, &list, "now"), 1);
    assert_eq!(get_device_doc(&store, "x").room, some("Bad"));
}
