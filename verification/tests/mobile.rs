use homenode_web::mobile_ble::{
    forget_target, ingest, items_of, keep_others, mobile_ble_item_to_record, namable, try_ingest, MobileBleScanItem,
    MobileBleScanPayload, ScanFacts,
};

fn item(id: &str) -> MobileBleScanItem {
    MobileBleScanItem { id: id.to_string(), ..MobileBleScanItem::default() }
}

fn facts(norm_id: &str) -> ScanFacts {
    ScanFacts { norm_id: norm_id.to_string(), id_ignored: false, norm_id_ignored: false, name_ignored: false }
}

#[test]
fn a_copy_of_an_item_says_the_same() {
    let full = MobileBleScanItem {
        name: Some("Lamp".to_string()),
        service_uuids: vec!["fcd2".to_string()],
        battery: Some(90),
        button_event: Some("single".to_string()),
        ..item("x")
    };
    assert_eq!(format!("{:?}", full.clone()), format!("{full:?}"));
}

#[test]
fn a_bare_device_becomes_a_record() {
    let record = mobile_ble_item_to_record(&item("AA:BB:CC:DD"), "aabbccdd").unwrap();
    assert_eq!(record.module_id, "web");
    assert_eq!(record.device_id, "mobile-ble-aabbccdd");
    assert_eq!(record.display_name, "BLE AA:BB:CC");
    assert_eq!(record.kind, "sensor");
    assert_eq!(record.capabilities, vec!["ble", "mobile-scout"]);
    for (k, v) in [
        ("source", "mobile-scout"),
        ("sources", "mobile-scout,ble"),
        ("scout", "iPhone"),
        ("family", "Bluetooth LE"),
        ("status", "active"),
        ("protocol", "ble"),
        ("mac", "AA:BB:CC:DD"),
    ] {
        assert_eq!(record.metadata.get(k).map(|s| s.as_str()), Some(v));
    }
    assert_eq!(record.metadata.len(), 7);
}

#[test]
fn what_a_device_reports_is_kept() {
    let full = MobileBleScanItem {
        name: Some("Tag".to_string()),
        rssi: Some(-61),
        family: Some("Shelly".to_string()),
        assigned_room: Some("Flur".to_string()),
        scout_name: Some("Phone".to_string()),
        battery: Some(97),
        temperature_c: Some("21.50".to_string()),
        humidity_pct: Some("40.0".to_string()),
        illuminance_lux: Some("5.0".to_string()),
        contact_open: Some(true),
        button_event: Some("double".to_string()),
        ..item("x")
    };
    let record = mobile_ble_item_to_record(&full, "x").unwrap();
    assert_eq!(record.display_name, "Tag");
    assert_eq!(record.kind, "contact-sensor");
    for (k, v) in [
        ("scout", "Phone"),
        ("family", "Shelly"),
        ("rssi", "-61"),
        ("room", "Flur"),
        ("battery", "97"),
        ("temperature_c", "21.50"),
        ("humidity_pct", "40.0"),
        ("illuminance_lux", "5.0"),
        ("contact_state", "open"),
        ("button_event", "double"),
    ] {
        assert_eq!(record.metadata.get(k).map(|s| s.as_str()), Some(v));
    }
}

#[test]
fn kinds_of_devices() {
    let closed = MobileBleScanItem { contact_open: Some(false), motion_detected: Some(true), ..item("x") };
    let record = mobile_ble_item_to_record(&closed, "x").unwrap();
    assert_eq!(record.kind, "contact-sensor");
    assert_eq!(record.metadata.get("contact_state").map(|s| s.as_str()), Some("closed"));
    let motion = MobileBleScanItem { motion_detected: Some(false), ..item("x") };
    assert_eq!(mobile_ble_item_to_record(&motion, "x").unwrap().kind, "motion-sensor");
    let button = MobileBleScanItem { button_event: Some("single".to_string()), ..item("x") };
    assert_eq!(mobile_ble_item_to_record(&button, "x").unwrap().kind, "button");
}

#[test]
fn a_device_without_an_id_is_none() {
    assert!(mobile_ble_item_to_record(&item("--"), "").is_none());
}

#[test]
fn names_are_cut_between_characters() {
    assert!(namable(&item("1234567")));
    assert!(namable(&item("1234567ü")) == false);
    assert!(namable(&item("123456ü")));
    let named = MobileBleScanItem { name: Some("n".to_string()), ..item("1234567ü") };
    assert!(namable(&named));
}

#[test]
fn scans_come_singly_or_together() {
    assert_eq!(items_of(MobileBleScanPayload::Single(item("a"))).len(), 1);
    let both = items_of(MobileBleScanPayload::Batch(vec![item("a"), item("b")]));
    assert_eq!((both[0].id.as_str(), both[1].id.as_str()), ("a", "b"));
}

#[test]
fn scans_are_taken_in() {
    let data = MobileBleScanItem { manufacturer_data_hex: Some("ff00".to_string()), rssi: Some(-40), ..item("b") };
    let quiet = MobileBleScanItem {
        manufacturer_data_hex: Some("01".to_string()),
        scout_name: Some("Phone".to_string()),
        ..item("c")
    };
    let items = vec![item("a"), data, quiet, item("d"), item("e"), item("f")];
    let named = MobileBleScanItem { name: Some("N".to_string()), ..item("g") };
    let unnamed = MobileBleScanItem { name: Some(String::new()), ..item("h") };
    let mut items = items;
    items.push(named);
    items.push(unnamed);
    let all = vec![
        facts("a"),
        facts("b"),
        facts("c"),
        facts(""),
        ScanFacts { id_ignored: true, ..facts("e") },
        ScanFacts { norm_id_ignored: true, ..facts("f") },
        ScanFacts { name_ignored: true, ..facts("g") },
        ScanFacts { name_ignored: true, ..facts("h") },
    ];
    let r = ingest(&items, &all);
    let ids: Vec<&str> = r.records.iter().map(|d| d.device_id.as_str()).collect();
    assert_eq!(ids, vec!["mobile-ble-a", "mobile-ble-b", "mobile-ble-c", "mobile-ble-h"]);
    assert_eq!(r.taken, vec![0, 1, 2, 7]);
    assert_eq!(r.ignored, 3);
    let passed: Vec<String> = r.forward.iter().map(|v| v.to_string()).collect();
    assert_eq!(
        passed,
        vec![
            r#"{"data":"ff00","gateway":"iPhone (Mobile Scout)","mac":"b","payload":"ff00","payload_bytes":"ff00","rssi":-40}"#,
            r#"{"data":"01","gateway":"Phone","mac":"c","payload":"01","payload_bytes":"01","rssi":-70}"#,
        ]
    );
}

#[test]
fn scans_that_cannot_be_told_are_refused() {
    let bad = || vec![item("1234567ü")];
    assert!(try_ingest(&bad(), &[facts("x")]).is_none());
    assert!(try_ingest(&bad(), &[]).is_none());
    assert_eq!(try_ingest(&bad(), &[facts("")]).unwrap().records.len(), 0);
    let ignored = ScanFacts { id_ignored: true, ..facts("x") };
    assert_eq!(try_ingest(&bad(), &[ignored]).unwrap().ignored, 1);
    assert_eq!(try_ingest(&[item("a")], &[facts("a")]).unwrap().taken, vec![0]);
}

#[test]
fn devices_are_forgotten() {
    assert_eq!(forget_target("mobile-ble-aa11"), Some("aa11".to_string()));
    assert_eq!(forget_target("mobile-ble-mobile-ble-aa11"), Some("aa11".to_string()));
    assert_eq!(forget_target("net-1"), None);
    let ids: Vec<String> = ["aa11", "bb22", "aa11", "cc33"].iter().map(|s| s.to_string()).collect();
    assert_eq!(keep_others(&ids, "aa11"), vec![1, 3]);
    assert_eq!(keep_others(&ids, "dd"), vec![0, 1, 2, 3]);
}
