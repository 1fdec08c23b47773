use homenode_web::device::DeviceRecord;
use homenode_web::fabrics::{extract_device_matter_fabrics, fabrics_listable};
use homenode_web::matterd::{
    build_commissioning_data, log_heartbeat_startup, log_startup, read_u16, read_u32, read_u64, state_dir,
    HomeNodeOnOffLogic, InvalidState, OnOffPersistentState, StartUpOnOff, DEFAULT_DISCRIMINATOR,
    DEFAULT_HEARTBEAT_SECS, DEFAULT_SETUP_PIN,
};
use homenode_web::pages::matter::{render_matter_page, shared_devices, try_render_matter_page, try_shared_devices};
use homenode_web::records::MatterFabricMeta;
use homenode_web::text_map::TextMap;
use homenode_web::unify::build_unified_devices;

fn device(id: &str, name: &str, meta: &[(&str, &str)]) -> DeviceRecord {
    let mut metadata = TextMap::new();
    for (k, v) in meta {
        metadata.insert(k.to_string(), v.to_string());
    }
    DeviceRecord {
        module_id: "n".to_string(),
        device_id: id.to_string(),
        display_name: name.to_string(),
        kind: String::new(),
        capabilities: vec![],
        metadata,
    }
}

fn known() -> TextMap<MatterFabricMeta> {
    let mut all = TextMap::new();
    all.insert(
        "6ABEDCB982EC2223".to_string(),
        MatterFabricMeta { name: "Apple Home".to_string(), icon: "🍎".to_string(), description: "d".to_string() },
    );
    all
}

// Fabrics

#[test]
fn fabrics_are_read_from_all_interfaces() {
    let dev = device(
        "a",
        "A",
        &[(
            "matter_fabrics",
            r#"[{"fabric_id":"6abedcb982ec2223","node_id":"0a","port":5541,"interface":"thread"},
                {"fabric_id":"6ABEDCB982EC2223","node_id":"0A"},
                {"fabric_id":"","node_id":"1"},
                {"node_id":"2"}, 7]"#,
        )],
    );
    let other = device("b", "B", &[("matter_fabrics", r#"[{"fabric_id":"0123456789","port":65540},{"fabric_id":"zz"}]"#)]);
    let broken = device("c", "C", &[("matter_fabrics", "{}")]);
    let all = [other, broken];
    assert!(fabrics_listable(&dev, &all, &known()));
    let list = extract_device_matter_fabrics(&dev, &all, &known());
    assert_eq!(list.len(), 3);
    assert_eq!(list[0].fabric_id, "6ABEDCB982EC2223");
    assert_eq!(list[0].node_id, "0A");
    assert_eq!(list[0].port, 5541);
    assert_eq!(list[0].interface, "thread");
    assert_eq!(list[0].fabric_name, "Apple Home");
    assert_eq!(list[0].fabric_icon, "🍎");
    assert_eq!(list[1].fabric_name, "Fabric 01234567");
    assert_eq!(list[1].fabric_icon, "✨");
    assert_eq!(list[1].port, 4);
    assert_eq!(list[1].interface, "wifi");
    assert_eq!(list[1].node_id, "");
    assert_eq!(list[2].fabric_name, "Fabric ZZ");
    assert_eq!(list[2].port, 5540);
}

#[test]
fn fabrics_that_cannot_be_named_are_told() {
    let dev = device("a", "A", &[("matter_fabrics", r#"[{"fabric_id":"1234567Ü"}]"#)]);
    assert!(!fabrics_listable(&dev, &[], &known()));
    let links = TextMap::new();
    assert!(try_render_matter_page("T", &[dev.clone()], &links, &known(), "0").is_none());
    assert!(try_shared_devices(&[dev], &links, &known()).is_none());
}

#[test]
fn shared_devices_are_counted() {
    let devices = vec![
        device("a", "A", &[("matter_fabrics", r#"[{"fabric_id":"F1"},{"fabric_id":"F2"}]"#)]),
        device("b", "B", &[("matter_fabrics", r#"[{"fabric_id":"F1"}]"#)]),
        device("c", "C", &[]),
    ];
    let links = TextMap::new();
    let list = build_unified_devices(&devices, &links);
    assert_eq!(shared_devices(&list, &known()), (1, 2));
    assert_eq!(try_shared_devices(&devices, &links, &known()), Some((1, 2)));
}

#[test]
fn matter_page_lists_fabrics_and_devices() {
    let devices = vec![
        device("b", "Beta", &[("matter_fabrics", r#"[{"fabric_id":"F9","node_id":"b1"}]"#), ("ip", "10.0.0.2")]),
        device(
            "a",
            "Alpha",
            &[
                ("matter_fabrics", r#"[{"fabric_id":"6ABEDCB982EC2223","node_id":"a1","interface":"thread"}]"#),
                ("mac", "AA:01"),
                ("vendor", "V"),
                ("web_url", "http://w"),
            ],
        ),
    ];
    let page = render_matter_page("Title", &devices, &TextMap::new(), &known(), "50");
    assert!(page.contains("<title>Title"));
    assert!(page.contains(">2 Nodes / 2 Devices<"));
    assert!(page.contains(">0 Devices (50%)<"));
    assert!(page.contains("Compressed Fabric ID: <strong>6ABEDCB982EC2223</strong>"));
    assert!(page.contains("🍎 <strong>Alpha</strong> <code>Node: A1</code> (:5540 🧵)"));
    assert!(page.contains("✨ <strong>Beta</strong> <code>Node: B1</code> (:5540 📶)"));
    assert!(page.contains("Unknown Fabric"));
    assert!(page.find("Compressed Fabric ID: <strong>6ABEDCB982EC2223") < page.find("Compressed Fabric ID: <strong>F9"));
    assert!(page.contains("<code>0xA1</code>"));
    assert!(page.contains("<code>-</code><br><small style=\"color:var(--muted);\">AA:01</small>"));
    assert!(page.contains("<code>10.0.0.2</code>"));
    assert!(page.contains("<a href=\"http://w\" target=\"_blank\" class=\"btn-sm btn-web\""));
    assert!(page.contains("🧵 Thread"));
    assert_eq!(try_render_matter_page("Title", &devices, &TextMap::new(), &known(), "50"), Some(page));
}

// The light daemon

#[test]
fn settings_are_read() {
    assert_eq!(read_u32(None, DEFAULT_SETUP_PIN), 20202021);
    assert_eq!(read_u32(Some("+7"), 1), 7);
    assert_eq!(read_u32(Some("4294967295"), 1), u32::MAX);
    assert_eq!(read_u32(Some("4294967296"), 1), 1);
    assert_eq!(read_u32(Some(" 7"), 1), 1);
    assert_eq!(read_u32(Some(""), 1), 1);
    assert_eq!(read_u32(Some("+"), 1), 1);
    assert_eq!(read_u32(Some("-7"), 1), 1);
    assert_eq!(read_u16(None, DEFAULT_DISCRIMINATOR), 3840);
    assert_eq!(read_u16(Some("65535"), 1), 65535);
    assert_eq!(read_u16(Some("65536"), 1), 1);
    assert_eq!(read_u64(None, DEFAULT_HEARTBEAT_SECS), 60);
    assert_eq!(read_u64(Some("18446744073709551615"), 1), u64::MAX);
    assert_eq!(read_u64(Some("18446744073709551616"), 1), 1);
    assert_eq!(state_dir(None), "/var/lib/rs-matterd");
    assert_eq!(state_dir(Some("/x".to_string())), "/x");
}

#[test]
fn settings_are_read_as_numbers_are() {
    for s in ["0", "007", "+0", "++1", "1a", "٣", "12 ", "65536", "-0", "1_000"] {
        assert_eq!(read_u16(Some(s), 9), s.parse::<u16>().unwrap_or(9), "{s}");
        assert_eq!(read_u32(Some(s), 9), s.parse::<u32>().unwrap_or(9), "{s}");
        assert_eq!(read_u64(Some(s), 9), s.parse::<u64>().unwrap_or(9), "{s}");
    }
}

#[test]
fn the_pin_is_given_as_bytes() {
    for pin in [0u32, 1, 256, 20202021, u32::MAX] {
        let data = build_commissioning_data(pin, 3840);
        assert_eq!(data.password, pin.to_le_bytes());
        assert_eq!(data.discriminator, 3840);
    }
}

#[test]
fn the_start_is_logged() {
    let lines = log_startup("/s", "/s/state.psm", 11, 22, false);
    assert_eq!(
        lines,
        vec![
            "starting rs-matterd",
            "state directory: /s",
            "state file: /s/state.psm",
            "device: vendor='HomeNode' product='rs-matterd' node='HomeNodeServer'",
            "commissioned: false",
            "setup pin: 11",
            "discriminator: 22",
        ]
    );
    let lines = log_startup("/s", "/s/state.psm", 11, 22, true);
    assert_eq!(lines.len(), 5);
    assert_eq!(lines[4], "commissioned: true");
    assert_eq!(
        log_heartbeat_startup("/s", 5540, 60),
        vec![
            "starting rs-matterd skeleton",
            "state directory: /s",
            "default Matter port reserved for future integration: 5540",
            "heartbeat interval: 60s",
        ]
    );
}

#[test]
fn states_are_bytes() {
    assert_eq!(OnOffPersistentState::encode(false, Some(StartUpOnOff::Off)), 0);
    assert_eq!(OnOffPersistentState::encode(true, Some(StartUpOnOff::Off)), 1);
    assert_eq!(OnOffPersistentState::encode(false, Some(StartUpOnOff::On)), 2);
    assert_eq!(OnOffPersistentState::encode(true, Some(StartUpOnOff::Toggle)), 5);
    assert_eq!(OnOffPersistentState::encode(false, None), 6);
    assert_eq!(OnOffPersistentState::encode(true, None), 7);
    for data in 0..8u8 {
        let state = OnOffPersistentState::decode(data).unwrap();
        assert_eq!(OnOffPersistentState::encode(state.on_off, state.start_up_on_off), data);
        assert_eq!(state.on_off, data & 1 != 0);
    }
    for data in 8..=255u8 {
        assert_eq!(OnOffPersistentState::decode(data), Err(InvalidState));
    }
}

#[test]
fn the_light_is_kept_over_a_restart() {
    let mut light = HomeNodeOnOffLogic::load(None);
    assert!(!light.on_off());
    assert_eq!(light.start_up_on_off(), None);
    let kept = light.set_on_off(true);
    assert_eq!(kept, 7);
    let kept = light.set_start_up_on_off(Some(StartUpOnOff::Toggle));
    assert_eq!(kept, 5);
    assert_eq!(light.save_state(), 5);
    let again = HomeNodeOnOffLogic::load(Some(kept));
    assert!(again.on_off());
    assert_eq!(again.start_up_on_off(), Some(StartUpOnOff::Toggle));
    let broken = HomeNodeOnOffLogic::load(Some(8));
    assert_eq!(broken.state, OnOffPersistentState::default());
}
