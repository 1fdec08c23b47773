use homenode_web::device::DeviceRecord;
use homenode_web::energy::energy_sources;
use homenode_web::health::health_counts;
use homenode_web::lights::{
    bridge_brightness_of, find_device, hue_body_of, light_commands, light_group_icon, light_group_id, mired_of,
    scene_steps, scene_targets, toggled, LightCommand, LightSetting,
};
use homenode_web::records::{DeviceDocumentation, VerifiedShellyGateway};
use homenode_web::text_map::TextMap;

fn device(module: &str, id: &str, name: &str, kind: &str, meta: &[(&str, &str)]) -> DeviceRecord {
    let mut metadata = TextMap::new();
    for (k, v) in meta {
        metadata.insert(k.to_string(), v.to_string());
    }
    DeviceRecord {
        module_id: module.to_string(),
        device_id: id.to_string(),
        display_name: name.to_string(),
        kind: kind.to_string(),
        capabilities: vec![],
        metadata,
    }
}

fn show(command: &LightCommand) -> String {
    match command {
        LightCommand::Govee { ip, setting } => format!("govee {ip} {setting:?}"),
        LightCommand::Hue { path, body } => format!("hue {path} {body}"),
    }
}

#[test]
fn brightness_is_that_of_the_rounded_fraction() {
    for percent in 0..=255u8 {
        let expected = ((percent as f32 / 100.0) * 254.0).round() as u8;
        assert_eq!(bridge_brightness_of(percent), expected, "{percent}");
    }
}

#[test]
fn temperatures_become_mired() {
    for kelvin in [0u32, 1999, 2000, 2200, 2700, 4000, 6499, 6500, 6501, u32::MAX] {
        let expected = (1_000_000 / kelvin.max(2000).min(6500)).clamp(153, 500);
        assert_eq!(mired_of(kelvin), expected);
    }
    assert_eq!(mired_of(2700), 370);
    assert_eq!(mired_of(6500), 153);
}

#[test]
fn bodies_for_the_bridge() {
    assert_eq!(hue_body_of(LightSetting::Power(false)), "{\"on\":false}");
    assert_eq!(hue_body_of(LightSetting::Power(true)), "{\"on\":true}");
    assert_eq!(hue_body_of(LightSetting::Brightness(40)), "{\"on\":true,\"bri\":102}");
    assert_eq!(hue_body_of(LightSetting::Color(1, 2, 3)), "{\"on\":true}");
    assert_eq!(hue_body_of(LightSetting::Temperature(4000)), "{\"on\":true,\"ct\":250}");
}

#[test]
fn commands_go_to_govee_and_hue() {
    let devices = vec![
        device("philips-hue", "hue-light-7", "Hue", "lighting", &[("ip", "10.0.0.5 (Bridge)")]),
        device("x", "hue-light-8", "Hue", "lighting", &[("source", "philips-hue"), ("hue_light_id", "88")]),
        device("y", "strip", "Strip", "lighting", &[("ip", "10.0.0.6")]),
        device("y", "dash", "Dash", "lighting", &[("ip", "-")]),
    ];
    let ids: Vec<String> =
        ["hue-light-7", "hue-light-8", "strip", "dash", "net-10-0-0-7", "gone"].iter().map(|s| s.to_string()).collect();
    let commands: Vec<String> =
        light_commands(&devices, &ids, LightSetting::Power(true)).iter().map(show).collect();
    assert_eq!(
        commands,
        vec![
            "hue /api/lights/7/state {\"on\":true}",
            "hue /api/lights/88/state {\"on\":true}",
            "govee 10.0.0.6 Power(true)",
            "govee 10.0.0.7 Power(true)",
        ]
    );
}

#[test]
fn commands_come_in_the_order_of_the_ids() {
    let ids: Vec<String> = ["net-10-0-0-2", "net-net-10-0-0-1"].iter().map(|s| s.to_string()).collect();
    let commands: Vec<String> = light_commands(&[], &ids, LightSetting::Brightness(5)).iter().map(show).collect();
    assert_eq!(commands, vec!["govee 10.0.0.2 Brightness(5)", "govee 10.0.0.1 Brightness(5)"]);
}

#[test]
fn switching_over() {
    assert!(!toggled(Some(true)));
    assert!(toggled(Some(false)));
    assert!(toggled(None));
}

#[test]
fn the_first_device_with_an_id_is_found() {
    let devices = vec![device("a", "d", "one", "", &[]), device("a", "d", "two", "", &[])];
    assert_eq!(find_device(&devices, "d").map(|d| d.display_name.as_str()), Some("one"));
    assert!(find_device(&devices, "e").is_none());
}

#[test]
fn scenes() {
    assert_eq!(scene_steps("all_off"), vec![LightSetting::Power(false)]);
    let steps = |b: u8, last: LightSetting| vec![LightSetting::Power(true), LightSetting::Brightness(b), last];
    assert_eq!(scene_steps("all_on"), steps(100, LightSetting::Temperature(4000)));
    assert_eq!(scene_steps("relax"), steps(40, LightSetting::Temperature(2700)));
    assert_eq!(scene_steps("focus"), steps(100, LightSetting::Temperature(6500)));
    assert_eq!(scene_steps("evening"), steps(25, LightSetting::Temperature(2400)));
    assert_eq!(scene_steps("night"), steps(10, LightSetting::Temperature(2200)));
    assert_eq!(scene_steps("cinema"), steps(20, LightSetting::Color(0, 100, 255)));
    assert_eq!(scene_steps("disco"), vec![]);
}

#[test]
fn scenes_reach_the_lights_of_a_room() {
    let mut store = TextMap::new();
    let in_room = |room: &str| DeviceDocumentation { room: Some(room.to_string()), ..DeviceDocumentation::default() };
    store.insert("m1".to_string(), in_room(" wohnzimmer"));
    store.insert("m4".to_string(), in_room("Bad"));
    let devices = vec![
        device("a", "one", "Lamp", "lighting", &[("mac", "M1"), ("category", "x")]),
        device("a", "two", "Govee strip", "iot", &[("room", "Wohnzimmer ")]),
        device("philips-hue", "three", "Hue", "iot", &[("room", "Wohnzimmer"), ("hue_light_id", "3")]),
        device("a", "four", "Lamp", "lighting", &[("mac", "m4"), ("room", "Wohnzimmer")]),
        device("a", "five", "Govee button", "button", &[("room", "Wohnzimmer")]),
        device("a", "hue-sensor-6", "Lamp", "lighting", &[("room", "Wohnzimmer")]),
        device("a", "seven", "Plug", "iot", &[("room", "Wohnzimmer"), ("hostname", "GOVEE-1")]),
        device("a", "eight", "Plug", "iot", &[("room", "Wohnzimmer")]),
    ];
    assert_eq!(scene_targets(&store, &devices, "WOHNZIMMER"), vec!["one", "two", "three", "seven"]);
    assert_eq!(scene_targets(&store, &devices, "Bad"), vec!["four"]);
}

#[test]
fn groups_of_lights() {
    assert_eq!(light_group_id("flur-oben"), "group-flur-oben");
    assert_eq!(light_group_icon(&None), "✨");
    assert_eq!(light_group_icon(&Some("🔥".to_string())), "🔥");
}

#[test]
fn energy_sources_are_found() {
    let devices = vec![
        device("n", "a", "Fronius Symo", "", &[("ip", "10.0.0.1")]),
        device("n", "b", "Shelly Pro 3EM", "", &[("ip", "10.0.0.2")]),
        device("n", "c", "EcoFlow Delta", "", &[("ip", "10.0.0.3"), ("hostname", "eco")]),
        device("n", "d", "Roof", "", &[("hostname", "fronius-2")]),
    ];
    let sources = energy_sources(&devices);
    assert_eq!(sources.fronius_host, "10.0.0.1");
    assert_eq!(sources.shelly_host, "10.0.0.2");
    assert_eq!(sources.batteries.len(), 1);
    let b = &sources.batteries[0];
    assert_eq!(
        (b.name.as_str(), b.hostname.as_str(), b.ip.as_str(), b.status.as_str()),
        ("EcoFlow Delta", "eco", "10.0.0.3", "Connected to LAN")
    );
}

#[test]
fn energy_sources_have_defaults() {
    let sources = energy_sources(&[]);
    assert_eq!(sources.fronius_host, "fronius.fritz.box");
    assert_eq!(sources.shelly_host, "shellypro3em.fritz.box");
    let ips: Vec<&str> = sources.batteries.iter().map(|b| b.ip.as_str()).collect();
    assert_eq!(ips, vec!["192.168.178.96", "192.168.178.105"]);
    assert_eq!(sources.batteries[1].name, "EcoFlow PowerStream (Balcony 2)");
}

#[test]
fn health_is_counted() {
    let gateway = |ble: bool| VerifiedShellyGateway {
        ip: String::new(),
        id: String::new(),
        mac: String::new(),
        model: String::new(),
        gen: 2,
        name: String::new(),
        ble_supported: ble,
        ble_enabled: false,
        ws_connected: false,
        last_seen: String::new(),
    };
    let devices = vec![
        device("n", "a", "A", "", &[]),
        device("n", "b", "B", "", &[("status", "inactive"), ("sources", "arp,matter")]),
        device("n", "c", "C", "", &[("status", "active"), ("source", "matter")]),
        device("n", "d", "D", "", &[("matter_endpoint", "1")]),
    ];
    let counts = health_counts(&devices, &[gateway(true), gateway(false), gateway(true)]);
    assert_eq!(counts.active_devices, 3);
    assert_eq!(counts.active_matter_nodes, 3);
    assert_eq!(counts.active_ble_gateways, 2);
}
