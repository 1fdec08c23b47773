use homenode_web::analyzer::{
    analyze_device, check_definition_filename, deduce_analyzer_category, find_analysis_target, generate_rhai_script,
    next_web_port, parse_http_banner, port_description, probe_ports, read_http_banner, sort_ports, AnalysisError,
};
use homenode_web::device::DeviceRecord;
use homenode_web::text_map::TextMap;

fn device(id: &str, name: &str, meta: &[(&str, &str)]) -> DeviceRecord {
    let mut metadata = TextMap::new();
    for (k, v) in meta {
        metadata.insert(k.to_string(), v.to_string());
    }
    DeviceRecord {
        module_id: "n".to_string(),
        device_id: id.to_string(),
        display_name: name.to_string(),
        kind: String::new(),
        capabilities: vec![],
        metadata,
    }
}

#[test]
fn suggestions_look_past_case_and_order() {
    let one = deduce_analyzer_category("Repeater", Some("VPN-Host"), None, &[80, 5000, 80], Some(""));
    let other = deduce_analyzer_category("rEPEATER", Some("vpn-host"), Some(""), &[5000, 80], None);
    assert_eq!(one, other);
    assert_eq!(one.0, "vpn");
    let tasmota = deduce_analyzer_category("x", None, None, &[8080, 22], Some("TASMOTA"));
    assert_eq!(tasmota, deduce_analyzer_category("X", Some(""), None, &[22, 8080, 22], Some("Tasmota")));
    assert_eq!(tasmota.0, "smart-plug");
    let mixed = deduce_analyzer_category("KüCHE ΟΔΟΣ vPn", Some("ΣA"), None, &[], None);
    assert_eq!(mixed, deduce_analyzer_category("küche ΟΔΟΣ VPN", Some("Σa"), None, &[], None));
    assert_eq!(mixed.0, "vpn");
}

#[test]
fn ports_are_described() {
    for (port, words) in [
        (21, "FTP File Transfer"),
        (22, "SSH Terminal Access"),
        (23, "Telnet Console"),
        (53, "DNS Server"),
        (80, "HTTP Web Interface (HMI)"),
        (81, "HTTP Alternate (Admin)"),
        (443, "HTTPS Web Interface"),
        (554, "RTSP Video Stream"),
        (1883, "MQTT Broker / Client"),
        (1900, "SSDP / UPnP Discovery"),
        (5000, "Synology DSM Web UI / UPnP"),
        (5001, "Synology DSM HTTPS"),
        (5060, "SIP VoIP Telephony"),
        (6053, "ESPHome Native API"),
        (8080, "HTTP Alt Web Interface"),
        (8081, "HTTP Alt Admin"),
        (8443, "HTTPS Alt Web Interface"),
        (8883, "Secure MQTT"),
        (9000, "Web Admin / Portainer"),
        (0, "TCP Service"),
    ] {
        assert_eq!(port_description(port), words);
    }
    for port in probe_ports() {
        assert_ne!(port_description(port), "TCP Service");
    }
    assert_eq!(probe_ports().len(), 19);
}

#[test]
fn ports_are_sorted() {
    assert_eq!(sort_ports(&[8080, 22, 80, 22]), vec![22, 22, 80, 8080]);
    assert_eq!(sort_ports(&[]), Vec::<u16>::new());
}

#[test]
fn web_ports_are_tried_in_order() {
    let open = [443, 80, 8080];
    assert_eq!(next_web_port(&open, 0), Some((0, 80)));
    assert_eq!(next_web_port(&open, 1), Some((2, 8080)));
    assert_eq!(next_web_port(&open, 3), Some((3, 443)));
    assert_eq!(next_web_port(&open, 4), None);
    assert_eq!(next_web_port(&[22], 0), None);
}

#[test]
fn categories_are_deduced() {
    let deduce = |name: &str, host: &str, vendor: &str, ports: &[u16], title: &str| {
        deduce_analyzer_category(name, Some(host), Some(vendor), ports, Some(title)).0
    };
    for (name, host, vendor, ports, title, category) in [
        ("My VPN", "", "", &[][..], "", "vpn"),
        ("", "iphonestephan", "", &[][..], "", "vpn"),
        ("", "", "EcoFlow", &[][..], "", "energy"),
        ("", "shelly-3EM", "", &[][..], "", "energy"),
        ("", "", "Philips", &[][..], "", "hub"),
        ("Netatmo", "", "", &[][..], "", "sensor"),
        ("", "", "", &[5000][..], "", "nas"),
        ("Repeater", "", "", &[][..], "", "router"),
        ("", "repeater", "AVM", &[][..], "", "router"),
        ("", "repeater", "TP", &[][..], "", "network-device"),
        ("Awtrix", "", "", &[][..], "", "display"),
        ("", "meshtastic", "", &[][..], "", "radio"),
        ("Presence", "", "", &[][..], "", "sensor"),
        ("", "", "Fronius", &[][..], "", "energy"),
        ("", "", "Miele", &[][..], "", "appliance"),
        ("", "led-1", "", &[][..], "", "lighting"),
        ("", "my-led-1", "", &[][..], "", "network-device"),
        ("", "", "Woan", &[][..], "", "hub"),
        ("", "", "", &[][..], "Tasmota", "smart-plug"),
        ("", "", "", &[80][..], "", "iot"),
        ("", "", "", &[8080][..], "", "iot"),
        ("", "", "", &[443][..], "", "network-device"),
    ] {
        assert_eq!(deduce(name, host, vendor, ports, title), category, "{name} {host} {vendor}");
    }
    assert_eq!(
        deduce_analyzer_category("Presence", None, None, &[], None),
        ("sensor".to_string(), "Sensors & Detectors", "👁️")
    );
    assert_eq!(
        deduce_analyzer_category("Netatmo", None, None, &[], None),
        ("sensor".to_string(), "Sensors & Detectors", "🌡️")
    );
}

#[test]
fn definitions_are_written() {
    let script = generate_rhai_script(
        "a_b",
        "Name",
        "Host.local",
        "Vendor",
        "nas",
        "Title",
        "I",
        &[22, 80, 8883],
        Some("Page"),
    );
    let expected = "// Rhai Device Definition for Name
// Auto-generated by HomeNode Unknown Device Analyzer

fn meta() {
    #{
        id: \"a_b\",
        name: \"Name\",
        category: \"nas\",
        category_title: \"Title\",
        category_icon: \"I\",
        capabilities: [\"network\", \"http\", \"mqtt\", \"ssh\"]
    }
}

fn identify(obs) {
    let host = obs.hostname.to_lower();
    host.contains(\"host\") ||
    let vendor = obs.vendor.to_lower();
    vendor.contains(\"vendor\") ||
    let name = obs.name.to_lower();
    name.contains(\"page\")
}
";
    assert_eq!(script, expected);
    let bare = generate_rhai_script("i", "Bare", "", "", "c", "t", "x", &[], Some(""));
    assert!(bare.contains("{\n    let name = obs.name.to_lower();\n    name.contains(\"bare\")\n}\n"));
    assert!(bare.contains("capabilities: [\"network\"]\n"));
}

#[test]
fn banners_are_read() {
    let answer = "HTTP/1.1 200 OK\r\nSERVER:  nginx \r\n\r\n<html><TITLE> My Page </Title>";
    assert_eq!(parse_http_banner(answer), (Some("nginx".to_string()), Some("My Page".to_string())));
    assert_eq!(read_http_banner("<title>open"), Some((None, None)));
    assert_eq!(read_http_banner("x-server: a\nServer: b\nserver: c"), Some((Some("b".to_string()), None)));
    assert_eq!(read_http_banner(""), Some((None, None)));
}

#[test]
fn devices_are_found_for_analysis() {
    let devices = vec![
        device("net-10-0-0-1", "A", &[]),
        device("b", "B", &[("ip", "10.0.0.2")]),
        device("c", "C", &[("ip", "none")]),
        device("d", "D", &[]),
    ];
    let (d, ip) = find_analysis_target(&devices, "net-10-0-0-1").unwrap();
    assert_eq!((d.display_name.as_str(), ip.as_str()), ("A", "10.0.0.1"));
    assert_eq!(find_analysis_target(&devices, "b").unwrap().1, "10.0.0.2");
    assert!(matches!(find_analysis_target(&devices, "c"), Err(AnalysisError::InvalidDeviceIp)));
    assert!(matches!(find_analysis_target(&devices, "d"), Err(AnalysisError::InvalidDeviceIp)));
    assert!(matches!(find_analysis_target(&devices, "e"), Err(AnalysisError::DeviceNotFound)));
}

#[test]
fn devices_are_analyzed() {
    let d = device("net-10.0.0-1", "Synology", &[("mac", "m"), ("hostname", "nas.local")]);
    let r = analyze_device("net-10.0.0-1", &d, "10.0.0.1", &[5001, 80], Some("s".to_string()), None);
    assert_eq!(r.device_id, "net-10.0.0-1");
    assert_eq!(r.ip, "10.0.0.1");
    assert_eq!(r.mac, Some("m".to_string()));
    assert_eq!(r.hostname, Some("nas.local".to_string()));
    assert_eq!(r.vendor, None);
    assert_eq!(r.open_ports, vec![80, 5001]);
    assert_eq!(r.total_ports_scanned, 19);
    assert_eq!(r.http_server, Some("s".to_string()));
    assert_eq!(r.http_title, None);
    assert_eq!(r.suggested_category, "nas");
    assert_eq!(r.suggested_title, "Network Storage & NAS");
    assert_eq!(r.suggested_icon, "🗄️");
    assert_eq!(r.suggested_filename, "10_0_0_1.rhai");
    assert!(r.suggested_rhai_script.contains("id: \"10_0_0_1\""));
    assert!(r.suggested_rhai_script.contains("host.contains(\"nas\")"));
}

#[test]
fn file_names_of_definitions() {
    assert_eq!(check_definition_filename("../a b-c_1.rhai"), Some("..ab-c_1.rhai".to_string()));
    assert_eq!(check_definition_filename("größe.rhai"), Some("größe.rhai".to_string()));
    assert_eq!(check_definition_filename("a.txt"), None);
    assert_eq!(check_definition_filename("///"), None);
    assert_eq!(check_definition_filename("a\\b/c.rhai"), Some("abc.rhai".to_string()));
    assert_eq!(check_definition_filename("a.rh/ai"), Some("a.rhai".to_string()));
}
