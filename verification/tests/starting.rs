use homenode_web::device::DeviceRecord;
use homenode_web::ping::{
    describe_error, find_address, ping_message, resolve_address, round_trip_text, PingError, PingRun, Probe,
};
use homenode_web::startup::{
    complete_config, config_of_blank, default_listen_addr, default_status_title, group_to_seed, ignore_details,
    light_addresses_to_scan, listen_port_of, local_address, ready_message_of, tries_again, IgnoreDeviceRequest,
    WebConfig,
};
use homenode_web::text_map::TextMap;

fn device(id: &str, meta: &[(&str, &str)]) -> DeviceRecord {
    let mut metadata = TextMap::new();
    for (k, v) in meta {
        metadata.insert(k.to_string(), v.to_string());
    }
    DeviceRecord {
        module_id: "n".to_string(),
        device_id: id.to_string(),
        display_name: id.to_string(),
        kind: String::new(),
        capabilities: vec![],
        metadata,
    }
}

#[test]
fn defaults() {
    assert_eq!(default_listen_addr(), "0.0.0.0:8080");
    assert_eq!(default_status_title(), "HomeNode Server");
    let config = WebConfig::default();
    assert_eq!((config.listen_addr.as_str(), config.status_title.as_str()), ("0.0.0.0:8080", "HomeNode Server"));
}

#[test]
fn blank_configuration_is_the_default() {
    assert_eq!(config_of_blank(" \n\t").unwrap().listen_addr, "0.0.0.0:8080");
    assert!(config_of_blank("listen_addr = \"x\"").is_none());
    let config = complete_config(Some("[::]:80".to_string()), None);
    assert_eq!((config.listen_addr.as_str(), config.status_title.as_str()), ("[::]:80", "HomeNode Server"));
    assert_eq!(complete_config(None, Some("T".to_string())).status_title, "T");
}

#[test]
fn ports_of_addresses() {
    assert_eq!(listen_port_of("0.0.0.0:9000"), "9000");
    assert_eq!(listen_port_of("localhost"), "8080");
    assert_eq!(listen_port_of("a:b:c"), "b");
    assert_eq!(listen_port_of("a:"), "");
    assert_eq!(
        ready_message_of("0.0.0.0:9000", "10.0.0.2"),
        "Serving status page on 0.0.0.0:9000 (http://10.0.0.2:9000)"
    );
    assert_eq!(local_address(Some("a".to_string()), Some("b".to_string())), "a");
    assert_eq!(local_address(None, Some("b".to_string())), "b");
    assert_eq!(local_address(None, None), "127.0.0.1");
}

#[test]
fn the_supervisor_is_tried_thirty_times() {
    let mut failed = 0;
    while tries_again(failed) {
        failed += 1;
    }
    assert_eq!(failed, 30);
}

#[test]
fn the_first_light_group() {
    let group = group_to_seed(0).unwrap();
    assert_eq!(group.id, "group-wohnzimmer-vorhaenge");
    assert_eq!(group.name, "Wohnzimmer Vorhänge");
    assert_eq!(group.room, "Wohnzimmer");
    assert_eq!(group.device_ids, vec!["net-192-168-178-42", "net-192-168-178-43"]);
    assert_eq!(group.icon, Some("✨".to_string()));
    assert!(group_to_seed(1).is_none());
    assert_eq!(
        light_addresses_to_scan(),
        vec!["192.168.178.40", "192.168.178.41", "192.168.178.42", "192.168.178.43"]
    );
}

#[test]
fn ignoring_a_device() {
    let request = IgnoreDeviceRequest { name: Some("n".to_string()), reason: None };
    assert_eq!(ignore_details(Some(request)), (Some("n".to_string()), None));
    assert_eq!(ignore_details(None), (None, None));
}

#[test]
fn the_reported_address_is_asked() {
    let devices = vec![device("a", &[("mac", "m"), ("ip", "10.0.0.1")]), device("m", &[("ip", "10.0.0.2")])];
    assert_eq!(find_address(&devices, "a", None).unwrap(), "10.0.0.1");
    assert_eq!(find_address(&devices, "m", None).unwrap(), "10.0.0.1");
}

#[test]
fn the_remembered_address_is_asked_next() {
    let history = "{\"records\":{\"net-10-0-0-9\":{\"ip\":\"10.0.0.3\"}}}";
    let devices = vec![device("net-10-0-0-9", &[])];
    assert_eq!(find_address(&devices, "net-10-0-0-9", Some(history)).unwrap(), "10.0.0.3");
    assert_eq!(find_address(&devices, "net-10-0-0-9", Some("{}")).unwrap(), "10.0.0.9");
    assert_eq!(resolve_address(&[], "net-10-0-0-9", Some("10.0.0.4".to_string())).unwrap(), "10.0.0.4");
}

#[test]
fn devices_without_an_address_cannot_be_asked() {
    let error = find_address(&[], "hue-1", None).unwrap_err();
    assert!(matches!(error, PingError::IpNotFound));
    assert_eq!(
        describe_error(&error),
        ("device_ip_not_found", "Device IP address could not be determined".to_string())
    );
    assert!(matches!(find_address(&[], "net-10-0-0", None), Err(PingError::IpNotFound)));
    let devices = vec![device("a", &[("ip", "10.0.0.256")])];
    let error = find_address(&devices, "a", None).unwrap_err();
    assert_eq!(describe_error(&error), ("invalid_ip", "Invalid IP address '10.0.0.256'".to_string()));
}

#[test]
fn round_trips_are_read() {
    assert_eq!(
        round_trip_text("64 bytes from 10.0.0.1: icmp_seq=0 ttl=64 time=3.217 ms\n"),
        Some("3.217".to_string())
    );
    assert_eq!(round_trip_text("ü time= 1  ms"), Some("1".to_string()));
    assert_eq!(round_trip_text("time=1"), None);
    assert_eq!(round_trip_text("1 ms"), None);
}

#[test]
fn all_ways_are_tried_where_none_is_answered() {
    let mut run = PingRun::start();
    let mut tried = vec![];
    while let Some(probe) = run.next_probe() {
        tried.push(probe);
        run.note(false);
    }
    assert_eq!(
        tried,
        vec![
            Probe::Echo,
            Probe::Tcp(80),
            Probe::Tcp(443),
            Probe::Tcp(8080),
            Probe::Tcp(22),
            Probe::Tcp(62078),
            Probe::Tcp(5000),
            Probe::Tcp(5353),
        ]
    );
    assert!(!run.reachable());
    assert_eq!(run.method(), "");
    run.note(true);
    assert!(!run.reachable());
}

#[test]
fn the_first_answer_ends_the_asking() {
    let mut run = PingRun::start();
    run.note(true);
    assert_eq!(run.next_probe(), None);
    assert!(run.reachable());
    assert_eq!(run.method(), "icmp");
    let mut run = PingRun::start();
    run.note(false);
    run.note(false);
    run.note(true);
    run.note(false);
    assert_eq!(run.next_probe(), None);
    assert!(run.reachable());
    assert_eq!(run.method(), "tcp:443");
}

#[test]
fn answers_are_told() {
    assert_eq!(ping_message(true, Some("3.2"), "icmp"), "Online (reply in 3.2 ms via icmp)");
    assert_eq!(ping_message(true, None, "icmp"), "Online (responded via icmp)");
    assert_eq!(
        ping_message(false, Some("3.2"), "icmp"),
        "Device did not respond to ping or TCP probes (100% packet loss)"
    );
}
