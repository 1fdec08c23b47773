use homenode_web::autolink::{
    auto_link_deterministic_devices, extract_shelly_mac_hex, linkable, name_cuts_of, try_auto_link,
};
use homenode_web::correlate::{detect_merge_candidate, searchable};
use homenode_web::device::{plain_mac_of, DeviceRecord};
use homenode_web::links::{is_linked, link_devices, unlink_devices};
use homenode_web::text_map::TextMap;
use homenode_web::unify::{
    build_unified_devices, find_by_id, ip_key_of, try_build_unified_devices, unifiable,
};

fn device(module: &str, id: &str, name: &str, meta: &[(&str, &str)]) -> DeviceRecord {
    let mut metadata = TextMap::new();
    for (k, v) in meta {
        metadata.insert(k.to_string(), v.to_string());
    }
    DeviceRecord {
        module_id: module.to_string(),
        device_id: id.to_string(),
        display_name: name.to_string(),
        kind: "network-device".to_string(),
        capabilities: vec![],
        metadata,
    }
}

fn net(id: &str, name: &str, meta: &[(&str, &str)]) -> DeviceRecord {
    device("network-discovery", id, name, meta)
}

fn links(pairs: &[(&str, &[&str])]) -> TextMap<Vec<String>> {
    let mut all = TextMap::new();
    for (k, list) in pairs {
        all.insert(k.to_string(), list.iter().map(|s| s.to_string()).collect());
    }
    all
}

fn list_of(all: &TextMap<Vec<String>>, id: &str) -> Vec<String> {
    match all.get(id) {
        Some(list) => list.to_vec(),
        None => vec![],
    }
}

fn candidate(one: &DeviceRecord, other: &DeviceRecord) -> Option<String> {
    let all = vec![one.clone(), other.clone()];
    let none = links(&[]);
    assert!(searchable(one, &all, &none));
    detect_merge_candidate(one, &all, &none).map(|d| d.device_id)
}

// Links that are asked for

#[test]
fn linking_puts_the_second_under_the_first() {
    let mut all = links(&[]);
    link_devices(&mut all, "net-1", "net-2");
    assert_eq!(list_of(&all, "net-1"), vec!["net-2"]);
    assert!(is_linked(&all, "net-2"));
    assert!(!is_linked(&all, "net-1"));
}

#[test]
fn linking_puts_a_ble_interface_under_the_network_device() {
    for ble in ["mobile-ble-1", "bthome-1"] {
        let mut one = links(&[]);
        link_devices(&mut one, ble, "net-1");
        let mut other = links(&[]);
        link_devices(&mut other, "net-1", ble);
        assert_eq!(list_of(&one, "net-1"), vec![ble]);
        assert_eq!(list_of(&other, "net-1"), vec![ble]);
        assert!(!one.contains_key(ble));
    }
}

#[test]
fn linking_two_ble_interfaces_keeps_their_order() {
    let mut all = links(&[]);
    link_devices(&mut all, "mobile-ble-1", "bthome-1");
    assert_eq!(list_of(&all, "mobile-ble-1"), vec!["bthome-1"]);
}

#[test]
fn linking_a_second_time_changes_nothing() {
    let mut all = links(&[("net-1", &["net-3"])]);
    link_devices(&mut all, "net-1", "net-2");
    link_devices(&mut all, "net-1", "net-2");
    assert_eq!(list_of(&all, "net-1"), vec!["net-3", "net-2"]);
}

#[test]
fn unlinking_parts_in_both_directions() {
    let mut all = links(&[("a", &["b", "c", "b"]), ("b", &["a", "d"]), ("c", &["b"])]);
    unlink_devices(&mut all, "a", "b");
    assert_eq!(list_of(&all, "a"), vec!["c"]);
    assert_eq!(list_of(&all, "b"), vec!["d"]);
    assert_eq!(list_of(&all, "c"), vec!["b"]);
}

#[test]
fn linking_and_parting_keeps_the_other_links_in_order() {
    let mut all = links(&[("net-1", &["a", "net-2", "b"]), ("net-2", &["c", "net-1"]), ("net-3", &["net-2"])]);
    link_devices(&mut all, "net-1", "net-2");
    unlink_devices(&mut all, "net-1", "net-2");
    assert_eq!(list_of(&all, "net-1"), vec!["a", "b"]);
    assert_eq!(list_of(&all, "net-2"), vec!["c"]);
    assert_eq!(list_of(&all, "net-3"), vec!["net-2"]);
}

#[test]
fn unlinking_what_is_not_linked_changes_nothing() {
    let mut all = links(&[("c", &["d"])]);
    unlink_devices(&mut all, "a", "b");
    assert_eq!(all.len(), 1);
    assert_eq!(list_of(&all, "c"), vec!["d"]);
}

// Addresses in names

#[test]
fn shelly_names_end_with_an_address() {
    assert_eq!(extract_shelly_mac_hex("ShellyPro3EM-a0dd6c9e1f24"), Some("A0DD6C9E1F24".to_string()));
    assert_eq!(extract_shelly_mac_hex("shelly_A0DD6C9E1F24 "), Some("A0DD6C9E1F24".to_string()));
    assert_eq!(extract_shelly_mac_hex("Shellya0dd6c9e1f24"), Some("A0DD6C9E1F24".to_string()));
    assert_eq!(extract_shelly_mac_hex("SHELLY plus abcdefabcdef"), Some("ABCDEFABCDEF".to_string()));
}

#[test]
fn case_and_space_change_no_address() {
    for name in ["ShellyPlus1-a0Dd6c9E1f24", "Küche Shelly-a0dD6c9e1F24", "Shelly-x0dd6c9e1f24", "Meter-a0dd6c9e1f24", "shelly"] {
        let address = extract_shelly_mac_hex(name);
        assert_eq!(extract_shelly_mac_hex(&name.to_ascii_uppercase()), address);
        assert_eq!(extract_shelly_mac_hex(&name.to_ascii_lowercase()), address);
        assert_eq!(extract_shelly_mac_hex(&format!("  {name}\n")), address);
        assert_eq!(extract_shelly_mac_hex(&format!("\u{2003}{name}\u{3000}")), address);
    }
}

#[test]
fn other_names_hold_no_address() {
    assert_eq!(extract_shelly_mac_hex("Sonoff-a0dd6c9e1f24"), None);
    assert_eq!(extract_shelly_mac_hex("shelly-a0dd6c9e1f2"), None);
    assert_eq!(extract_shelly_mac_hex("shelly-x0dd6c9e1f24"), None);
    assert_eq!(extract_shelly_mac_hex("shelly"), None);
    assert_eq!(extract_shelly_mac_hex(""), None);
}

#[test]
fn a_name_that_cannot_be_cut_is_told() {
    assert!(name_cuts_of("Shelly im Büro oben"));
    assert!(!name_cuts_of("Shelly ü1234567890a"));
    assert!(name_cuts_of("Lampe ü1234567890a"));
}

#[test]
fn plain_addresses_are_large_and_bare() {
    assert_eq!(plain_mac_of("a0:dd:6c-9e:1f:24"), "A0DD6C9E1F24");
}

// Links that follow from names

#[test]
fn ble_interface_is_linked_by_the_reported_address() {
    let devices = vec![
        net("net-1", "Meter", &[("mac", "a0:dd:6c:9e:1f:24")]),
        device("bthome", "ble-1", "ShellyPro3EM-A0DD6C9E1F24", &[]),
    ];
    let mut all = links(&[]);
    assert!(linkable(&devices, &all));
    assert!(auto_link_deterministic_devices(&devices, &mut all));
    assert_eq!(list_of(&all, "net-1"), vec!["ble-1"]);
    assert!(!auto_link_deterministic_devices(&devices, &mut all));
    assert_eq!(list_of(&all, "net-1"), vec!["ble-1"]);
}

#[test]
fn ble_interface_is_linked_by_the_first_ten_digits() {
    let devices = vec![
        net("net-1", "Meter", &[("mac", "A0DD6C9E1F24")]),
        device("x", "mobile-ble-1", "Shelly A0DD6C9E1FFF", &[]),
    ];
    let mut all = links(&[]);
    assert_eq!(try_auto_link(&devices, &mut all), Some(true));
    assert_eq!(list_of(&all, "net-1"), vec!["mobile-ble-1"]);
}

#[test]
fn ble_interface_is_linked_by_the_host_name() {
    let devices = vec![
        net("net-1", "Meter", &[("hostname", "shellyplus2pm-a0dd6c9e1f24")]),
        device("x", "ble-1", "Shelly-A0DD6C9E1F24", &[("protocol", "ble")]),
    ];
    let mut all = links(&[]);
    assert_eq!(try_auto_link(&devices, &mut all), Some(true));
    assert_eq!(list_of(&all, "net-1"), vec!["ble-1"]);
}

#[test]
fn ble_interface_is_linked_by_the_model_of_an_active_device() {
    let devices = vec![
        net("net-1", "shellypro4pm old", &[]),
        net("net-2", "shellypro4pm", &[("is_active", "true")]),
        net("net-3", "shellypro4pm spare", &[]),
        device("bthome", "ble-1", "ShellyPro4PM-000000000001", &[]),
    ];
    let mut all = links(&[]);
    assert_eq!(try_auto_link(&devices, &mut all), Some(true));
    assert_eq!(list_of(&all, "net-2"), vec!["ble-1"]);
    assert_eq!(all.len(), 1);
}

#[test]
fn a_linked_interface_stays_where_it_is() {
    let devices = vec![
        net("net-1", "Meter", &[("mac", "A0DD6C9E1F24")]),
        device("bthome", "ble-1", "Shelly-A0DD6C9E1F24", &[]),
    ];
    let mut all = links(&[("net-9", &["ble-1"])]);
    assert_eq!(try_auto_link(&devices, &mut all), Some(false));
    assert!(!all.contains_key("net-1"));
    assert_eq!(list_of(&all, "net-9"), vec!["ble-1"]);
}

#[test]
fn interfaces_without_a_match_are_not_linked() {
    let devices = vec![
        net("net-1", "Meter", &[("mac", "A0DD6C9E1F24")]),
        device("bthome", "ble-1", "Shelly-B0DD6C9E1F24", &[]),
        device("bthome", "ble-2", "Thermometer", &[]),
    ];
    let mut all = links(&[]);
    assert_eq!(try_auto_link(&devices, &mut all), Some(false));
    assert_eq!(all.len(), 0);
}

#[test]
fn devices_that_cannot_be_linked_leave_the_links_alone() {
    let devices = vec![device("bthome", "ble-1", "Shelly ü1234567890a", &[])];
    let mut all = links(&[("net-1", &["net-2"])]);
    assert_eq!(try_auto_link(&devices, &mut all), None);
    assert_eq!(list_of(&all, "net-1"), vec!["net-2"]);
}

// Look-alikes

#[test]
fn look_alike_by_shelly_address() {
    let one = net("a", "Shelly-A0DD6C9E1F24", &[]);
    let other = net("b", "Meter", &[("mac", "a0-dd-6c-9e-1f-24")]);
    assert_eq!(candidate(&one, &other), Some("b".to_string()));
    assert_eq!(candidate(&other, &one), Some("a".to_string()));
}

#[test]
fn look_alike_by_macbook_and_chip() {
    let one = net("a", "MacBookProM2", &[]);
    let other = net("b", "mbp-m2-9", &[]);
    let third = net("c", "mbp-m3", &[]);
    assert_eq!(candidate(&one, &other), Some("b".to_string()));
    assert_eq!(candidate(&one, &third), None);
    let plain = net("d", "MacBook", &[]);
    let short = net("e", "work", &[("hostname", "MBP-office")]);
    assert_eq!(candidate(&plain, &short), Some("e".to_string()));
}

#[test]
fn look_alike_by_ipad() {
    let one = net("a", "iPad Pro M5", &[]);
    let other = net("b", "iPadM5", &[]);
    assert_eq!(candidate(&one, &other), Some("b".to_string()));
    let plain = net("c", "iPad Anna", &[]);
    let dashed = net("d", "ipad-anna.fritzbox", &[]);
    assert_eq!(candidate(&plain, &dashed), Some("d".to_string()));
}

#[test]
fn look_alike_by_suffix() {
    let one = net("a", "printer", &[]);
    let other = net("b", "printer-2.fritz.box", &[]);
    assert_eq!(candidate(&one, &other), Some("b".to_string()));
    let generic = net("c", "host", &[]);
    let second = net("d", "host-2", &[]);
    assert_eq!(candidate(&generic, &second), None);
}

#[test]
fn look_alike_by_wireless_suffix() {
    let one = net("a", "nas1", &[]);
    let other = net("b", "nas1-wlan", &[]);
    assert_eq!(candidate(&one, &other), Some("b".to_string()));
    assert_eq!(candidate(&other, &one), Some("a".to_string()));
    let second = net("c", "NAS1-2.local", &[]);
    assert_eq!(candidate(&second, &other), Some("b".to_string()));
    let generic = net("d", "host", &[]);
    let wireless = net("e", "host-wlan", &[]);
    assert_eq!(candidate(&generic, &wireless), None);
    let longer = net("f", "nas12", &[]);
    assert_eq!(candidate(&longer, &other), None);
    let pc = net("g", "pc-wlan", &[]);
    let second_pc = net("h", "pc-wlan-2", &[]);
    assert_eq!(candidate(&pc, &second_pc), Some("h".to_string()));
    assert_eq!(candidate(&second_pc, &pc), Some("g".to_string()));
    let camera = net("i", "x-cam", &[]);
    let wireless_camera = net("j", "x-wlan-cam", &[]);
    assert_eq!(candidate(&camera, &wireless_camera), None);
    let box_name = net("k", "nas1.fritz.box", &[]);
    let wireless_box = net("l", "nas1-wlan.fritz.box", &[]);
    assert_eq!(candidate(&box_name, &wireless_box), Some("l".to_string()));
}

#[test]
fn look_alike_by_name_over_bluetooth() {
    let one = net("a", "Desk Lamp", &[("ip", "10.0.0.1")]);
    let ble = device("bthome", "b", "desk-lamp", &[]);
    assert_eq!(candidate(&one, &ble), Some("b".to_string()));
    let short = net("c", "TV 1", &[("ip", "10.0.0.2")]);
    let short_ble = device("bthome", "d", "tv1", &[]);
    assert_eq!(candidate(&short, &short_ble), None);
}

#[test]
fn later_devices_change_no_proposal() {
    let one = net("a", "nas1", &[]);
    let mut all = vec![one.clone(), net("b", "nas1-2", &[])];
    let none = links(&[]);
    assert_eq!(detect_merge_candidate(&one, &all, &none).map(|d| d.device_id), Some("b".to_string()));
    all.push(net("c", "nas1-wlan", &[]));
    assert_eq!(detect_merge_candidate(&one, &all, &none).map(|d| d.device_id), Some("b".to_string()));
}

#[test]
fn records_of_one_address_are_no_look_alikes() {
    let one = net("a", "Desk Lamp", &[("ip", "10.0.0.1")]);
    let other = net("b", "desk-lamp", &[("ip", "10.0.0.1")]);
    assert_eq!(candidate(&one, &other), None);
}

#[test]
fn linked_devices_are_not_proposed() {
    let one = net("a", "printer", &[]);
    let other = net("b", "printer-2", &[]);
    let all = vec![one.clone(), other.clone()];
    let under_third = links(&[("c", &["b"])]);
    assert!(detect_merge_candidate(&one, &all, &under_third).is_none());
    let one_is_under = links(&[("c", &["a"])]);
    assert!(detect_merge_candidate(&one, &all, &one_is_under).is_none());
    let by_mac = net("b", "printer-2", &[("mac", "m")]);
    let all = vec![one.clone(), by_mac];
    let mac_linked = links(&[("a", &["m"])]);
    assert!(detect_merge_candidate(&one, &all, &mac_linked).is_none());
}

// Entries

#[test]
fn linked_interfaces_are_shown_under_their_device() {
    let devices = vec![
        net("net-1", "Server", &[("mac", "m1"), ("ip", "10.0.0.1")]),
        net("net-2", "Server WLAN", &[("mac", "m2"), ("ip", "10.0.0.2")]),
        device("bthome", "ble-1", "Beacon", &[]),
    ];
    let all = links(&[("net-1", &["m2", "ble-1", "gone"])]);
    assert!(unifiable(&devices, &all));
    let list = build_unified_devices(&devices, &all);
    assert_eq!(list.len(), 1);
    assert_eq!(list[0].primary.device_id, "net-1");
    let shown: Vec<&str> = list[0].secondary_interfaces.iter().map(|d| d.device_id.as_str()).collect();
    assert_eq!(shown, vec!["net-2", "ble-1"]);
}

#[test]
fn links_may_be_kept_under_the_mac_or_the_address() {
    let devices = vec![
        net("net-1", "Server", &[("mac", "m1"), ("ip", "10.0.0.1")]),
        net("net-2", "Other", &[("ip", "10.0.0.2")]),
        device("bthome", "ble-1", "Beacon", &[]),
        device("bthome", "ble-2", "Beacon two", &[]),
    ];
    let all = links(&[("m1", &["ble-1"]), ("net-10-0-0-2", &["ble-2"])]);
    let list = try_build_unified_devices(&devices, &all).unwrap();
    assert_eq!(list.len(), 2);
    assert_eq!(list[0].secondary_interfaces[0].device_id, "ble-1");
    assert_eq!(list[1].secondary_interfaces[0].device_id, "ble-2");
}

#[test]
fn one_record_stays_per_address() {
    let devices = vec![
        net("a", "Host 10.0.0.1", &[("ip", "10.0.0.1")]),
        net("b", "Server", &[("ip", "10.0.0.1")]),
        net("c", "Server again", &[("ip", "10.0.0.1")]),
        net("d", "Without", &[]),
        net("e", "Without too", &[("ip", "")]),
    ];
    let list = build_unified_devices(&devices, &links(&[]));
    let ids: Vec<&str> = list.iter().map(|u| u.primary.device_id.as_str()).collect();
    assert_eq!(ids, vec!["b", "d", "e"]);
}

#[test]
fn a_record_that_says_more_takes_the_place() {
    let devices = vec![
        net("a", "Server", &[("ip", "10.0.0.1")]),
        net("b", "Server", &[("ip", "10.0.0.1"), ("mac", "m")]),
        net("c", "Server", &[("ip", "10.0.0.1"), ("is_active", "true")]),
    ];
    let list = build_unified_devices(&devices, &links(&[]));
    assert_eq!(list.len(), 1);
    assert_eq!(list[0].primary.device_id, "c");
}

#[test]
fn merging_is_proposed() {
    let devices = vec![net("a", "printer", &[]), net("b", "printer-2", &[])];
    let list = build_unified_devices(&devices, &links(&[]));
    assert_eq!(list.len(), 2);
    assert_eq!(list[0].merge_candidate.as_ref().map(|d| d.device_id.as_str()), Some("b"));
    assert_eq!(list[1].merge_candidate.as_ref().map(|d| d.device_id.as_str()), Some("a"));
}

#[test]
fn auto_linked_interface_has_no_entry() {
    let devices = vec![
        net("net-1", "Meter", &[("mac", "A0DD6C9E1F24")]),
        device("bthome", "ble-1", "Shelly-A0DD6C9E1F24", &[]),
    ];
    let mut all = links(&[]);
    assert_eq!(try_auto_link(&devices, &mut all), Some(true));
    let list = try_build_unified_devices(&devices, &all).unwrap();
    assert_eq!(list.len(), 1);
    assert_eq!(list[0].primary.device_id, "net-1");
    assert_eq!(list[0].secondary_interfaces[0].device_id, "ble-1");
}

#[test]
fn devices_that_cannot_be_taken_together_are_told() {
    let devices = vec![
        net("a", "Shelly ü1234567890a", &[]),
        net("b", "Other", &[]),
    ];
    assert!(try_build_unified_devices(&devices, &links(&[])).is_none());
}

#[test]
fn ids_of_addresses() {
    assert_eq!(ip_key_of("192.168.178.40"), "net-192-168-178-40");
    let devices = vec![net("a", "one", &[]), net("a", "two", &[])];
    assert_eq!(find_by_id(&devices, "a").map(|d| d.display_name.as_str()), Some("two"));
    assert!(find_by_id(&devices, "b").is_none());
}
