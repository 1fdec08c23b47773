//! Looking closer at a device: what its open ports and its pages tell, and a definition for it.

use vstd::prelude::*;

use crate::device::{DeviceModel, DeviceRecord};
use crate::lights;
use crate::ordering;
use crate::ordering::{SortKey, SortKeyModel};
use crate::text;
use crate::text_map::Duplicate;

verus! {

broadcast use vstd::string::group_string_axioms;

// ---------------------------------------------------------------------------------------
// Ports
// ---------------------------------------------------------------------------------------

/// What usually answers at a port.
pub open spec fn service(port: u16) -> Seq<char> {
    if port == 21 {
        "FTP File Transfer"@
    } else if port == 22 {
        "SSH Terminal Access"@
    } else if port == 23 {
        "Telnet Console"@
    } else if port == 53 {
        "DNS Server"@
    } else if port == 80 {
        "HTTP Web Interface (HMI)"@
    } else if port == 81 {
        "HTTP Alternate (Admin)"@
    } else if port == 443 {
        "HTTPS Web Interface"@
    } else if port == 554 {
        "RTSP Video Stream"@
    } else if port == 1883 {
        "MQTT Broker / Client"@
    } else if port == 1900 {
        "SSDP / UPnP Discovery"@
    } else if port == 5000 {
        "Synology DSM Web UI / UPnP"@
    } else if port == 5001 {
        "Synology DSM HTTPS"@
    } else if port == 5060 {
        "SIP VoIP Telephony"@
    } else if port == 6053 {
        "ESPHome Native API"@
    } else if port == 8080 {
        "HTTP Alt Web Interface"@
    } else if port == 8081 {
        "HTTP Alt Admin"@
    } else if port == 8443 {
        "HTTPS Alt Web Interface"@
    } else if port == 8883 {
        "Secure MQTT"@
    } else if port == 9000 {
        "Web Admin / Portainer"@
    } else {
        "TCP Service"@
    }
}

/// What usually answers at a port.
pub fn port_description(port: u16) -> (r: &'static str)
    ensures
        r@ == service(port),
{
    match port {
        21 => "FTP File Transfer",
        22 => "SSH Terminal Access",
        23 => "Telnet Console",
        53 => "DNS Server",
        80 => "HTTP Web Interface (HMI)",
        81 => "HTTP Alternate (Admin)",
        443 => "HTTPS Web Interface",
        554 => "RTSP Video Stream",
        1883 => "MQTT Broker / Client",
        1900 => "SSDP / UPnP Discovery",
        5000 => "Synology DSM Web UI / UPnP",
        5001 => "Synology DSM HTTPS",
        5060 => "SIP VoIP Telephony",
        6053 => "ESPHome Native API",
        8080 => "HTTP Alt Web Interface",
        8081 => "HTTP Alt Admin",
        8443 => "HTTPS Alt Web Interface",
        8883 => "Secure MQTT",
        9000 => "Web Admin / Portainer",
        _ => "TCP Service",
    }
}

/// The ports that are tried when a device is looked at.
pub open spec fn probed_ports() -> Seq<u16> {
    seq![
        21u16, 22u16, 23u16, 53u16, 80u16, 81u16, 443u16, 554u16, 1883u16, 1900u16, 5000u16, 5001u16, 5060u16, 6053u16,
        8080u16, 8081u16, 8443u16, 8883u16, 9000u16,
    ]
}

/// The ports that are tried when a device is looked at.
pub fn probe_ports() -> (r: Vec<u16>)
    ensures
        r@ == probed_ports(),
{
    let r: Vec<u16> = vec![
        21u16, 22u16, 23u16, 53u16, 80u16, 81u16, 443u16, 554u16, 1883u16, 1900u16, 5000u16, 5001u16, 5060u16, 6053u16,
        8080u16, 8081u16, 8443u16, 8883u16, 9000u16,
    ];
    assert(r@ =~= probed_ports());
    r
}

fn has_port(ports: &[u16], port: u16) -> (r: bool)
    ensures
        r == ports@.contains(port),
{
    let mut i: usize = 0;
    while i < ports.len()
        invariant
            i <= ports@.len(),
            forall|k: int| 0 <= k < i ==> ports@[k] != port,
        decreases ports@.len() - i,
    {
        if ports[i] == port {
            return true;
        }
        i = i + 1;
    }
    false
}

/// What a port is sorted by.
pub open spec fn port_key(port: u16) -> SortKeyModel {
    SortKeyModel { rank: port as u32, name: ""@ }
}

/// The ports in ascending order.
pub open spec fn sorted_ports(ports: Seq<u16>) -> Seq<u16> {
    let order = ordering::sorted_positions(ports.map_values(|p: u16| port_key(p)));
    Seq::new(order.len(), |i: int| ports[order[i]])
}

/// The ports in ascending order.
pub fn sort_ports(ports: &[u16]) -> (r: Vec<u16>)
    ensures
        r@ == sorted_ports(ports@),
{
    let mut keys: Vec<SortKey> = Vec::new();
    let mut i: usize = 0;
    while i < ports.len()
        invariant
            i <= ports@.len(),
            keys@.len() == i,
            forall|k: int| 0 <= k < i ==> (#[trigger] keys@[k]).deep_view() == port_key(ports@[k]),
        decreases ports@.len() - i,
    {
        keys.push(SortKey { rank: ports[i] as u32, name: "".to_owned() });
        i = i + 1;
    }
    assert(keys.deep_view() =~= ports@.map_values(|p: u16| port_key(p)));
    let order = ordering::sort_positions(&keys);
    let ghost places = ordering::positions(order@);
    let mut r: Vec<u16> = Vec::new();
    let mut n: usize = 0;
    while n < order.len()
        invariant
            n <= order@.len(),
            places == ordering::positions(order@),
            forall|k: int| 0 <= k < order@.len() ==> (#[trigger] order@[k]) < ports@.len(),
            r@.len() == n,
            forall|k: int| 0 <= k < n ==> r@[k] == ports@[#[trigger] places[k]],
        decreases order@.len() - n,
    {
        assert(places[n as int] == order@[n as int]);
        r.push(ports[order[n]]);
        n = n + 1;
    }
    assert(r@ =~= sorted_ports(ports@));
    r
}

/// Sorted ports ascend, strictly where no port comes twice, and are those of before, each as
/// often.
pub proof fn sorted_ports_ascend(ports: Seq<u16>)
    ensures
        sorted_ports(ports).len() == ports.len(),
        sorted_ports(ports).to_multiset() == ports.to_multiset(),
        forall|p: u16| #[trigger] sorted_ports(ports).contains(p) <==> ports.contains(p),
        forall|i: int, j: int| 0 <= i < j < ports.len() ==> sorted_ports(ports)[i] <= sorted_ports(ports)[j],
        ports.no_duplicates() ==> forall|i: int, j: int|
            0 <= i < j < ports.len() ==> sorted_ports(ports)[i] < sorted_ports(ports)[j],
{
    let keys = ports.map_values(|p: u16| port_key(p));
    let order = ordering::sorted_positions(keys);
    let sorted = sorted_ports(ports);
    ordering::sorting_is_stable(keys);
    ordering::arranging_keeps_the_items(ports, order);
    assert(sorted =~= ordering::arranged(ports, order));
    assert forall|i: int, j: int| 0 <= i < j < ports.len() implies sorted[i] <= sorted[j] && (ports.no_duplicates()
        ==> sorted[i] < sorted[j]) by {
        assert(ordering::in_order(keys[order[i]], keys[order[j]]));
        assert(keys[order[i]].rank == ports[order[i]] as u32);
        assert(keys[order[j]].rank == ports[order[j]] as u32);
    }
    assert forall|p: u16| #[trigger] sorted.contains(p) <==> ports.contains(p) by {
        vstd::seq_lib::to_multiset_contains(sorted, p);
        vstd::seq_lib::to_multiset_contains(ports, p);
    }
}

/// The ports at which a device may show pages, in the order in which they are tried.
pub open spec fn web_ports() -> Seq<u16> {
    seq![80u16, 5000u16, 8080u16, 443u16]
}

/// The first open port for pages from the place `from` on, with its place.
pub open spec fn next_web_port_from(open: Seq<u16>, from: int) -> Option<(int, u16)>
    decreases 4 - from,
{
    if from < 0 || from >= 4 {
        None
    } else if open.contains(web_ports()[from]) {
        Some((from, web_ports()[from]))
    } else {
        next_web_port_from(open, from + 1)
    }
}

/// The next open port for pages from the place `from` on, with its place.
pub fn next_web_port(open: &[u16], from: usize) -> (r: Option<(usize, u16)>)
    ensures
        match r {
            Some((at, port)) => next_web_port_from(open@, from as int) == Some((at as int, port)),
            None => next_web_port_from(open@, from as int) is None,
        },
{
    let list: Vec<u16> = vec![80u16, 5000u16, 8080u16, 443u16];
    assert(list@ =~= web_ports());
    let mut i: usize = from;
    while i < 4
        invariant
            from <= i,
            list@ == web_ports(),
            next_web_port_from(open@, from as int) == next_web_port_from(open@, i as int),
        decreases 4 - i,
    {
        if has_port(open, list[i]) {
            return Some((i, list[i]));
        }
        i = i + 1;
    }
    None
}

// ---------------------------------------------------------------------------------------
// What a device is
// ---------------------------------------------------------------------------------------

/// A category, its title and its icon.
pub open spec fn suggestion(name: Seq<char>, host: Seq<char>, vendor: Seq<char>, title: Seq<char>, ports: Seq<u16>) -> (
    Seq<char>,
    Seq<char>,
    Seq<char>,
) {
    if text::has(name, "vpn"@) || text::has(host, "vpn"@) || text::has(host, "wireguard"@) || text::has(name, "wireguard"@) || text::has(host, "iphonestephan"@) {
        ("vpn"@, "VPN & Virtual Devices"@, "🛡️"@)
    } else if text::has(name, "ecoflow"@) || text::has(host, "ecoflow"@) || text::has(vendor, "ecoflow"@) {
        ("energy"@, "Solar & Energy Systems"@, "☀️"@)
    } else if text::has(name, "3em"@) || text::has(host, "3em"@) {
        ("energy"@, "Solar & Energy Systems"@, "☀️"@)
    } else if text::has(name, "hue"@) || text::has(host, "hue"@) || text::has(vendor, "philips"@) {
        ("hub"@, "Smart Home Hubs"@, "🎛️"@)
    } else if text::has(name, "netatmo"@) || text::has(host, "netatmo"@) || text::has(vendor, "netatmo"@) {
        ("sensor"@, "Sensors & Detectors"@, "🌡️"@)
    } else if text::has(name, "synology"@) || text::has(host, "synology"@) || ports.contains(5000) {
        ("nas"@, "Network Storage & NAS"@, "🗄️"@)
    } else if text::has(name, "repeater"@) || (text::has(host, "repeater"@) && text::has(vendor, "avm"@)) {
        ("router"@, "Routers & Gateways"@, "🌐"@)
    } else if text::has(name, "awtrix"@) || text::has(host, "awtrix"@) {
        ("display"@, "Smart Clocks & Displays"@, "⏰"@)
    } else if text::has(name, "meshtastic"@) || text::has(host, "meshtastic"@) {
        ("radio"@, "LoRa & Mesh Radios"@, "📻"@)
    } else if text::has(name, "presence"@) || text::has(host, "presence"@) {
        ("sensor"@, "Sensors & Detectors"@, "👁️"@)
    } else if text::has(name, "fronius"@) || text::has(host, "fronius"@) || text::has(vendor, "fronius"@) {
        ("energy"@, "Solar & Energy Systems"@, "☀️"@)
    } else if text::has(name, "miele"@) || text::has(host, "miele"@) || text::has(vendor, "miele"@) {
        ("appliance"@, "Home Appliances"@, "🧺"@)
    } else if text::has(name, "govee"@) || text::has(host, "govee"@) || "led-"@.is_prefix_of(host) {
        ("lighting"@, "Smart Lighting"@, "💡"@)
    } else if text::has(name, "switchbot"@) || text::has(host, "switchbot"@) || text::has(vendor, "woan"@) {
        ("hub"@, "Smart Home Hubs"@, "🎛️"@)
    } else if text::has(name, "plug"@) || text::has(host, "plug"@) || text::has(host, "outlet"@) || text::has(title, "tasmota"@) {
        ("smart-plug"@, "Smart Plugs & Sockets"@, "🔌"@)
    } else if ports.contains(80) || ports.contains(8080) {
        ("iot"@, "Smart Home & IoT"@, "💡"@)
    } else {
        ("network-device"@, "Network & Other Devices"@, "🔌"@)
    }
}

/// The category that a device seems to belong to, by its names, its vendor, its ports and the
/// title of its pages.
pub open spec fn suggested_category(
    name: Seq<char>,
    host: Option<Seq<char>>,
    vendor: Option<Seq<char>>,
    ports: Seq<u16>,
    title: Option<Seq<char>>,
) -> (Seq<char>, Seq<char>, Seq<char>) {
    suggestion(
        text::lowercase(name),
        text::lowercase(text::or_empty(host)),
        text::lowercase(text::or_empty(vendor)),
        text::lowercase(text::or_empty(title)),
        ports,
    )
}

/// The suggestion looks past the case of ASCII letters, past the difference between an absent text
/// and an empty one, and past the order and the repetition of ports.
pub proof fn suggestions_look_past_case_and_order(
    name: Seq<char>,
    host: Option<Seq<char>>,
    vendor: Option<Seq<char>>,
    ports: Seq<u16>,
    title: Option<Seq<char>>,
    other_name: Seq<char>,
    other_host: Option<Seq<char>>,
    other_vendor: Option<Seq<char>>,
    other_ports: Seq<u16>,
    other_title: Option<Seq<char>>,
)
    requires
        text::same_ignoring_ascii_case(name, other_name),
        text::same_ignoring_ascii_case(text::or_empty(host), text::or_empty(other_host)),
        text::same_ignoring_ascii_case(text::or_empty(vendor), text::or_empty(other_vendor)),
        text::same_ignoring_ascii_case(text::or_empty(title), text::or_empty(other_title)),
        forall|p: u16| #[trigger] ports.contains(p) <==> other_ports.contains(p),
    ensures
        suggested_category(name, host, vendor, ports, title) == suggested_category(
            other_name,
            other_host,
            other_vendor,
            other_ports,
            other_title,
        ),
{
    text::case_of_ascii_letters_is_lowered(name, other_name);
    text::case_of_ascii_letters_is_lowered(text::or_empty(host), text::or_empty(other_host));
    text::case_of_ascii_letters_is_lowered(text::or_empty(vendor), text::or_empty(other_vendor));
    text::case_of_ascii_letters_is_lowered(text::or_empty(title), text::or_empty(other_title));
    assert(ports.contains(5000) <==> other_ports.contains(5000));
    assert(ports.contains(80) <==> other_ports.contains(80));
    assert(ports.contains(8080) <==> other_ports.contains(8080));
}

fn suggest(
    name: &str,
    host: &str,
    vendor: &str,
    title: &str,
    ports: &[u16],
) -> (r: (&'static str, &'static str, &'static str))
    ensures
        (r.0@, r.1@, r.2@) == suggestion(name@, host@, vendor@, title@, ports@),
{
    if text::contains(name, "vpn") || text::contains(host, "vpn") || text::contains(host, "wireguard") || text::contains(name, "wireguard") || text::contains(host, "iphonestephan") {
        ("vpn", "VPN & Virtual Devices", "🛡️")
    } else if text::contains(name, "ecoflow") || text::contains(host, "ecoflow") || text::contains(vendor, "ecoflow") {
        ("energy", "Solar & Energy Systems", "☀️")
    } else if text::contains(name, "3em") || text::contains(host, "3em") {
        ("energy", "Solar & Energy Systems", "☀️")
    } else if text::contains(name, "hue") || text::contains(host, "hue") || text::contains(vendor, "philips") {
        ("hub", "Smart Home Hubs", "🎛️")
    } else if text::contains(name, "netatmo") || text::contains(host, "netatmo") || text::contains(vendor, "netatmo") {
        ("sensor", "Sensors & Detectors", "🌡️")
    } else if text::contains(name, "synology") || text::contains(host, "synology") || has_port(ports, 5000) {
        ("nas", "Network Storage & NAS", "🗄️")
    } else if text::contains(name, "repeater") || (text::contains(host, "repeater") && text::contains(vendor, "avm")) {
        ("router", "Routers & Gateways", "🌐")
    } else if text::contains(name, "awtrix") || text::contains(host, "awtrix") {
        ("display", "Smart Clocks & Displays", "⏰")
    } else if text::contains(name, "meshtastic") || text::contains(host, "meshtastic") {
        ("radio", "LoRa & Mesh Radios", "📻")
    } else if text::contains(name, "presence") || text::contains(host, "presence") {
        ("sensor", "Sensors & Detectors", "👁️")
    } else if text::contains(name, "fronius") || text::contains(host, "fronius") || text::contains(vendor, "fronius") {
        ("energy", "Solar & Energy Systems", "☀️")
    } else if text::contains(name, "miele") || text::contains(host, "miele") || text::contains(vendor, "miele") {
        ("appliance", "Home Appliances", "🧺")
    } else if text::contains(name, "govee") || text::contains(host, "govee") || text::starts_with(host, "led-") {
        ("lighting", "Smart Lighting", "💡")
    } else if text::contains(name, "switchbot") || text::contains(host, "switchbot") || text::contains(vendor, "woan") {
        ("hub", "Smart Home Hubs", "🎛️")
    } else if text::contains(name, "plug") || text::contains(host, "plug") || text::contains(host, "outlet") || text::contains(title, "tasmota") {
        ("smart-plug", "Smart Plugs & Sockets", "🔌")
    } else if has_port(ports, 80) || has_port(ports, 8080) {
        ("iot", "Smart Home & IoT", "💡")
    } else {
        ("network-device", "Network & Other Devices", "🔌")
    }
}

fn small_or_empty(s: Option<&str>) -> (r: String)
    ensures
        r@ == text::lowercase(text::or_empty(s.deep_view())),
{
    match s {
        Some(t) => t.to_lowercase(),
        None => text::empty().as_str().to_lowercase(),
    }
}

/// The category that a device seems to belong to, its title and its icon.
pub fn deduce_analyzer_category(
    name: &str,
    hostname: Option<&str>,
    vendor: Option<&str>,
    open_ports: &[u16],
    http_title: Option<&str>,
) -> (r: (String, &'static str, &'static str))
    ensures
        (r.0@, r.1@, r.2@) == suggested_category(
            name@,
            hostname.deep_view(),
            vendor.deep_view(),
            open_ports@,
            http_title.deep_view(),
        ),
{
    let (key, title, icon) = suggest(
        name.to_lowercase().as_str(),
        small_or_empty(hostname).as_str(),
        small_or_empty(vendor).as_str(),
        small_or_empty(http_title).as_str(),
        open_ports,
    );
    (key.to_owned(), title, icon)
}

// ---------------------------------------------------------------------------------------
// A definition for a device
// ---------------------------------------------------------------------------------------

pub const HOST_RULE_0: &'static str = r#"    let host = obs.hostname.to_lower();
    host.contains(""#;

pub const HOST_RULE_1: &'static str = r#"")"#;

/// A rule by the host name.
pub open spec fn host_rule_text(word: Seq<char>) -> Seq<char> {
    HOST_RULE_0@ + word + HOST_RULE_1@
}

/// A rule by the host name.
fn host_rule(word: &str) -> (r: String)
    ensures
        r@ == host_rule_text(word@),
{
    let mut out = HOST_RULE_0.to_owned();
    out.append(word);
    out.append(HOST_RULE_1);
    out
}

pub const VENDOR_RULE_0: &'static str = r#"    let vendor = obs.vendor.to_lower();
    vendor.contains(""#;

pub const VENDOR_RULE_1: &'static str = r#"")"#;

/// A rule by the vendor.
pub open spec fn vendor_rule_text(word: Seq<char>) -> Seq<char> {
    VENDOR_RULE_0@ + word + VENDOR_RULE_1@
}

/// A rule by the vendor.
fn vendor_rule(word: &str) -> (r: String)
    ensures
        r@ == vendor_rule_text(word@),
{
    let mut out = VENDOR_RULE_0.to_owned();
    out.append(word);
    out.append(VENDOR_RULE_1);
    out
}

pub const NAME_RULE_0: &'static str = r#"    let name = obs.name.to_lower();
    name.contains(""#;

pub const NAME_RULE_1: &'static str = r#"")"#;

/// A rule by the name.
pub open spec fn name_rule_text(word: Seq<char>) -> Seq<char> {
    NAME_RULE_0@ + word + NAME_RULE_1@
}

/// A rule by the name.
fn name_rule(word: &str) -> (r: String)
    ensures
        r@ == name_rule_text(word@),
{
    let mut out = NAME_RULE_0.to_owned();
    out.append(word);
    out.append(NAME_RULE_1);
    out
}

pub const DEFINITION_0: &'static str = r#"// Rhai Device Definition for "#;

pub const DEFINITION_1: &'static str = r#"
// Auto-generated by HomeNode Unknown Device Analyzer

fn meta() {
    #{
        id: ""#;

pub const DEFINITION_2: &'static str = r#"",
        name: ""#;

pub const DEFINITION_3: &'static str = r#"",
        category: ""#;

pub const DEFINITION_4: &'static str = r#"",
        category_title: ""#;

pub const DEFINITION_5: &'static str = r#"",
        category_icon: ""#;

pub const DEFINITION_6: &'static str = r#"",
        capabilities: ["#;

pub const DEFINITION_7: &'static str = r#"]
    }
}

fn identify(obs) {
"#;

pub const DEFINITION_8: &'static str = r#"
}
"#;

/// The text of a definition.
pub open spec fn definition_text(
    name: Seq<char>,
    id: Seq<char>,
    category: Seq<char>,
    title: Seq<char>,
    icon: Seq<char>,
    capabilities: Seq<char>,
    rules: Seq<char>,
) -> Seq<char> {
    DEFINITION_0@ + name + DEFINITION_1@ + id + DEFINITION_2@ + name + DEFINITION_3@ + category + DEFINITION_4@ + title + DEFINITION_5@ + icon + DEFINITION_6@ + capabilities + DEFINITION_7@ + rules + DEFINITION_8@
}

/// The text of a definition.
fn definition(
    name: &str,
    id: &str,
    category: &str,
    title: &str,
    icon: &str,
    capabilities: &str,
    rules: &str,
) -> (r: String)
    ensures
        r@ == definition_text(name@, id@, category@, title@, icon@, capabilities@, rules@),
{
    let mut out = DEFINITION_0.to_owned();
    out.append(name);
    out.append(DEFINITION_1);
    out.append(id);
    out.append(DEFINITION_2);
    out.append(name);
    out.append(DEFINITION_3);
    out.append(category);
    out.append(DEFINITION_4);
    out.append(title);
    out.append(DEFINITION_5);
    out.append(icon);
    out.append(DEFINITION_6);
    out.append(capabilities);
    out.append(DEFINITION_7);
    out.append(rules);
    out.append(DEFINITION_8);
    out
}

/// A host name up to its first dot.
pub open spec fn short_host(host: Seq<char>) -> Seq<char> {
    text::split_at_char(host, '.')[0]
}

/// The rule by the host name, where there is one.
pub open spec fn host_rules(host: Seq<char>) -> Seq<Seq<char>> {
    if host.len() > 0 {
        seq![host_rule_text(text::lowercase(short_host(host)))]
    } else {
        Seq::empty()
    }
}

/// The rules behind `before` with the one by the vendor, where there is one.
pub open spec fn vendor_rules(before: Seq<Seq<char>>, vendor: Seq<char>) -> Seq<Seq<char>> {
    if vendor.len() > 0 {
        before.push(vendor_rule_text(text::lowercase(vendor)))
    } else {
        before
    }
}

/// The rules behind `before` with the one by the title of the pages, where there is one.
pub open spec fn title_rules(before: Seq<Seq<char>>, title: Option<Seq<char>>) -> Seq<Seq<char>> {
    if text::or_empty(title).len() > 0 {
        before.push(name_rule_text(text::lowercase(text::or_empty(title))))
    } else {
        before
    }
}

/// The rules by which a device is recognised; by its name where nothing else is known.
pub open spec fn rules(
    name: Seq<char>,
    host: Seq<char>,
    vendor: Seq<char>,
    title: Option<Seq<char>>,
) -> Seq<Seq<char>> {
    let known = title_rules(vendor_rules(host_rules(host), vendor), title);
    if known.len() == 0 {
        seq![name_rule_text(text::lowercase(name))]
    } else {
        known
    }
}

/// What a device can do, by its ports.
pub open spec fn capabilities(ports: Seq<u16>) -> Seq<Seq<char>> {
    let one = seq!["\"network\""@];
    let two = if ports.contains(80) || ports.contains(443) || ports.contains(5000) || ports.contains(8080) {
        one.push("\"http\""@)
    } else {
        one
    };
    let three = if ports.contains(1883) || ports.contains(8883) {
        two.push("\"mqtt\""@)
    } else {
        two
    };
    if ports.contains(22) {
        three.push("\"ssh\""@)
    } else {
        three
    }
}

/// The text of the definition of a device.
pub open spec fn rhai_script(
    id: Seq<char>,
    name: Seq<char>,
    host: Seq<char>,
    vendor: Seq<char>,
    category: Seq<char>,
    title: Seq<char>,
    icon: Seq<char>,
    ports: Seq<u16>,
    http_title: Option<Seq<char>>,
) -> Seq<char> {
    definition_text(
        name,
        id,
        category,
        title,
        icon,
        text::joined(capabilities(ports), ", "@),
        text::joined(rules(name, host, vendor, http_title), " ||\n"@),
    )
}

fn push_text(list: &mut Vec<String>, s: String)
    ensures
        final(list).deep_view() == old(list).deep_view().push(s@),
{
    let ghost before = list.deep_view();
    list.push(s);
    assert(list.deep_view() =~= before.push(s@));
}

fn rules_of(name: &str, host: &str, vendor: &str, title: Option<&str>) -> (r: Vec<String>)
    ensures
        r.deep_view() == rules(name@, host@, vendor@, title.deep_view()),
{
    let mut r: Vec<String> = Vec::new();
    assert(r.deep_view() =~= Seq::<Seq<char>>::empty());
    if !text::blank(host) {
        let parts = text::split(host, '.');
        let rule = host_rule(parts[0].as_str().to_lowercase().as_str());
        push_text(&mut r, rule);
        assert(r.deep_view() =~= host_rules(host@));
    }
    if !text::blank(vendor) {
        push_text(&mut r, vendor_rule(vendor.to_lowercase().as_str()));
    }
    match title {
        Some(t) => {
            if !text::blank(t) {
                push_text(&mut r, name_rule(t.to_lowercase().as_str()));
            }
        },
        None => {},
    }
    if r.len() == 0 {
        push_text(&mut r, name_rule(name.to_lowercase().as_str()));
        assert(r.deep_view() =~= seq![name_rule_text(text::lowercase(name@))]);
    }
    r
}

fn capabilities_of(ports: &[u16]) -> (r: Vec<String>)
    ensures
        r.deep_view() == capabilities(ports@),
{
    let mut r: Vec<String> = Vec::new();
    push_text(&mut r, "\"network\"".to_owned());
    assert(r.deep_view() =~= seq!["\"network\""@]);
    if has_port(ports, 80) || has_port(ports, 443) || has_port(ports, 5000) || has_port(ports, 8080) {
        push_text(&mut r, "\"http\"".to_owned());
    }
    if has_port(ports, 1883) || has_port(ports, 8883) {
        push_text(&mut r, "\"mqtt\"".to_owned());
    }
    if has_port(ports, 22) {
        push_text(&mut r, "\"ssh\"".to_owned());
    }
    r
}

/// The text of a definition by which the device is recognised from now on.
pub fn generate_rhai_script(
    script_id: &str,
    name: &str,
    hostname: &str,
    vendor: &str,
    category: &str,
    category_title: &str,
    category_icon: &str,
    open_ports: &[u16],
    http_title: Option<&str>,
) -> (r: String)
    ensures
        r@ == rhai_script(
            script_id@,
            name@,
            hostname@,
            vendor@,
            category@,
            category_title@,
            category_icon@,
            open_ports@,
            http_title.deep_view(),
        ),
{
    let caps = text::join(&capabilities_of(open_ports), ", ");
    let code = text::join(&rules_of(name, hostname, vendor, http_title), " ||\n");
    definition(
        name,
        script_id,
        category,
        category_title,
        category_icon,
        caps.as_str(),
        code.as_str(),
    )
}

// ---------------------------------------------------------------------------------------
// The pages of a device
// ---------------------------------------------------------------------------------------

/// A line without the carriage return at its end.
pub open spec fn without_return(line: Seq<char>) -> Seq<char> {
    if line.len() > 0 && line.last() == '\r' {
        line.drop_last()
    } else {
        line
    }
}

/// The lines of a text: the parts between line feeds, each without a carriage return before
/// the line feed. What stands behind the last line feed counts where it is not empty.
pub open spec fn lines(parts: Seq<Seq<char>>) -> Seq<Seq<char>> {
    let ended = Seq::new((parts.len() - 1) as nat, |i: int| without_return(parts[i]));
    if parts.last().len() == 0 {
        ended
    } else {
        ended.push(parts.last())
    }
}

/// The first line that names the server.
pub open spec fn server_line(lines: Seq<Seq<char>>) -> Option<Seq<char>>
    decreases lines.len(),
{
    if lines.len() == 0 {
        None
    } else {
        let before = server_line(lines.drop_last());
        if before is Some {
            before
        } else if "server:"@.is_prefix_of(text::lowercase(lines.last())) {
            Some(lines.last())
        } else {
            None
        }
    }
}

/// The line of an answer that names the server.
pub open spec fn server_line_in(answer: Seq<char>) -> Option<Seq<char>> {
    server_line(lines(text::split_at_char(answer, '\n')))
}

/// The server that an answer names.
pub open spec fn banner_server(answer: Seq<char>) -> Option<Seq<char>> {
    match server_line_in(answer) {
        Some(line) => Some(text::trimmed(text::behind_bytes(line, 7))),
        None => None,
    }
}

/// How many bytes of the small letters of a text stand before `mark`.
pub open spec fn bytes_before(s: Seq<char>, mark: Seq<char>) -> Option<int> {
    let small = text::lowercase(s);
    match text::find_from(small, mark, 0) {
        Some(i) => Some(text::bytes(small.take(i)) as int),
        None => None,
    }
}

/// The text behind the start of the title.
pub open spec fn behind_title_mark(answer: Seq<char>) -> Option<Seq<char>> {
    match bytes_before(answer, "<title>"@) {
        Some(n) => Some(text::behind_bytes(answer, n + 7)),
        None => None,
    }
}

/// The title of the pages in an answer.
pub open spec fn banner_title(answer: Seq<char>) -> Option<Seq<char>> {
    match behind_title_mark(answer) {
        Some(rest) => match bytes_before(rest, "</title>"@) {
            Some(n) => Some(text::trimmed(text::first_bytes(rest, n))),
            None => None,
        },
        None => None,
    }
}

/// `n` bytes can be cut from the start of `s`.
pub open spec fn can_cut(s: Seq<char>, n: int) -> bool {
    0 <= n <= text::bytes(s) && text::cuts_at(s, n)
}

/// Every cut that reading an answer makes falls between two characters of it.
pub open spec fn can_read_banner(answer: Seq<char>) -> bool {
    &&& match server_line_in(answer) {
        Some(line) => can_cut(line, 7),
        None => true,
    }
    &&& match bytes_before(answer, "<title>"@) {
        Some(n) => can_cut(answer, n + 7) && match bytes_before(text::behind_bytes(answer, n + 7), "</title>"@) {
            Some(m) => can_cut(text::behind_bytes(answer, n + 7), m),
            None => true,
        },
        None => true,
    }
}

fn lines_of(answer: &str) -> (r: Vec<String>)
    ensures
        r.deep_view() == lines(text::split_at_char(answer@, '\n')),
{
    let parts = text::split(answer, '\n');
    let ghost all = parts.deep_view();
    let last: usize = parts.len() - 1;
    let mut r: Vec<String> = Vec::new();
    let mut i: usize = 0;
    while i < last
        invariant
            i <= last,
            last == parts@.len() - 1,
            all == parts.deep_view(),
            r@.len() == i,
            forall|k: int| 0 <= k < i ==> (#[trigger] r@[k])@ == without_return(all[k]),
        decreases parts@.len() - i,
    {
        let line = parts[i].as_str();
        let chars = text::chars_of(line);
        let size: usize = chars.len();
        assert(all[i as int] == line@);
        if size > 0 && chars[size - 1] == '\r' {
            let cut = text::text_of(&chars, 0, size - 1);
            assert(cut@ =~= line@.drop_last());
            r.push(cut);
        } else {
            r.push(line.to_owned());
        }
        i = i + 1;
    }
    let ghost ended = Seq::new((all.len() - 1) as nat, |i: int| without_return(all[i]));
    assert(r.deep_view() =~= ended);
    assert(all[i as int] == all.last());
    if !text::blank(parts[i].as_str()) {
        r.push(parts[i].clone());
        assert(r.deep_view() =~= ended.push(all.last()));
    }
    r
}

proof fn lemma_server_line_stays(lines: Seq<Seq<char>>, n: int)
    requires
        0 <= n <= lines.len(),
        server_line(lines.take(n)) is Some,
    ensures
        server_line(lines) == server_line(lines.take(n)),
    decreases lines.len(),
{
    if n < lines.len() {
        assert(lines.drop_last().take(n) =~= lines.take(n));
        lemma_server_line_stays(lines.drop_last(), n);
    } else {
        assert(lines.take(n) =~= lines);
    }
}

fn server_line_of(answer: &str) -> (r: Option<String>)
    ensures
        r.deep_view() == server_line_in(answer@),
{
    let list = lines_of(answer);
    let ghost all = list.deep_view();
    let mut i: usize = 0;
    while i < list.len()
        invariant
            i <= list@.len(),
            all == list.deep_view(),
            all == lines(text::split_at_char(answer@, '\n')),
            server_line(all.take(i as int)) is None,
        decreases list@.len() - i,
    {
        assert(all.take(i + 1).drop_last() =~= all.take(i as int));
        assert(all.take(i + 1).last() == list@[i as int]@);
        if text::starts_with(list[i].as_str().to_lowercase().as_str(), "server:") {
            proof {
                lemma_server_line_stays(all, i + 1);
            }
            return Some(list[i].clone());
        }
        i = i + 1;
    }
    assert(all.take(i as int) =~= all);
    None
}

fn bytes_before_mark(s: &str, mark: &str) -> (r: Option<usize>)
    ensures
        match r {
            Some(n) => bytes_before(s@, mark@) == Some(n as int),
            None => bytes_before(s@, mark@) is None,
        },
{
    let small = s.to_lowercase();
    match text::find(small.as_str(), mark) {
        Some(i) => {
            proof {
                text::lemma_found(small@, mark@, 0);
            }
            let start = text::slice(small.as_str(), 0, i);
            assert(start@ =~= small@.take(i as int));
            Some(text::byte_len(start.as_str()))
        },
        None => None,
    }
}

/// The server and the title that an answer of a device tells.
pub fn parse_http_banner(answer: &str) -> (r: (Option<String>, Option<String>))
    requires
        can_read_banner(answer@),
    ensures
        r.0.deep_view() == banner_server(answer@),
        r.1.deep_view() == banner_title(answer@),
{
    let server = match server_line_of(answer) {
        Some(line) => Some(text::trim(text::cut(line.as_str(), 7).1)),
        None => None,
    };
    let total: usize = text::byte_len(answer);
    let title = match bytes_before_mark(answer, "<title>") {
        Some(n) => {
            assert(n + 7 <= total);
            let rest = text::cut(answer, n + 7).1;
            match bytes_before_mark(rest, "</title>") {
                Some(m) => Some(text::trim(text::cut(rest, m).0)),
                None => None,
            }
        },
        None => None,
    };
    (server, title)
}

fn can_cut_at(s: &str, n: usize) -> (r: bool)
    ensures
        r == can_cut(s@, n as int),
{
    n <= text::byte_len(s) && s.is_char_boundary(n)
}

/// The server and the title that an answer of a device tells; nothing where its small letters
/// are so much longer or shorter that a cut would fall within a character.
pub fn read_http_banner(answer: &str) -> (r: Option<(Option<String>, Option<String>)>)
    ensures
        match r {
            Some(found) => can_read_banner(answer@) && found.0.deep_view() == banner_server(answer@)
                && found.1.deep_view() == banner_title(answer@),
            None => !can_read_banner(answer@),
        },
{
    match server_line_of(answer) {
        Some(line) => {
            if !can_cut_at(line.as_str(), 7) {
                return None;
            }
        },
        None => {},
    }
    match bytes_before_mark(answer, "<title>") {
        Some(n) => {
            let total: usize = text::byte_len(answer);
            if total < 7 || n > total - 7 || !can_cut_at(answer, n + 7) {
                return None;
            }
            let rest = text::cut(answer, n + 7).1;
            match bytes_before_mark(rest, "</title>") {
                Some(m) => {
                    if !can_cut_at(rest, m) {
                        return None;
                    }
                },
                None => {},
            }
        },
        None => {},
    }
    Some(parse_http_banner(answer))
}

// ---------------------------------------------------------------------------------------
// The whole analysis
// ---------------------------------------------------------------------------------------

/// Why a device cannot be looked at.
#[derive(PartialEq, Eq, Structural, Clone, Copy, Debug)]
pub enum AnalysisError {
    DeviceNotFound,
    InvalidDeviceIp,
}

/// The address of a device: the reported one, else the one that its id spells.
pub open spec fn analysis_ip(d: DeviceModel) -> Seq<char> {
    match d.meta("ip"@) {
        Some(ip) => ip,
        None => text::char_replaced(text::replaced(d.device_id, "net-"@, ""@), '-', "."@),
    }
}

/// The device that is to be looked at, and its address.
pub open spec fn analysis_target(
    devices: Seq<DeviceModel>,
    id: Seq<char>,
) -> Result<(DeviceModel, Seq<char>), AnalysisError> {
    match lights::device_with_id(devices, id) {
        Some(d) => if text::is_ipv4(analysis_ip(d)) {
            Ok((d, analysis_ip(d)))
        } else {
            Err(AnalysisError::InvalidDeviceIp)
        },
        None => Err(AnalysisError::DeviceNotFound),
    }
}

fn analysis_ip_of(d: &DeviceRecord) -> (r: String)
    ensures
        r@ == analysis_ip(d.deep_view()),
{
    match d.meta("ip") {
        Some(ip) => ip.clone(),
        None => {
            proof {
                reveal_strlit("net-");
            }
            let rest = text::replace(d.device_id.as_str(), "net-", "");
            text::replace_char(rest.as_str(), '-', ".")
        },
    }
}

/// The device that is to be looked at, and its address.
pub fn find_analysis_target(
    devices: &[DeviceRecord],
    device_id: &str,
) -> (r: Result<(DeviceRecord, String), AnalysisError>)
    ensures
        match r {
            Ok((d, ip)) => analysis_target(devices.deep_view(), device_id@) == Ok::<(DeviceModel, Seq<char>), AnalysisError>(
                (d.deep_view(), ip@),
            ),
            Err(e) => analysis_target(devices.deep_view(), device_id@) == Err::<(DeviceModel, Seq<char>), AnalysisError>(e),
        },
{
    match lights::find_device(devices, device_id) {
        Some(d) => {
            let ip = analysis_ip_of(d);
            if text::ipv4(ip.as_str()) {
                Ok((d.duplicate(), ip))
            } else {
                Err(AnalysisError::InvalidDeviceIp)
            }
        },
        None => Err(AnalysisError::DeviceNotFound),
    }
}

/// What was found out about a device.
#[derive(Debug)]
pub struct DeviceAnalysis {
    pub device_id: String,
    pub ip: String,
    pub mac: Option<String>,
    pub hostname: Option<String>,
    pub vendor: Option<String>,
    pub open_ports: Vec<u16>,
    pub total_ports_scanned: usize,
    pub http_title: Option<String>,
    pub http_server: Option<String>,
    pub suggested_category: String,
    pub suggested_title: String,
    pub suggested_icon: String,
    pub suggested_filename: String,
    pub suggested_rhai_script: String,
}

/// What a `DeviceAnalysis` stands for.
#[verifier::ext_equal]
pub struct AnalysisModel {
    pub device_id: Seq<char>,
    pub ip: Seq<char>,
    pub mac: Option<Seq<char>>,
    pub hostname: Option<Seq<char>>,
    pub vendor: Option<Seq<char>>,
    pub open_ports: Seq<u16>,
    pub total_ports_scanned: nat,
    pub http_title: Option<Seq<char>>,
    pub http_server: Option<Seq<char>>,
    pub suggested_category: Seq<char>,
    pub suggested_title: Seq<char>,
    pub suggested_icon: Seq<char>,
    pub suggested_filename: Seq<char>,
    pub suggested_rhai_script: Seq<char>,
}

impl DeepView for DeviceAnalysis {
    type V = AnalysisModel;

    open spec fn deep_view(&self) -> AnalysisModel {
        AnalysisModel {
            device_id: self.device_id@,
            ip: self.ip@,
            mac: self.mac.deep_view(),
            hostname: self.hostname.deep_view(),
            vendor: self.vendor.deep_view(),
            open_ports: self.open_ports@,
            total_ports_scanned: self.total_ports_scanned as nat,
            http_title: self.http_title.deep_view(),
            http_server: self.http_server.deep_view(),
            suggested_category: self.suggested_category@,
            suggested_title: self.suggested_title@,
            suggested_icon: self.suggested_icon@,
            suggested_filename: self.suggested_filename@,
            suggested_rhai_script: self.suggested_rhai_script@,
        }
    }
}

/// The name of the definition of a device.
pub open spec fn script_name(id: Seq<char>) -> Seq<char> {
    text::lowercase(
        text::char_replaced(text::char_replaced(text::replaced(id, "net-"@, ""@), '.', "_"@), '-', "_"@),
    )
}

/// What is found out about the device `d`, which was asked for by `id` and has the address
/// `ip`, from the open ports and from what its pages tell.
pub open spec fn analysis(
    id: Seq<char>,
    d: DeviceModel,
    ip: Seq<char>,
    found_ports: Seq<u16>,
    server: Option<Seq<char>>,
    title: Option<Seq<char>>,
) -> AnalysisModel {
    let ports = sorted_ports(found_ports);
    let host = d.meta("hostname"@);
    let vendor = d.meta("vendor"@);
    let suggested = suggested_category(d.display_name, host, vendor, ports, title);
    AnalysisModel {
        device_id: d.device_id,
        ip,
        mac: d.meta("mac"@),
        hostname: host,
        vendor,
        open_ports: ports,
        total_ports_scanned: probed_ports().len(),
        http_title: title,
        http_server: server,
        suggested_category: suggested.0,
        suggested_title: suggested.1,
        suggested_icon: suggested.2,
        suggested_filename: script_name(id) + ".rhai"@,
        suggested_rhai_script: rhai_script(
            script_name(id),
            d.display_name,
            text::or_empty(host),
            text::or_empty(vendor),
            suggested.0,
            suggested.1,
            suggested.2,
            ports,
            title,
        ),
    }
}

fn script_name_of(id: &str) -> (r: String)
    ensures
        r@ == script_name(id@),
{
    proof {
        reveal_strlit("net-");
    }
    let rest = text::replace(id, "net-", "");
    let dots = text::replace_char(rest.as_str(), '.', "_");
    text::replace_char(dots.as_str(), '-', "_").as_str().to_lowercase()
}

fn meta_copy(d: &DeviceRecord, key: &str) -> (r: Option<String>)
    ensures
        r.deep_view() == d.deep_view().meta(key@),
{
    match d.meta(key) {
        Some(s) => Some(s.clone()),
        None => None,
    }
}

fn as_text(s: &Option<String>) -> (r: Option<&str>)
    ensures
        r.deep_view() == s.deep_view(),
{
    match s {
        Some(t) => Some(t.as_str()),
        None => None,
    }
}

/// What is found out about a device. `found_ports` are the open ones among those of
/// `probe_ports`; the server and the title are what its pages tell.
pub fn analyze_device(
    device_id: &str,
    device: &DeviceRecord,
    ip: &str,
    found_ports: &[u16],
    http_server: Option<String>,
    http_title: Option<String>,
) -> (r: DeviceAnalysis)
    ensures
        r.deep_view() == analysis(
            device_id@,
            device.deep_view(),
            ip@,
            found_ports@,
            http_server.deep_view(),
            http_title.deep_view(),
        ),
{
    let open_ports = sort_ports(found_ports);
    let hostname = meta_copy(device, "hostname");
    let vendor = meta_copy(device, "vendor");
    let (category, title, icon) = deduce_analyzer_category(
        device.display_name.as_str(),
        as_text(&hostname),
        as_text(&vendor),
        open_ports.as_slice(),
        as_text(&http_title),
    );
    let name = script_name_of(device_id);
    let host_text = match &hostname {
        Some(s) => s.clone(),
        None => text::empty(),
    };
    let vendor_text = match &vendor {
        Some(s) => s.clone(),
        None => text::empty(),
    };
    let script = generate_rhai_script(
        name.as_str(),
        device.display_name.as_str(),
        host_text.as_str(),
        vendor_text.as_str(),
        category.as_str(),
        title,
        icon,
        open_ports.as_slice(),
        as_text(&http_title),
    );
    let mut filename = name;
    filename.append(".rhai");
    DeviceAnalysis {
        device_id: device.device_id.clone(),
        ip: ip.to_owned(),
        mac: meta_copy(device, "mac"),
        hostname,
        vendor,
        open_ports,
        total_ports_scanned: probe_ports().len(),
        http_title,
        http_server,
        suggested_category: category,
        suggested_title: title.to_owned(),
        suggested_icon: icon.to_owned(),
        suggested_filename: filename,
        suggested_rhai_script: script,
    }
}

// ---------------------------------------------------------------------------------------
// Saving a definition
// ---------------------------------------------------------------------------------------

/// The name of the file of a definition: letters, digits, underscores, dots and hyphens only.
pub open spec fn clean_filename(name: Seq<char>) -> Seq<char> {
    text::alphanumeric_part(name, seq!['_', '.', '-'])
}

/// The name under which a definition is saved; nothing where it does not end as the names of
/// definitions do.
pub open spec fn definition_filename(name: Seq<char>) -> Option<Seq<char>> {
    if ".rhai"@.is_suffix_of(clean_filename(name)) {
        Some(clean_filename(name))
    } else {
        None
    }
}

proof fn lemma_alphanumeric_part(s: Seq<char>, extra: Seq<char>)
    ensures
        forall|i: int|
            0 <= i < text::alphanumeric_part(s, extra).len() ==> text::alphanumeric(
                #[trigger] text::alphanumeric_part(s, extra)[i],
            ) || extra.contains(text::alphanumeric_part(s, extra)[i]),
    decreases s.len(),
{
    if s.len() > 0 {
        let before = text::alphanumeric_part(s.drop_last(), extra);
        let kept = text::alphanumeric_part(s, extra);
        lemma_alphanumeric_part(s.drop_last(), extra);
        assert forall|i: int| 0 <= i < kept.len() implies text::alphanumeric(#[trigger] kept[i]) || extra.contains(
            kept[i],
        ) by {
            if i < before.len() {
                assert(kept[i] == before[i]);
            }
        }
    }
}

/// The name under which a definition is saved holds letters, digits, underscores, dots and
/// hyphens only: no slash and no backslash.
pub proof fn saved_names_are_plain(name: Seq<char>)
    ensures
        match definition_filename(name) {
            Some(saved) => forall|i: int|
                0 <= i < saved.len() ==> (text::alphanumeric(#[trigger] saved[i]) || saved[i] == '_' || saved[i] == '.'
                    || saved[i] == '-') && saved[i] != '/' && saved[i] != '\\',
            None => true,
        },
{
    lemma_alphanumeric_part(name, seq!['_', '.', '-']);
}

/// The name under which a definition is saved.
pub fn check_definition_filename(filename: &str) -> (r: Option<String>)
    ensures
        r.deep_view() == definition_filename(filename@),
{
    let clean = text::keep_alphanumeric(filename, &['_', '.', '-']);
    if text::ends_with(clean.as_str(), ".rhai") {
        Some(clean)
    } else {
        None
    }
}

}
