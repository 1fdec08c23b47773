//! What the analyzer makes of an unknown device.

use vstd::prelude::*;
use vstd::utf8::is_ascii_chars;

use crate::analyzer;
use crate::analyzer::AnalysisError;
use crate::device::DeviceModel;
use crate::laws::switching;
use crate::laws::texts;
use crate::text;

verus! {

broadcast use vstd::string::group_string_axioms;

/// The clues to a kind of device, the strongest first, in texts of small letters.
pub open spec fn clue(
    k: int,
    name: Seq<char>,
    host: Seq<char>,
    vendor: Seq<char>,
    title: Seq<char>,
    ports: Seq<u16>,
) -> bool {
    if k == 0 {
        text::has(name, "vpn"@) || text::has(host, "vpn"@) || text::has(host, "wireguard"@) || text::has(name, "wireguard"@) || text::has(host, "iphonestephan"@)
    } else if k == 1 {
        text::has(name, "ecoflow"@) || text::has(host, "ecoflow"@) || text::has(vendor, "ecoflow"@)
    } else if k == 2 {
        text::has(name, "3em"@) || text::has(host, "3em"@)
    } else if k == 3 {
        text::has(name, "hue"@) || text::has(host, "hue"@) || text::has(vendor, "philips"@)
    } else if k == 4 {
        text::has(name, "netatmo"@) || text::has(host, "netatmo"@) || text::has(vendor, "netatmo"@)
    } else if k == 5 {
        text::has(name, "synology"@) || text::has(host, "synology"@) || ports.contains(5000)
    } else if k == 6 {
        text::has(name, "repeater"@) || (text::has(host, "repeater"@) && text::has(vendor, "avm"@))
    } else if k == 7 {
        text::has(name, "awtrix"@) || text::has(host, "awtrix"@)
    } else if k == 8 {
        text::has(name, "meshtastic"@) || text::has(host, "meshtastic"@)
    } else if k == 9 {
        text::has(name, "presence"@) || text::has(host, "presence"@)
    } else if k == 10 {
        text::has(name, "fronius"@) || text::has(host, "fronius"@) || text::has(vendor, "fronius"@)
    } else if k == 11 {
        text::has(name, "miele"@) || text::has(host, "miele"@) || text::has(vendor, "miele"@)
    } else if k == 12 {
        text::has(name, "govee"@) || text::has(host, "govee"@) || "led-"@.is_prefix_of(host)
    } else if k == 13 {
        text::has(name, "switchbot"@) || text::has(host, "switchbot"@) || text::has(vendor, "woan"@)
    } else if k == 14 {
        text::has(name, "plug"@) || text::has(host, "plug"@) || text::has(host, "outlet"@) || text::has(title, "tasmota"@)
    } else if k == 15 {
        ports.contains(80) || ports.contains(8080)
    } else {
        false
    }
}

/// The kind, title and sign that each clue leads to.
pub open spec fn verdict(k: int) -> (Seq<char>, Seq<char>, Seq<char>) {
    if k == 0 {
        ("vpn"@, "VPN & Virtual Devices"@, "🛡️"@)
    } else if k == 1 {
        ("energy"@, "Solar & Energy Systems"@, "☀️"@)
    } else if k == 2 {
        ("energy"@, "Solar & Energy Systems"@, "☀️"@)
    } else if k == 3 {
        ("hub"@, "Smart Home Hubs"@, "🎛️"@)
    } else if k == 4 {
        ("sensor"@, "Sensors & Detectors"@, "🌡️"@)
    } else if k == 5 {
        ("nas"@, "Network Storage & NAS"@, "🗄️"@)
    } else if k == 6 {
        ("router"@, "Routers & Gateways"@, "🌐"@)
    } else if k == 7 {
        ("display"@, "Smart Clocks & Displays"@, "⏰"@)
    } else if k == 8 {
        ("radio"@, "LoRa & Mesh Radios"@, "📻"@)
    } else if k == 9 {
        ("sensor"@, "Sensors & Detectors"@, "👁️"@)
    } else if k == 10 {
        ("energy"@, "Solar & Energy Systems"@, "☀️"@)
    } else if k == 11 {
        ("appliance"@, "Home Appliances"@, "🧺"@)
    } else if k == 12 {
        ("lighting"@, "Smart Lighting"@, "💡"@)
    } else if k == 13 {
        ("hub"@, "Smart Home Hubs"@, "🎛️"@)
    } else if k == 14 {
        ("smart-plug"@, "Smart Plugs & Sockets"@, "🔌"@)
    } else if k == 15 {
        ("iot"@, "Smart Home & IoT"@, "💡"@)
    } else {
        ("network-device"@, "Network & Other Devices"@, "🔌"@)
    }
}

/// What is given, or nothing.
pub open spec fn given(s: Option<Seq<char>>) -> Seq<char> {
    match s {
        Some(t) => t,
        None => Seq::empty(),
    }
}

/// The strongest clue decides, whatever weaker ones there are and whatever the case of the letters; without
/// any clue the device is one of the others.
pub proof fn the_strongest_clue_decides(
    name: Seq<char>,
    host: Option<Seq<char>>,
    vendor: Option<Seq<char>>,
    ports: Seq<u16>,
    title: Option<Seq<char>>,
    k: int,
)
    requires
        ({
            let n = text::lowercase(name);
            let h = text::lowercase(given(host));
            let v = text::lowercase(given(vendor));
            let t = text::lowercase(given(title));
            &&& 0 <= k <= 16
            &&& k < 16 ==> clue(k, n, h, v, t, ports)
            &&& forall|j: int| 0 <= j < k ==> !#[trigger] clue(j, n, h, v, t, ports)
        }),
    ensures
        analyzer::suggested_category(name, host, vendor, ports, title) == verdict(k),
{
    let n = text::lowercase(name);
    let h = text::lowercase(given(host));
    let v = text::lowercase(given(vendor));
    let t = text::lowercase(given(title));
    assert(text::or_empty(host) == given(host));
    assert(text::or_empty(vendor) == given(vendor));
    assert(text::or_empty(title) == given(title));
    assert(!(k > 0) || !clue(0, n, h, v, t, ports));
    assert(!(k > 1) || !clue(1, n, h, v, t, ports));
    assert(!(k > 2) || !clue(2, n, h, v, t, ports));
    assert(!(k > 3) || !clue(3, n, h, v, t, ports));
    assert(!(k > 4) || !clue(4, n, h, v, t, ports));
    assert(!(k > 5) || !clue(5, n, h, v, t, ports));
    assert(!(k > 6) || !clue(6, n, h, v, t, ports));
    assert(!(k > 7) || !clue(7, n, h, v, t, ports));
    assert(!(k > 8) || !clue(8, n, h, v, t, ports));
    assert(!(k > 9) || !clue(9, n, h, v, t, ports));
    assert(!(k > 10) || !clue(10, n, h, v, t, ports));
    assert(!(k > 11) || !clue(11, n, h, v, t, ports));
    assert(!(k > 12) || !clue(12, n, h, v, t, ports));
    assert(!(k > 13) || !clue(13, n, h, v, t, ports));
    assert(!(k > 14) || !clue(14, n, h, v, t, ports));
    assert(!(k > 15) || !clue(15, n, h, v, t, ports));
}

/// The ports that are tried, each with the service that answers there.
pub open spec fn services() -> Seq<(u16, Seq<char>)> {
    seq![
        (21u16, "FTP File Transfer"@),
        (22u16, "SSH Terminal Access"@),
        (23u16, "Telnet Console"@),
        (53u16, "DNS Server"@),
        (80u16, "HTTP Web Interface (HMI)"@),
        (81u16, "HTTP Alternate (Admin)"@),
        (443u16, "HTTPS Web Interface"@),
        (554u16, "RTSP Video Stream"@),
        (1883u16, "MQTT Broker / Client"@),
        (1900u16, "SSDP / UPnP Discovery"@),
        (5000u16, "Synology DSM Web UI / UPnP"@),
        (5001u16, "Synology DSM HTTPS"@),
        (5060u16, "SIP VoIP Telephony"@),
        (6053u16, "ESPHome Native API"@),
        (8080u16, "HTTP Alt Web Interface"@),
        (8081u16, "HTTP Alt Admin"@),
        (8443u16, "HTTPS Alt Web Interface"@),
        (8883u16, "Secure MQTT"@),
        (9000u16, "Web Admin / Portainer"@),
    ]
}

/// Every port that is tried is told by its service, any other one as some service.
pub proof fn ports_are_told_by_their_service(i: int, other: u16)
    requires
        0 <= i < services().len(),
    ensures
        analyzer::probed_ports().len() == services().len(),
        analyzer::probed_ports()[i] == services()[i].0,
        analyzer::service(services()[i].0) == services()[i].1,
        !analyzer::probed_ports().contains(other) ==> analyzer::service(other) == "TCP Service"@,
{
    let p = analyzer::probed_ports();
    assert(i == 0 ==> p[0] == 21);
    assert(i == 1 ==> p[1] == 22);
    assert(i == 2 ==> p[2] == 23);
    assert(i == 3 ==> p[3] == 53);
    assert(i == 4 ==> p[4] == 80);
    assert(i == 5 ==> p[5] == 81);
    assert(i == 6 ==> p[6] == 443);
    assert(i == 7 ==> p[7] == 554);
    assert(i == 8 ==> p[8] == 1883);
    assert(i == 9 ==> p[9] == 1900);
    assert(i == 10 ==> p[10] == 5000);
    assert(i == 11 ==> p[11] == 5001);
    assert(i == 12 ==> p[12] == 5060);
    assert(i == 13 ==> p[13] == 6053);
    assert(i == 14 ==> p[14] == 8080);
    assert(i == 15 ==> p[15] == 8081);
    assert(i == 16 ==> p[16] == 8443);
    assert(i == 17 ==> p[17] == 8883);
    assert(i == 18 ==> p[18] == 9000);
    assert(p[0] == 21);
    assert(p[1] == 22);
    assert(p[2] == 23);
    assert(p[3] == 53);
    assert(p[4] == 80);
    assert(p[5] == 81);
    assert(p[6] == 443);
    assert(p[7] == 554);
    assert(p[8] == 1883);
    assert(p[9] == 1900);
    assert(p[10] == 5000);
    assert(p[11] == 5001);
    assert(p[12] == 5060);
    assert(p[13] == 6053);
    assert(p[14] == 8080);
    assert(p[15] == 8081);
    assert(p[16] == 8443);
    assert(p[17] == 8883);
    assert(p[18] == 9000);
}

/// Pages are looked for at the usual port first, then at the others for pages, and at no other port.
pub proof fn pages_are_looked_for_in_order(open: Seq<u16>)
    ensures
        open.contains(80) ==> analyzer::next_web_port_from(open, 0) == Some((0int, 80u16)),
        !open.contains(80) && open.contains(5000) ==> analyzer::next_web_port_from(open, 0) == Some((1int, 5000u16)),
        !open.contains(80) && !open.contains(5000) && open.contains(8080) ==> analyzer::next_web_port_from(open, 0)
            == Some((2int, 8080u16)),
        !open.contains(80) && !open.contains(5000) && !open.contains(8080) && open.contains(443)
            ==> analyzer::next_web_port_from(open, 0) == Some((3int, 443u16)),
        !open.contains(80) && !open.contains(5000) && !open.contains(8080) && !open.contains(443)
            ==> analyzer::next_web_port_from(open, 0) is None,
        open.contains(5000) ==> analyzer::next_web_port_from(open, 1) == Some((1int, 5000u16)),
        open.contains(8080) ==> analyzer::next_web_port_from(open, 2) == Some((2int, 8080u16)),
        open.contains(443) ==> analyzer::next_web_port_from(open, 3) == Some((3int, 443u16)),
        analyzer::next_web_port_from(open, 4) is None,
{
    reveal_with_fuel(analyzer::next_web_port_from, 5);
}

/// A definition claims a capability exactly where a port for it is open.
pub proof fn capabilities_come_from_open_ports(ports: Seq<u16>)
    ensures
        ({
            let c = analyzer::capabilities(ports);
            let http = ports.contains(80) || ports.contains(443) || ports.contains(5000) || ports.contains(8080);
            let mqtt = ports.contains(1883) || ports.contains(8883);
            &&& c[0] == "\"network\""@
            &&& c.contains("\"http\""@) <==> http
            &&& c.contains("\"mqtt\""@) <==> mqtt
            &&& c.contains("\"ssh\""@) <==> ports.contains(22)
            &&& c.len() == 1 + (if http { 1int } else { 0int }) + (if mqtt { 1int } else { 0int }) + (if ports.contains(22) {
                1int
            } else {
                0int
            })
        }),
{
    reveal_strlit("\"network\"");
    reveal_strlit("\"http\"");
    reveal_strlit("\"mqtt\"");
    reveal_strlit("\"ssh\"");
    let network = "\"network\""@;
    let web = "\"http\""@;
    let broker = "\"mqtt\""@;
    let shell = "\"ssh\""@;
    assert(network.len() == 9 && web.len() == 6 && broker.len() == 6 && shell.len() == 5);
    assert(web[1] == 'h' && broker[1] == 'm');
    let c = analyzer::capabilities(ports);
    let http = ports.contains(80) || ports.contains(443) || ports.contains(5000) || ports.contains(8080);
    let mqtt = ports.contains(1883) || ports.contains(8883);
    let ssh = ports.contains(22);
    let h = if http { 1int } else { 0int };
    let m = if mqtt { 1int } else { 0int };
    let k = if ssh { 1int } else { 0int };
    let two = if http {
        seq![network, web]
    } else {
        seq![network]
    };
    let three = if mqtt {
        two.push(broker)
    } else {
        two
    };
    let four = if ssh {
        three.push(shell)
    } else {
        three
    };
    assert(seq![network].push(web) =~= seq![network, web]);
    assert(c =~= four);
    assert(two.len() == 1 + h && three.len() == 1 + h + m && four.len() == 1 + h + m + k);
    assert(c[0] == network);
    if http {
        assert(c[1] == web);
    }
    if mqtt {
        assert(c[1 + h] == broker);
    }
    if ssh {
        assert(c[1 + h + m] == shell);
    }
    assert forall|i: int| 0 <= i < c.len() implies #[trigger] c[i] == network || (http && c[i] == web) || (mqtt && c[i]
        == broker) || (ssh && c[i] == shell) by {
        if i == 0 {
            assert(c[i] == network);
        } else if http && i == 1 {
            assert(c[i] == web);
        } else if mqtt && i == 1 + h {
            assert(c[i] == broker);
        } else {
            assert(ssh && i == 1 + h + m);
        }
    }
    if c.contains(web) {
        assert(c[c.index_of(web)] == web);
        assert(http);
    }
    if c.contains(broker) {
        assert(c[c.index_of(broker)] == broker);
        assert(mqtt);
    }
    if c.contains(shell) {
        assert(c[c.index_of(shell)] == shell);
        assert(ssh);
    }
}

/// A definition recognises the device by its host up to the first dot, its vendor and the title of its
/// page, as far as it has them, and only where it has none of them by its name.
pub proof fn definitions_recognise_the_device(
    name: Seq<char>,
    host: Seq<char>,
    more: Seq<char>,
    vendor: Seq<char>,
    title: Seq<char>,
)
    requires
        !host.contains('.'),
        host.len() > 0,
        vendor.len() > 0,
        title.len() > 0,
    ensures
        ({
            let by_host = "    let host = obs.hostname.to_lower();\n    host.contains(\""@ + text::lowercase(host) + "\")"@;
            let by_vendor = "    let vendor = obs.vendor.to_lower();\n    vendor.contains(\""@ + text::lowercase(vendor)
                + "\")"@;
            let by_title = "    let name = obs.name.to_lower();\n    name.contains(\""@ + text::lowercase(title) + "\")"@;
            let by_name = "    let name = obs.name.to_lower();\n    name.contains(\""@ + text::lowercase(name) + "\")"@;
            let none = Seq::<char>::empty();
            let dotted = host + seq!['.'] + more;
            &&& analyzer::rules(name, host, vendor, Some(title)) == seq![by_host, by_vendor, by_title]
            &&& analyzer::rules(name, dotted, vendor, Some(title)) == seq![by_host, by_vendor, by_title]
            &&& analyzer::rules(name, none, vendor, Some(title)) == seq![by_vendor, by_title]
            &&& analyzer::rules(name, host, none, Some(title)) == seq![by_host, by_title]
            &&& analyzer::rules(name, host, vendor, None) == seq![by_host, by_vendor]
            &&& analyzer::rules(name, none, none, Some(title)) == seq![by_title]
            &&& analyzer::rules(name, none, vendor, None) == seq![by_vendor]
            &&& analyzer::rules(name, host, none, None) == seq![by_host]
            &&& analyzer::rules(name, none, none, None) == seq![by_name]
        }),
{
    let by_host = "    let host = obs.hostname.to_lower();\n    host.contains(\""@ + text::lowercase(host) + "\")"@;
    let by_vendor = "    let vendor = obs.vendor.to_lower();\n    vendor.contains(\""@ + text::lowercase(vendor) + "\")"@;
    let by_title = "    let name = obs.name.to_lower();\n    name.contains(\""@ + text::lowercase(title) + "\")"@;
    let by_name = "    let name = obs.name.to_lower();\n    name.contains(\""@ + text::lowercase(name) + "\")"@;
    let none = Seq::<char>::empty();
    let dotted = host + seq!['.'] + more;
    texts::lemma_split_piece(host, '.');
    texts::lemma_split_both(host, more, '.');
    assert(analyzer::short_host(host) == host);
    assert(text::split_at_char(dotted, '.')[0] == host);
    assert(analyzer::rules(name, host, vendor, Some(title)) =~= seq![by_host, by_vendor, by_title]);
    assert(analyzer::rules(name, dotted, vendor, Some(title)) =~= seq![by_host, by_vendor, by_title]);
    assert(analyzer::rules(name, none, vendor, Some(title)) =~= seq![by_vendor, by_title]);
    assert(analyzer::rules(name, host, none, Some(title)) =~= seq![by_host, by_title]);
    assert(analyzer::rules(name, host, vendor, None) =~= seq![by_host, by_vendor]);
    assert(analyzer::rules(name, none, none, Some(title)) =~= seq![by_title]);
    assert(analyzer::rules(name, none, vendor, None) =~= seq![by_vendor]);
    assert(analyzer::rules(name, host, none, None) =~= seq![by_host]);
    assert(analyzer::rules(name, none, none, None) =~= seq![by_name]);
}

/// A definition holds the id, the name, the kind, title and sign, the capabilities and the rules, each in its
/// place.
pub proof fn definitions_hold_what_they_define(
    id: Seq<char>,
    name: Seq<char>,
    host: Seq<char>,
    vendor: Seq<char>,
    category: Seq<char>,
    title: Seq<char>,
    icon: Seq<char>,
    ports: Seq<u16>,
    page: Option<Seq<char>>,
)
    ensures
        ({
            let script = analyzer::rhai_script(id, name, host, vendor, category, title, icon, ports, page);
            &&& text::has(script, id + "\",\n        name: \""@ + name + "\",\n        category: \""@ + category
                + "\",\n        category_title: \""@ + title + "\",\n        category_icon: \""@ + icon
                + "\",\n        capabilities: ["@ + text::joined(analyzer::capabilities(ports), ", "@))
            &&& text::has(script, text::joined(analyzer::rules(name, host, vendor, page), " ||\n"@))
        }),
{
    let script = analyzer::rhai_script(id, name, host, vendor, category, title, icon, ports, page);
    let caps = text::joined(analyzer::capabilities(ports), ", "@);
    let rules = text::joined(analyzer::rules(name, host, vendor, page), " ||\n"@);
    let front = analyzer::DEFINITION_0@ + name + analyzer::DEFINITION_1@;
    let middle = id + analyzer::DEFINITION_2@ + name + analyzer::DEFINITION_3@ + category + analyzer::DEFINITION_4@ + title
        + analyzer::DEFINITION_5@ + icon + analyzer::DEFINITION_6@ + caps;
    assert(script =~= front + middle + (analyzer::DEFINITION_7@ + rules + analyzer::DEFINITION_8@));
    texts::lemma_stands_between(front, middle, analyzer::DEFINITION_7@ + rules + analyzer::DEFINITION_8@);
    assert(script =~= front + middle + analyzer::DEFINITION_7@ + rules + analyzer::DEFINITION_8@);
    texts::lemma_stands_between(front + middle + analyzer::DEFINITION_7@, rules, analyzer::DEFINITION_8@);
}


/// The device that is asked for is analyzed at the address it reports, else at the one its id spells;
/// where that is no address, and where nobody has the id, that is told.
pub proof fn known_devices_are_analyzed(devices: Seq<DeviceModel>, d: DeviceModel, rest: Seq<char>)
    requires
        switching::first_of_its_id(devices, d),
    ensures
        d.metadata.contains_key("ip"@) && text::is_ipv4(d.metadata["ip"@]) ==> analyzer::analysis_target(
            devices,
            d.device_id,
        ) == Ok::<(DeviceModel, Seq<char>), AnalysisError>((d, d.metadata["ip"@])),
        d.metadata.contains_key("ip"@) && !text::is_ipv4(d.metadata["ip"@]) ==> analyzer::analysis_target(
            devices,
            d.device_id,
        ) == Err::<(DeviceModel, Seq<char>), AnalysisError>(AnalysisError::InvalidDeviceIp),
        !d.metadata.contains_key("ip"@) && d.device_id == "net-"@ + rest && !rest.contains('n') ==> (match analyzer::analysis_target(
            devices,
            d.device_id,
        ) {
            Ok(found) => found.0 == d && found.1.len() == rest.len() && forall|i: int|
                0 <= i < rest.len() ==> #[trigger] found.1[i] == (if rest[i] == '-' {
                    '.'
                } else {
                    rest[i]
                }),
            Err(e) => e == AnalysisError::InvalidDeviceIp,
        }),
{
    switching::lemma_first(devices, d);
    if !d.metadata.contains_key("ip"@) && d.device_id == "net-"@ + rest && !rest.contains('n') {
        reveal_strlit("net-");
        texts::lemma_mark_removed("net-"@, rest);
        texts::lemma_hyphens(rest);
    }
}

/// A device that nobody reports is not analyzed.
pub proof fn unknown_devices_are_not_analyzed(devices: Seq<DeviceModel>, id: Seq<char>)
    requires
        forall|i: int| 0 <= i < devices.len() ==> (#[trigger] devices[i]).device_id != id,
    ensures
        analyzer::analysis_target(devices, id) == Err::<(DeviceModel, Seq<char>), AnalysisError>(
            AnalysisError::DeviceNotFound,
        ),
{
    switching::lemma_nobody(devices, id);
}

/// An analysis tells what was found of the device, as it was found, and suggests by the same findings.
pub proof fn analyses_tell_what_was_found(
    id: Seq<char>,
    d: DeviceModel,
    ip: Seq<char>,
    ports: Seq<u16>,
    server: Option<Seq<char>>,
    title: Option<Seq<char>>,
)
    ensures
        ({
            let a = analyzer::analysis(id, d, ip, ports, server, title);
            let host = if d.metadata.contains_key("hostname"@) {
                Some(d.metadata["hostname"@])
            } else {
                None
            };
            let vendor = if d.metadata.contains_key("vendor"@) {
                Some(d.metadata["vendor"@])
            } else {
                None
            };
            let none = Seq::<char>::empty();
            &&& a.device_id == d.device_id
            &&& a.ip == ip
            &&& d.metadata.contains_key("mac"@) ==> a.mac == Some(d.metadata["mac"@])
            &&& !d.metadata.contains_key("mac"@) ==> a.mac is None
            &&& a.hostname == host
            &&& a.vendor == vendor
            &&& a.open_ports.to_multiset() == ports.to_multiset()
            &&& forall|i: int, j: int| 0 <= i < j < a.open_ports.len() ==> a.open_ports[i] <= a.open_ports[j]
            &&& a.total_ports_scanned == 19
            &&& a.http_title == title
            &&& a.http_server == server
            &&& (a.suggested_category, a.suggested_title, a.suggested_icon) == analyzer::suggested_category(
                d.display_name,
                host,
                vendor,
                ports,
                title,
            )
            &&& ".rhai"@.is_suffix_of(a.suggested_filename)
            &&& a.suggested_rhai_script == analyzer::rhai_script(
                a.suggested_filename.take(a.suggested_filename.len() - ".rhai"@.len()),
                d.display_name,
                if host is Some { host->0 } else { none },
                if vendor is Some { vendor->0 } else { none },
                a.suggested_category,
                a.suggested_title,
                a.suggested_icon,
                a.open_ports,
                title,
            )
        }),
{
    let a = analyzer::analysis(id, d, ip, ports, server, title);
    analyzer::sorted_ports_ascend(ports);
    lemma_same(d.display_name);
    let host = d.meta("hostname"@);
    let vendor = d.meta("vendor"@);
    lemma_same(text::or_empty(host));
    lemma_same(text::or_empty(vendor));
    lemma_same(text::or_empty(title));
    analyzer::suggestions_look_past_case_and_order(
        d.display_name,
        host,
        vendor,
        a.open_ports,
        title,
        d.display_name,
        host,
        vendor,
        ports,
        title,
    );
    let stem = analyzer::script_name(id);
    assert(a.suggested_filename.take(a.suggested_filename.len() - ".rhai"@.len()) =~= stem);
    assert(a.suggested_filename.skip(a.suggested_filename.len() - ".rhai"@.len()) =~= ".rhai"@);
    assert(a.suggested_filename.subrange(
        a.suggested_filename.len() - ".rhai"@.len(),
        a.suggested_filename.len() as int,
    ) =~= ".rhai"@);
}

proof fn lemma_same(s: Seq<char>)
    ensures
        text::same_ignoring_ascii_case(s, s),
{
}

/// A definition is suggested under the device's id, in small letters, without the mark of a network
/// device, and with underscores in place of dots and hyphens.
pub proof fn definitions_are_named_after_the_device(
    rest: Seq<char>,
    d: DeviceModel,
    ip: Seq<char>,
    ports: Seq<u16>,
    server: Option<Seq<char>>,
    title: Option<Seq<char>>,
)
    requires
        is_ascii_chars(rest),
        !rest.contains('n'),
    ensures
        ({
            let name = analyzer::analysis("net-"@ + rest, d, ip, ports, server, title).suggested_filename;
            &&& name.len() == rest.len() + 5
            &&& forall|i: int|
                0 <= i < rest.len() ==> #[trigger] name[i] == (if rest[i] == '-' || rest[i] == '.' {
                    '_'
                } else if 'A' <= rest[i] <= 'Z' {
                    ((rest[i] as u8) + 32) as char
                } else {
                    rest[i]
                })
        }),
{
    reveal_strlit("net-");
    reveal_strlit(".rhai");
    reveal_strlit("_");
    texts::lemma_mark_removed("net-"@, rest);
    texts::lemma_one_replaced(rest, '.', "_"@);
    let once = text::char_replaced(rest, '.', "_"@);
    texts::lemma_one_replaced(once, '-', "_"@);
    let twice = text::char_replaced(once, '-', "_"@);
    assert forall|i: int| 0 <= i < twice.len() implies #[trigger] twice[i] <= '\u{7f}' by {
        assert(once[i] == (if rest[i] == '.' { '_' } else { rest[i] }));
    }
    assert(is_ascii_chars(twice));
    assert forall|i: int| 0 <= i < rest.len() implies #[trigger] (text::lowercase(twice) + ".rhai"@)[i] == (if rest[i] == '-'
        || rest[i] == '.' {
        '_'
    } else if 'A' <= rest[i] <= 'Z' {
        ((rest[i] as u8) + 32) as char
    } else {
        rest[i]
    }) by {
        assert(once[i] == (if rest[i] == '.' { '_' } else { rest[i] }));
        assert(twice[i] == (if once[i] == '-' { '_' } else { once[i] }));
    }
}

/// A plain name is saved as it is where it is that of a definition, and else refused; what is not
/// plain is left out of it.
pub proof fn definitions_are_saved_under_their_name(name: Seq<char>, c: char)
    requires
        forall|i: int|
            0 <= i < name.len() ==> 'a' <= #[trigger] name[i] <= 'z' || 'A' <= name[i] <= 'Z' || '0' <= name[i] <= '9'
                || name[i] == '_' || name[i] == '.' || name[i] == '-',
    ensures
        ".rhai"@.is_suffix_of(name) ==> analyzer::definition_filename(name) == Some(name),
        !".rhai"@.is_suffix_of(name) ==> analyzer::definition_filename(name) is None,
        c == '/' || c == ' ' || c == ':' ==> analyzer::definition_filename(seq![c] + name)
            == analyzer::definition_filename(name),
{
    lemma_kept(name);
    if c == '/' || c == ' ' || c == ':' {
        lemma_left_out(name, c);
    }
}

proof fn lemma_kept(name: Seq<char>)
    requires
        forall|i: int|
            0 <= i < name.len() ==> 'a' <= #[trigger] name[i] <= 'z' || 'A' <= name[i] <= 'Z' || '0' <= name[i] <= '9'
                || name[i] == '_' || name[i] == '.' || name[i] == '-',
    ensures
        text::alphanumeric_part(name, seq!['_', '.', '-']) == name,
    decreases name.len(),
{
    if name.len() > 0 {
        let set = seq!['_', '.', '-'];
        assert(set[0] == '_' && set[1] == '.' && set[2] == '-');
        lemma_kept(name.drop_last());
        let l = name[name.len() - 1];
        assert(name.drop_last().push(l) =~= name);
    } else {
        assert(name =~= Seq::<char>::empty());
    }
}

proof fn lemma_left_out(name: Seq<char>, c: char)
    requires
        c == '/' || c == ' ' || c == ':',
    ensures
        text::alphanumeric_part(seq![c] + name, seq!['_', '.', '-']) == text::alphanumeric_part(
            name,
            seq!['_', '.', '-'],
        ),
    decreases name.len(),
{
    let s = seq![c] + name;
    if name.len() > 0 {
        assert(s.drop_last() =~= seq![c] + name.drop_last());
        lemma_left_out(name.drop_last(), c);
    } else {
        let set = seq!['_', '.', '-'];
        assert(s.drop_last() =~= Seq::<char>::empty());
        assert(name =~= Seq::<char>::empty());
        assert(!set.contains(c));
    }
}

}
