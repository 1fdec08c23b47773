//! The categories under which devices are listed.

use vstd::prelude::*;

use crate::text;

verus! {

broadcast use vstd::string::group_string_axioms;

/// The title and the icon of a category where a device brings none.
pub open spec fn presentation(key: Seq<char>) -> (Seq<char>, Seq<char>) {
    if key == "button"@ {
        ("Buttons & Remote Controls"@, "🔘"@)
    } else if key == "sensor"@ {
        ("Sensors & Detectors"@, "👁️"@)
    } else if key == "contact-sensor"@ {
        ("Doors & Windows"@, "🚪"@)
    } else if key == "motion-sensor"@ {
        ("Motion Detectors"@, "🚶"@)
    } else if key == "phone"@ {
        ("Smartphones"@, "📱"@)
    } else if key == "tablet"@ {
        ("Tablets"@, "📟"@)
    } else if key == "voip-phone"@ {
        ("VoIP Phones"@, "☎️"@)
    } else if key == "computer"@ {
        ("Computers & Laptops"@, "💻"@)
    } else if key == "nas"@ {
        ("Network Storage & NAS"@, "🗄️"@)
    } else if key == "router"@ {
        ("Routers & Gateways"@, "🌐"@)
    } else if key == "lighting"@ {
        ("Smart Lighting"@, "💡"@)
    } else if key == "smart-plug"@ {
        ("Smart Plugs & Sockets"@, "🔌"@)
    } else if key == "display"@ {
        ("Smart Clocks & Displays"@, "⏰"@)
    } else if key == "energy"@ {
        ("Solar & Energy Systems"@, "☀️"@)
    } else if key == "appliance"@ {
        ("Home Appliances"@, "🧺"@)
    } else if key == "radio"@ {
        ("LoRa & Mesh Radios"@, "📻"@)
    } else if key == "hub"@ {
        ("Smart Home Hubs"@, "🎛️"@)
    } else if key == "iot"@ {
        ("Smart Home & IoT"@, "💡"@)
    } else if key == "wearable"@ {
        ("Wearables"@, "⌚"@)
    } else if key == "camera"@ {
        ("Cameras"@, "📷"@)
    } else if key == "audio"@ {
        ("Audio & Speakers"@, "🔊"@)
    } else if key == "printer"@ {
        ("Printers"@, "🖨️"@)
    } else if key == "3d-printer"@ {
        ("3D Printers & Makers"@, "🧊"@)
    } else if key == "streaming"@ {
        ("TV & Streaming"@, "📺"@)
    } else if key == "vpn"@ {
        ("VPN & Virtual Devices"@, "🛡️"@)
    } else {
        ("Network & Other Devices"@, "🔌"@)
    }
}

/// The category that a title stands for, if any.
pub open spec fn key_of_title(title: Seq<char>) -> Option<Seq<char>> {
    if title == "Buttons & Remote Controls"@ || title == "Buttons"@ || title == "Taster & Schalter"@ || title == "Remote Controls & Switches"@ || title == "Wall Switch"@ || title == "Wandschalter"@ {
        Some("button"@)
    } else if title == "Doors & Windows"@ || title == "Door & Window"@ || title == "Tür & Fenster"@ {
        Some("contact-sensor"@)
    } else if title == "Motion Detectors"@ || title == "Motion"@ || title == "Bewegungsmelder"@ {
        Some("motion-sensor"@)
    } else if title == "Smartphones"@ {
        Some("phone"@)
    } else if title == "Tablets"@ {
        Some("tablet"@)
    } else if title == "VoIP Phones"@ {
        Some("voip-phone"@)
    } else if title == "Computers & Laptops"@ {
        Some("computer"@)
    } else if title == "Network Storage & NAS"@ {
        Some("nas"@)
    } else if title == "Routers & Gateways"@ {
        Some("router"@)
    } else if title == "Network Switches"@ || title == "Switches"@ || title == "Netzwerk-Switches"@ {
        Some("switch"@)
    } else if title == "Smart Lighting"@ {
        Some("lighting"@)
    } else if title == "Smart Plugs & Sockets"@ {
        Some("smart-plug"@)
    } else if title == "Smart Clocks & Displays"@ {
        Some("display"@)
    } else if title == "Sensors & Detectors"@ {
        Some("sensor"@)
    } else if title == "Solar & Energy Systems"@ {
        Some("energy"@)
    } else if title == "Home Appliances"@ {
        Some("appliance"@)
    } else if title == "LoRa & Mesh Radios"@ {
        Some("radio"@)
    } else if title == "Smart Home Hubs"@ {
        Some("hub"@)
    } else if title == "Smart Home & IoT"@ {
        Some("iot"@)
    } else if title == "Wearables"@ {
        Some("wearable"@)
    } else if title == "Cameras"@ {
        Some("camera"@)
    } else if title == "Audio & Speakers"@ {
        Some("audio"@)
    } else if title == "Printers"@ {
        Some("printer"@)
    } else if title == "3D Printers & Makers"@ || title == "3D-Drucker"@ || title == "3D Drucker"@ {
        Some("3d-printer"@)
    } else if title == "TV & Streaming"@ {
        Some("streaming"@)
    } else if title == "VPN & Virtual Devices"@ {
        Some("vpn"@)
    } else {
        None
    }
}

/// The category that a key stands for.
pub open spec fn key_of_key(key: Seq<char>) -> Seq<char> {
    if key == "button"@ || key == "buttons"@ || key == "remote"@ {
        "button"@
    } else if key == "contact-sensor"@ || key == "door"@ || key == "window"@ {
        "contact-sensor"@
    } else if key == "motion-sensor"@ || key == "motion"@ {
        "motion-sensor"@
    } else if key == "phone"@ || key == "smartphone"@ || key == "smartphones"@ {
        "phone"@
    } else if key == "tablet"@ || key == "tablets"@ || key == "ipad"@ {
        "tablet"@
    } else if key == "voip-phone"@ || key == "voip"@ {
        "voip-phone"@
    } else if key == "computer"@ || key == "computers"@ || key == "laptop"@ || key == "pc"@ {
        "computer"@
    } else if key == "nas"@ {
        "nas"@
    } else if key == "router"@ || key == "gateway"@ {
        "router"@
    } else if key == "switch"@ || key == "switches"@ {
        "switch"@
    } else if key == "lighting"@ || key == "light"@ {
        "lighting"@
    } else if key == "smart-plug"@ || key == "plug"@ {
        "smart-plug"@
    } else if key == "display"@ {
        "display"@
    } else if key == "sensor"@ {
        "sensor"@
    } else if key == "energy"@ {
        "energy"@
    } else if key == "appliance"@ {
        "appliance"@
    } else if key == "radio"@ {
        "radio"@
    } else if key == "hub"@ {
        "hub"@
    } else if key == "iot"@ {
        "iot"@
    } else if key == "wearable"@ {
        "wearable"@
    } else if key == "camera"@ {
        "camera"@
    } else if key == "audio"@ {
        "audio"@
    } else if key == "printer"@ {
        "printer"@
    } else if key == "3d-printer"@ || key == "3d_printer"@ || key == "3dprinter"@ {
        "3d-printer"@
    } else if key == "streaming"@ {
        "streaming"@
    } else if key == "vpn"@ {
        "vpn"@
    } else {
        "network-device"@
    }
}

/// The category of a device that reports `key` and `title`: the title decides where it is
/// known, else the key.
pub open spec fn canonical_key(key: Seq<char>, title: Seq<char>) -> Seq<char> {
    text::or_text(key_of_title(title), key_of_key(key))
}

/// The place of a category in the list.
pub open spec fn sort_order(key: Seq<char>) -> u32 {
    if key == "button"@ {
        1
    } else if key == "sensor"@ {
        2
    } else if key == "contact-sensor"@ {
        3
    } else if key == "motion-sensor"@ {
        4
    } else if key == "phone"@ {
        5
    } else if key == "tablet"@ {
        6
    } else if key == "voip-phone"@ {
        7
    } else if key == "computer"@ {
        8
    } else if key == "nas"@ {
        9
    } else if key == "router"@ {
        10
    } else if key == "switch"@ {
        11
    } else if key == "lighting"@ {
        12
    } else if key == "smart-plug"@ {
        13
    } else if key == "display"@ {
        14
    } else if key == "energy"@ {
        15
    } else if key == "appliance"@ {
        16
    } else if key == "radio"@ {
        17
    } else if key == "hub"@ {
        18
    } else if key == "iot"@ {
        19
    } else if key == "wearable"@ {
        20
    } else if key == "camera"@ {
        18
    } else if key == "audio"@ {
        19
    } else if key == "printer"@ {
        20
    } else if key == "3d-printer"@ {
        21
    } else if key == "streaming"@ {
        22
    } else if key == "vpn"@ {
        23
    } else if key == "network-device"@ {
        99
    } else {
        50
    }
}

/// The title and the icon of a category where a device brings none.
pub fn default_category_presentation(key: &str) -> (r: (&'static str, &'static str))
    ensures
        (r.0@, r.1@) == presentation(key@),
{
    if text::same(key, "button") {
        ("Buttons & Remote Controls", "🔘")
    } else if text::same(key, "sensor") {
        ("Sensors & Detectors", "👁️")
    } else if text::same(key, "contact-sensor") {
        ("Doors & Windows", "🚪")
    } else if text::same(key, "motion-sensor") {
        ("Motion Detectors", "🚶")
    } else if text::same(key, "phone") {
        ("Smartphones", "📱")
    } else if text::same(key, "tablet") {
        ("Tablets", "📟")
    } else if text::same(key, "voip-phone") {
        ("VoIP Phones", "☎️")
    } else if text::same(key, "computer") {
        ("Computers & Laptops", "💻")
    } else if text::same(key, "nas") {
        ("Network Storage & NAS", "🗄️")
    } else if text::same(key, "router") {
        ("Routers & Gateways", "🌐")
    } else if text::same(key, "lighting") {
        ("Smart Lighting", "💡")
    } else if text::same(key, "smart-plug") {
        ("Smart Plugs & Sockets", "🔌")
    } else if text::same(key, "display") {
        ("Smart Clocks & Displays", "⏰")
    } else if text::same(key, "energy") {
        ("Solar & Energy Systems", "☀️")
    } else if text::same(key, "appliance") {
        ("Home Appliances", "🧺")
    } else if text::same(key, "radio") {
        ("LoRa & Mesh Radios", "📻")
    } else if text::same(key, "hub") {
        ("Smart Home Hubs", "🎛️")
    } else if text::same(key, "iot") {
        ("Smart Home & IoT", "💡")
    } else if text::same(key, "wearable") {
        ("Wearables", "⌚")
    } else if text::same(key, "camera") {
        ("Cameras", "📷")
    } else if text::same(key, "audio") {
        ("Audio & Speakers", "🔊")
    } else if text::same(key, "printer") {
        ("Printers", "🖨️")
    } else if text::same(key, "3d-printer") {
        ("3D Printers & Makers", "🧊")
    } else if text::same(key, "streaming") {
        ("TV & Streaming", "📺")
    } else if text::same(key, "vpn") {
        ("VPN & Virtual Devices", "🛡️")
    } else {
        ("Network & Other Devices", "🔌")
    }
}

fn known_title(title: &str) -> (r: Option<&'static str>)
    ensures
        r.deep_view() == key_of_title(title@),
{
    if text::same(title, "Buttons & Remote Controls") || text::same(title, "Buttons") || text::same(title, "Taster & Schalter") || text::same(title, "Remote Controls & Switches") || text::same(title, "Wall Switch") || text::same(title, "Wandschalter") {
        Some("button")
    } else if text::same(title, "Doors & Windows") || text::same(title, "Door & Window") || text::same(title, "Tür & Fenster") {
        Some("contact-sensor")
    } else if text::same(title, "Motion Detectors") || text::same(title, "Motion") || text::same(title, "Bewegungsmelder") {
        Some("motion-sensor")
    } else if text::same(title, "Smartphones") {
        Some("phone")
    } else if text::same(title, "Tablets") {
        Some("tablet")
    } else if text::same(title, "VoIP Phones") {
        Some("voip-phone")
    } else if text::same(title, "Computers & Laptops") {
        Some("computer")
    } else if text::same(title, "Network Storage & NAS") {
        Some("nas")
    } else if text::same(title, "Routers & Gateways") {
        Some("router")
    } else if text::same(title, "Network Switches") || text::same(title, "Switches") || text::same(title, "Netzwerk-Switches") {
        Some("switch")
    } else if text::same(title, "Smart Lighting") {
        Some("lighting")
    } else if text::same(title, "Smart Plugs & Sockets") {
        Some("smart-plug")
    } else if text::same(title, "Smart Clocks & Displays") {
        Some("display")
    } else if text::same(title, "Sensors & Detectors") {
        Some("sensor")
    } else if text::same(title, "Solar & Energy Systems") {
        Some("energy")
    } else if text::same(title, "Home Appliances") {
        Some("appliance")
    } else if text::same(title, "LoRa & Mesh Radios") {
        Some("radio")
    } else if text::same(title, "Smart Home Hubs") {
        Some("hub")
    } else if text::same(title, "Smart Home & IoT") {
        Some("iot")
    } else if text::same(title, "Wearables") {
        Some("wearable")
    } else if text::same(title, "Cameras") {
        Some("camera")
    } else if text::same(title, "Audio & Speakers") {
        Some("audio")
    } else if text::same(title, "Printers") {
        Some("printer")
    } else if text::same(title, "3D Printers & Makers") || text::same(title, "3D-Drucker") || text::same(title, "3D Drucker") {
        Some("3d-printer")
    } else if text::same(title, "TV & Streaming") {
        Some("streaming")
    } else if text::same(title, "VPN & Virtual Devices") {
        Some("vpn")
    } else {
        None
    }
}

fn known_key(key: &str) -> (r: &'static str)
    ensures
        r@ == key_of_key(key@),
{
    if text::same(key, "button") || text::same(key, "buttons") || text::same(key, "remote") {
        "button"
    } else if text::same(key, "contact-sensor") || text::same(key, "door") || text::same(key, "window") {
        "contact-sensor"
    } else if text::same(key, "motion-sensor") || text::same(key, "motion") {
        "motion-sensor"
    } else if text::same(key, "phone") || text::same(key, "smartphone") || text::same(key, "smartphones") {
        "phone"
    } else if text::same(key, "tablet") || text::same(key, "tablets") || text::same(key, "ipad") {
        "tablet"
    } else if text::same(key, "voip-phone") || text::same(key, "voip") {
        "voip-phone"
    } else if text::same(key, "computer") || text::same(key, "computers") || text::same(key, "laptop") || text::same(key, "pc") {
        "computer"
    } else if text::same(key, "nas") {
        "nas"
    } else if text::same(key, "router") || text::same(key, "gateway") {
        "router"
    } else if text::same(key, "switch") || text::same(key, "switches") {
        "switch"
    } else if text::same(key, "lighting") || text::same(key, "light") {
        "lighting"
    } else if text::same(key, "smart-plug") || text::same(key, "plug") {
        "smart-plug"
    } else if text::same(key, "display") {
        "display"
    } else if text::same(key, "sensor") {
        "sensor"
    } else if text::same(key, "energy") {
        "energy"
    } else if text::same(key, "appliance") {
        "appliance"
    } else if text::same(key, "radio") {
        "radio"
    } else if text::same(key, "hub") {
        "hub"
    } else if text::same(key, "iot") {
        "iot"
    } else if text::same(key, "wearable") {
        "wearable"
    } else if text::same(key, "camera") {
        "camera"
    } else if text::same(key, "audio") {
        "audio"
    } else if text::same(key, "printer") {
        "printer"
    } else if text::same(key, "3d-printer") || text::same(key, "3d_printer") || text::same(key, "3dprinter") {
        "3d-printer"
    } else if text::same(key, "streaming") {
        "streaming"
    } else if text::same(key, "vpn") {
        "vpn"
    } else {
        "network-device"
    }
}

/// The category of a device that reports `key` and `title`.
pub fn canonical_category_key(key: &str, title: &str) -> (r: &'static str)
    ensures
        r@ == canonical_key(key@, title@),
{
    match known_title(title) {
        Some(known) => known,
        None => known_key(key),
    }
}

/// The place of a category in the list.
pub fn category_sort_order(key: &str) -> (r: u32)
    ensures
        r == sort_order(key@),
{
    if text::same(key, "button") {
        1
    } else if text::same(key, "sensor") {
        2
    } else if text::same(key, "contact-sensor") {
        3
    } else if text::same(key, "motion-sensor") {
        4
    } else if text::same(key, "phone") {
        5
    } else if text::same(key, "tablet") {
        6
    } else if text::same(key, "voip-phone") {
        7
    } else if text::same(key, "computer") {
        8
    } else if text::same(key, "nas") {
        9
    } else if text::same(key, "router") {
        10
    } else if text::same(key, "switch") {
        11
    } else if text::same(key, "lighting") {
        12
    } else if text::same(key, "smart-plug") {
        13
    } else if text::same(key, "display") {
        14
    } else if text::same(key, "energy") {
        15
    } else if text::same(key, "appliance") {
        16
    } else if text::same(key, "radio") {
        17
    } else if text::same(key, "hub") {
        18
    } else if text::same(key, "iot") {
        19
    } else if text::same(key, "wearable") {
        20
    } else if text::same(key, "camera") {
        18
    } else if text::same(key, "audio") {
        19
    } else if text::same(key, "printer") {
        20
    } else if text::same(key, "3d-printer") {
        21
    } else if text::same(key, "streaming") {
        22
    } else if text::same(key, "vpn") {
        23
    } else if text::same(key, "network-device") {
        99
    } else {
        50
    }
}

// ---------------------------------------------------------------------------------------
// What holds of the categories
// ---------------------------------------------------------------------------------------

/// `s` has `n` characters, and begins with the two given ones.
pub open spec fn begins(s: Seq<char>, n: nat, first: char, second: char) -> bool {
    s.len() == n && s[0] == first && s[1] == second
}

/// What tells the words for categories and the titles apart.
pub proof fn lemma_words()
    ensures
        begins("button"@, 6, 'b', 'u'),
        begins("buttons"@, 7, 'b', 'u'),
        begins("remote"@, 6, 'r', 'e'),
        begins("contact-sensor"@, 14, 'c', 'o'),
        begins("door"@, 4, 'd', 'o'),
        begins("window"@, 6, 'w', 'i'),
        begins("motion-sensor"@, 13, 'm', 'o'),
        begins("motion"@, 6, 'm', 'o'),
        begins("phone"@, 5, 'p', 'h'),
        begins("smartphone"@, 10, 's', 'm'),
        begins("smartphones"@, 11, 's', 'm'),
        begins("tablet"@, 6, 't', 'a'),
        begins("tablets"@, 7, 't', 'a'),
        begins("ipad"@, 4, 'i', 'p'),
        begins("voip-phone"@, 10, 'v', 'o'),
        begins("voip"@, 4, 'v', 'o'),
        begins("computer"@, 8, 'c', 'o'),
        begins("computers"@, 9, 'c', 'o'),
        begins("laptop"@, 6, 'l', 'a'),
        begins("pc"@, 2, 'p', 'c'),
        begins("nas"@, 3, 'n', 'a'),
        begins("router"@, 6, 'r', 'o'),
        begins("gateway"@, 7, 'g', 'a'),
        begins("switch"@, 6, 's', 'w'),
        begins("switches"@, 8, 's', 'w'),
        begins("lighting"@, 8, 'l', 'i'),
        begins("light"@, 5, 'l', 'i'),
        begins("smart-plug"@, 10, 's', 'm'),
        begins("plug"@, 4, 'p', 'l'),
        begins("display"@, 7, 'd', 'i'),
        begins("sensor"@, 6, 's', 'e'),
        begins("energy"@, 6, 'e', 'n'),
        begins("appliance"@, 9, 'a', 'p'),
        begins("radio"@, 5, 'r', 'a'),
        begins("hub"@, 3, 'h', 'u'),
        begins("iot"@, 3, 'i', 'o'),
        begins("wearable"@, 8, 'w', 'e'),
        begins("camera"@, 6, 'c', 'a'),
        begins("audio"@, 5, 'a', 'u'),
        begins("printer"@, 7, 'p', 'r'),
        begins("3d-printer"@, 10, '3', 'd'),
        begins("3d_printer"@, 10, '3', 'd'),
        begins("3dprinter"@, 9, '3', 'd'),
        begins("streaming"@, 9, 's', 't'),
        begins("vpn"@, 3, 'v', 'p'),
        begins("network-device"@, 14, 'n', 'e'),
        begins("Buttons & Remote Controls"@, 25, 'B', 'u'),
        begins("Buttons"@, 7, 'B', 'u'),
        begins("Taster & Schalter"@, 17, 'T', 'a'),
        begins("Remote Controls & Switches"@, 26, 'R', 'e'),
        begins("Wall Switch"@, 11, 'W', 'a'),
        begins("Wandschalter"@, 12, 'W', 'a'),
        begins("Doors & Windows"@, 15, 'D', 'o'),
        begins("Door & Window"@, 13, 'D', 'o'),
        begins("Tür & Fenster"@, 13, 'T', 'ü'),
        begins("Motion Detectors"@, 16, 'M', 'o'),
        begins("Motion"@, 6, 'M', 'o'),
        begins("Bewegungsmelder"@, 15, 'B', 'e'),
        begins("Smartphones"@, 11, 'S', 'm'),
        begins("Tablets"@, 7, 'T', 'a'),
        begins("VoIP Phones"@, 11, 'V', 'o'),
        begins("Computers & Laptops"@, 19, 'C', 'o'),
        begins("Network Storage & NAS"@, 21, 'N', 'e'),
        begins("Routers & Gateways"@, 18, 'R', 'o'),
        begins("Network Switches"@, 16, 'N', 'e'),
        begins("Switches"@, 8, 'S', 'w'),
        begins("Netzwerk-Switches"@, 17, 'N', 'e'),
        begins("Smart Lighting"@, 14, 'S', 'm'),
        begins("Smart Plugs & Sockets"@, 21, 'S', 'm'),
        begins("Smart Clocks & Displays"@, 23, 'S', 'm'),
        begins("Sensors & Detectors"@, 19, 'S', 'e'),
        begins("Solar & Energy Systems"@, 22, 'S', 'o'),
        begins("Home Appliances"@, 15, 'H', 'o'),
        begins("LoRa & Mesh Radios"@, 18, 'L', 'o'),
        begins("Smart Home Hubs"@, 15, 'S', 'm'),
        begins("Smart Home & IoT"@, 16, 'S', 'm'),
        begins("Wearables"@, 9, 'W', 'e'),
        begins("Cameras"@, 7, 'C', 'a'),
        begins("Audio & Speakers"@, 16, 'A', 'u'),
        begins("Printers"@, 8, 'P', 'r'),
        begins("3D Printers & Makers"@, 20, '3', 'D'),
        begins("3D-Drucker"@, 10, '3', 'D'),
        begins("3D Drucker"@, 10, '3', 'D'),
        begins("TV & Streaming"@, 14, 'T', 'V'),
        begins("VPN & Virtual Devices"@, 21, 'V', 'P'),
        begins("Network & Other Devices"@, 23, 'N', 'e'),
        "smartphone"@[5] == 'p',
        "smart-plug"@[5] == '-',
        "3d-printer"@[2] == '-',
        "3d_printer"@[2] == '_',
        "3D-Drucker"@[2] == '-',
        "3D Drucker"@[2] == ' ',
{
    reveal_strlit("button");
    reveal_strlit("buttons");
    reveal_strlit("remote");
    reveal_strlit("contact-sensor");
    reveal_strlit("door");
    reveal_strlit("window");
    reveal_strlit("motion-sensor");
    reveal_strlit("motion");
    reveal_strlit("phone");
    reveal_strlit("smartphone");
    reveal_strlit("smartphones");
    reveal_strlit("tablet");
    reveal_strlit("tablets");
    reveal_strlit("ipad");
    reveal_strlit("voip-phone");
    reveal_strlit("voip");
    reveal_strlit("computer");
    reveal_strlit("computers");
    reveal_strlit("laptop");
    reveal_strlit("pc");
    reveal_strlit("nas");
    reveal_strlit("router");
    reveal_strlit("gateway");
    reveal_strlit("switch");
    reveal_strlit("switches");
    reveal_strlit("lighting");
    reveal_strlit("light");
    reveal_strlit("smart-plug");
    reveal_strlit("plug");
    reveal_strlit("display");
    reveal_strlit("sensor");
    reveal_strlit("energy");
    reveal_strlit("appliance");
    reveal_strlit("radio");
    reveal_strlit("hub");
    reveal_strlit("iot");
    reveal_strlit("wearable");
    reveal_strlit("camera");
    reveal_strlit("audio");
    reveal_strlit("printer");
    reveal_strlit("3d-printer");
    reveal_strlit("3d_printer");
    reveal_strlit("3dprinter");
    reveal_strlit("streaming");
    reveal_strlit("vpn");
    reveal_strlit("network-device");
    reveal_strlit("Buttons & Remote Controls");
    reveal_strlit("Buttons");
    reveal_strlit("Taster & Schalter");
    reveal_strlit("Remote Controls & Switches");
    reveal_strlit("Wall Switch");
    reveal_strlit("Wandschalter");
    reveal_strlit("Doors & Windows");
    reveal_strlit("Door & Window");
    reveal_strlit("Tür & Fenster");
    reveal_strlit("Motion Detectors");
    reveal_strlit("Motion");
    reveal_strlit("Bewegungsmelder");
    reveal_strlit("Smartphones");
    reveal_strlit("Tablets");
    reveal_strlit("VoIP Phones");
    reveal_strlit("Computers & Laptops");
    reveal_strlit("Network Storage & NAS");
    reveal_strlit("Routers & Gateways");
    reveal_strlit("Network Switches");
    reveal_strlit("Switches");
    reveal_strlit("Netzwerk-Switches");
    reveal_strlit("Smart Lighting");
    reveal_strlit("Smart Plugs & Sockets");
    reveal_strlit("Smart Clocks & Displays");
    reveal_strlit("Sensors & Detectors");
    reveal_strlit("Solar & Energy Systems");
    reveal_strlit("Home Appliances");
    reveal_strlit("LoRa & Mesh Radios");
    reveal_strlit("Smart Home Hubs");
    reveal_strlit("Smart Home & IoT");
    reveal_strlit("Wearables");
    reveal_strlit("Cameras");
    reveal_strlit("Audio & Speakers");
    reveal_strlit("Printers");
    reveal_strlit("3D Printers & Makers");
    reveal_strlit("3D-Drucker");
    reveal_strlit("3D Drucker");
    reveal_strlit("TV & Streaming");
    reveal_strlit("VPN & Virtual Devices");
    reveal_strlit("Network & Other Devices");
}

/// A category stands for itself: what `canonical_category_key` gives, it gives again.
pub proof fn categories_stand_for_themselves(key: Seq<char>, title: Seq<char>)
    ensures
        key_of_key(canonical_key(key, title)) == canonical_key(key, title),
{
    lemma_words();
}

/// The title of a category leads back to it; only the title that all other devices share leads
/// nowhere.
pub proof fn titles_lead_back(key: Seq<char>)
    ensures
        match key_of_title(presentation(key).0) {
            Some(k) => k == key,
            None => presentation(key) == ("Network & Other Devices"@, "🔌"@),
        },
{
    lemma_words();
}

}
