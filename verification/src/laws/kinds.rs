//! The kinds of devices: how they are called, written and listed.

use vstd::prelude::*;

use crate::category;

verus! {

broadcast use vstd::string::group_string_axioms;

/// The words for each kind, beside the kind.
pub open spec fn words_for_kinds() -> Seq<(Seq<char>, Seq<char>)> {
    seq![
        ("button"@, "button"@),
        ("buttons"@, "button"@),
        ("remote"@, "button"@),
        ("contact-sensor"@, "contact-sensor"@),
        ("door"@, "contact-sensor"@),
        ("window"@, "contact-sensor"@),
        ("motion-sensor"@, "motion-sensor"@),
        ("motion"@, "motion-sensor"@),
        ("phone"@, "phone"@),
        ("smartphone"@, "phone"@),
        ("smartphones"@, "phone"@),
        ("tablet"@, "tablet"@),
        ("tablets"@, "tablet"@),
        ("ipad"@, "tablet"@),
        ("voip-phone"@, "voip-phone"@),
        ("voip"@, "voip-phone"@),
        ("computer"@, "computer"@),
        ("computers"@, "computer"@),
        ("laptop"@, "computer"@),
        ("pc"@, "computer"@),
        ("nas"@, "nas"@),
        ("router"@, "router"@),
        ("gateway"@, "router"@),
        ("switch"@, "switch"@),
        ("switches"@, "switch"@),
        ("lighting"@, "lighting"@),
        ("light"@, "lighting"@),
        ("smart-plug"@, "smart-plug"@),
        ("plug"@, "smart-plug"@),
        ("display"@, "display"@),
        ("sensor"@, "sensor"@),
        ("energy"@, "energy"@),
        ("appliance"@, "appliance"@),
        ("radio"@, "radio"@),
        ("hub"@, "hub"@),
        ("iot"@, "iot"@),
        ("wearable"@, "wearable"@),
        ("camera"@, "camera"@),
        ("audio"@, "audio"@),
        ("printer"@, "printer"@),
        ("3d-printer"@, "3d-printer"@),
        ("3d_printer"@, "3d-printer"@),
        ("3dprinter"@, "3d-printer"@),
        ("streaming"@, "streaming"@),
        ("vpn"@, "vpn"@),
    ]
}

/// The titles for each kind, beside the kind.
pub open spec fn titles_for_kinds() -> Seq<(Seq<char>, Seq<char>)> {
    seq![
        ("Buttons & Remote Controls"@, "button"@),
        ("Buttons"@, "button"@),
        ("Taster & Schalter"@, "button"@),
        ("Remote Controls & Switches"@, "button"@),
        ("Wall Switch"@, "button"@),
        ("Wandschalter"@, "button"@),
        ("Doors & Windows"@, "contact-sensor"@),
        ("Door & Window"@, "contact-sensor"@),
        ("Tür & Fenster"@, "contact-sensor"@),
        ("Motion Detectors"@, "motion-sensor"@),
        ("Motion"@, "motion-sensor"@),
        ("Bewegungsmelder"@, "motion-sensor"@),
        ("Smartphones"@, "phone"@),
        ("Tablets"@, "tablet"@),
        ("VoIP Phones"@, "voip-phone"@),
        ("Computers & Laptops"@, "computer"@),
        ("Network Storage & NAS"@, "nas"@),
        ("Routers & Gateways"@, "router"@),
        ("Network Switches"@, "switch"@),
        ("Switches"@, "switch"@),
        ("Netzwerk-Switches"@, "switch"@),
        ("Smart Lighting"@, "lighting"@),
        ("Smart Plugs & Sockets"@, "smart-plug"@),
        ("Smart Clocks & Displays"@, "display"@),
        ("Sensors & Detectors"@, "sensor"@),
        ("Solar & Energy Systems"@, "energy"@),
        ("Home Appliances"@, "appliance"@),
        ("LoRa & Mesh Radios"@, "radio"@),
        ("Smart Home Hubs"@, "hub"@),
        ("Smart Home & IoT"@, "iot"@),
        ("Wearables"@, "wearable"@),
        ("Cameras"@, "camera"@),
        ("Audio & Speakers"@, "audio"@),
        ("Printers"@, "printer"@),
        ("3D Printers & Makers"@, "3d-printer"@),
        ("3D-Drucker"@, "3d-printer"@),
        ("3D Drucker"@, "3d-printer"@),
        ("TV & Streaming"@, "streaming"@),
        ("VPN & Virtual Devices"@, "vpn"@),
    ]
}

/// Each kind, its title and its sign.
pub open spec fn shown_kinds() -> Seq<(Seq<char>, Seq<char>, Seq<char>)> {
    seq![
        ("button"@, "Buttons & Remote Controls"@, "🔘"@),
        ("sensor"@, "Sensors & Detectors"@, "👁️"@),
        ("contact-sensor"@, "Doors & Windows"@, "🚪"@),
        ("motion-sensor"@, "Motion Detectors"@, "🚶"@),
        ("phone"@, "Smartphones"@, "📱"@),
        ("tablet"@, "Tablets"@, "📟"@),
        ("voip-phone"@, "VoIP Phones"@, "☎️"@),
        ("computer"@, "Computers & Laptops"@, "💻"@),
        ("nas"@, "Network Storage & NAS"@, "🗄️"@),
        ("router"@, "Routers & Gateways"@, "🌐"@),
        ("lighting"@, "Smart Lighting"@, "💡"@),
        ("smart-plug"@, "Smart Plugs & Sockets"@, "🔌"@),
        ("display"@, "Smart Clocks & Displays"@, "⏰"@),
        ("energy"@, "Solar & Energy Systems"@, "☀️"@),
        ("appliance"@, "Home Appliances"@, "🧺"@),
        ("radio"@, "LoRa & Mesh Radios"@, "📻"@),
        ("hub"@, "Smart Home Hubs"@, "🎛️"@),
        ("iot"@, "Smart Home & IoT"@, "💡"@),
        ("wearable"@, "Wearables"@, "⌚"@),
        ("camera"@, "Cameras"@, "📷"@),
        ("audio"@, "Audio & Speakers"@, "🔊"@),
        ("printer"@, "Printers"@, "🖨️"@),
        ("3d-printer"@, "3D Printers & Makers"@, "🧊"@),
        ("streaming"@, "TV & Streaming"@, "📺"@),
        ("vpn"@, "VPN & Virtual Devices"@, "🛡️"@),
    ]
}

/// The kinds in the order in which they are listed.
pub open spec fn listed_kinds() -> Seq<Seq<char>> {
    seq![
        "button"@,
        "sensor"@,
        "contact-sensor"@,
        "motion-sensor"@,
        "phone"@,
        "tablet"@,
        "voip-phone"@,
        "computer"@,
        "nas"@,
        "router"@,
        "switch"@,
        "lighting"@,
        "smart-plug"@,
        "display"@,
        "energy"@,
        "appliance"@,
        "radio"@,
        "hub"@,
        "iot"@,
        "wearable"@,
    ]
}

/// The kinds that share the places from that of the hubs on.
pub open spec fn further_kinds() -> Seq<Seq<char>> {
    seq![
        "camera"@,
        "audio"@,
        "printer"@,
        "3d-printer"@,
        "streaming"@,
        "vpn"@,
    ]
}

/// Every word for a kind leads to the kind, unless the title already tells one; a word that is for
/// none leads to the other devices.
pub proof fn words_lead_to_their_kind(i: int, word: Seq<char>, title: Seq<char>)
    requires
        0 <= i < words_for_kinds().len(),
        forall|j: int| 0 <= j < titles_for_kinds().len() ==> (#[trigger] titles_for_kinds()[j]).0 != title,
    ensures
        category::canonical_key(words_for_kinds()[i].0, title) == words_for_kinds()[i].1,
        (forall|j: int| 0 <= j < words_for_kinds().len() ==> (#[trigger] words_for_kinds()[j]).0 != word)
            ==> category::canonical_key(word, title) == "network-device"@,
{
    category::lemma_words();
    lemma_no_title(title);
    lemma_words_lead(i);
    if forall|j: int| 0 <= j < words_for_kinds().len() ==> (#[trigger] words_for_kinds()[j]).0 != word {
        lemma_no_word(word);
    }
}

/// Every title leads to its kind, whatever word stands beside it.
pub proof fn titles_lead_to_their_kind(i: int, word: Seq<char>)
    requires
        0 <= i < titles_for_kinds().len(),
    ensures
        category::canonical_key(word, titles_for_kinds()[i].0) == titles_for_kinds()[i].1,
{
    category::lemma_words();
    let t = titles_for_kinds()[i];
    assert(i == 0 ==> t == ("Buttons & Remote Controls"@, "button"@));
    assert(i == 1 ==> t == ("Buttons"@, "button"@));
    assert(i == 2 ==> t == ("Taster & Schalter"@, "button"@));
    assert(i == 3 ==> t == ("Remote Controls & Switches"@, "button"@));
    assert(i == 4 ==> t == ("Wall Switch"@, "button"@));
    assert(i == 5 ==> t == ("Wandschalter"@, "button"@));
    assert(i == 6 ==> t == ("Doors & Windows"@, "contact-sensor"@));
    assert(i == 7 ==> t == ("Door & Window"@, "contact-sensor"@));
    assert(i == 8 ==> t == ("Tür & Fenster"@, "contact-sensor"@));
    assert(i == 9 ==> t == ("Motion Detectors"@, "motion-sensor"@));
    assert(i == 10 ==> t == ("Motion"@, "motion-sensor"@));
    assert(i == 11 ==> t == ("Bewegungsmelder"@, "motion-sensor"@));
    assert(i == 12 ==> t == ("Smartphones"@, "phone"@));
    assert(i == 13 ==> t == ("Tablets"@, "tablet"@));
    assert(i == 14 ==> t == ("VoIP Phones"@, "voip-phone"@));
    assert(i == 15 ==> t == ("Computers & Laptops"@, "computer"@));
    assert(i == 16 ==> t == ("Network Storage & NAS"@, "nas"@));
    assert(i == 17 ==> t == ("Routers & Gateways"@, "router"@));
    assert(i == 18 ==> t == ("Network Switches"@, "switch"@));
    assert(i == 19 ==> t == ("Switches"@, "switch"@));
    assert(i == 20 ==> t == ("Netzwerk-Switches"@, "switch"@));
    assert(i == 21 ==> t == ("Smart Lighting"@, "lighting"@));
    assert(i == 22 ==> t == ("Smart Plugs & Sockets"@, "smart-plug"@));
    assert(i == 23 ==> t == ("Smart Clocks & Displays"@, "display"@));
    assert(i == 24 ==> t == ("Sensors & Detectors"@, "sensor"@));
    assert(i == 25 ==> t == ("Solar & Energy Systems"@, "energy"@));
    assert(i == 26 ==> t == ("Home Appliances"@, "appliance"@));
    assert(i == 27 ==> t == ("LoRa & Mesh Radios"@, "radio"@));
    assert(i == 28 ==> t == ("Smart Home Hubs"@, "hub"@));
    assert(i == 29 ==> t == ("Smart Home & IoT"@, "iot"@));
    assert(i == 30 ==> t == ("Wearables"@, "wearable"@));
    assert(i == 31 ==> t == ("Cameras"@, "camera"@));
    assert(i == 32 ==> t == ("Audio & Speakers"@, "audio"@));
    assert(i == 33 ==> t == ("Printers"@, "printer"@));
    assert(i == 34 ==> t == ("3D Printers & Makers"@, "3d-printer"@));
    assert(i == 35 ==> t == ("3D-Drucker"@, "3d-printer"@));
    assert(i == 36 ==> t == ("3D Drucker"@, "3d-printer"@));
    assert(i == 37 ==> t == ("TV & Streaming"@, "streaming"@));
    assert(i == 38 ==> t == ("VPN & Virtual Devices"@, "vpn"@));
}

/// Every kind is shown with its title and its sign, and any other as one of the other devices.
pub proof fn kinds_are_shown_by_title_and_sign(i: int, other: Seq<char>)
    requires
        0 <= i < shown_kinds().len(),
    ensures
        category::presentation(shown_kinds()[i].0) == (shown_kinds()[i].1, shown_kinds()[i].2),
        (forall|j: int| 0 <= j < shown_kinds().len() ==> (#[trigger] shown_kinds()[j]).0 != other)
            ==> category::presentation(other) == ("Network & Other Devices"@, "🔌"@),
{
    category::lemma_words();
    let t = shown_kinds()[i];
    assert(i == 0 ==> t == ("button"@, "Buttons & Remote Controls"@, "🔘"@));
    assert(i == 1 ==> t == ("sensor"@, "Sensors & Detectors"@, "👁️"@));
    assert(i == 2 ==> t == ("contact-sensor"@, "Doors & Windows"@, "🚪"@));
    assert(i == 3 ==> t == ("motion-sensor"@, "Motion Detectors"@, "🚶"@));
    assert(i == 4 ==> t == ("phone"@, "Smartphones"@, "📱"@));
    assert(i == 5 ==> t == ("tablet"@, "Tablets"@, "📟"@));
    assert(i == 6 ==> t == ("voip-phone"@, "VoIP Phones"@, "☎️"@));
    assert(i == 7 ==> t == ("computer"@, "Computers & Laptops"@, "💻"@));
    assert(i == 8 ==> t == ("nas"@, "Network Storage & NAS"@, "🗄️"@));
    assert(i == 9 ==> t == ("router"@, "Routers & Gateways"@, "🌐"@));
    assert(i == 10 ==> t == ("lighting"@, "Smart Lighting"@, "💡"@));
    assert(i == 11 ==> t == ("smart-plug"@, "Smart Plugs & Sockets"@, "🔌"@));
    assert(i == 12 ==> t == ("display"@, "Smart Clocks & Displays"@, "⏰"@));
    assert(i == 13 ==> t == ("energy"@, "Solar & Energy Systems"@, "☀️"@));
    assert(i == 14 ==> t == ("appliance"@, "Home Appliances"@, "🧺"@));
    assert(i == 15 ==> t == ("radio"@, "LoRa & Mesh Radios"@, "📻"@));
    assert(i == 16 ==> t == ("hub"@, "Smart Home Hubs"@, "🎛️"@));
    assert(i == 17 ==> t == ("iot"@, "Smart Home & IoT"@, "💡"@));
    assert(i == 18 ==> t == ("wearable"@, "Wearables"@, "⌚"@));
    assert(i == 19 ==> t == ("camera"@, "Cameras"@, "📷"@));
    assert(i == 20 ==> t == ("audio"@, "Audio & Speakers"@, "🔊"@));
    assert(i == 21 ==> t == ("printer"@, "Printers"@, "🖨️"@));
    assert(i == 22 ==> t == ("3d-printer"@, "3D Printers & Makers"@, "🧊"@));
    assert(i == 23 ==> t == ("streaming"@, "TV & Streaming"@, "📺"@));
    assert(i == 24 ==> t == ("vpn"@, "VPN & Virtual Devices"@, "🛡️"@));
    if forall|j: int| 0 <= j < shown_kinds().len() ==> (#[trigger] shown_kinds()[j]).0 != other {
        assert(shown_kinds()[0].0 == "button"@);
        assert(shown_kinds()[1].0 == "sensor"@);
        assert(shown_kinds()[2].0 == "contact-sensor"@);
        assert(shown_kinds()[3].0 == "motion-sensor"@);
        assert(shown_kinds()[4].0 == "phone"@);
        assert(shown_kinds()[5].0 == "tablet"@);
        assert(shown_kinds()[6].0 == "voip-phone"@);
        assert(shown_kinds()[7].0 == "computer"@);
        assert(shown_kinds()[8].0 == "nas"@);
        assert(shown_kinds()[9].0 == "router"@);
        assert(shown_kinds()[10].0 == "lighting"@);
        assert(shown_kinds()[11].0 == "smart-plug"@);
        assert(shown_kinds()[12].0 == "display"@);
        assert(shown_kinds()[13].0 == "energy"@);
        assert(shown_kinds()[14].0 == "appliance"@);
        assert(shown_kinds()[15].0 == "radio"@);
        assert(shown_kinds()[16].0 == "hub"@);
        assert(shown_kinds()[17].0 == "iot"@);
        assert(shown_kinds()[18].0 == "wearable"@);
        assert(shown_kinds()[19].0 == "camera"@);
        assert(shown_kinds()[20].0 == "audio"@);
        assert(shown_kinds()[21].0 == "printer"@);
        assert(shown_kinds()[22].0 == "3d-printer"@);
        assert(shown_kinds()[23].0 == "streaming"@);
        assert(shown_kinds()[24].0 == "vpn"@);
    }
}

/// The kinds are listed in their order, unknown ones behind them, and the other devices at the end.
pub proof fn kinds_are_listed_in_order(i: int, j: int, other: Seq<char>)
    requires
        0 <= i < listed_kinds().len(),
        0 <= j < further_kinds().len(),
    ensures
        category::sort_order(listed_kinds()[i]) == i + 1,
        category::sort_order(further_kinds()[j]) == j + 18,
        category::sort_order("network-device"@) == 99,
        !listed_kinds().contains(other) && !further_kinds().contains(other) && other != "network-device"@
            ==> category::sort_order(other) == 50,
{
    category::lemma_words();
    let a = listed_kinds()[i];
    let b = further_kinds()[j];
    assert(i == 0 ==> a == "button"@);
    assert(i == 1 ==> a == "sensor"@);
    assert(i == 2 ==> a == "contact-sensor"@);
    assert(i == 3 ==> a == "motion-sensor"@);
    assert(i == 4 ==> a == "phone"@);
    assert(i == 5 ==> a == "tablet"@);
    assert(i == 6 ==> a == "voip-phone"@);
    assert(i == 7 ==> a == "computer"@);
    assert(i == 8 ==> a == "nas"@);
    assert(i == 9 ==> a == "router"@);
    assert(i == 10 ==> a == "switch"@);
    assert(i == 11 ==> a == "lighting"@);
    assert(i == 12 ==> a == "smart-plug"@);
    assert(i == 13 ==> a == "display"@);
    assert(i == 14 ==> a == "energy"@);
    assert(i == 15 ==> a == "appliance"@);
    assert(i == 16 ==> a == "radio"@);
    assert(i == 17 ==> a == "hub"@);
    assert(i == 18 ==> a == "iot"@);
    assert(i == 19 ==> a == "wearable"@);
    assert(j == 0 ==> b == "camera"@);
    assert(j == 1 ==> b == "audio"@);
    assert(j == 2 ==> b == "printer"@);
    assert(j == 3 ==> b == "3d-printer"@);
    assert(j == 4 ==> b == "streaming"@);
    assert(j == 5 ==> b == "vpn"@);
    if !listed_kinds().contains(other) && !further_kinds().contains(other) {
        assert(listed_kinds()[0] == "button"@);
        assert(listed_kinds()[1] == "sensor"@);
        assert(listed_kinds()[2] == "contact-sensor"@);
        assert(listed_kinds()[3] == "motion-sensor"@);
        assert(listed_kinds()[4] == "phone"@);
        assert(listed_kinds()[5] == "tablet"@);
        assert(listed_kinds()[6] == "voip-phone"@);
        assert(listed_kinds()[7] == "computer"@);
        assert(listed_kinds()[8] == "nas"@);
        assert(listed_kinds()[9] == "router"@);
        assert(listed_kinds()[10] == "switch"@);
        assert(listed_kinds()[11] == "lighting"@);
        assert(listed_kinds()[12] == "smart-plug"@);
        assert(listed_kinds()[13] == "display"@);
        assert(listed_kinds()[14] == "energy"@);
        assert(listed_kinds()[15] == "appliance"@);
        assert(listed_kinds()[16] == "radio"@);
        assert(listed_kinds()[17] == "hub"@);
        assert(listed_kinds()[18] == "iot"@);
        assert(listed_kinds()[19] == "wearable"@);
        assert(further_kinds()[0] == "camera"@);
        assert(further_kinds()[1] == "audio"@);
        assert(further_kinds()[2] == "printer"@);
        assert(further_kinds()[3] == "3d-printer"@);
        assert(further_kinds()[4] == "streaming"@);
        assert(further_kinds()[5] == "vpn"@);
    }
}

proof fn lemma_words_lead(i: int)
    requires
        0 <= i < words_for_kinds().len(),
    ensures
        category::key_of_key(words_for_kinds()[i].0) == words_for_kinds()[i].1,
{
    category::lemma_words();
    let t = words_for_kinds()[i];
    assert(i == 0 ==> t == ("button"@, "button"@));
    assert(i == 1 ==> t == ("buttons"@, "button"@));
    assert(i == 2 ==> t == ("remote"@, "button"@));
    assert(i == 3 ==> t == ("contact-sensor"@, "contact-sensor"@));
    assert(i == 4 ==> t == ("door"@, "contact-sensor"@));
    assert(i == 5 ==> t == ("window"@, "contact-sensor"@));
    assert(i == 6 ==> t == ("motion-sensor"@, "motion-sensor"@));
    assert(i == 7 ==> t == ("motion"@, "motion-sensor"@));
    assert(i == 8 ==> t == ("phone"@, "phone"@));
    assert(i == 9 ==> t == ("smartphone"@, "phone"@));
    assert(i == 10 ==> t == ("smartphones"@, "phone"@));
    assert(i == 11 ==> t == ("tablet"@, "tablet"@));
    assert(i == 12 ==> t == ("tablets"@, "tablet"@));
    assert(i == 13 ==> t == ("ipad"@, "tablet"@));
    assert(i == 14 ==> t == ("voip-phone"@, "voip-phone"@));
    assert(i == 15 ==> t == ("voip"@, "voip-phone"@));
    assert(i == 16 ==> t == ("computer"@, "computer"@));
    assert(i == 17 ==> t == ("computers"@, "computer"@));
    assert(i == 18 ==> t == ("laptop"@, "computer"@));
    assert(i == 19 ==> t == ("pc"@, "computer"@));
    assert(i == 20 ==> t == ("nas"@, "nas"@));
    assert(i == 21 ==> t == ("router"@, "router"@));
    assert(i == 22 ==> t == ("gateway"@, "router"@));
    assert(i == 23 ==> t == ("switch"@, "switch"@));
    assert(i == 24 ==> t == ("switches"@, "switch"@));
    assert(i == 25 ==> t == ("lighting"@, "lighting"@));
    assert(i == 26 ==> t == ("light"@, "lighting"@));
    assert(i == 27 ==> t == ("smart-plug"@, "smart-plug"@));
    assert(i == 28 ==> t == ("plug"@, "smart-plug"@));
    assert(i == 29 ==> t == ("display"@, "display"@));
    assert(i == 30 ==> t == ("sensor"@, "sensor"@));
    assert(i == 31 ==> t == ("energy"@, "energy"@));
    assert(i == 32 ==> t == ("appliance"@, "appliance"@));
    assert(i == 33 ==> t == ("radio"@, "radio"@));
    assert(i == 34 ==> t == ("hub"@, "hub"@));
    assert(i == 35 ==> t == ("iot"@, "iot"@));
    assert(i == 36 ==> t == ("wearable"@, "wearable"@));
    assert(i == 37 ==> t == ("camera"@, "camera"@));
    assert(i == 38 ==> t == ("audio"@, "audio"@));
    assert(i == 39 ==> t == ("printer"@, "printer"@));
    assert(i == 40 ==> t == ("3d-printer"@, "3d-printer"@));
    assert(i == 41 ==> t == ("3d_printer"@, "3d-printer"@));
    assert(i == 42 ==> t == ("3dprinter"@, "3d-printer"@));
    assert(i == 43 ==> t == ("streaming"@, "streaming"@));
    assert(i == 44 ==> t == ("vpn"@, "vpn"@));
}

proof fn lemma_no_word(word: Seq<char>)
    requires
        forall|j: int| 0 <= j < words_for_kinds().len() ==> (#[trigger] words_for_kinds()[j]).0 != word,
    ensures
        category::key_of_key(word) == "network-device"@,
{
    assert(words_for_kinds()[0].0 == "button"@);
    assert(words_for_kinds()[1].0 == "buttons"@);
    assert(words_for_kinds()[2].0 == "remote"@);
    assert(words_for_kinds()[3].0 == "contact-sensor"@);
    assert(words_for_kinds()[4].0 == "door"@);
    assert(words_for_kinds()[5].0 == "window"@);
    assert(words_for_kinds()[6].0 == "motion-sensor"@);
    assert(words_for_kinds()[7].0 == "motion"@);
    assert(words_for_kinds()[8].0 == "phone"@);
    assert(words_for_kinds()[9].0 == "smartphone"@);
    assert(words_for_kinds()[10].0 == "smartphones"@);
    assert(words_for_kinds()[11].0 == "tablet"@);
    assert(words_for_kinds()[12].0 == "tablets"@);
    assert(words_for_kinds()[13].0 == "ipad"@);
    assert(words_for_kinds()[14].0 == "voip-phone"@);
    assert(words_for_kinds()[15].0 == "voip"@);
    assert(words_for_kinds()[16].0 == "computer"@);
    assert(words_for_kinds()[17].0 == "computers"@);
    assert(words_for_kinds()[18].0 == "laptop"@);
    assert(words_for_kinds()[19].0 == "pc"@);
    assert(words_for_kinds()[20].0 == "nas"@);
    assert(words_for_kinds()[21].0 == "router"@);
    assert(words_for_kinds()[22].0 == "gateway"@);
    assert(words_for_kinds()[23].0 == "switch"@);
    assert(words_for_kinds()[24].0 == "switches"@);
    assert(words_for_kinds()[25].0 == "lighting"@);
    assert(words_for_kinds()[26].0 == "light"@);
    assert(words_for_kinds()[27].0 == "smart-plug"@);
    assert(words_for_kinds()[28].0 == "plug"@);
    assert(words_for_kinds()[29].0 == "display"@);
    assert(words_for_kinds()[30].0 == "sensor"@);
    assert(words_for_kinds()[31].0 == "energy"@);
    assert(words_for_kinds()[32].0 == "appliance"@);
    assert(words_for_kinds()[33].0 == "radio"@);
    assert(words_for_kinds()[34].0 == "hub"@);
    assert(words_for_kinds()[35].0 == "iot"@);
    assert(words_for_kinds()[36].0 == "wearable"@);
    assert(words_for_kinds()[37].0 == "camera"@);
    assert(words_for_kinds()[38].0 == "audio"@);
    assert(words_for_kinds()[39].0 == "printer"@);
    assert(words_for_kinds()[40].0 == "3d-printer"@);
    assert(words_for_kinds()[41].0 == "3d_printer"@);
    assert(words_for_kinds()[42].0 == "3dprinter"@);
    assert(words_for_kinds()[43].0 == "streaming"@);
    assert(words_for_kinds()[44].0 == "vpn"@);
}

proof fn lemma_no_title(title: Seq<char>)
    requires
        forall|j: int| 0 <= j < titles_for_kinds().len() ==> (#[trigger] titles_for_kinds()[j]).0 != title,
    ensures
        category::key_of_title(title) is None,
{
    assert(titles_for_kinds()[0].0 == "Buttons & Remote Controls"@);
    assert(titles_for_kinds()[1].0 == "Buttons"@);
    assert(titles_for_kinds()[2].0 == "Taster & Schalter"@);
    assert(titles_for_kinds()[3].0 == "Remote Controls & Switches"@);
    assert(titles_for_kinds()[4].0 == "Wall Switch"@);
    assert(titles_for_kinds()[5].0 == "Wandschalter"@);
    assert(titles_for_kinds()[6].0 == "Doors & Windows"@);
    assert(titles_for_kinds()[7].0 == "Door & Window"@);
    assert(titles_for_kinds()[8].0 == "Tür & Fenster"@);
    assert(titles_for_kinds()[9].0 == "Motion Detectors"@);
    assert(titles_for_kinds()[10].0 == "Motion"@);
    assert(titles_for_kinds()[11].0 == "Bewegungsmelder"@);
    assert(titles_for_kinds()[12].0 == "Smartphones"@);
    assert(titles_for_kinds()[13].0 == "Tablets"@);
    assert(titles_for_kinds()[14].0 == "VoIP Phones"@);
    assert(titles_for_kinds()[15].0 == "Computers & Laptops"@);
    assert(titles_for_kinds()[16].0 == "Network Storage & NAS"@);
    assert(titles_for_kinds()[17].0 == "Routers & Gateways"@);
    assert(titles_for_kinds()[18].0 == "Network Switches"@);
    assert(titles_for_kinds()[19].0 == "Switches"@);
    assert(titles_for_kinds()[20].0 == "Netzwerk-Switches"@);
    assert(titles_for_kinds()[21].0 == "Smart Lighting"@);
    assert(titles_for_kinds()[22].0 == "Smart Plugs & Sockets"@);
    assert(titles_for_kinds()[23].0 == "Smart Clocks & Displays"@);
    assert(titles_for_kinds()[24].0 == "Sensors & Detectors"@);
    assert(titles_for_kinds()[25].0 == "Solar & Energy Systems"@);
    assert(titles_for_kinds()[26].0 == "Home Appliances"@);
    assert(titles_for_kinds()[27].0 == "LoRa & Mesh Radios"@);
    assert(titles_for_kinds()[28].0 == "Smart Home Hubs"@);
    assert(titles_for_kinds()[29].0 == "Smart Home & IoT"@);
    assert(titles_for_kinds()[30].0 == "Wearables"@);
    assert(titles_for_kinds()[31].0 == "Cameras"@);
    assert(titles_for_kinds()[32].0 == "Audio & Speakers"@);
    assert(titles_for_kinds()[33].0 == "Printers"@);
    assert(titles_for_kinds()[34].0 == "3D Printers & Makers"@);
    assert(titles_for_kinds()[35].0 == "3D-Drucker"@);
    assert(titles_for_kinds()[36].0 == "3D Drucker"@);
    assert(titles_for_kinds()[37].0 == "TV & Streaming"@);
    assert(titles_for_kinds()[38].0 == "VPN & Virtual Devices"@);
}

}
