use homenode_web::category::{canonical_category_key, category_sort_order, default_category_presentation};

const KEYS: [(&str, &str, &str, u32); 25] = [
    ("button", "Buttons & Remote Controls", "🔘", 1),
    ("sensor", "Sensors & Detectors", "👁️", 2),
    ("contact-sensor", "Doors & Windows", "🚪", 3),
    ("motion-sensor", "Motion Detectors", "🚶", 4),
    ("phone", "Smartphones", "📱", 5),
    ("tablet", "Tablets", "📟", 6),
    ("voip-phone", "VoIP Phones", "☎️", 7),
    ("computer", "Computers & Laptops", "💻", 8),
    ("nas", "Network Storage & NAS", "🗄️", 9),
    ("router", "Routers & Gateways", "🌐", 10),
    ("lighting", "Smart Lighting", "💡", 12),
    ("smart-plug", "Smart Plugs & Sockets", "🔌", 13),
    ("display", "Smart Clocks & Displays", "⏰", 14),
    ("energy", "Solar & Energy Systems", "☀️", 15),
    ("appliance", "Home Appliances", "🧺", 16),
    ("radio", "LoRa & Mesh Radios", "📻", 17),
    ("hub", "Smart Home Hubs", "🎛️", 18),
    ("iot", "Smart Home & IoT", "💡", 19),
    ("wearable", "Wearables", "⌚", 20),
    ("camera", "Cameras", "📷", 18),
    ("audio", "Audio & Speakers", "🔊", 19),
    ("printer", "Printers", "🖨️", 20),
    ("3d-printer", "3D Printers & Makers", "🧊", 21),
    ("streaming", "TV & Streaming", "📺", 22),
    ("vpn", "VPN & Virtual Devices", "🛡️", 23),
];

#[test]
fn categories_have_titles_icons_and_places() {
    for (key, title, icon, place) in KEYS {
        assert_eq!(default_category_presentation(key), (title, icon));
        assert_eq!(category_sort_order(key), place);
    }
}

#[test]
fn unknown_categories_share_a_title() {
    for key in ["network-device", "switch", "", "Button"] {
        assert_eq!(default_category_presentation(key), ("Network & Other Devices", "🔌"));
    }
    assert_eq!(category_sort_order("switch"), 11);
    assert_eq!(category_sort_order("network-device"), 99);
    assert_eq!(category_sort_order("unheard-of"), 50);
}

#[test]
fn titles_lead_back_to_their_category() {
    for (key, title, _, _) in KEYS {
        assert_eq!(canonical_category_key("anything", title), key);
        assert_eq!(canonical_category_key(key, ""), key);
        assert_eq!(canonical_category_key(canonical_category_key(key, ""), ""), key);
    }
}

#[test]
fn the_title_decides_over_the_key() {
    assert_eq!(canonical_category_key("nas", "Wandschalter"), "button");
    assert_eq!(canonical_category_key("nas", "Tür & Fenster"), "contact-sensor");
    assert_eq!(canonical_category_key("nas", "Netzwerk-Switches"), "switch");
    assert_eq!(canonical_category_key("nas", "no such title"), "nas");
}

#[test]
fn other_words_for_a_category() {
    for (word, key) in [
        ("buttons", "button"),
        ("remote", "button"),
        ("door", "contact-sensor"),
        ("window", "contact-sensor"),
        ("motion", "motion-sensor"),
        ("smartphones", "phone"),
        ("ipad", "tablet"),
        ("voip", "voip-phone"),
        ("pc", "computer"),
        ("gateway", "router"),
        ("switches", "switch"),
        ("light", "lighting"),
        ("plug", "smart-plug"),
        ("3dprinter", "3d-printer"),
        ("3d_printer", "3d-printer"),
        ("toaster", "network-device"),
    ] {
        assert_eq!(canonical_category_key(word, ""), key);
    }
}
