//! The catalog, the dashboard and the page on the modules.

use vstd::prelude::*;

use crate::pages::catalog;
use crate::pages::catalog_parts;
use crate::pages::overview;
use crate::pages::overview::ModuleModel;
use crate::records::{ProductModel, VendorModel};
use crate::text;

verus! {

broadcast use vstd::string::group_string_axioms;

/// What is given, or a dash.
pub open spec fn or_dash(s: Option<Seq<char>>) -> Seq<char> {
    match s {
        Some(t) => t,
        None => "-"@,
    }
}

/// A product is shown by its sign, name, model, category, connections, ports, description and manual, and by
/// its kind of Matter device where it is one; what it does not have is shown as a dash.
pub proof fn products_are_shown_as_the_catalog_has_them(p: ProductModel)
    ensures
        ({
            let matter = if p.matter_device_type is Some {
                catalog_parts::matter_badge_html(p.matter_device_type->0)
            } else {
                Seq::empty()
            };
            let ports = if p.default_ports.len() == 0 {
                "-"@
            } else {
                text::joined(catalog::port_numbers(p.default_ports), ", "@)
            };
            let manual = if p.documentation_url is Some {
                catalog_parts::manual_link_html(p.documentation_url->0)
            } else {
                "-"@
            };
            catalog::product_line(p) == catalog_parts::product_row_html(
                p.category_icon,
                p.name,
                matter,
                or_dash(p.model_number),
                p.category,
                text::joined(catalog::ways(p.connectivity), " "@),
                ports,
                or_dash(p.specs),
                manual,
            )
        }),
{
}

/// Every port, every connection and every prefix is shown, in order.
pub proof fn lists_are_shown_in_order(
    ports: Seq<u16>,
    ways: Seq<Seq<char>>,
    protocols: Seq<Seq<char>>,
    x: Seq<char>,
    i: int,
    j: int,
)
    requires
        0 <= i < ports.len(),
        0 <= j < ways.len(),
    ensures
        catalog::port_numbers(ports).len() == ports.len(),
        catalog::port_numbers(ports)[i] == text::decimal(ports[i] as nat),
        catalog::ways(ways).len() == ways.len(),
        catalog::ways(ways)[j] == catalog_parts::connectivity_badge_html(ways[j]),
        catalog::prefix_codes(ways).len() == ways.len(),
        catalog::prefix_codes(ways)[j] == catalog_parts::prefix_code_html(ways[j]),
        catalog::protocol_badges(Seq::empty()).len() == 0,
        catalog::protocol_badges(protocols.push(x)) == catalog::protocol_badges(protocols)
            + catalog_parts::protocol_badge_html(x),
{
    assert(protocols.push(x).drop_last() =~= protocols);
    assert(Seq::<Seq<char>>::empty().len() == 0);
}

/// A vendor is shown by its name, sign and id, its links, prefixes, protocols and description as far as it has
/// them, with the number and the table of its products; it is found by its name in small letters.
pub proof fn vendors_are_shown_with_their_products(v: VendorModel, products: Seq<ProductModel>)
    ensures
        ({
            let none = Seq::<char>::empty();
            let website = if v.website is Some {
                catalog_parts::website_link_html(v.website->0)
            } else {
                none
            };
            let support = if v.support_url is Some {
                catalog_parts::support_link_html(v.support_url->0)
            } else {
                none
            };
            let prefixes = if v.oui_prefixes.len() == 0 {
                none
            } else {
                catalog_parts::prefix_line_html(text::joined(catalog::prefix_codes(v.oui_prefixes), ", "@))
            };
            let description = if v.description is Some {
                catalog_parts::description_html(v.description->0)
            } else {
                none
            };
            let lines = catalog::product_lines(products);
            let table = if lines.len() == 0 {
                catalog_parts::NO_PRODUCTS@
            } else {
                catalog_parts::product_table_html(lines)
            };
            catalog::vendor_card(v, products) == catalog_parts::vendor_card_html(
                text::lowercase(v.name),
                v.id,
                v.icon,
                v.name,
                website,
                support,
                prefixes,
                catalog::protocol_badges(v.protocols),
                description,
                text::decimal(products.len()),
                table,
            )
        }),
{
}

/// Every product has its line, every vendor its entry and its card with its own products, in order; and a
/// product counts as one for Matter where it names its kind.
pub proof fn the_catalog_leaves_nothing_out(
    products: Seq<ProductModel>,
    p: ProductModel,
    vendors: Seq<VendorModel>,
    v: VendorModel,
    by_vendor: Seq<Seq<ProductModel>>,
    n: int,
)
    requires
        0 <= n < vendors.len(),
    ensures
        catalog::product_lines(Seq::empty()).len() == 0,
        catalog::product_lines(products.push(p)) == catalog::product_lines(products) + catalog::product_line(p),
        catalog::matter_products(Seq::empty()) == 0,
        catalog::matter_products(products.push(p)) == catalog::matter_products(products) + if p.matter_device_type is Some {
            1int
        } else {
            0int
        },
        catalog::vendor_options(Seq::empty()).len() == 0,
        catalog::vendor_options(vendors.push(v)) == catalog::vendor_options(vendors) + catalog_parts::vendor_option_html(
            v.id,
            v.icon,
            v.name,
        ),
        catalog::cards_below(vendors, by_vendor, 0).len() == 0,
        catalog::cards_below(vendors, by_vendor, n + 1) == catalog::cards_below(vendors, by_vendor, n)
            + catalog::vendor_card(vendors[n], by_vendor[n]),
{
    assert(products.push(p).drop_last() =~= products);
    assert(vendors.push(v).drop_last() =~= vendors);
    assert(Seq::<ProductModel>::empty().len() == 0);
    assert(Seq::<VendorModel>::empty().len() == 0);
}

/// The catalog counts the vendors, the products and those for Matter, and shows the cards of all vendors.
pub proof fn the_catalog_counts_what_it_shows(
    vendors: Seq<VendorModel>,
    by_vendor: Seq<Seq<ProductModel>>,
    products: Seq<ProductModel>,
)
    ensures
        catalog::catalog_content(vendors, by_vendor, products) == catalog_parts::content_html(
            text::decimal(vendors.len()),
            text::decimal(products.len()),
            text::decimal(catalog::matter_products(products)),
            catalog::cards_below(vendors, by_vendor, vendors.len() as int),
            catalog::vendor_options(vendors),
        ),
{
}

/// The states of a module, from the first on, each with its word and its mark.
pub open spec fn states() -> Seq<(Seq<char>, Seq<char>)> {
    seq![
        ("Starting"@, "status-starting"@),
        ("Ready"@, "status-ready"@),
        ("Degraded"@, "status-starting"@),
        ("Stopped"@, "status-error"@),
        ("Failed"@, "status-error"@),
    ]
}

/// A module is shown in the state it reports; one that is not connected, that reports nothing, or that
/// reports a state that is none is shown as faulty.
pub proof fn modules_are_shown_in_their_state(m: ModuleModel)
    ensures
        !m.connected ==> overview::module_look(m) == ("Disconnected"@, "status-error"@),
        m.connected && m.health is None ==> overview::module_look(m) == ("Unknown"@, "status-error"@),
        m.connected && m.health is Some && 1 <= m.health->0.state <= states().len() ==> overview::module_look(m)
            == states()[m.health->0.state - 1],
        m.connected && m.health is Some && !(1 <= m.health->0.state <= states().len()) ==> overview::module_look(m) == (
            "Unknown"@,
            "status-error"@,
        ),
{
    let s = states();
    assert(s.len() == 5);
    assert(s[0] == ("Starting"@, "status-starting"@));
    assert(s[1] == ("Ready"@, "status-ready"@));
    assert(s[2] == ("Degraded"@, "status-starting"@));
    assert(s[3] == ("Stopped"@, "status-error"@));
    assert(s[4] == ("Failed"@, "status-error"@));
}

/// A module has its line, with its name, id and version, its state and what it says; what it does not tell
/// is shown as unknown.
pub proof fn modules_are_shown_by_their_manifest(modules: Seq<ModuleModel>, m: ModuleModel)
    ensures
        overview::module_lines(Seq::empty()).len() == 0,
        overview::module_lines(modules.push(m)) == overview::module_lines(modules) + overview::module_line(m),
        m.manifest is Some && m.health is Some ==> overview::module_line(m) == overview::module_row_html(
            m.manifest->0.display_name,
            m.manifest->0.id,
            overview::module_look(m).1,
            overview::module_look(m).0,
            m.manifest->0.version,
            m.health->0.message,
        ),
        m.manifest is Some && m.health is None ==> overview::module_line(m) == overview::module_row_html(
            m.manifest->0.display_name,
            m.manifest->0.id,
            overview::module_look(m).1,
            overview::module_look(m).0,
            m.manifest->0.version,
            "-"@,
        ),
        m.manifest is None && m.health is Some ==> overview::module_line(m) == overview::module_row_html(
            "Unknown"@,
            "n/a"@,
            overview::module_look(m).1,
            overview::module_look(m).0,
            "-"@,
            m.health->0.message,
        ),
{
    assert(modules.push(m).drop_last() =~= modules);
    assert(Seq::<ModuleModel>::empty().len() == 0);
}

/// The card of the Hue bridge is shown exactly where one of the modules is that of the bridge.
pub proof fn the_bridge_has_a_card_with_its_module(modules: Seq<ModuleModel>, i: int)
    ensures
        0 <= i < modules.len() && modules[i].manifest is Some && modules[i].manifest->0.id == "philips-hue"@
            ==> overview::has_hue(modules),
        (forall|j: int|
            0 <= j < modules.len() ==> !((#[trigger] modules[j]).manifest is Some && modules[j].manifest->0.id
                == "philips-hue"@)) ==> !overview::has_hue(modules),
{
    if 0 <= i < modules.len() && modules[i].manifest is Some && modules[i].manifest->0.id == "philips-hue"@ {
        assert(overview::is_hue(modules[i]));
    }
    if overview::has_hue(modules) {
        let k = choose|k: int| 0 <= k < modules.len() && overview::is_hue(#[trigger] modules[k]);
        assert(modules[k].manifest is Some && modules[k].manifest->0.id == "philips-hue"@);
    }
}

/// The page on the modules counts them, shows the line of each, and shows the card of the bridge exactly where
/// its module is there.
pub proof fn the_page_on_modules_shows_them(modules: Seq<ModuleModel>, i: int)
    ensures
        0 <= i < modules.len() && modules[i].manifest is Some && modules[i].manifest->0.id == "philips-hue"@
            ==> overview::status_content(modules) == overview::status_html(
            text::decimal(modules.len()),
            overview::module_lines(modules),
            overview::HUE_CARD@,
        ),
        (forall|j: int|
            0 <= j < modules.len() ==> !((#[trigger] modules[j]).manifest is Some && modules[j].manifest->0.id
                == "philips-hue"@)) ==> overview::status_content(modules) == overview::status_html(
            text::decimal(modules.len()),
            overview::module_lines(modules),
            ""@,
        ),
{
    the_bridge_has_a_card_with_its_module(modules, i);
}

}
