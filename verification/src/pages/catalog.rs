//! The hardware catalog.

use vstd::prelude::*;

use crate::pages::catalog_parts;
use crate::pages::layout;
use crate::records::{Product, ProductModel, Vendor, VendorModel};
use crate::text;

verus! {

broadcast use vstd::string::group_string_axioms;

/// The marks of the protocols.
pub open spec fn protocol_badges(protocols: Seq<Seq<char>>) -> Seq<char>
    decreases protocols.len(),
{
    if protocols.len() == 0 {
        Seq::empty()
    } else {
        protocol_badges(protocols.drop_last()) + catalog_parts::protocol_badge_html(protocols.last())
    }
}

fn protocol_badges_of(protocols: &[String]) -> (r: String)
    ensures
        r@ == protocol_badges(protocols.deep_view()),
{
    let ghost all = protocols.deep_view();
    let mut r = text::empty();
    let mut i: usize = 0;
    while i < protocols.len()
        invariant
            i <= protocols@.len(),
            all == protocols.deep_view(),
            r@ == protocol_badges(all.take(i as int)),
        decreases protocols@.len() - i,
    {
        let x = &protocols[i];
        assert(all.take(i + 1).drop_last() =~= all.take(i as int));
        assert(all.take(i + 1).last() == x.deep_view());
        r.append(catalog_parts::protocol_badge(x.as_str()).as_str());
        i = i + 1;
    }
    assert(all.take(i as int) =~= all);
    r
}

/// The prefixes, each marked as code.
pub open spec fn prefix_codes(prefixes: Seq<Seq<char>>) -> Seq<Seq<char>> {
    Seq::new(prefixes.len(), |i: int| catalog_parts::prefix_code_html(prefixes[i]))
}

fn prefix_codes_of(prefixes: &Vec<String>) -> (r: Vec<String>)
    ensures
        r.deep_view() == prefix_codes(prefixes.deep_view()),
{
    let ghost all = prefixes.deep_view();
    let mut r: Vec<String> = Vec::new();
    let mut i: usize = 0;
    while i < prefixes.len()
        invariant
            i <= prefixes@.len(),
            all == prefixes.deep_view(),
            r@.len() == i,
            forall|k: int| 0 <= k < i ==> (#[trigger] r@[k])@ == prefix_codes(all)[k],
        decreases prefixes@.len() - i,
    {
        r.push(catalog_parts::prefix_code(prefixes[i].as_str()));
        i = i + 1;
    }
    assert(r.deep_view() =~= prefix_codes(all));
    r
}

/// The ways to connect, each with its mark.
pub open spec fn ways(connectivity: Seq<Seq<char>>) -> Seq<Seq<char>> {
    Seq::new(connectivity.len(), |i: int| catalog_parts::connectivity_badge_html(connectivity[i]))
}

fn ways_of(connectivity: &Vec<String>) -> (r: Vec<String>)
    ensures
        r.deep_view() == ways(connectivity.deep_view()),
{
    let ghost all = connectivity.deep_view();
    let mut r: Vec<String> = Vec::new();
    let mut i: usize = 0;
    while i < connectivity.len()
        invariant
            i <= connectivity@.len(),
            all == connectivity.deep_view(),
            r@.len() == i,
            forall|k: int| 0 <= k < i ==> (#[trigger] r@[k])@ == ways(all)[k],
        decreases connectivity@.len() - i,
    {
        r.push(catalog_parts::connectivity_badge(connectivity[i].as_str()));
        i = i + 1;
    }
    assert(r.deep_view() =~= ways(all));
    r
}

/// Port numbers in decimal.
pub open spec fn port_numbers(ports: Seq<u16>) -> Seq<Seq<char>> {
    Seq::new(ports.len(), |i: int| text::decimal(ports[i] as nat))
}

fn port_numbers_of(ports: &Vec<u16>) -> (r: Vec<String>)
    ensures
        r.deep_view() == port_numbers(ports.deep_view()),
{
    let ghost all = ports.deep_view();
    let mut r: Vec<String> = Vec::new();
    let mut i: usize = 0;
    while i < ports.len()
        invariant
            i <= ports@.len(),
            all == ports.deep_view(),
            r@.len() == i,
            forall|k: int| 0 <= k < i ==> (#[trigger] r@[k])@ == port_numbers(all)[k],
        decreases ports@.len() - i,
    {
        r.push(text::number(ports[i] as u64));
        i = i + 1;
    }
    assert(r.deep_view() =~= port_numbers(all));
    r
}

/// The link to the pages of a vendor, if it has any.
pub open spec fn website(value: Option<Seq<char>>) -> Seq<char> {
    match value {
        Some(x) => catalog_parts::website_link_html(x),
        None => Seq::empty(),
    }
}

fn website_of(value: &Option<String>) -> (r: String)
    ensures
        r@ == website(value.deep_view()),
{
    match value {
        Some(x) => catalog_parts::website_link(x.as_str()),
        None => text::empty(),
    }
}

/// The link to the support of a vendor, if it has any.
pub open spec fn support(value: Option<Seq<char>>) -> Seq<char> {
    match value {
        Some(x) => catalog_parts::support_link_html(x),
        None => Seq::empty(),
    }
}

fn support_of(value: &Option<String>) -> (r: String)
    ensures
        r@ == support(value.deep_view()),
{
    match value {
        Some(x) => catalog_parts::support_link(x.as_str()),
        None => text::empty(),
    }
}

/// The description of a vendor, if there is one.
pub open spec fn description(value: Option<Seq<char>>) -> Seq<char> {
    match value {
        Some(x) => catalog_parts::description_html(x),
        None => Seq::empty(),
    }
}

fn description_of(value: &Option<String>) -> (r: String)
    ensures
        r@ == description(value.deep_view()),
{
    match value {
        Some(x) => catalog_parts::description(x.as_str()),
        None => text::empty(),
    }
}

/// The mark of a product that speaks Matter.
pub open spec fn matter_mark(value: Option<Seq<char>>) -> Seq<char> {
    match value {
        Some(x) => catalog_parts::matter_badge_html(x),
        None => Seq::empty(),
    }
}

fn matter_mark_of(value: &Option<String>) -> (r: String)
    ensures
        r@ == matter_mark(value.deep_view()),
{
    match value {
        Some(x) => catalog_parts::matter_badge(x.as_str()),
        None => text::empty(),
    }
}

/// The link to the manual of a product; a hyphen where there is none.
pub open spec fn manual(value: Option<Seq<char>>) -> Seq<char> {
    match value {
        Some(x) => catalog_parts::manual_link_html(x),
        None => "-"@,
    }
}

fn manual_of(value: &Option<String>) -> (r: String)
    ensures
        r@ == manual(value.deep_view()),
{
    match value {
        Some(x) => catalog_parts::manual_link(x.as_str()),
        None => "-".to_owned(),
    }
}

/// The line with the prefixes of MAC addresses, if there are any.
pub open spec fn prefixes(list: Seq<Seq<char>>) -> Seq<char> {
    if list.len() == 0 {
        Seq::empty()
    } else {
        catalog_parts::prefix_line_html(text::joined(prefix_codes(list), ", "@))
    }
}

fn prefixes_of(list: &Vec<String>) -> (r: String)
    ensures
        r@ == prefixes(list.deep_view()),
{
    if list.len() == 0 {
        text::empty()
    } else {
        catalog_parts::prefix_line(text::join(&prefix_codes_of(list), ", ").as_str())
    }
}

/// The ports of a product; a hyphen where there are none.
pub open spec fn ports(list: Seq<u16>) -> Seq<char> {
    if list.len() == 0 {
        "-"@
    } else {
        text::joined(port_numbers(list), ", "@)
    }
}

fn ports_of(list: &Vec<u16>) -> (r: String)
    ensures
        r@ == ports(list.deep_view()),
{
    if list.len() == 0 {
        "-".to_owned()
    } else {
        text::join(&port_numbers_of(list), ", ")
    }
}

fn or_dash(value: &Option<String>) -> (r: String)
    ensures
        r@ == text::or_text(value.deep_view(), "-"@),
{
    match value {
        Some(x) => x.clone(),
        None => "-".to_owned(),
    }
}

/// The row of a product.
pub open spec fn product_line(p: ProductModel) -> Seq<char> {
    catalog_parts::product_row_html(
        p.category_icon,
        p.name,
        matter_mark(p.matter_device_type),
        text::or_text(p.model_number, "-"@),
        p.category,
        text::joined(ways(p.connectivity), " "@),
        ports(p.default_ports),
        text::or_text(p.specs, "-"@),
        manual(p.documentation_url),
    )
}

fn product_line_of(p: &Product) -> (r: String)
    ensures
        r@ == product_line(p.deep_view()),
{
    catalog_parts::product_row(
        p.category_icon.as_str(),
        p.name.as_str(),
        matter_mark_of(&p.matter_device_type).as_str(),
        or_dash(&p.model_number).as_str(),
        p.category.as_str(),
        text::join(&ways_of(&p.connectivity), " ").as_str(),
        ports_of(&p.default_ports).as_str(),
        or_dash(&p.specs).as_str(),
        manual_of(&p.documentation_url).as_str(),
    )
}

/// The rows of products.
pub open spec fn product_lines(products: Seq<ProductModel>) -> Seq<char>
    decreases products.len(),
{
    if products.len() == 0 {
        Seq::empty()
    } else {
        product_lines(products.drop_last()) + product_line(products.last())
    }
}

fn product_lines_of(products: &[Product]) -> (r: String)
    ensures
        r@ == product_lines(products.deep_view()),
{
    let ghost all = products.deep_view();
    let mut r = text::empty();
    let mut i: usize = 0;
    while i < products.len()
        invariant
            i <= products@.len(),
            all == products.deep_view(),
            r@ == product_lines(all.take(i as int)),
        decreases products@.len() - i,
    {
        let x = &products[i];
        assert(all.take(i + 1).drop_last() =~= all.take(i as int));
        assert(all.take(i + 1).last() == x.deep_view());
        r.append(product_line_of(x).as_str());
        i = i + 1;
    }
    assert(all.take(i as int) =~= all);
    r
}

/// The table with the products of a vendor.
pub open spec fn product_table(products: Seq<ProductModel>) -> Seq<char> {
    if product_lines(products).len() == 0 {
        catalog_parts::NO_PRODUCTS@
    } else {
        catalog_parts::product_table_html(product_lines(products))
    }
}

/// The card of a vendor with its products.
pub open spec fn vendor_card(v: VendorModel, products: Seq<ProductModel>) -> Seq<char> {
    catalog_parts::vendor_card_html(
        text::lowercase(v.name),
        v.id,
        v.icon,
        v.name,
        website(v.website),
        support(v.support_url),
        prefixes(v.oui_prefixes),
        protocol_badges(v.protocols),
        description(v.description),
        text::decimal(products.len()),
        product_table(products),
    )
}

fn vendor_card_of(v: &Vendor, products: &Vec<Product>) -> (r: String)
    ensures
        r@ == vendor_card(v.deep_view(), products.deep_view()),
{
    let slice = products.as_slice();
    assert(slice.deep_view() =~= products.deep_view());
    let lines = product_lines_of(slice);
    let table = if text::blank(lines.as_str()) {
        catalog_parts::NO_PRODUCTS.to_owned()
    } else {
        catalog_parts::product_table(lines.as_str())
    };
    catalog_parts::vendor_card(
        v.name.as_str().to_lowercase().as_str(),
        v.id.as_str(),
        v.icon.as_str(),
        v.name.as_str(),
        website_of(&v.website).as_str(),
        support_of(&v.support_url).as_str(),
        prefixes_of(&v.oui_prefixes).as_str(),
        protocol_badges_of(v.protocols.as_slice()).as_str(),
        description_of(&v.description).as_str(),
        text::count(products.len()).as_str(),
        table.as_str(),
    )
}

/// The vendors that can be chosen.
pub open spec fn vendor_options(vendors: Seq<VendorModel>) -> Seq<char>
    decreases vendors.len(),
{
    if vendors.len() == 0 {
        Seq::empty()
    } else {
        vendor_options(vendors.drop_last()) + catalog_parts::vendor_option_html(vendors.last().id, vendors.last().icon, vendors.last().name)
    }
}

fn vendor_options_of(vendors: &[Vendor]) -> (r: String)
    ensures
        r@ == vendor_options(vendors.deep_view()),
{
    let ghost all = vendors.deep_view();
    let mut r = text::empty();
    let mut i: usize = 0;
    while i < vendors.len()
        invariant
            i <= vendors@.len(),
            all == vendors.deep_view(),
            r@ == vendor_options(all.take(i as int)),
        decreases vendors@.len() - i,
    {
        let x = &vendors[i];
        assert(all.take(i + 1).drop_last() =~= all.take(i as int));
        assert(all.take(i + 1).last() == x.deep_view());
        r.append(catalog_parts::vendor_option(x.id.as_str(), x.icon.as_str(), x.name.as_str()).as_str());
        i = i + 1;
    }
    assert(all.take(i as int) =~= all);
    r
}

/// The cards of the first `n` vendors.
pub open spec fn cards_below(vendors: Seq<VendorModel>, by_vendor: Seq<Seq<ProductModel>>, n: int) -> Seq<char>
    decreases n,
{
    if n <= 0 {
        Seq::empty()
    } else {
        cards_below(vendors, by_vendor, n - 1) + vendor_card(vendors[n - 1], by_vendor[n - 1])
    }
}

fn cards_of(vendors: &[Vendor], by_vendor: &[Vec<Product>]) -> (r: String)
    requires
        vendors@.len() == by_vendor@.len(),
    ensures
        r@ == cards_below(vendors.deep_view(), by_vendor.deep_view(), vendors@.len() as int),
{
    let mut r = text::empty();
    let mut i: usize = 0;
    while i < vendors.len()
        invariant
            i <= vendors@.len(),
            vendors@.len() == by_vendor@.len(),
            r@ == cards_below(vendors.deep_view(), by_vendor.deep_view(), i as int),
        decreases vendors@.len() - i,
    {
        assert(vendors.deep_view()[i as int] == vendors@[i as int].deep_view());
        assert(by_vendor.deep_view()[i as int] == by_vendor@[i as int].deep_view());
        r.append(vendor_card_of(&vendors[i], &by_vendor[i]).as_str());
        i = i + 1;
    }
    r
}

/// How many products speak Matter.
pub open spec fn matter_products(products: Seq<ProductModel>) -> nat
    decreases products.len(),
{
    if products.len() == 0 {
        0
    } else {
        matter_products(products.drop_last()) + if products.last().matter_device_type is Some {
            1nat
        } else {
            0nat
        }
    }
}

fn count_matter(products: &[Product]) -> (r: usize)
    ensures
        r == matter_products(products.deep_view()),
{
    let ghost all = products.deep_view();
    let mut r: usize = 0;
    let mut i: usize = 0;
    while i < products.len()
        invariant
            i <= products@.len(),
            all == products.deep_view(),
            r <= i,
            r == matter_products(all.take(i as int)),
        decreases products@.len() - i,
    {
        assert(all.take(i + 1).drop_last() =~= all.take(i as int));
        assert(all.take(i + 1).last() == products@[i as int].deep_view());
        if products[i].matter_device_type.is_some() {
            r = r + 1;
        }
        i = i + 1;
    }
    assert(all.take(i as int) =~= all);
    r
}

/// The content of the catalog page.
pub open spec fn catalog_content(
    vendors: Seq<VendorModel>,
    by_vendor: Seq<Seq<ProductModel>>,
    products: Seq<ProductModel>,
) -> Seq<char> {
    catalog_parts::content_html(
        text::decimal(vendors.len()),
        text::decimal(products.len()),
        text::decimal(matter_products(products)),
        cards_below(vendors, by_vendor, vendors.len() as int),
        vendor_options(vendors),
    )
}

/// The catalog page. `by_vendor` gives, for each vendor, the products that the catalog finds
/// for it.
pub fn render_catalog_page(
    title: &str,
    vendors: &[Vendor],
    by_vendor: &[Vec<Product>],
    products: &[Product],
) -> (r: String)
    requires
        vendors@.len() == by_vendor@.len(),
    ensures
        r@ == layout::page(
            title@,
            "catalog"@,
            catalog_content(vendors.deep_view(), by_vendor.deep_view(), products.deep_view()),
        ),
{
    let content = catalog_parts::content(
        text::count(vendors.len()).as_str(),
        text::count(products.len()).as_str(),
        text::count(count_matter(products)).as_str(),
        cards_of(vendors, by_vendor).as_str(),
        vendor_options_of(vendors).as_str(),
    );
    layout::page_layout(title, "catalog", content.as_str())
}

}
