//! What is written in plain letters is never refused.

use vstd::prelude::*;
use vstd::utf8::is_ascii_chars;

use crate::analyzer;
use crate::autolink;
use crate::correlate;
use crate::device::DeviceModel;
use crate::fabrics;
use crate::json;
use crate::json::Json;
use crate::laws::hearing;
use crate::links::LinksModel;
use crate::mobile_ble;
use crate::mobile_ble::{ScanFactsModel, ScanItemModel};
use crate::pages::device_data::{FactsModel, HouseholdModel};
use crate::pages::device_json;
use crate::pages::devices;
use crate::pages::matter;
use crate::records::FabricMetaModel;
use crate::text;
use crate::unify;
use crate::unify::UnifiedModel;

verus! {

broadcast use vstd::string::group_string_axioms;

/// The device's name, host name and MAC address hold nothing but ASCII characters.
pub open spec fn is_plain(d: DeviceModel) -> bool {
    &&& is_ascii_chars(d.display_name)
    &&& is_ascii_chars(hearing::reported(d, "hostname"@))
    &&& is_ascii_chars(hearing::reported(d, "mac"@))
}

proof fn lemma_without(s: Seq<char>, drop: Seq<char>)
    requires
        is_ascii_chars(s),
    ensures
        is_ascii_chars(text::without(s, drop)),
    decreases s.len(),
{
    if s.len() > 0 {
        assert(is_ascii_chars(s.drop_last()));
        lemma_without(s.drop_last(), drop);
    }
}

proof fn lemma_uppercase(s: Seq<char>)
    requires
        is_ascii_chars(s),
    ensures
        is_ascii_chars(text::uppercase(s)),
{
    assert forall|i: int| 0 <= i < s.len() implies (#[trigger] text::uppercase(s)[i]) <= '\u{7f}' by {
        assert(text::uppercase(s)[i] == text::ascii_large(s[i]));
    }
}

proof fn lemma_plain_mac(d: DeviceModel, n: int)
    requires
        is_plain(d),
        0 <= n <= text::bytes(crate::device::plain_mac(d.meta_or_empty("mac"@))),
    ensures
        text::cuts_at(crate::device::plain_mac(d.meta_or_empty("mac"@)), n),
{
    assert(hearing::reported(d, "mac"@) =~= d.meta_or_empty("mac"@));
    let mac = d.meta_or_empty("mac"@);
    lemma_without(mac, seq![':', '-']);
    lemma_uppercase(text::without(mac, seq![':', '-']));
    let p = crate::device::plain_mac(mac);
    text::lemma_ascii_tail(p, 0);
    text::lemma_ascii_tail(p, n);
}

proof fn lemma_name(s: Seq<char>)
    requires
        is_ascii_chars(s),
    ensures
        autolink::name_cuts(s),
{
    autolink::case_changes_no_address(s, s);
}

/// Devices with plain names can be searched for look-alikes, put together and linked.
pub proof fn plain_devices_can_be_put_together(devices: Seq<DeviceModel>, links: LinksModel)
    requires
        forall|i: int| 0 <= i < devices.len() ==> is_plain(#[trigger] devices[i]),
    ensures
        unify::can_unify(devices, links),
        autolink::can_auto_link(devices, links),
{
    unify::one_record_per_address(devices);
    let each = unify::deduped(devices);
    assert forall|i: int| 0 <= i < each.len() implies is_plain(#[trigger] each[i]) by {
        assert(each.contains(each[i]));
        assert(devices.contains(each[i]));
        let k = devices.index_of(each[i]);
        assert(is_plain(devices[k]));
    }
    assert forall|i: int| 0 <= i < each.len() && !unify::is_under_another(each, links, each[i]) implies correlate::can_search(
        #[trigger] each[i],
        each,
        links,
    ) by {
        plain_devices_can_be_compared(each[i], each, links);
    }
    assert forall|i: int| 0 <= i < devices.len() implies autolink::addresses_cut(#[trigger] devices[i]) by {
        let d = devices[i];
        assert(is_plain(d));
        assert(hearing::reported(d, "mac"@) =~= d.meta_or_empty("mac"@));
        assert(hearing::reported(d, "hostname"@) =~= d.meta_or_empty("hostname"@));
        lemma_uppercase(d.meta_or_empty("hostname"@));
        lemma_name(autolink::large_host(d));
        if d.metadata.contains_key("mac"@) && text::bytes(crate::device::plain_mac(d.metadata["mac"@])) == 12 {
            lemma_plain_mac(d, 10);
        }
    }
    assert forall|i: int| 0 <= i < devices.len() implies #[trigger] autolink::turn_cuts(devices, links, i) by {
        assert(is_plain(devices[i]));
        lemma_name(devices[i].display_name);
    }
}

/// A device with a plain name can be compared with such devices.
pub proof fn plain_devices_can_be_compared(d: DeviceModel, devices: Seq<DeviceModel>, links: LinksModel)
    requires
        is_plain(d),
        forall|i: int| 0 <= i < devices.len() ==> is_plain(#[trigger] devices[i]),
    ensures
        correlate::can_search(d, devices, links),
{
    assert forall|i: int| 0 <= i < devices.len() implies correlate::can_compare(d, #[trigger] devices[i]) by {
        let o = devices[i];
        assert(is_plain(o));
        lemma_name(d.display_name);
        lemma_name(o.display_name);
        if text::bytes(crate::device::plain_mac(o.meta_or_empty("mac"@))) >= 10 {
            lemma_plain_mac(o, 10);
        }
        if text::bytes(crate::device::plain_mac(d.meta_or_empty("mac"@))) >= 10 {
            lemma_plain_mac(d, 10);
        }
    }
}

/// Every fabric that the device reports has a plain id, where it has one.
pub open spec fn reports_plain_fabrics(d: DeviceModel) -> bool {
    d.metadata.contains_key("matter_fabrics"@) ==> match json::parsed(d.metadata["matter_fabrics"@]) {
        Some(Json::List(items)) => forall|i: int|
            0 <= i < items.len() ==> match #[trigger] items[i] {
                Json::Object(m) => hearing::says(m, "fabric_id"@) is Some ==> is_ascii_chars(
                    hearing::says(m, "fabric_id"@)->0,
                ),
                _ => true,
            },
        _ => true,
    }
}

/// Fabrics with plain ids can be listed.
pub proof fn plain_fabrics_can_be_listed(
    d: DeviceModel,
    others: Seq<DeviceModel>,
    known: Map<Seq<char>, FabricMetaModel>,
)
    requires
        reports_plain_fabrics(d),
        forall|i: int| 0 <= i < others.len() ==> reports_plain_fabrics(#[trigger] others[i]),
    ensures
        fabrics::can_list_fabrics(d, others, known),
{
    let all = fabrics::reports(d, others);
    assert forall|r: int, i: int| 0 <= r < all.len() && 0 <= i < fabrics::report_items(all[r]).len() implies fabrics::id_cuts(
        #[trigger] fabrics::report_items(all[r])[i],
        known,
    ) by {
        lemma_reported(d, others, r);
        let e = choose|e: DeviceModel|
            #[trigger] reports_plain_fabrics(e) && e.metadata.contains_key("matter_fabrics"@)
                && e.metadata["matter_fabrics"@] == all[r];
        let item = fabrics::report_items(all[r])[i];
        let id = text::or_empty(item.member_text("fabric_id"@));
        assert(is_ascii_chars(id)) by {
            match item {
                Json::Object(m) => {},
                _ => {},
            }
        }
        lemma_uppercase(id);
        let large = fabrics::fabric_id_of(item);
        text::lemma_ascii_tail(large, 0);
        if text::bytes(large) >= 8 {
            text::lemma_ascii_tail(large, 8);
        }
    }
}

proof fn lemma_reported(d: DeviceModel, others: Seq<DeviceModel>, r: int)
    requires
        reports_plain_fabrics(d),
        forall|i: int| 0 <= i < others.len() ==> reports_plain_fabrics(#[trigger] others[i]),
        0 <= r < fabrics::reports(d, others).len(),
    ensures
        exists|e: DeviceModel|
            #[trigger] reports_plain_fabrics(e) && e.metadata.contains_key("matter_fabrics"@)
                && e.metadata["matter_fabrics"@] == fabrics::reports(d, others)[r],
    decreases others.len(),
{
    if others.len() == 0 {
        assert(reports_plain_fabrics(d));
    } else {
        let rest = others.drop_last();
        assert forall|i: int| 0 <= i < rest.len() implies reports_plain_fabrics(#[trigger] rest[i]) by {
            assert(rest[i] == others[i]);
        }
        if r < fabrics::reports(d, rest).len() {
            lemma_reported(d, rest, r);
        } else {
            assert(reports_plain_fabrics(others[others.len() - 1]));
        }
    }
}

/// A list of devices with plain fabrics can be shown, on the devices page and on the Matter page.
pub proof fn plain_lists_can_be_shown(
    list: Seq<UnifiedModel>,
    home: HouseholdModel,
)
    requires
        forall|i: int| 0 <= i < list.len() ==> reports_plain_fabrics((#[trigger] list[i]).primary),
        forall|i: int, k: int|
            0 <= i < list.len() && 0 <= k < list[i].secondary_interfaces.len() ==> reports_plain_fabrics(
                #[trigger] list[i].secondary_interfaces[k],
            ),
    ensures
        device_json::can_show(list, home),
        matter::can_show_fabrics(list, home.fabric_metas),
{
    assert forall|i: int| 0 <= i < list.len() implies fabrics::can_list_fabrics(
        (#[trigger] list[i]).primary,
        list[i].secondary_interfaces,
        home.fabric_metas,
    ) by {
        plain_fabrics_can_be_listed(list[i].primary, list[i].secondary_interfaces, home.fabric_metas);
    }
}

/// The devices page can be shown where the devices can be put together and listed, with the facts on each
/// of them; the Matter page needs no facts.
pub proof fn pages_can_be_shown(
    devices: Seq<DeviceModel>,
    links: LinksModel,
    facts: Seq<FactsModel>,
    home: HouseholdModel,
)
    requires
        forall|i: int| 0 <= i < devices.len() ==> is_plain(#[trigger] devices[i]),
        device_json::can_show(unify::unified(devices, links), home),
        facts.len() == unify::unified(devices, links).len(),
    ensures
        devices::can_show_devices(devices, links, facts, home),
        matter::can_show_page(devices, links, home.fabric_metas),
{
    plain_devices_can_be_put_together(devices, links);
}

/// A scan with plain ids, or with names, can be taken in.
pub proof fn plain_scans_can_be_taken_in(items: Seq<ScanItemModel>, facts: Seq<ScanFactsModel>)
    requires
        items.len() == facts.len(),
        forall|i: int| 0 <= i < items.len() ==> is_ascii_chars((#[trigger] items[i]).id) || items[i].name is Some,
    ensures
        mobile_ble::can_ingest(items, facts),
{
    assert forall|i: int| 0 <= i < items.len() implies mobile_ble::can_name(#[trigger] items[i]) by {
        if is_ascii_chars(items[i].id) {
            text::lemma_ascii_tail(items[i].id, 0);
            if text::bytes(items[i].id) >= 8 {
                text::lemma_ascii_tail(items[i].id, 8);
            }
        }
    }
}

/// A plain answer of a web server can be read.
pub proof fn plain_answers_can_be_read(answer: Seq<char>)
    requires
        is_ascii_chars(answer),
    ensures
        analyzer::can_read_banner(answer),
{
    reveal_strlit("<title>");
    reveal_strlit("</title>");
    reveal_strlit("server:");
    lemma_lines_plain(answer);
    let lines = analyzer::lines(text::split_at_char(answer, '\n'));
    if analyzer::server_line(lines) is Some {
        lemma_found_line(lines);
        let line = analyzer::server_line(lines)->0;
        text::lemma_ascii_tail(line, 0);
        assert(text::lowercase(line).len() == line.len());
        text::lemma_ascii_tail(line, 7);
    }
    lemma_mark(answer, "<title>"@);
    if analyzer::bytes_before(answer, "<title>"@) is Some {
        let n = analyzer::bytes_before(answer, "<title>"@)->0;
        text::lemma_ascii_tail(answer, n + 7);
        let rest = answer.skip(n + 7);
        assert(is_ascii_chars(rest));
        lemma_mark(rest, "</title>"@);
        if analyzer::bytes_before(rest, "</title>"@) is Some {
            text::lemma_ascii_tail(rest, analyzer::bytes_before(rest, "</title>"@)->0);
        }
    }
}

proof fn lemma_mark(s: Seq<char>, mark: Seq<char>)
    requires
        is_ascii_chars(s),
    ensures
        text::bytes(s) == s.len(),
        match analyzer::bytes_before(s, mark) {
            Some(n) => 0 <= n && n + mark.len() <= s.len(),
            None => true,
        },
{
    let small = text::lowercase(s);
    text::lemma_ascii_tail(s, 0);
    text::lemma_found(small, mark, 0);
    if text::find_from(small, mark, 0) is Some {
        let i = text::find_from(small, mark, 0)->0;
        assert forall|k: int| 0 <= k < i implies (#[trigger] small.take(i)[k]) <= '\u{7f}' by {
            assert(small[k] == text::ascii_small(s[k]));
        }
        text::lemma_ascii_tail(small.take(i), 0);
    }
}

proof fn lemma_lines_plain(s: Seq<char>)
    requires
        is_ascii_chars(s),
    ensures
        text::split_at_char(s, '\n').len() > 0,
        forall|k: int|
            0 <= k < text::split_at_char(s, '\n').len() ==> is_ascii_chars(#[trigger] text::split_at_char(s, '\n')[k]),
        forall|k: int|
            0 <= k < analyzer::lines(text::split_at_char(s, '\n')).len() ==> is_ascii_chars(
                #[trigger] analyzer::lines(text::split_at_char(s, '\n'))[k],
            ),
    decreases s.len(),
{
    let parts = text::split_at_char(s, '\n');
    if s.len() > 0 {
        let rest = s.drop_last();
        assert(is_ascii_chars(rest));
        lemma_lines_plain(rest);
        let before = text::split_at_char(rest, '\n');
        assert(before[before.len() - 1] == before.last());
        assert(s.last() == s[s.len() - 1]);
        assert(is_ascii_chars(before.last().push(s.last())));
        assert forall|k: int| 0 <= k < parts.len() implies is_ascii_chars(#[trigger] parts[k]) by {
            if k < parts.len() - 1 {
                assert(parts[k] == before[k]);
            }
        }
    }
    let lines = analyzer::lines(parts);
    assert forall|k: int| 0 <= k < lines.len() implies is_ascii_chars(#[trigger] lines[k]) by {
        assert(is_ascii_chars(parts[k]));
    }
}

proof fn lemma_found_line(lines: Seq<Seq<char>>)
    requires
        analyzer::server_line(lines) is Some,
        forall|k: int| 0 <= k < lines.len() ==> is_ascii_chars(#[trigger] lines[k]),
    ensures
        is_ascii_chars(analyzer::server_line(lines)->0),
        "server:"@.is_prefix_of(text::lowercase(analyzer::server_line(lines)->0)),
    decreases lines.len(),
{
    let rest = lines.drop_last();
    assert(lines[lines.len() - 1] == lines.last());
    if analyzer::server_line(rest) is Some {
        assert forall|k: int| 0 <= k < rest.len() implies is_ascii_chars(#[trigger] rest[k]) by {
            assert(rest[k] == lines[k]);
        }
        lemma_found_line(rest);
    }
}

}
