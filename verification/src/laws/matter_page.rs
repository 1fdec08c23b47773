//! The Matter page: which devices and fabrics it shows, and how it counts them.

use vstd::prelude::*;

use crate::fabrics;
use crate::laws::hearing;
use crate::laws::texts;
use crate::ordering;
use crate::ordering::SortKeyModel;
use crate::pages::matter;
use crate::pages::matter::MatterModel;
use crate::pages::matter_parts;
use crate::records::{FabricMetaModel, FabricModel};
use crate::text;
use crate::unify::UnifiedModel;

verus! {

broadcast use vstd::string::group_string_axioms;

/// A device is shown exactly where it shares a fabric, with its name and what it reports, and with all the
/// fabrics that it and its interfaces share.
pub proof fn devices_with_fabrics_are_shown(
    list: Seq<UnifiedModel>,
    u: UnifiedModel,
    known: Map<Seq<char>, FabricMetaModel>,
)
    ensures
        ({
            let shared = fabrics::device_fabrics(u.primary, u.secondary_interfaces, known);
            let before = matter::matter_devices(list, known);
            let after = matter::matter_devices(list.push(u), known);
            let d = u.primary;
            &&& matter::matter_devices(Seq::empty(), known).len() == 0
            &&& shared.len() == 0 ==> after == before
            &&& shared.len() > 0 ==> after.len() == before.len() + 1 && after.drop_last() == before
            &&& shared.len() > 0 ==> after.last().fabrics == shared && after.last().name == d.display_name
            &&& shared.len() > 0 && d.metadata.contains_key("ip"@) ==> after.last().ip == d.metadata["ip"@]
            &&& shared.len() > 0 && !d.metadata.contains_key("ip"@) ==> after.last().ip == "-"@
            &&& shared.len() > 0 ==> after.last().mac == hearing::reported(d, "mac"@) && after.last().vendor
                == hearing::reported(d, "vendor"@)
            &&& shared.len() > 0 && d.metadata.contains_key("web_url"@) ==> after.last().web_url == Some(
                d.metadata["web_url"@],
            )
            &&& shared.len() > 0 && !d.metadata.contains_key("web_url"@) ==> after.last().web_url is None
        }),
{
    let d = u.primary;
    assert(list.push(u).drop_last() =~= list);
    assert(Seq::<UnifiedModel>::empty().len() == 0);
    assert(hearing::reported(d, "mac"@) =~= d.meta_or_empty("mac"@));
    assert(hearing::reported(d, "vendor"@) =~= d.meta_or_empty("vendor"@));
    let before = matter::matter_devices(list, known);
    assert(before.push(matter::matter_device(u, known)).drop_last() =~= before);
}

/// Every membership counts as a node, and a device with more than one of them as shared.
pub proof fn memberships_are_counted(devices: Seq<MatterModel>, d: MatterModel)
    ensures
        matter::node_count(Seq::empty()) == 0,
        matter::node_count(devices.push(d)) == matter::node_count(devices) + d.fabrics.len(),
        matter::shared_count(Seq::empty()) == 0,
        matter::shared_count(devices.push(d)) == matter::shared_count(devices) + if d.fabrics.len() > 1 {
            1int
        } else {
            0int
        },
{
    assert(devices.push(d).drop_last() =~= devices);
    assert(Seq::<MatterModel>::empty().len() == 0);
}

/// The fabrics that are known come first, then those that devices share, each once and in the order in which
/// they come.
pub proof fn fabrics_come_in_order(known: Seq<Seq<char>>, devices: Seq<MatterModel>, d: MatterModel, f: FabricModel)
    ensures
        matter::fabric_ids(known, Seq::empty()) == known,
        d.fabrics.len() == 0 ==> matter::fabric_ids(known, devices.push(d)) == matter::fabric_ids(known, devices),
        ({
            let more = MatterModel { fabrics: d.fabrics.push(f), ..d };
            let before = matter::fabric_ids(known, devices.push(d));
            &&& before.contains(f.fabric_id) ==> matter::fabric_ids(known, devices.push(more)) == before
            &&& !before.contains(f.fabric_id) ==> matter::fabric_ids(known, devices.push(more)) == before.push(f.fabric_id)
        }),
{
    let more = MatterModel { fabrics: d.fabrics.push(f), ..d };
    assert(devices.push(d).drop_last() =~= devices);
    assert(devices.push(more).drop_last() =~= devices);
    assert(d.fabrics.push(f).drop_last() =~= d.fabrics);
    assert(Seq::<MatterModel>::empty().len() == 0);
}

/// A fabric has the name, the sign and the description that it is known by.
pub proof fn known_fabrics_go_by_their_name(known: Map<Seq<char>, FabricMetaModel>, id: Seq<char>, otherwise: Seq<char>)
    ensures
        known.contains_key(id) ==> matter::fabric_name(known, id, otherwise) == known[id].name && matter::fabric_icon(known, id)
            == known[id].icon && matter::fabric_description(known, id) == known[id].description,
        !known.contains_key(id) ==> matter::fabric_name(known, id, otherwise) == otherwise && matter::fabric_icon(known, id)
            == "✨"@ && matter::fabric_description(known, id) == "Operational Matter fabric membership."@,
{
}

/// A membership in the fabric adds a chip with the device's name, the node, the port and the way it speaks, and
/// counts as a member; one in another fabric adds nothing.
pub proof fn members_have_a_chip(
    name: Seq<char>,
    fabrics: Seq<FabricModel>,
    f: FabricModel,
    id: Seq<char>,
    icon: Seq<char>,
)
    ensures
        matter::chips_of_device(name, Seq::empty(), id, icon).len() == 0,
        f.fabric_id != id ==> matter::chips_of_device(name, fabrics.push(f), id, icon) == matter::chips_of_device(
            name,
            fabrics,
            id,
            icon,
        ),
        f.fabric_id == id && f.interface == "thread"@ ==> matter::chips_of_device(name, fabrics.push(f), id, icon)
            == matter::chips_of_device(name, fabrics, id, icon) + matter_parts::chip_html(
            icon,
            name,
            f.node_id,
            text::decimal(f.port as nat),
            "🧵"@,
        ),
        f.fabric_id == id && f.interface != "thread"@ ==> matter::chips_of_device(name, fabrics.push(f), id, icon)
            == matter::chips_of_device(name, fabrics, id, icon) + matter_parts::chip_html(
            icon,
            name,
            f.node_id,
            text::decimal(f.port as nat),
            "📶"@,
        ),
        matter::times_listed(Seq::empty(), id) == 0,
        matter::times_listed(fabrics.push(f), id) == matter::times_listed(fabrics, id) + if f.fabric_id == id {
            1int
        } else {
            0int
        },
{
    assert(fabrics.push(f).drop_last() =~= fabrics);
    assert(Seq::<FabricModel>::empty().len() == 0);
}

/// The members of a fabric are those of all devices, device by device.
pub proof fn members_come_device_by_device(devices: Seq<MatterModel>, d: MatterModel, id: Seq<char>, icon: Seq<char>)
    ensures
        matter::chips(Seq::empty(), id, icon).len() == 0,
        matter::chips(devices.push(d), id, icon) == matter::chips(devices, id, icon) + matter::chips_of_device(
            d.name,
            d.fabrics,
            id,
            icon,
        ),
        matter::member_count(Seq::empty(), id) == 0,
        matter::member_count(devices.push(d), id) == matter::member_count(devices, id) + matter::times_listed(
            d.fabrics,
            id,
        ),
{
    assert(devices.push(d).drop_last() =~= devices);
    assert(Seq::<MatterModel>::empty().len() == 0);
}

/// The card of a fabric shows its name, its sign, its description, the number of its members and the members,
/// and says so where there are none.
pub proof fn cards_show_their_fabric(
    devices: Seq<MatterModel>,
    known: Map<Seq<char>, FabricMetaModel>,
    id: Seq<char>,
    name: Seq<char>,
    icon: Seq<char>,
)
    requires
        known.contains_key(id),
        known[id].name == name,
        known[id].icon == icon,
        !name.contains('\''),
        !icon.contains('\''),
    ensures
        ({
            let members = matter::chips(devices, id, icon);
            matter::fabric_card(devices, known, id) == matter_parts::fabric_card_html(
                icon,
                name,
                id,
                text::decimal(matter::member_count(devices, id)),
                known[id].description,
                name,
                icon,
                if members.len() == 0 {
                    matter_parts::NO_MEMBERS@
                } else {
                    members
                },
            )
        }),
{
    lemma_unquoted(name);
    lemma_unquoted(icon);
}

proof fn lemma_unquoted(s: Seq<char>)
    requires
        !s.contains('\''),
    ensures
        matter::quoted(s) == s,
    decreases s.len(),
{
    if s.len() > 0 {
        assert(s.contains(s[s.len() - 1]));
        assert(!s.drop_last().contains('\'')) by {
            if s.drop_last().contains('\'') {
                assert(s[s.drop_last().index_of('\'')] == '\'');
            }
        }
        lemma_unquoted(s.drop_last());
        assert(s.drop_last() + seq![s.last()] =~= s);
    } else {
        assert(s =~= Seq::<char>::empty());
    }
}

/// A quote in a name is written so that it ends no text.
pub proof fn quotes_end_no_text(s: Seq<char>, c: char)
    ensures
        matter::quoted(Seq::empty()).len() == 0,
        matter::quoted(s.push('\'')) == matter::quoted(s) + seq!['\\', '\''],
        c != '\'' ==> matter::quoted(s.push(c)) == matter::quoted(s).push(c),
{
    reveal_strlit("\\'");
    assert("\\'"@ =~= seq!['\\', '\'']);
    assert(s.push(c).drop_last() =~= s);
    assert(s.push('\'').drop_last() =~= s);
    assert(Seq::<char>::empty().len() == 0);
    assert(matter::quoted(s) + seq![c] =~= matter::quoted(s).push(c));
}

/// `f` is the first membership in the fabric.
pub open spec fn is_first_membership(fabrics: Seq<FabricModel>, id: Seq<char>, k: int) -> bool {
    &&& 0 <= k < fabrics.len()
    &&& fabrics[k].fabric_id == id
    &&& forall|i: int| 0 <= i < k ==> (#[trigger] fabrics[i]).fabric_id != id
}

proof fn lemma_membership(fabrics: Seq<FabricModel>, id: Seq<char>, k: int)
    requires
        is_first_membership(fabrics, id, k),
    ensures
        matter::membership(fabrics, id) == Some(fabrics[k]),
    decreases fabrics.len(),
{
    let rest = fabrics.drop_last();
    if k < fabrics.len() - 1 {
        assert(rest[k] == fabrics[k]);
        assert forall|i: int| 0 <= i < k implies (#[trigger] rest[i]).fabric_id != id by {
            assert(rest[i] == fabrics[i]);
        }
        lemma_membership(rest, id, k);
    } else {
        assert forall|i: int| 0 <= i < rest.len() implies (#[trigger] rest[i]).fabric_id != id by {
            assert(rest[i] == fabrics[i]);
        }
        lemma_no_membership(rest, id);
    }
}

proof fn lemma_no_membership(fabrics: Seq<FabricModel>, id: Seq<char>)
    requires
        forall|i: int| 0 <= i < fabrics.len() ==> (#[trigger] fabrics[i]).fabric_id != id,
    ensures
        matter::membership(fabrics, id) is None,
    decreases fabrics.len(),
{
    if fabrics.len() > 0 {
        let rest = fabrics.drop_last();
        assert(fabrics[fabrics.len() - 1] == fabrics.last());
        assert forall|i: int| 0 <= i < rest.len() implies (#[trigger] rest[i]).fabric_id != id by {
            assert(rest[i] == fabrics[i]);
        }
        lemma_no_membership(rest, id);
    }
}

/// The cell of a device and a fabric shows the first membership, with the node, the port and the way it
/// speaks; where there is none, it says so.
pub proof fn cells_show_the_membership(fabrics: Seq<FabricModel>, id: Seq<char>, k: int)
    ensures
        is_first_membership(fabrics, id, k) && fabrics[k].interface == "thread"@ ==> matter::cell(fabrics, id)
            == matter_parts::member_cell_html(fabrics[k].node_id, text::decimal(fabrics[k].port as nat), "🧵 Thread"@),
        is_first_membership(fabrics, id, k) && fabrics[k].interface != "thread"@ ==> matter::cell(fabrics, id)
            == matter_parts::member_cell_html(fabrics[k].node_id, text::decimal(fabrics[k].port as nat), "📶 Wi-Fi"@),
        (forall|i: int| 0 <= i < fabrics.len() ==> (#[trigger] fabrics[i]).fabric_id != id) ==> matter::cell(fabrics, id)
            == matter_parts::NO_MEMBER_CELL@,
{
    if is_first_membership(fabrics, id, k) {
        lemma_membership(fabrics, id, k);
    }
    if forall|i: int| 0 <= i < fabrics.len() ==> (#[trigger] fabrics[i]).fabric_id != id {
        lemma_no_membership(fabrics, id);
    }
}

/// A row of the table shows the device, its addresses, a cell for every fabric in order, and a link to its page
/// where it has one.
pub proof fn rows_show_device_and_cells(d: MatterModel, ids: Seq<Seq<char>>, order: Seq<int>, k: int)
    ensures
        ({
            let cells = matter::cells(d.fabrics, ids, order);
            let web = if d.web_url is Some {
                matter_parts::web_button_html(d.web_url->0)
            } else {
                Seq::empty()
            };
            &&& d.mac.len() == 0 ==> matter::matrix_row(d, ids, order) == matter_parts::device_row_html(
                d.name,
                d.vendor,
                matter_parts::address_html(d.ip),
                cells,
                web,
            )
            &&& d.mac.len() > 0 ==> matter::matrix_row(d, ids, order) == matter_parts::device_row_html(
                d.name,
                d.vendor,
                matter_parts::addresses_html(d.ip, d.mac),
                cells,
                web,
            )
        }),
        matter::cells(d.fabrics, ids, Seq::empty()).len() == 0,
        matter::cells(d.fabrics, ids, order.push(k)) == matter::cells(d.fabrics, ids, order) + matter::cell(
            d.fabrics,
            ids[k],
        ),
{
    assert(order.push(k).drop_last() =~= order);
    assert(Seq::<int>::empty().len() == 0);
}

/// Cards, heads and rows come one behind the other, in the order that is given.
pub proof fn parts_come_in_order(
    devices: Seq<MatterModel>,
    known: Map<Seq<char>, FabricMetaModel>,
    ids: Seq<Seq<char>>,
    order: Seq<int>,
    k: int,
    places: Seq<int>,
    p: int,
)
    ensures
        matter::fabric_cards(devices, known, ids, Seq::empty()).len() == 0,
        matter::fabric_cards(devices, known, ids, order.push(k)) == matter::fabric_cards(devices, known, ids, order)
            + matter::fabric_card(devices, known, ids[k]),
        matter::heads(known, ids, order.push(k)) == matter::heads(known, ids, order) + matter_parts::fabric_head_html(
            matter::fabric_icon(known, ids[k]),
            matter::fabric_name(known, ids[k], "Fabric"@),
        ),
        matter::matrix_rows(devices, Seq::empty(), ids, order).len() == 0,
        matter::matrix_rows(devices, places.push(p), ids, order) == matter::matrix_rows(devices, places, ids, order)
            + matter::matrix_row(devices[p], ids, order),
{
    assert(order.push(k).drop_last() =~= order);
    assert(places.push(p).drop_last() =~= places);
    assert(Seq::<int>::empty().len() == 0);
}

/// The rows stand in the order of the devices' names.
pub proof fn rows_stand_by_name(devices: Seq<MatterModel>, i: int, j: int)
    requires
        0 <= i < j < devices.len(),
    ensures
        ({
            let order = matter::device_order(devices);
            &&& order.len() == devices.len()
            &&& 0 <= order[i] < devices.len() && 0 <= order[j] < devices.len() && order[i] != order[j]
            &&& text::at_most(devices[order[i]].name, devices[order[j]].name)
        }),
{
    let keys = devices.map_values(|d: MatterModel| SortKeyModel { rank: 0, name: d.name });
    ordering::sorting_is_stable(keys);
    let order = matter::device_order(devices);
    assert(keys[order[i]] == SortKeyModel { rank: 0, name: devices[order[i]].name });
    assert(keys[order[j]] == SortKeyModel { rank: 0, name: devices[order[j]].name });
}

/// The household's own fabrics stand before all others, each at its place.
pub proof fn own_fabrics_stand_first(other: Seq<char>)
    ensures
        matter::fabric_rank("6ABEDCB982EC2223"@) == 1,
        matter::fabric_rank("4518A03EC84FB6E7"@) == 2,
        matter::fabric_rank("A38D674BFAAFF432"@) == 3,
        other != "6ABEDCB982EC2223"@ && other != "4518A03EC84FB6E7"@ && other != "A38D674BFAAFF432"@
            ==> matter::fabric_rank(other) == 10,
{
    reveal_strlit("6ABEDCB982EC2223");
    reveal_strlit("4518A03EC84FB6E7");
    reveal_strlit("A38D674BFAAFF432");
    assert("6ABEDCB982EC2223"@[0] == '6' && "4518A03EC84FB6E7"@[0] == '4' && "A38D674BFAAFF432"@[0] == 'A');
}

/// The page counts the fabrics, the nodes, the devices and the shared devices, in this order, and shows the
/// cards and the table of the same devices.
pub proof fn the_page_counts_what_it_shows(
    list: Seq<UnifiedModel>,
    known: Map<Seq<char>, FabricMetaModel>,
    ids: Seq<Seq<char>>,
    percent: Seq<char>,
)
    ensures
        ({
            let devices = matter::matter_devices(list, known);
            let all = matter::fabric_ids(ids, devices);
            let page = matter::matter_content(list, known, ids, percent);
            text::has(
                page,
                matter_parts::summary_html(
                    text::decimal(all.len()),
                    text::decimal(matter::node_count(devices)),
                    text::decimal(devices.len()),
                    text::decimal(matter::shared_count(devices)),
                    percent,
                ) + matter_parts::CONTENT_1@ + text::decimal(all.len()) + matter_parts::CONTENT_2@ + matter::fabric_cards(
                    devices,
                    known,
                    all,
                    matter::fabric_order(all),
                ) + matter_parts::CONTENT_3@ + text::decimal(devices.len()),
            )
        }),
{
    let devices = matter::matter_devices(list, known);
    let all = matter::fabric_ids(ids, devices);
    let order = matter::fabric_order(all);
    let summary = matter_parts::summary_html(
        text::decimal(all.len()),
        text::decimal(matter::node_count(devices)),
        text::decimal(devices.len()),
        text::decimal(matter::shared_count(devices)),
        percent,
    );
    let cards = matter::fabric_cards(devices, known, all, order);
    let n = text::decimal(all.len());
    let m = text::decimal(devices.len());
    let head = matter::matrix_head(known, all, order);
    let table = matter::matrix_rows(devices, matter::device_order(devices), all, order);
    let shown = summary + matter_parts::CONTENT_1@ + n + matter_parts::CONTENT_2@ + cards + matter_parts::CONTENT_3@ + m;
    texts::lemma_seven_in_a_row(
        matter_parts::CONTENT_0@,
        summary,
        matter_parts::CONTENT_1@,
        n,
        matter_parts::CONTENT_2@,
        cards,
        matter_parts::CONTENT_3@,
        m,
    );
    let s = matter_parts::CONTENT_0@ + summary + matter_parts::CONTENT_1@ + n + matter_parts::CONTENT_2@ + cards
        + matter_parts::CONTENT_3@ + m;
    texts::lemma_stands_with_four(s, matter_parts::CONTENT_4@, head, matter_parts::CONTENT_5@, table, shown);
    let t = s + matter_parts::CONTENT_4@ + head + matter_parts::CONTENT_5@ + table;
    texts::lemma_stands_with_more(t, matter_parts::CONTENT_6@, shown);
    texts::lemma_stands_with_more(t + matter_parts::CONTENT_6@, matter_parts::SCRIPT@, shown);
    texts::lemma_stands_with_more(
        t + matter_parts::CONTENT_6@ + matter_parts::SCRIPT@,
        matter_parts::CONTENT_7@,
        shown,
    );
}

/// The table begins with the device and its network, and ends with what can be done.
pub proof fn the_table_is_headed(known: Map<Seq<char>, FabricMetaModel>, ids: Seq<Seq<char>>, order: Seq<int>)
    ensures
        matter::heads(known, ids, Seq::empty()) == "<th>Matter Device</th><th>Network</th>"@,
        matter::matrix_head(known, ids, order) == matter::heads(known, ids, order)
            + "<th style=\"text-align:right;\">Quick Action</th>"@,
{
    assert(Seq::<int>::empty().len() == 0);
}

/// The card of a fabric that is not known says so.
pub proof fn cards_of_unknown_fabrics_say_so(
    devices: Seq<MatterModel>,
    known: Map<Seq<char>, FabricMetaModel>,
    id: Seq<char>,
)
    requires
        !known.contains_key(id),
    ensures
        ({
            let members = matter::chips(devices, id, "✨"@);
            matter::fabric_card(devices, known, id) == matter_parts::fabric_card_html(
                "✨"@,
                "Unknown Fabric"@,
                id,
                text::decimal(matter::member_count(devices, id)),
                "Operational Matter fabric membership."@,
                matter::quoted("Unknown Fabric"@),
                matter::quoted("✨"@),
                if members.len() == 0 {
                    matter_parts::NO_MEMBERS@
                } else {
                    members
                },
            )
        }),
{
}

}
