//! The devices page: how the devices are put together and counted.

use vstd::prelude::*;

use crate::category;
use crate::device::DeviceModel;
use crate::json;
use crate::laws::hearing;
use crate::laws::rows;
use crate::links::LinksModel;
use crate::ordering;
use crate::ordering::SortKeyModel;
use crate::pages::device_data::{FactsModel, HouseholdModel};
use crate::pages::device_json;
use crate::pages::device_parts;
use crate::pages::device_row;
use crate::pages::devices;
use crate::pages::devices::ShelfModel;
use crate::pages::devices_frame;
use crate::pages::layout;
use crate::records::{ProductModel, RoomModel};
use crate::text;
use crate::unify;
use crate::unify::UnifiedModel;

verus! {

broadcast use vstd::string::group_string_axioms;

/// The category that was chosen for a device, under its MAC address in small letters or its id.
pub open spec fn chosen(overrides: Map<Seq<char>, Seq<char>>, d: DeviceModel) -> Option<Seq<char>> {
    let mac = rows::small_address(d);
    if mac.len() > 0 && overrides.contains_key(mac) {
        Some(overrides[mac])
    } else if overrides.contains_key(d.device_id) {
        Some(overrides[d.device_id])
    } else {
        None
    }
}

/// The category, title and sign under which a device is listed.
pub open spec fn label(overrides: Map<Seq<char>, Seq<char>>, d: DeviceModel) -> (Seq<char>, Seq<char>, Seq<char>) {
    let own = if d.metadata.contains_key("category"@) {
        d.metadata["category"@]
    } else {
        d.kind
    };
    match chosen(overrides, d) {
        Some(c) => (c, category::presentation(c).0, category::presentation(c).1),
        None => (
            own,
            if d.metadata.contains_key("category_title"@) {
                d.metadata["category_title"@]
            } else {
                category::presentation(own).0
            },
            if d.metadata.contains_key("category_icon"@) {
                d.metadata["category_icon"@]
            } else {
                category::presentation(own).1
            },
        ),
    }
}

proof fn lemma_label(overrides: Map<Seq<char>, Seq<char>>, d: DeviceModel)
    ensures
        ({
            let l = devices::list_label(d, overrides);
            (l.key, l.title, l.icon) == label(overrides, d)
        }),
{
    assert(hearing::reported(d, "mac"@) =~= d.meta_or_empty("mac"@));
}

/// A device joins the category that is there for it, as its last member; every other category stays as it
/// is.
pub proof fn devices_join_their_category(
    list: Seq<UnifiedModel>,
    u: UnifiedModel,
    overrides: Map<Seq<char>, Seq<char>>,
    k: int,
)
    requires
        ({
            let before = devices::shelves(list, overrides);
            let l = label(overrides, u.primary);
            &&& 0 <= k < before.len()
            &&& before[k].key == category::canonical_key(l.0, l.1)
            &&& forall|i: int| k < i < before.len() ==> (#[trigger] before[i]).key != category::canonical_key(l.0, l.1)
        }),
    ensures
        ({
            let before = devices::shelves(list, overrides);
            let after = devices::shelves(list.push(u), overrides);
            &&& after.len() == before.len()
            &&& after[k].members == before[k].members.push(list.len() as int)
            &&& after[k].key == before[k].key && after[k].title == before[k].title && after[k].icon == before[k].icon
            &&& forall|i: int| 0 <= i < before.len() && i != k ==> #[trigger] after[i] == before[i]
        }),
{
    lemma_label(overrides, u.primary);
    lemma_below(list, u, overrides, list.len() as int);
    let before = devices::shelves(list, overrides);
    let l = label(overrides, u.primary);
    lemma_at(before, category::canonical_key(l.0, l.1), k);
    assert(list.push(u)[list.len() as int] == u);
}

/// A device for which no category is there opens one, behind the others, with the title and sign it
/// brings.
pub proof fn devices_open_their_category(
    list: Seq<UnifiedModel>,
    u: UnifiedModel,
    overrides: Map<Seq<char>, Seq<char>>,
)
    requires
        forall|i: int|
            0 <= i < devices::shelves(list, overrides).len() ==> (#[trigger] devices::shelves(list, overrides)[i]).key
                != category::canonical_key(label(overrides, u.primary).0, label(overrides, u.primary).1),
    ensures
        devices::shelves(Seq::empty(), overrides).len() == 0,
        devices::shelves(list.push(u), overrides) == devices::shelves(list, overrides).push(
            ShelfModel {
                key: category::canonical_key(label(overrides, u.primary).0, label(overrides, u.primary).1),
                title: label(overrides, u.primary).1,
                icon: label(overrides, u.primary).2,
                members: seq![list.len() as int],
            },
        ),
{
    lemma_label(overrides, u.primary);
    lemma_below(list, u, overrides, list.len() as int);
    let before = devices::shelves(list, overrides);
    let l = label(overrides, u.primary);
    lemma_nowhere(before, category::canonical_key(l.0, l.1));
    assert(list.push(u)[list.len() as int] == u);
    assert(Seq::<UnifiedModel>::empty().len() == 0);
}

proof fn lemma_below(list: Seq<UnifiedModel>, u: UnifiedModel, overrides: Map<Seq<char>, Seq<char>>, n: int)
    requires
        0 <= n <= list.len(),
    ensures
        devices::shelves_below(list.push(u), overrides, n) == devices::shelves_below(list, overrides, n),
    decreases n,
{
    if n > 0 {
        lemma_below(list, u, overrides, n - 1);
        assert(list.push(u)[n - 1] == list[n - 1]);
    }
}

proof fn lemma_at(all: Seq<ShelfModel>, key: Seq<char>, k: int)
    requires
        0 <= k < all.len(),
        all[k].key == key,
        forall|i: int| k < i < all.len() ==> (#[trigger] all[i]).key != key,
    ensures
        devices::shelf_position(all, key) == Some(k),
    decreases all.len(),
{
    if k < all.len() - 1 {
        let rest = all.drop_last();
        assert(all[all.len() - 1].key != key);
        assert(rest[k] == all[k]);
        assert forall|i: int| k < i < rest.len() implies (#[trigger] rest[i]).key != key by {
            assert(rest[i] == all[i]);
        }
        lemma_at(rest, key, k);
    }
}

proof fn lemma_nowhere(all: Seq<ShelfModel>, key: Seq<char>)
    requires
        forall|i: int| 0 <= i < all.len() ==> (#[trigger] all[i]).key != key,
    ensures
        devices::shelf_position(all, key) is None,
    decreases all.len(),
{
    if all.len() > 0 {
        let rest = all.drop_last();
        assert(all[all.len() - 1].key != key);
        assert forall|i: int| 0 <= i < rest.len() implies (#[trigger] rest[i]).key != key by {
            assert(rest[i] == all[i]);
        }
        lemma_nowhere(rest, key);
    }
}

/// The device is ignored, by its id or its MAC address.
pub open spec fn ignored(d: DeviceModel, facts: FactsModel) -> bool {
    facts.id_ignored || (facts.mac_ignored && d.metadata.contains_key("mac"@) && d.metadata["mac"@].len() > 0)
}

/// Of the first devices, one more counts as ignored where it is; and in its state where it is not ignored
/// and reports the state, or none for the active ones.
pub proof fn devices_are_counted_once(list: Seq<UnifiedModel>, facts: Seq<FactsModel>, status: Seq<char>, n: int)
    requires
        0 <= n < list.len(),
    ensures
        devices::ignored_below(list, facts, 0) == 0,
        devices::in_state_below(list, facts, status, 0) == 0,
        devices::ignored_below(list, facts, n + 1) == devices::ignored_below(list, facts, n) + if ignored(
            list[n].primary,
            facts[n],
        ) {
            1int
        } else {
            0int
        },
        devices::in_state_below(list, facts, status, n + 1) == devices::in_state_below(list, facts, status, n) + if !ignored(
            list[n].primary,
            facts[n],
        ) && rows::state(list[n].primary) == status {
            1int
        } else {
            0int
        },
{
}

/// The categories stand in the order of their places, and those of one place in the order of their
/// titles.
pub proof fn categories_stand_in_order(all: Seq<ShelfModel>, i: int, j: int)
    requires
        0 <= i < j < all.len(),
    ensures
        ({
            let order = devices::shelf_order(all);
            let a = all[order[i]];
            let b = all[order[j]];
            &&& order.len() == all.len()
            &&& 0 <= order[i] < all.len() && 0 <= order[j] < all.len() && order[i] != order[j]
            &&& category::sort_order(a.key) <= category::sort_order(b.key)
            &&& category::sort_order(a.key) == category::sort_order(b.key) ==> text::at_most(a.title, b.title)
        }),
{
    let keys = all.map_values(|s: ShelfModel| devices::shelf_key(s));
    ordering::sorting_is_stable(keys);
    let order = devices::shelf_order(all);
    assert(keys[order[i]] == devices::shelf_key(all[order[i]]));
    assert(keys[order[j]] == devices::shelf_key(all[order[j]]));
}

/// Every category has a button and a card with its title, its sign and the number of its devices, and the
/// card holds the row of every one of them, in order.
pub proof fn categories_show_their_devices(
    list: Seq<UnifiedModel>,
    facts: Seq<FactsModel>,
    home: HouseholdModel,
    all: Seq<ShelfModel>,
    order: Seq<int>,
    k: int,
    members: Seq<int>,
    m: int,
)
    ensures
        devices::pills(all, Seq::empty()).len() == 0,
        devices::pills(all, order.push(k)) == devices::pills(all, order) + device_parts::category_pill_html(
            all[k].key,
            all[k].icon,
            all[k].title,
            text::decimal(all[k].members.len()),
        ),
        devices::cards(list, facts, home, all, Seq::empty()).len() == 0,
        devices::cards(list, facts, home, all, order.push(k)) == devices::cards(list, facts, home, all, order)
            + device_parts::group_card_html(
            all[k].key,
            all[k].icon,
            all[k].title,
            text::decimal(all[k].members.len()),
            devices::rows(list, facts, home, all[k].key, all[k].members),
        ),
        devices::rows(list, facts, home, all[k].key, Seq::empty()).len() == 0,
        devices::rows(list, facts, home, all[k].key, members.push(m)) == devices::rows(
            list,
            facts,
            home,
            all[k].key,
            members,
        ) + device_row::device_row(list[m], facts[m], home, all[k].key),
{
    assert(order.push(k).drop_last() =~= order);
    assert(members.push(m).drop_last() =~= members);
    assert(Seq::<int>::empty().len() == 0);
}

/// The floor of a room, or that of all rooms without one.
pub open spec fn floor(room: RoomModel) -> Seq<char> {
    match room.floor {
        Some(f) => f,
        None => "Sonstige"@,
    }
}

/// Every floor is offered once, in the order in which rooms bring them; and each floor offers its rooms and
/// no others, with their signs.
pub proof fn floors_offer_their_rooms(rooms: Seq<RoomModel>, room: RoomModel, at: Seq<char>)
    ensures
        devices::floors(Seq::empty()).len() == 0,
        devices::floors(rooms).contains(floor(room)) ==> devices::floors(rooms.push(room)) == devices::floors(rooms),
        !devices::floors(rooms).contains(floor(room)) ==> devices::floors(rooms.push(room)) == devices::floors(rooms).push(
            floor(room),
        ),
        devices::floor_options(Seq::empty(), at).len() == 0,
        floor(room) != at ==> devices::floor_options(rooms.push(room), at) == devices::floor_options(rooms, at),
        floor(room) == at && room.icon is Some ==> devices::floor_options(rooms.push(room), at) == devices::floor_options(
            rooms,
            at,
        ) + device_parts::room_option_html(room.name, room.icon->0),
        floor(room) == at && room.icon is None ==> devices::floor_options(rooms.push(room), at) == devices::floor_options(
            rooms,
            at,
        ) + device_parts::room_option_html(room.name, "📍"@),
{
    assert(rooms.push(room).drop_last() =~= rooms);
    assert(Seq::<RoomModel>::empty().len() == 0);
}

/// The floors are offered in the order of their names, each with its rooms.
pub proof fn floors_are_offered_by_name(rooms: Seq<RoomModel>, all: Seq<Seq<char>>, order: Seq<int>, k: int, i: int, j: int)
    requires
        0 <= i < j < all.len(),
    ensures
        devices::room_options(rooms) == devices::options_by_floor(
            rooms,
            devices::floors(rooms),
            devices::alphabetical(devices::floors(rooms)),
        ),
        devices::options_by_floor(rooms, all, Seq::empty()) == device_parts::ROOM_OPTIONS@,
        devices::options_by_floor(rooms, all, order.push(k)) == devices::options_by_floor(rooms, all, order)
            + device_parts::floor_start_html(all[k]) + devices::floor_options(rooms, all[k]) + "</optgroup>"@,
        ({
            let sorted = devices::alphabetical(all);
            &&& sorted.len() == all.len()
            &&& 0 <= sorted[i] < all.len() && 0 <= sorted[j] < all.len() && sorted[i] != sorted[j]
            &&& text::at_most(all[sorted[i]], all[sorted[j]])
        }),
{
    let keys = all.map_values(|f: Seq<char>| SortKeyModel { rank: 0, name: f });
    ordering::sorting_is_stable(keys);
    let sorted = devices::alphabetical(all);
    assert(keys[sorted[i]] == SortKeyModel { rank: 0, name: all[sorted[i]] });
    assert(keys[sorted[j]] == SortKeyModel { rank: 0, name: all[sorted[j]] });
    assert(order.push(k).drop_last() =~= order);
    assert(Seq::<int>::empty().len() == 0);
}

/// The page counts all entries, those that are not ignored, the active, former and archived ones among
/// them, and the ignored ones; it lists every category, and tells its script of the same devices.
pub proof fn the_page_counts_what_it_lists(
    list: Seq<UnifiedModel>,
    facts: Seq<FactsModel>,
    home: HouseholdModel,
    products: Seq<ProductModel>,
    rooms: Seq<char>,
    lights: Seq<char>,
    told: Seq<char>,
    choices: Seq<char>,
)
    requires
        match json::compact_text(device_json::devices_json(list, facts, home)) {
            Some(written) => told == written,
            None => told == "[]"@,
        },
        match json::compact_text(device_json::choices_json(products, home.vendors_by_id)) {
            Some(written) => choices == written,
            None => choices == "[]"@,
        },
    ensures
        ({
            let n = list.len() as int;
            let active = devices::in_state_below(list, facts, "active"@, n);
            let former = devices::in_state_below(list, facts, "inactive"@, n);
            let archived = devices::in_state_below(list, facts, "archive"@, n);
            let all = devices::shelves(list, home.category_overrides);
            let order = devices::shelf_order(all);
            devices::devices_content(list, facts, home, products, rooms, lights) == devices_frame::content_html(
                text::decimal(list.len()),
                text::decimal((active + former + archived) as nat),
                text::decimal(active),
                text::decimal(former),
                text::decimal(archived),
                text::decimal(devices::ignored_below(list, facts, n)),
                devices::room_options(home.rooms),
                device_parts::all_pill_html(text::decimal(list.len())) + devices::pills(all, order),
                devices::cards(list, facts, home, all, order),
                devices_frame::script_html(told, choices, rooms, lights),
            )
        }),
{
}

/// The page shows the devices as they are put together, and says so where there are none.
pub proof fn the_page_shows_the_devices(
    title: Seq<char>,
    all: Seq<DeviceModel>,
    links: LinksModel,
    facts: Seq<FactsModel>,
    home: HouseholdModel,
    products: Seq<ProductModel>,
    rooms: Seq<char>,
    lights: Seq<char>,
)
    ensures
        all.len() == 0 ==> devices::devices_page(title, all, links, facts, home, products, rooms, lights) == layout::page(
            title,
            "devices"@,
            devices_frame::NO_DEVICES@,
        ),
        all.len() > 0 ==> devices::devices_page(title, all, links, facts, home, products, rooms, lights) == layout::page(
            title,
            "devices"@,
            devices::devices_content(unify::unified(all, links), facts, home, products, rooms, lights),
        ),
{
}

}
