//! The devices page: all devices in their categories, with the data that its script needs.

use vstd::prelude::*;

use crate::category;
use crate::device::{DeviceModel, DeviceRecord};
use crate::json;
use crate::links::LinksModel;
use crate::ordering;
use crate::ordering::{SortKey, SortKeyModel};
use crate::pages::device_data;
use crate::pages::device_data::{DeviceFacts, FactsModel, Household, HouseholdModel, Label, LabelModel};
use crate::pages::device_json;
use crate::pages::device_parts;
use crate::pages::device_row;
use crate::pages::devices_frame;
use crate::pages::layout;
use crate::pages::matter;
use crate::records::{Product, ProductModel, RoomModel, RoomRecord};
use crate::text;
use crate::text_map::TextMap;
use crate::unify;
use crate::unify::{UnifiedDevice, UnifiedModel};

verus! {

broadcast use vstd::string::group_string_axioms;

// ---------------------------------------------------------------------------------------
// Categories
// ---------------------------------------------------------------------------------------

/// A category with the positions of its devices.
pub struct Shelf {
    pub key: String,
    pub title: String,
    pub icon: String,
    pub members: Vec<usize>,
}

/// What a `Shelf` stands for.
#[verifier::ext_equal]
pub struct ShelfModel {
    pub key: Seq<char>,
    pub title: Seq<char>,
    pub icon: Seq<char>,
    pub members: Seq<int>,
}

impl DeepView for Shelf {
    type V = ShelfModel;

    open spec fn deep_view(&self) -> ShelfModel {
        ShelfModel {
            key: self.key@,
            title: self.title@,
            icon: self.icon@,
            members: ordering::positions(self.members@),
        }
    }
}

/// Where the category `key` stands.
pub open spec fn shelf_position(shelves: Seq<ShelfModel>, key: Seq<char>) -> Option<int>
    decreases shelves.len(),
{
    if shelves.len() == 0 {
        None
    } else if shelves.last().key == key {
        Some(shelves.len() - 1)
    } else {
        shelf_position(shelves.drop_last(), key)
    }
}

/// The categories with the device at position `i` in the one that `label` names. A category
/// that is new gets the title and the icon of its first device.
pub open spec fn with_member(shelves: Seq<ShelfModel>, label: LabelModel, i: int) -> Seq<ShelfModel> {
    let key = device_data::group_key(label);
    match shelf_position(shelves, key) {
        Some(at) => {
            let shelf = shelves[at];
            shelves.update(
                at,
                ShelfModel {
                    key: shelf.key,
                    title: shelf.title,
                    icon: shelf.icon,
                    members: shelf.members.push(i),
                },
            )
        },
        None => shelves.push(ShelfModel { key, title: label.title, icon: label.icon, members: seq![i] }),
    }
}

/// The category of a device in the list.
pub open spec fn list_label(d: DeviceModel, overrides: Map<Seq<char>, Seq<char>>) -> LabelModel {
    device_data::label_of(overrides, d, device_data::doc_key(device_data::small_mac(d), d.device_id))
}

/// The categories of the first `n` devices.
pub open spec fn shelves_below(list: Seq<UnifiedModel>, overrides: Map<Seq<char>, Seq<char>>, n: int) -> Seq<ShelfModel>
    decreases n,
{
    if n <= 0 {
        Seq::empty()
    } else {
        with_member(shelves_below(list, overrides, n - 1), list_label(list[n - 1].primary, overrides), n - 1)
    }
}

/// The categories of all devices, in the order in which they came up.
pub open spec fn shelves(list: Seq<UnifiedModel>, overrides: Map<Seq<char>, Seq<char>>) -> Seq<ShelfModel> {
    shelves_below(list, overrides, list.len() as int)
}

/// What categories are sorted by: their place, and their title where places are equal.
pub open spec fn shelf_key(shelf: ShelfModel) -> SortKeyModel {
    SortKeyModel { rank: category::sort_order(shelf.key), name: shelf.title }
}

/// The positions of the categories in the order of the list.
pub open spec fn shelf_order(all: Seq<ShelfModel>) -> Seq<int> {
    ordering::sorted_positions(all.map_values(|s: ShelfModel| shelf_key(s)))
}

fn shelf_position_of(shelves: &Vec<Shelf>, key: &str) -> (r: Option<usize>)
    ensures
        match r {
            Some(i) => i < shelves@.len() && shelf_position(shelves.deep_view(), key@) == Some(i as int),
            None => shelf_position(shelves.deep_view(), key@) is None,
        },
{
    let ghost all = shelves.deep_view();
    let mut i: usize = shelves.len();
    assert(all.take(i as int) =~= all);
    while i > 0
        invariant
            i <= shelves@.len(),
            all == shelves.deep_view(),
            shelf_position(all, key@) == shelf_position(all.take(i as int), key@),
        decreases i,
    {
        i = i - 1;
        assert(all.take(i + 1).drop_last() =~= all.take(i as int));
        assert(all.take(i + 1).last() == shelves@[i as int].deep_view());
        if text::same(shelves[i].key.as_str(), key) {
            return Some(i);
        }
    }
    None
}

fn add_member(shelves: &mut Vec<Shelf>, label: Label, i: usize)
    ensures
        final(shelves).deep_view() == with_member(old(shelves).deep_view(), label.deep_view(), i as int),
{
    let ghost before = shelves.deep_view();
    let key = category::canonical_category_key(label.key.as_str(), label.title.as_str());
    match shelf_position_of(shelves, key) {
        Some(at) => {
            let mut members = shelves[at].members.clone();
            let ghost earlier = ordering::positions(members@);
            members.push(i);
            assert(ordering::positions(members@) =~= earlier.push(i as int));
            let shelf = Shelf {
                key: shelves[at].key.clone(),
                title: shelves[at].title.clone(),
                icon: shelves[at].icon.clone(),
                members,
            };
            assert(before[at as int] == shelves@[at as int].deep_view());
            shelves.set(at, shelf);
            assert(shelves.deep_view() =~= before.update(at as int, shelf.deep_view()));
        },
        None => {
            let mut members: Vec<usize> = Vec::new();
            members.push(i);
            assert(ordering::positions(members@) =~= seq![i as int]);
            let shelf = Shelf { key: key.to_owned(), title: label.title, icon: label.icon, members };
            shelves.push(shelf);
            assert(shelves.deep_view() =~= before.push(shelf.deep_view()));
        },
    }
}

/// The categories of all devices.
pub(crate) fn shelve(list: &[UnifiedDevice], overrides: &TextMap<String>) -> (r: Vec<Shelf>)
    ensures
        r.deep_view() == shelves(list.deep_view(), overrides@),
        forall|i: int, k: int|
            0 <= i < r@.len() && 0 <= k < r.deep_view()[i].members.len() ==> 0 <= (
            #[trigger] r.deep_view()[i].members[k]) < list@.len(),
{
    let ghost all = list.deep_view();
    let mut r: Vec<Shelf> = Vec::new();
    let mut n: usize = 0;
    assert(r.deep_view() =~= Seq::<ShelfModel>::empty());
    while n < list.len()
        invariant
            n <= list@.len(),
            all == list.deep_view(),
            r.deep_view() == shelves_below(all, overrides@, n as int),
        decreases list@.len() - n,
    {
        let d = &list[n].primary;
        assert(all[n as int].primary == d.deep_view());
        let mac = device_data::small_mac_of(d);
        let key = device_data::doc_key_of(mac.as_str(), d.device_id.as_str());
        let label = device_data::find_label(overrides, d, key.as_str());
        add_member(&mut r, label, n);
        n = n + 1;
    }
    proof {
        lemma_members_in_range(all, overrides@, list@.len() as int);
    }
    r
}

proof fn lemma_shelf_position(shelves: Seq<ShelfModel>, key: Seq<char>)
    ensures
        match shelf_position(shelves, key) {
            Some(at) => 0 <= at < shelves.len() && shelves[at].key == key,
            None => forall|i: int| 0 <= i < shelves.len() ==> (#[trigger] shelves[i]).key != key,
        },
    decreases shelves.len(),
{
    if shelves.len() > 0 {
        let rest = shelves.drop_last();
        lemma_shelf_position(rest, key);
        assert forall|i: int|
            0 <= i < shelves.len() && shelf_position(shelves, key) is None implies (#[trigger] shelves[i]).key != key by {
            if i < rest.len() {
                assert(rest[i] == shelves[i]);
            }
        }
    }
}

proof fn lemma_members_in_range(list: Seq<UnifiedModel>, overrides: Map<Seq<char>, Seq<char>>, n: int)
    ensures
        forall|i: int, k: int|
            0 <= i < shelves_below(list, overrides, n).len() && 0 <= k < shelves_below(list, overrides, n)[i].members.len()
                ==> 0 <= (#[trigger] shelves_below(list, overrides, n)[i].members[k]) < n,
    decreases n,
{
    if n > 0 {
        let before = shelves_below(list, overrides, n - 1);
        let after = shelves_below(list, overrides, n);
        let label = list_label(list[n - 1].primary, overrides);
        lemma_members_in_range(list, overrides, n - 1);
        lemma_shelf_position(before, device_data::group_key(label));
        assert forall|i: int, k: int| 0 <= i < after.len() && 0 <= k < after[i].members.len() implies 0 <= (
        #[trigger] after[i].members[k]) < n by {
            if i < before.len() && k < before[i].members.len() {
                assert(before[i].members[k] == after[i].members[k]);
            }
        }
    }
}

/// The positions of the categories in the order of the list.
pub(crate) fn order_shelves(all: &Vec<Shelf>) -> (r: Vec<usize>)
    ensures
        ordering::positions(r@) == shelf_order(all.deep_view()),
        forall|i: int| 0 <= i < r@.len() ==> (#[trigger] r@[i]) < all@.len(),
{
    let ghost models = all.deep_view();
    let mut keys: Vec<SortKey> = Vec::new();
    let mut i: usize = 0;
    while i < all.len()
        invariant
            i <= all@.len(),
            models == all.deep_view(),
            keys@.len() == i,
            forall|k: int| 0 <= k < i ==> (#[trigger] keys@[k]).deep_view() == shelf_key(models[k]),
        decreases all@.len() - i,
    {
        assert(models[i as int] == all@[i as int].deep_view());
        keys.push(
            SortKey { rank: category::category_sort_order(all[i].key.as_str()), name: all[i].title.clone() },
        );
        i = i + 1;
    }
    assert(keys.deep_view() =~= models.map_values(|s: ShelfModel| shelf_key(s)));
    ordering::sort_positions(&keys)
}

// ---------------------------------------------------------------------------------------
// The list
// ---------------------------------------------------------------------------------------

/// The filters for the categories at the positions `order`.
pub open spec fn pills(all: Seq<ShelfModel>, order: Seq<int>) -> Seq<char>
    decreases order.len(),
{
    if order.len() == 0 {
        Seq::empty()
    } else {
        let shelf = all[order.last()];
        pills(all, order.drop_last()) + device_parts::category_pill_html(
            shelf.key,
            shelf.icon,
            shelf.title,
            text::decimal(shelf.members.len()),
        )
    }
}

fn pills_of(all: &Vec<Shelf>, order: &Vec<usize>) -> (r: String)
    requires
        forall|i: int| 0 <= i < order@.len() ==> (#[trigger] order@[i]) < all@.len(),
    ensures
        r@ == pills(all.deep_view(), ordering::positions(order@)),
{
    let ghost models = all.deep_view();
    let ghost places = ordering::positions(order@);
    let mut r = text::empty();
    let mut i: usize = 0;
    while i < order.len()
        invariant
            i <= order@.len(),
            models == all.deep_view(),
            places == ordering::positions(order@),
            forall|k: int| 0 <= k < order@.len() ==> (#[trigger] order@[k]) < all@.len(),
            r@ == pills(models, places.take(i as int)),
        decreases order@.len() - i,
    {
        let shelf = &all[order[i]];
        assert(places.take(i + 1).drop_last() =~= places.take(i as int));
        assert(places.take(i + 1).last() == order@[i as int]);
        assert(models[order@[i as int] as int] == shelf.deep_view());
        r.append(
            device_parts::category_pill(
                shelf.key.as_str(),
                shelf.icon.as_str(),
                shelf.title.as_str(),
                text::count(shelf.members.len()).as_str(),
            ).as_str(),
        );
        i = i + 1;
    }
    assert(places.take(i as int) =~= places);
    r
}

/// The rows of the devices at the positions `members`.
pub open spec fn rows(
    list: Seq<UnifiedModel>,
    facts: Seq<FactsModel>,
    home: HouseholdModel,
    group: Seq<char>,
    members: Seq<int>,
) -> Seq<char>
    decreases members.len(),
{
    if members.len() == 0 {
        Seq::empty()
    } else {
        let i = members.last();
        rows(list, facts, home, group, members.drop_last()) + device_row::device_row(list[i], facts[i], home, group)
    }
}

fn rows_of(list: &[UnifiedDevice], facts: &[DeviceFacts], home: &Household, shelf: &Shelf) -> (r: String)
    requires
        list@.len() == facts@.len(),
        device_json::can_show(list.deep_view(), home.deep_view()),
        forall|k: int| 0 <= k < shelf.members@.len() ==> (#[trigger] shelf.members@[k]) < list@.len(),
    ensures
        r@ == rows(
            list.deep_view(),
            facts.deep_view(),
            home.deep_view(),
            shelf.deep_view().key,
            shelf.deep_view().members,
        ),
{
    let ghost all = list.deep_view();
    let ghost known = facts.deep_view();
    let ghost places = shelf.deep_view().members;
    let mut r = text::empty();
    let mut i: usize = 0;
    while i < shelf.members.len()
        invariant
            i <= shelf.members@.len(),
            list@.len() == facts@.len(),
            all == list.deep_view(),
            known == facts.deep_view(),
            places == ordering::positions(shelf.members@),
            device_json::can_show(all, home.deep_view()),
            forall|k: int| 0 <= k < shelf.members@.len() ==> (#[trigger] shelf.members@[k]) < list@.len(),
            r@ == rows(all, known, home.deep_view(), shelf.key@, places.take(i as int)),
        decreases shelf.members@.len() - i,
    {
        let at: usize = shelf.members[i];
        assert(places.take(i + 1).drop_last() =~= places.take(i as int));
        assert(places.take(i + 1).last() == at);
        assert(all[at as int] == list@[at as int].deep_view());
        assert(known[at as int] == facts@[at as int].deep_view());
        r.append(device_row::device_row_of(&list[at], &facts[at], home, shelf.key.as_str()).as_str());
        i = i + 1;
    }
    assert(places.take(i as int) =~= places);
    r
}

/// The cards of the categories at the positions `order`.
pub open spec fn cards(
    list: Seq<UnifiedModel>,
    facts: Seq<FactsModel>,
    home: HouseholdModel,
    all: Seq<ShelfModel>,
    order: Seq<int>,
) -> Seq<char>
    decreases order.len(),
{
    if order.len() == 0 {
        Seq::empty()
    } else {
        let shelf = all[order.last()];
        cards(list, facts, home, all, order.drop_last()) + device_parts::group_card_html(
            shelf.key,
            shelf.icon,
            shelf.title,
            text::decimal(shelf.members.len()),
            rows(list, facts, home, shelf.key, shelf.members),
        )
    }
}

fn cards_of(
    list: &[UnifiedDevice],
    facts: &[DeviceFacts],
    home: &Household,
    all: &Vec<Shelf>,
    order: &Vec<usize>,
) -> (r: String)
    requires
        list@.len() == facts@.len(),
        device_json::can_show(list.deep_view(), home.deep_view()),
        forall|i: int| 0 <= i < order@.len() ==> (#[trigger] order@[i]) < all@.len(),
        forall|i: int, k: int|
            0 <= i < all@.len() && 0 <= k < all.deep_view()[i].members.len() ==> 0 <= (
            #[trigger] all.deep_view()[i].members[k]) < list@.len(),
    ensures
        r@ == cards(
            list.deep_view(),
            facts.deep_view(),
            home.deep_view(),
            all.deep_view(),
            ordering::positions(order@),
        ),
{
    let ghost models = all.deep_view();
    let ghost places = ordering::positions(order@);
    let mut r = text::empty();
    let mut i: usize = 0;
    while i < order.len()
        invariant
            i <= order@.len(),
            list@.len() == facts@.len(),
            device_json::can_show(list.deep_view(), home.deep_view()),
            models == all.deep_view(),
            places == ordering::positions(order@),
            forall|k: int| 0 <= k < order@.len() ==> (#[trigger] order@[k]) < all@.len(),
            forall|n: int, k: int|
                0 <= n < all@.len() && 0 <= k < models[n].members.len() ==> 0 <= (#[trigger] models[n].members[k])
                    < list@.len(),
            r@ == cards(list.deep_view(), facts.deep_view(), home.deep_view(), models, places.take(i as int)),
        decreases order@.len() - i,
    {
        let shelf = &all[order[i]];
        let ghost at = order@[i as int] as int;
        assert(places.take(i + 1).drop_last() =~= places.take(i as int));
        assert(places.take(i + 1).last() == at);
        assert(models[at] == shelf.deep_view());
        assert forall|k: int| 0 <= k < shelf.members@.len() implies (#[trigger] shelf.members@[k]) < list@.len() by {
            assert(models[at].members[k] == shelf.members@[k]);
        }
        let inner = rows_of(list, facts, home, shelf);
        r.append(
            device_parts::group_card(
                shelf.key.as_str(),
                shelf.icon.as_str(),
                shelf.title.as_str(),
                text::count(shelf.members.len()).as_str(),
                inner.as_str(),
            ).as_str(),
        );
        i = i + 1;
    }
    assert(places.take(i as int) =~= places);
    r
}

// ---------------------------------------------------------------------------------------
// Counts and filters
// ---------------------------------------------------------------------------------------

/// How many of the first `n` devices are ignored.
pub open spec fn ignored_below(list: Seq<UnifiedModel>, facts: Seq<FactsModel>, n: int) -> nat
    decreases n,
{
    if n <= 0 {
        0
    } else {
        ignored_below(list, facts, n - 1) + if device_data::is_ignored(list[n - 1].primary, facts[n - 1]) {
            1nat
        } else {
            0nat
        }
    }
}

/// How many of the first `n` devices are not ignored and in the state `status`.
pub open spec fn in_state_below(list: Seq<UnifiedModel>, facts: Seq<FactsModel>, status: Seq<char>, n: int) -> nat
    decreases n,
{
    if n <= 0 {
        0
    } else {
        in_state_below(list, facts, status, n - 1) + if !device_data::is_ignored(list[n - 1].primary, facts[n - 1])
            && device_data::status_of(list[n - 1].primary) == status {
            1nat
        } else {
            0nat
        }
    }
}

fn count_ignored(list: &[UnifiedDevice], facts: &[DeviceFacts]) -> (r: usize)
    requires
        list@.len() == facts@.len(),
    ensures
        r == ignored_below(list.deep_view(), facts.deep_view(), list@.len() as int),
{
    let mut r: usize = 0;
    let mut i: usize = 0;
    while i < list.len()
        invariant
            i <= list@.len(),
            list@.len() == facts@.len(),
            r <= i,
            r == ignored_below(list.deep_view(), facts.deep_view(), i as int),
        decreases list@.len() - i,
    {
        assert(list.deep_view()[i as int] == list@[i as int].deep_view());
        assert(facts.deep_view()[i as int] == facts@[i as int].deep_view());
        if device_data::is_ignored_device(&list[i].primary, &facts[i]) {
            r = r + 1;
        }
        i = i + 1;
    }
    r
}

fn count_in_state(list: &[UnifiedDevice], facts: &[DeviceFacts], status: &str) -> (r: usize)
    requires
        list@.len() == facts@.len(),
    ensures
        r == in_state_below(list.deep_view(), facts.deep_view(), status@, list@.len() as int),
{
    let mut r: usize = 0;
    let mut i: usize = 0;
    while i < list.len()
        invariant
            i <= list@.len(),
            list@.len() == facts@.len(),
            r <= i,
            r == in_state_below(list.deep_view(), facts.deep_view(), status@, i as int),
        decreases list@.len() - i,
    {
        assert(list.deep_view()[i as int] == list@[i as int].deep_view());
        assert(facts.deep_view()[i as int] == facts@[i as int].deep_view());
        if !device_data::is_ignored_device(&list[i].primary, &facts[i]) && text::same(
            device_data::device_status(&list[i].primary).as_str(),
            status,
        ) {
            r = r + 1;
        }
        i = i + 1;
    }
    r
}

/// The floor of a room.
pub open spec fn floor_name(room: RoomModel) -> Seq<char> {
    text::or_text(room.floor, "Sonstige"@)
}

/// The floors of the rooms, each once.
pub open spec fn floors(rooms: Seq<RoomModel>) -> Seq<Seq<char>>
    decreases rooms.len(),
{
    if rooms.len() == 0 {
        Seq::empty()
    } else {
        let before = floors(rooms.drop_last());
        if before.contains(floor_name(rooms.last())) {
            before
        } else {
            before.push(floor_name(rooms.last()))
        }
    }
}

/// The choices for the rooms of one floor.
pub open spec fn floor_options(rooms: Seq<RoomModel>, floor: Seq<char>) -> Seq<char>
    decreases rooms.len(),
{
    if rooms.len() == 0 {
        Seq::empty()
    } else {
        let before = floor_options(rooms.drop_last(), floor);
        let room = rooms.last();
        if floor_name(room) == floor {
            before + device_parts::room_option_html(room.name, text::or_text(room.icon, "📍"@))
        } else {
            before
        }
    }
}

/// The choices for the rooms of the floors at the positions `order`.
pub open spec fn options_by_floor(rooms: Seq<RoomModel>, all: Seq<Seq<char>>, order: Seq<int>) -> Seq<char>
    decreases order.len(),
{
    if order.len() == 0 {
        device_parts::ROOM_OPTIONS@
    } else {
        let floor = all[order.last()];
        options_by_floor(rooms, all, order.drop_last()) + device_parts::floor_start_html(floor) + floor_options(
            rooms,
            floor,
        ) + "</optgroup>"@
    }
}

/// The positions of texts in the order of code points.
pub open spec fn alphabetical(all: Seq<Seq<char>>) -> Seq<int> {
    ordering::sorted_positions(all.map_values(|f: Seq<char>| SortKeyModel { rank: 0, name: f }))
}

/// The choices for the rooms, floor by floor in the order of their names.
pub open spec fn room_options(rooms: Seq<RoomModel>) -> Seq<char> {
    options_by_floor(rooms, floors(rooms), alphabetical(floors(rooms)))
}

fn floor_name_of(room: &RoomRecord) -> (r: String)
    ensures
        r@ == floor_name(room.deep_view()),
{
    match &room.floor {
        Some(f) => f.clone(),
        None => "Sonstige".to_owned(),
    }
}

pub(crate) fn floors_of(rooms: &Vec<RoomRecord>) -> (r: Vec<String>)
    ensures
        r.deep_view() == floors(rooms.deep_view()),
{
    let ghost all = rooms.deep_view();
    let mut r: Vec<String> = Vec::new();
    let mut i: usize = 0;
    assert(r.deep_view() =~= Seq::<Seq<char>>::empty());
    while i < rooms.len()
        invariant
            i <= rooms@.len(),
            all == rooms.deep_view(),
            r.deep_view() == floors(all.take(i as int)),
        decreases rooms@.len() - i,
    {
        let ghost before = r.deep_view();
        assert(all.take(i + 1).drop_last() =~= all.take(i as int));
        assert(all.take(i + 1).last() == rooms@[i as int].deep_view());
        let floor = floor_name_of(&rooms[i]);
        if !text::listed(r.as_slice(), floor.as_str()) {
            r.push(floor);
            assert(r.deep_view() =~= before.push(floor@));
        }
        i = i + 1;
    }
    assert(all.take(i as int) =~= all);
    r
}

pub(crate) fn alphabetical_of(all: &Vec<String>) -> (r: Vec<usize>)
    ensures
        ordering::positions(r@) == alphabetical(all.deep_view()),
        forall|i: int| 0 <= i < r@.len() ==> (#[trigger] r@[i]) < all@.len(),
{
    let ghost models = all.deep_view();
    let mut keys: Vec<SortKey> = Vec::new();
    let mut i: usize = 0;
    while i < all.len()
        invariant
            i <= all@.len(),
            models == all.deep_view(),
            keys@.len() == i,
            forall|k: int|
                0 <= k < i ==> (#[trigger] keys@[k]).deep_view() == (SortKeyModel { rank: 0, name: models[k] }),
        decreases all@.len() - i,
    {
        keys.push(SortKey { rank: 0, name: all[i].clone() });
        i = i + 1;
    }
    assert(keys.deep_view() =~= models.map_values(|f: Seq<char>| SortKeyModel { rank: 0, name: f }));
    ordering::sort_positions(&keys)
}

fn floor_options_of(rooms: &Vec<RoomRecord>, floor: &str) -> (r: String)
    ensures
        r@ == floor_options(rooms.deep_view(), floor@),
{
    let ghost all = rooms.deep_view();
    let mut r = text::empty();
    let mut i: usize = 0;
    while i < rooms.len()
        invariant
            i <= rooms@.len(),
            all == rooms.deep_view(),
            r@ == floor_options(all.take(i as int), floor@),
        decreases rooms@.len() - i,
    {
        let room = &rooms[i];
        assert(all.take(i + 1).drop_last() =~= all.take(i as int));
        assert(all.take(i + 1).last() == room.deep_view());
        if text::same(floor_name_of(room).as_str(), floor) {
            let icon = match &room.icon {
                Some(icon) => icon.clone(),
                None => "📍".to_owned(),
            };
            r.append(device_parts::room_option(room.name.as_str(), icon.as_str()).as_str());
        }
        i = i + 1;
    }
    assert(all.take(i as int) =~= all);
    r
}

fn room_options_of(rooms: &Vec<RoomRecord>) -> (r: String)
    ensures
        r@ == room_options(rooms.deep_view()),
{
    let all = floors_of(rooms);
    let order = alphabetical_of(&all);
    let ghost models = all.deep_view();
    let ghost places = ordering::positions(order@);
    let mut r = device_parts::ROOM_OPTIONS.to_owned();
    let mut i: usize = 0;
    while i < order.len()
        invariant
            i <= order@.len(),
            models == all.deep_view(),
            places == ordering::positions(order@),
            forall|k: int| 0 <= k < order@.len() ==> (#[trigger] order@[k]) < all@.len(),
            r@ == options_by_floor(rooms.deep_view(), models, places.take(i as int)),
        decreases order@.len() - i,
    {
        let floor = &all[order[i]];
        assert(places.take(i + 1).drop_last() =~= places.take(i as int));
        assert(places.take(i + 1).last() == order@[i as int]);
        assert(models[order@[i as int] as int] == floor@);
        r.append(device_parts::floor_start(floor.as_str()).as_str());
        r.append(floor_options_of(rooms, floor.as_str()).as_str());
        r.append("</optgroup>");
        i = i + 1;
    }
    assert(places.take(i as int) =~= places);
    r
}

// ---------------------------------------------------------------------------------------
// The page
// ---------------------------------------------------------------------------------------

/// The content of the page for the entries `list`.
pub open spec fn devices_content(
    list: Seq<UnifiedModel>,
    facts: Seq<FactsModel>,
    home: HouseholdModel,
    products: Seq<ProductModel>,
    rooms_json: Seq<char>,
    govee_json: Seq<char>,
) -> Seq<char> {
    let n = list.len() as int;
    let active = in_state_below(list, facts, "active"@, n);
    let former = in_state_below(list, facts, "inactive"@, n);
    let archived = in_state_below(list, facts, "archive"@, n);
    let all = shelves(list, home.category_overrides);
    let order = shelf_order(all);
    devices_frame::content_html(
        text::decimal(list.len()),
        text::decimal(active + former + archived),
        text::decimal(active),
        text::decimal(former),
        text::decimal(archived),
        text::decimal(ignored_below(list, facts, n)),
        room_options(home.rooms),
        device_parts::all_pill_html(text::decimal(list.len())) + pills(all, order),
        cards(list, facts, home, all, order),
        devices_frame::script_html(
            text::or_text(json::compact_text(device_json::devices_json(list, facts, home)), "[]"@),
            text::or_text(json::compact_text(device_json::choices_json(products, home.vendors_by_id)), "[]"@),
            rooms_json,
            govee_json,
        ),
    )
}

fn devices_content_of(
    list: &[UnifiedDevice],
    facts: &[DeviceFacts],
    home: &Household,
    products: &[Product],
    rooms_json: &str,
    govee_json: &str,
) -> (r: String)
    requires
        list@.len() == facts@.len(),
        device_json::can_show(list.deep_view(), home.deep_view()),
    ensures
        r@ == devices_content(
            list.deep_view(),
            facts.deep_view(),
            home.deep_view(),
            products.deep_view(),
            rooms_json@,
            govee_json@,
        ),
{
    let active: usize = count_in_state(list, facts, "active");
    let former: usize = count_in_state(list, facts, "inactive");
    let archived: usize = count_in_state(list, facts, "archive");
    let ignored: usize = count_ignored(list, facts);
    let all = shelve(list, &home.category_overrides);
    let order = order_shelves(&all);
    let total = text::digits(active as u128 + former as u128 + archived as u128);
    let size = text::count(list.len());
    let mut filters = device_parts::all_pill(size.as_str());
    filters.append(pills_of(&all, &order).as_str());
    let groups = cards_of(list, facts, home, &all, &order);
    let devices = json::text_or(&device_json::devices_value(list, facts, home), "[]");
    let choices = json::text_or(&device_json::choices_value(products, &home.vendors_by_id), "[]");
    let script = devices_frame::script(devices.as_str(), choices.as_str(), rooms_json, govee_json);
    devices_frame::content(
        size.as_str(),
        total.as_str(),
        text::count(active).as_str(),
        text::count(former).as_str(),
        text::count(archived).as_str(),
        text::count(ignored).as_str(),
        room_options_of(&home.rooms).as_str(),
        filters.as_str(),
        groups.as_str(),
        script.as_str(),
    )
}

/// The devices page.
pub open spec fn devices_page(
    title: Seq<char>,
    devices: Seq<DeviceModel>,
    links: LinksModel,
    facts: Seq<FactsModel>,
    home: HouseholdModel,
    products: Seq<ProductModel>,
    rooms_json: Seq<char>,
    govee_json: Seq<char>,
) -> Seq<char> {
    let content = if devices.len() == 0 {
        devices_frame::NO_DEVICES@
    } else {
        devices_content(unify::unified(devices, links), facts, home, products, rooms_json, govee_json)
    };
    layout::page(title, "devices"@, content)
}

/// The devices page can be shown: the devices can be taken together, `facts` speak of each entry,
/// and the fabrics of each can be listed.
pub open spec fn can_show_devices(
    devices: Seq<DeviceModel>,
    links: LinksModel,
    facts: Seq<FactsModel>,
    home: HouseholdModel,
) -> bool {
    let list = unify::unified(devices, links);
    devices.len() > 0 ==> {
        &&& unify::can_unify(devices, links)
        &&& facts.len() == list.len()
        &&& device_json::can_show(list, home)
    }
}

/// The devices page. `facts` speak of the entries that `unify::build_unified_devices` makes of
/// the devices, in that order; `products` are those of the catalog; the two JSON texts go to
/// the script as they are.
pub fn render_devices_page(
    title: &str,
    devices: &[DeviceRecord],
    links: &TextMap<Vec<String>>,
    facts: &[DeviceFacts],
    home: &Household,
    products: &[Product],
    rooms_json: &str,
    govee_json: &str,
) -> (r: String)
    requires
        can_show_devices(devices.deep_view(), links@, facts.deep_view(), home.deep_view()),
    ensures
        r@ == devices_page(
            title@,
            devices.deep_view(),
            links@,
            facts.deep_view(),
            home.deep_view(),
            products.deep_view(),
            rooms_json@,
            govee_json@,
        ),
{
    if devices.len() == 0 {
        return layout::page_layout(title, "devices", devices_frame::NO_DEVICES);
    }
    let list = unify::build_unified_devices(devices, links);
    let slice = list.as_slice();
    assert(slice.deep_view() =~= list.deep_view());
    let content = devices_content_of(slice, facts, home, products, rooms_json, govee_json);
    layout::page_layout(title, "devices", content.as_str())
}

/// Whether the devices page can be shown.
pub fn devices_showable(
    devices: &[DeviceRecord],
    links: &TextMap<Vec<String>>,
    facts: &[DeviceFacts],
    home: &Household,
) -> (r: bool)
    ensures
        r == can_show_devices(devices.deep_view(), links@, facts.deep_view(), home.deep_view()),
{
    if devices.len() == 0 {
        return true;
    }
    match unify::try_build_unified_devices(devices, links) {
        Some(list) => {
            let slice = list.as_slice();
            assert(slice.deep_view() =~= list.deep_view());
            facts.len() == slice.len() && matter::fabrics_showable(slice, &home.fabric_metas)
        },
        None => false,
    }
}

/// The devices page, where it can be shown.
pub fn try_render_devices_page(
    title: &str,
    devices: &[DeviceRecord],
    links: &TextMap<Vec<String>>,
    facts: &[DeviceFacts],
    home: &Household,
    products: &[Product],
    rooms_json: &str,
    govee_json: &str,
) -> (r: Option<String>)
    ensures
        match r {
            Some(page) => can_show_devices(devices.deep_view(), links@, facts.deep_view(), home.deep_view()) && page@
                == devices_page(
                title@,
                devices.deep_view(),
                links@,
                facts.deep_view(),
                home.deep_view(),
                products.deep_view(),
                rooms_json@,
                govee_json@,
            ),
            None => !can_show_devices(devices.deep_view(), links@, facts.deep_view(), home.deep_view()),
        },
{
    if devices_showable(devices, links, facts, home) {
        Some(render_devices_page(title, devices, links, facts, home, products, rooms_json, govee_json))
    } else {
        None
    }
}

// ---------------------------------------------------------------------------------------
// What holds of the page
// ---------------------------------------------------------------------------------------

/// No two categories have the same key.
pub open spec fn distinct_keys(all: Seq<ShelfModel>) -> bool {
    forall|i: int, j: int| 0 <= i < j < all.len() ==> (#[trigger] all[i]).key != (#[trigger] all[j]).key
}

/// The members of every category are devices of that category.
pub open spec fn members_belong(
    all: Seq<ShelfModel>,
    list: Seq<UnifiedModel>,
    overrides: Map<Seq<char>, Seq<char>>,
) -> bool {
    forall|i: int, k: int|
        0 <= i < all.len() && 0 <= k < all[i].members.len() ==> all[i].key == device_data::group_key(
            list_label(list[#[trigger] all[i].members[k]].primary, overrides),
        )
}

/// The category of the device at position `p` lists it.
pub open spec fn is_shelved(
    all: Seq<ShelfModel>,
    list: Seq<UnifiedModel>,
    overrides: Map<Seq<char>, Seq<char>>,
    p: int,
) -> bool {
    exists|i: int|
        0 <= i < all.len() && (#[trigger] all[i]).key == device_data::group_key(list_label(list[p].primary, overrides))
            && all[i].members.contains(p)
}

proof fn lemma_shelves(list: Seq<UnifiedModel>, overrides: Map<Seq<char>, Seq<char>>, n: int)
    requires
        0 <= n <= list.len(),
    ensures
        distinct_keys(shelves_below(list, overrides, n)),
        members_belong(shelves_below(list, overrides, n), list, overrides),
        forall|p: int| 0 <= p < n ==> #[trigger] is_shelved(shelves_below(list, overrides, n), list, overrides, p),
    decreases n,
{
    if n > 0 {
        let before = shelves_below(list, overrides, n - 1);
        let after = shelves_below(list, overrides, n);
        let label = list_label(list[n - 1].primary, overrides);
        let key = device_data::group_key(label);
        lemma_shelves(list, overrides, n - 1);
        lemma_shelf_position(before, key);
        let at = match shelf_position(before, key) {
            Some(i) => i,
            None => before.len() as int,
        };
        assert(after[at].key == key);
        assert(after[at].members.last() == n - 1);
        assert(after[at].members[after[at].members.len() - 1] == n - 1);
        assert forall|i: int| 0 <= i < before.len() implies (#[trigger] after[i]).key == before[i].key && forall|k: int|
            0 <= k < before[i].members.len() ==> after[i].members[k] == before[i].members[k] by {}
        assert forall|i: int, j: int| 0 <= i < j < after.len() implies (#[trigger] after[i]).key != (
        #[trigger] after[j]).key by {
            if j < before.len() {
                assert(before[i].key != before[j].key);
            } else {
                assert(before[i].key != key);
            }
        }
        assert forall|i: int, k: int| 0 <= i < after.len() && 0 <= k < after[i].members.len() implies after[i].key
            == device_data::group_key(list_label(list[#[trigger] after[i].members[k]].primary, overrides)) by {
            if i < before.len() && k < before[i].members.len() {
                assert(before[i].members[k] == after[i].members[k]);
            }
        }
        assert forall|p: int| 0 <= p < n implies #[trigger] is_shelved(after, list, overrides, p) by {
            if p < n - 1 {
                assert(is_shelved(before, list, overrides, p));
                let i = choose|i: int|
                    0 <= i < before.len() && (#[trigger] before[i]).key == device_data::group_key(
                        list_label(list[p].primary, overrides),
                    ) && before[i].members.contains(p);
                let k = before[i].members.index_of(p);
                assert(after[i].members[k] == p);
                assert(after[i].key == before[i].key);
            } else {
                assert(after[at].members.contains(p));
            }
        }
    }
}

/// Every device is listed in its category and in no other.
pub proof fn every_device_is_listed_in_one_category(
    list: Seq<UnifiedModel>,
    overrides: Map<Seq<char>, Seq<char>>,
    p: int,
)
    requires
        0 <= p < list.len(),
    ensures
        ({
            let all = shelves(list, overrides);
            &&& is_shelved(all, list, overrides, p)
            &&& forall|i: int, j: int|
                0 <= i < all.len() && 0 <= j < all.len() && (#[trigger] all[i]).members.contains(p) && (
                #[trigger] all[j]).members.contains(p) ==> i == j
        }),
{
    let all = shelves(list, overrides);
    lemma_shelves(list, overrides, list.len() as int);
    assert(is_shelved(all, list, overrides, p));
    assert forall|i: int, j: int|
        0 <= i < all.len() && 0 <= j < all.len() && (#[trigger] all[i]).members.contains(p) && (
        #[trigger] all[j]).members.contains(p) implies i == j by {
        let a = all[i].members.index_of(p);
        let b = all[j].members.index_of(p);
        assert(all[i].members[a] == p);
        assert(all[j].members[b] == p);
        assert(all[i].key == all[j].key);
    }
}

proof fn lemma_counts(list: Seq<UnifiedModel>, facts: Seq<FactsModel>, n: int)
    requires
        0 <= n,
    ensures
        in_state_below(list, facts, "active"@, n) + in_state_below(list, facts, "inactive"@, n) + in_state_below(
            list,
            facts,
            "archive"@,
            n,
        ) + ignored_below(list, facts, n) <= n,
    decreases n,
{
    reveal_strlit("active");
    reveal_strlit("inactive");
    reveal_strlit("archive");
    assert("active"@.len() == 6 && "inactive"@.len() == 8 && "archive"@.len() == 7);
    if n > 0 {
        lemma_counts(list, facts, n - 1);
    }
}

/// The filters of the page together count no more devices than there are.
pub proof fn counts_do_not_overlap(list: Seq<UnifiedModel>, facts: Seq<FactsModel>)
    ensures
        ({
            let n = list.len() as int;
            in_state_below(list, facts, "active"@, n) + in_state_below(list, facts, "inactive"@, n) + in_state_below(
                list,
                facts,
                "archive"@,
                n,
            ) + ignored_below(list, facts, n) <= list.len()
        }),
{
    lemma_counts(list, facts, list.len() as int);
}

}
