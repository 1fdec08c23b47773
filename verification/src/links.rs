//! Links between the interfaces of one physical device.
//!
//! A link map gives, for the id of a primary device, the ids of its secondary interfaces in
//! the order in which they were linked.

use vstd::prelude::*;

use crate::text;
use crate::text_map;
use crate::text_map::{Duplicate, TextMap};

verus! {

broadcast use vstd::string::group_string_axioms;

/// What a link map stands for.
pub type LinksModel = Map<Seq<char>, Seq<Seq<char>>>;

/// The ids linked under `id`.
pub open spec fn links_of(links: LinksModel, id: Seq<char>) -> Seq<Seq<char>> {
    match text_map::lookup(links, id) {
        Some(list) => list,
        None => Seq::empty(),
    }
}

/// `id` is linked under some device.
pub open spec fn is_secondary(links: LinksModel, id: Seq<char>) -> bool {
    exists|k: Seq<char>| #[trigger] links.contains_key(k) && links[k].contains(id)
}

/// `links` with `id` linked under `primary`.
pub open spec fn with_link(links: LinksModel, primary: Seq<char>, id: Seq<char>) -> LinksModel {
    let list = links_of(links, primary);
    links.insert(primary, if list.contains(id) { list } else { list.push(id) })
}

/// The items of `list` other than `id`.
pub open spec fn others(list: Seq<Seq<char>>, id: Seq<char>) -> Seq<Seq<char>>
    decreases list.len(),
{
    if list.len() == 0 {
        Seq::empty()
    } else if list.last() == id {
        others(list.drop_last(), id)
    } else {
        others(list.drop_last(), id).push(list.last())
    }
}

/// `links` with `id` no longer linked under `primary`.
pub open spec fn without_link(links: LinksModel, primary: Seq<char>, id: Seq<char>) -> LinksModel {
    if links.contains_key(primary) {
        links.insert(primary, others(links[primary], id))
    } else {
        links
    }
}

/// The id is that of a Bluetooth interface.
pub open spec fn is_ble_id(id: Seq<char>) -> bool {
    "mobile-ble-"@.is_prefix_of(id) || "bthome-"@.is_prefix_of(id)
}

/// The two ids of a link request, that of the primary device first: where one is a Bluetooth
/// interface and the other is not, the other is the primary device.
pub open spec fn oriented(primary: Seq<char>, linked: Seq<char>) -> (Seq<char>, Seq<char>) {
    if is_ble_id(primary) && !is_ble_id(linked) {
        (linked, primary)
    } else {
        (primary, linked)
    }
}

/// `links` after a request to link two devices.
pub open spec fn linked(links: LinksModel, primary: Seq<char>, id: Seq<char>) -> LinksModel {
    with_link(links, oriented(primary, id).0, oriented(primary, id).1)
}

/// `links` after a request to part two devices.
pub open spec fn unlinked(links: LinksModel, primary: Seq<char>, id: Seq<char>) -> LinksModel {
    without_link(without_link(links, primary, id), id, primary)
}

/// No list holds an id twice.
pub open spec fn no_repeats(links: LinksModel) -> bool {
    forall|k: Seq<char>| #[trigger] links.contains_key(k) ==> links[k].no_duplicates()
}

/// The ids linked under `id`, as a list of the caller's own.
pub(crate) fn copy_of_links(links: &TextMap<Vec<String>>, id: &str) -> (r: Vec<String>)
    ensures
        r.deep_view() == links_of(links@, id@),
{
    match links.get(id) {
        Some(list) => list.duplicate(),
        None => {
            let r: Vec<String> = Vec::new();
            assert(r.deep_view() =~= Seq::<Seq<char>>::empty());
            r
        },
    }
}

/// Links `id` under `primary`.
pub(crate) fn put_link(links: &mut TextMap<Vec<String>>, primary: &str, id: &str)
    ensures
        final(links)@ == with_link(old(links)@, primary@, id@),
{
    let mut list = copy_of_links(links, primary);
    if !text::listed(list.as_slice(), id) {
        let ghost before = list.deep_view();
        list.push(id.to_owned());
        assert(list.deep_view() =~= before.push(id@));
    }
    links.insert(primary.to_owned(), list);
}

/// Takes `id` from what is linked under `primary`.
fn drop_link(links: &mut TextMap<Vec<String>>, primary: &str, id: &str)
    ensures
        final(links)@ == without_link(old(links)@, primary@, id@),
{
    if links.contains_key(primary) {
        let list = copy_of_links(links, primary);
        let mut kept: Vec<String> = Vec::new();
        let mut i: usize = 0;
        while i < list.len()
            invariant
                i <= list@.len(),
                kept.deep_view() =~= others(list.deep_view().take(i as int), id@),
            decreases list@.len() - i,
        {
            let ghost before = kept.deep_view();
            assert(list.deep_view().take(i + 1).drop_last() =~= list.deep_view().take(i as int));
            if !text::same(list[i].as_str(), id) {
                kept.push(list[i].clone());
                assert(kept.deep_view() =~= before.push(list.deep_view()[i as int]));
            }
            i = i + 1;
        }
        assert(list.deep_view().take(i as int) =~= list.deep_view());
        links.insert(primary.to_owned(), kept);
    }
}

fn is_ble_id_of(id: &str) -> (r: bool)
    ensures
        r == is_ble_id(id@),
{
    text::starts_with(id, "mobile-ble-") || text::starts_with(id, "bthome-")
}

/// `id` is linked under some device.
pub fn is_linked(links: &TextMap<Vec<String>>, id: &str) -> (r: bool)
    ensures
        r == is_secondary(links@, id@),
{
    let size: usize = links.len();
    let mut i: usize = 0;
    while i < size
        invariant
            i <= size,
            size == links.keys().len(),
            forall|j: int| 0 <= j < i ==> !links@[#[trigger] links.keys()[j]].contains(id@),
        decreases size - i,
    {
        let k = links.key_at(i);
        if text::listed(links.value_at(i).as_slice(), id) {
            return true;
        }
        i = i + 1;
    }
    proof {
        assert forall|k: Seq<char>| #[trigger] links@.contains_key(k) implies !links@[k].contains(id@) by {
            let j = links.keys().index_of(k);
            assert(links.keys().contains(k));
            assert(links.keys()[j] == k);
        }
    }
    false
}

/// Links two devices: the second under the first, or the other way round where only the
/// first is a Bluetooth interface. A link that is there already stays as it is.
pub fn link_devices(links: &mut TextMap<Vec<String>>, primary_id: &str, linked_id: &str)
    ensures
        final(links)@ == linked(old(links)@, primary_id@, linked_id@),
{
    if is_ble_id_of(primary_id) && !is_ble_id_of(linked_id) {
        put_link(links, linked_id, primary_id);
    } else {
        put_link(links, primary_id, linked_id);
    }
}

/// Parts two devices, whichever of them is linked under the other.
pub fn unlink_devices(links: &mut TextMap<Vec<String>>, primary_id: &str, linked_id: &str)
    ensures
        final(links)@ == unlinked(old(links)@, primary_id@, linked_id@),
{
    drop_link(links, primary_id, linked_id);
    drop_link(links, linked_id, primary_id);
}

/// `others` keeps all items but the one.
proof fn lemma_others(list: Seq<Seq<char>>, id: Seq<char>)
    ensures
        forall|x: Seq<char>| #[trigger] others(list, id).contains(x) <==> x != id && list.contains(x),
        list.no_duplicates() ==> others(list, id).no_duplicates(),
    decreases list.len(),
{
    if list.len() > 0 {
        let rest = list.drop_last();
        let last = list.last();
        lemma_others(rest, id);
        assert(list =~= rest.push(last));
        text_map::lemma_push_contains(rest, last);
        text_map::lemma_push_contains(others(rest, id), last);
        if list.no_duplicates() {
            assert(rest.no_duplicates());
            if rest.contains(last) {
                assert(list[rest.index_of(last)] == list[list.len() - 1]);
            }
            if last != id {
                assert(!others(rest, id).contains(last));
                assert(others(list, id).no_duplicates());
            }
        }
    }
}

/// Taking an id out a second time, or one that was just put behind, changes nothing.
proof fn lemma_others_again(list: Seq<Seq<char>>, id: Seq<char>)
    ensures
        others(others(list, id), id) == others(list, id),
        others(list.push(id), id) == others(list, id),
    decreases list.len(),
{
    assert(list.push(id).drop_last() =~= list);
    if list.len() > 0 {
        let kept = others(list.drop_last(), id);
        lemma_others_again(list.drop_last(), id);
        if list.last() != id {
            assert(kept.push(list.last()).drop_last() =~= kept);
        }
    }
}

/// Two devices that were linked and then parted are linked in neither direction: under each of
/// them stands what stood there before without the other, in the same order. What is linked
/// under any third device is as it was.
pub proof fn parted_after_unlink(links: LinksModel, primary: Seq<char>, id: Seq<char>)
    ensures
        ({
            let after = unlinked(linked(links, primary, id), primary, id);
            &&& links_of(after, primary) == others(links_of(links, primary), id)
            &&& links_of(after, id) == others(links_of(links, id), primary)
            &&& !links_of(after, primary).contains(id)
            &&& !links_of(after, id).contains(primary)
            &&& forall|k: Seq<char>| k != primary && k != id ==> #[trigger] links_of(after, k) == links_of(links, k)
        }),
{
    let between = linked(links, primary, id);
    let once = without_link(between, primary, id);
    let after = without_link(once, id, primary);
    let (p, s) = oriented(primary, id);
    lemma_others(links_of(links, primary), id);
    lemma_others(links_of(links, id), primary);
    lemma_others_again(links_of(links, primary), id);
    lemma_others_again(links_of(links, id), primary);
    assert(links_of(between, p) == if links_of(links, p).contains(s) {
        links_of(links, p)
    } else {
        links_of(links, p).push(s)
    });
    assert(others(Seq::empty(), id) =~= Seq::<Seq<char>>::empty());
    assert(others(Seq::empty(), primary) =~= Seq::<Seq<char>>::empty());
    assert(links_of(once, primary) == others(links_of(between, primary), id));
    assert(links_of(after, id) == others(links_of(once, id), primary));
}

/// After a request to link two devices, one of them is linked under the other.
pub proof fn linked_after_link(links: LinksModel, primary: Seq<char>, id: Seq<char>)
    ensures
        ({
            let after = linked(links, primary, id);
            links_of(after, primary).contains(id) || links_of(after, id).contains(primary)
        }),
{
    let (p, s) = oriented(primary, id);
    let list = links_of(links, p);
    if !list.contains(s) {
        assert(list.push(s)[list.len() as int] == s);
    }
}

/// A network device and a Bluetooth interface are linked in the same way in either order: the
/// interface under the network device.
pub proof fn network_device_is_primary(links: LinksModel, network: Seq<char>, ble: Seq<char>)
    requires
        !is_ble_id(network),
        is_ble_id(ble),
    ensures
        linked(links, ble, network) == linked(links, network, ble),
        links_of(linked(links, network, ble), network).contains(ble),
{
    text_map::lemma_push_contains(links_of(links, network), ble);
}

/// Linking two devices a second time changes nothing.
pub proof fn linking_twice_is_linking_once(links: LinksModel, primary: Seq<char>, id: Seq<char>)
    ensures
        linked(linked(links, primary, id), primary, id) == linked(links, primary, id),
{
    let (p, s) = oriented(primary, id);
    let once = with_link(links, p, s);
    let list = links_of(links, p);
    if !list.contains(s) {
        assert(list.push(s)[list.len() as int] == s);
    }
    assert(with_link(once, p, s) =~= once);
}

/// Linking and parting leave every list free of repetitions.
pub proof fn requests_keep_lists_free_of_repeats(links: LinksModel, primary: Seq<char>, id: Seq<char>)
    requires
        no_repeats(links),
    ensures
        no_repeats(linked(links, primary, id)),
        no_repeats(unlinked(links, primary, id)),
{
    let (p, s) = oriented(primary, id);
    let list = links_of(links, p);
    assert(list.no_duplicates());
    assert(!list.contains(s) ==> list.push(s).no_duplicates());
    let once = without_link(links, primary, id);
    if links.contains_key(primary) {
        lemma_others(links[primary], id);
    }
    assert(no_repeats(once));
    if once.contains_key(id) {
        lemma_others(once[id], primary);
    }
}

}
