//! Linking and parting two devices.

use vstd::prelude::*;

use crate::links;
use crate::links::LinksModel;

verus! {

broadcast use vstd::string::group_string_axioms;

/// The id of something that was seen over Bluetooth.
pub open spec fn of_bluetooth(id: Seq<char>) -> bool {
    ||| id.len() >= 11 && id.take(11) == "mobile-ble-"@
    ||| id.len() >= 7 && id.take(7) == "bthome-"@
}

proof fn lemma_of_bluetooth(id: Seq<char>)
    ensures
        of_bluetooth(id) == links::is_ble_id(id),
{
    reveal_strlit("mobile-ble-");
    reveal_strlit("bthome-");
    if id.len() >= 11 {
        assert(id.subrange(0, 11) =~= id.take(11));
    }
    if id.len() >= 7 {
        assert(id.subrange(0, 7) =~= id.take(7));
    }
}

/// What is linked under `id`.
pub open spec fn under(m: LinksModel, id: Seq<char>) -> Seq<Seq<char>> {
    if m.contains_key(id) {
        m[id]
    } else {
        Seq::empty()
    }
}

/// A link is put under the device that is named first, as its last one, unless it is there already; only
/// where the first is of Bluetooth and the second is not, it is put the other way round. Nothing else
/// changes.
pub proof fn links_are_put_under_the_first(m: LinksModel, first: Seq<char>, second: Seq<char>, other: Seq<char>)
    ensures
        ({
            let after = links::linked(m, first, second);
            let turned = of_bluetooth(first) && !of_bluetooth(second);
            let (p, s) = if turned {
                (second, first)
            } else {
                (first, second)
            };
            &&& after.contains_key(p)
            &&& under(m, p).contains(s) ==> after[p] == under(m, p)
            &&& !under(m, p).contains(s) ==> after[p] == under(m, p).push(s)
            &&& other != p ==> after.contains_key(other) == m.contains_key(other) && under(after, other) == under(m, other)
        }),
{
    lemma_of_bluetooth(first);
    lemma_of_bluetooth(second);
    assert(under(m, first) =~= links::links_of(m, first));
    assert(under(m, second) =~= links::links_of(m, second));
}

/// Parting two devices takes each out of what is linked under the other, and leaves the rest in order.
pub proof fn parting_takes_each_from_the_other(m: LinksModel, first: Seq<char>, second: Seq<char>, other: Seq<char>, i: int)
    requires
        first != second,
    ensures
        ({
            let after = links::unlinked(m, first, second);
            &&& after.contains_key(other) == m.contains_key(other)
            &&& !under(after, first).contains(second)
            &&& !under(after, second).contains(first)
            &&& other != first && other != second ==> under(after, other) == under(m, other)
            &&& !under(m, first).contains(second) ==> under(after, first) == under(m, first)
            &&& !under(m, second).contains(first) ==> under(after, second) == under(m, second)
            &&& 0 <= i < under(m, first).len() && under(m, first)[i] != second ==> under(after, first).contains(
                under(m, first)[i],
            )
            &&& 0 <= i < under(m, second).len() && under(m, second)[i] != first ==> under(after, second).contains(
                under(m, second)[i],
            )
        }),
{
    lemma_others(under(m, first), second, i);
    lemma_others(under(m, second), first, i);
}

proof fn lemma_others(list: Seq<Seq<char>>, id: Seq<char>, i: int)
    ensures
        !links::others(list, id).contains(id),
        !list.contains(id) ==> links::others(list, id) == list,
        0 <= i < list.len() && list[i] != id ==> links::others(list, id).contains(list[i]),
    decreases list.len(),
{
    if list.len() > 0 {
        let rest = list.drop_last();
        lemma_others(rest, id, i);
        let before = links::others(rest, id);
        assert(list.contains(list[list.len() - 1]));
        if !list.contains(id) {
            assert(!rest.contains(id)) by {
                if rest.contains(id) {
                    assert(list[rest.index_of(id)] == id);
                }
            }
            assert(rest.push(list.last()) =~= list);
        }
        if list.last() != id {
            let after = before.push(list.last());
            assert(!after.contains(id)) by {
                if after.contains(id) {
                    let k = after.index_of(id);
                    if k < before.len() {
                        assert(before[k] == id);
                    }
                }
            }
            if 0 <= i < list.len() && list[i] != id {
                if i < rest.len() {
                    let k = before.index_of(rest[i]);
                    assert(after[k] == list[i]);
                } else {
                    assert(after[before.len() as int] == list[i]);
                }
            }
        }
    } else {
        assert(list =~= Seq::<Seq<char>>::empty());
    }
}

/// One more id in a list stays behind the others when another one is taken out.
pub proof fn parting_keeps_the_order(list: Seq<Seq<char>>, last: Seq<char>, id: Seq<char>)
    ensures
        links::others(Seq::empty(), id).len() == 0,
        last == id ==> links::others(list.push(last), id) == links::others(list, id),
        last != id ==> links::others(list.push(last), id) == links::others(list, id).push(last),
{
    assert(list.push(last).drop_last() =~= list);
    assert(Seq::<Seq<char>>::empty().len() == 0);
}

}
