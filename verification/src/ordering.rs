//! The order in which things are listed: by a rank, and by a text where ranks are equal.

use vstd::prelude::*;

use crate::text;

verus! {

broadcast use vstd::string::group_string_axioms;

/// What something is sorted by.
pub struct SortKey {
    pub rank: u32,
    pub name: String,
}

/// What a `SortKey` stands for.
#[verifier::ext_equal]
pub struct SortKeyModel {
    pub rank: u32,
    pub name: Seq<char>,
}

impl DeepView for SortKey {
    type V = SortKeyModel;

    open spec fn deep_view(&self) -> SortKeyModel {
        SortKeyModel { rank: self.rank, name: self.name@ }
    }
}

/// `a` may stand before `b`: its rank is smaller, or the same and its name does not come later
/// in the order of code points.
pub open spec fn in_order(a: SortKeyModel, b: SortKeyModel) -> bool {
    a.rank < b.rank || (a.rank == b.rank && text::at_most(a.name, b.name))
}

/// The positions `order`, with position `i` put behind the last one that may stand before it.
pub open spec fn with_position(keys: Seq<SortKeyModel>, order: Seq<int>, i: int) -> Seq<int>
    decreases order.len(),
{
    if order.len() == 0 || in_order(keys[order.last()], keys[i]) {
        order.push(i)
    } else {
        with_position(keys, order.drop_last(), i).push(order.last())
    }
}

/// The positions below `n` in the order of their keys; those with the same key keep their
/// order.
pub open spec fn sorted_below(keys: Seq<SortKeyModel>, n: int) -> Seq<int>
    decreases n,
{
    if n <= 0 {
        Seq::empty()
    } else {
        with_position(keys, sorted_below(keys, n - 1), n - 1)
    }
}

/// The positions of `keys` in the order of their keys.
pub open spec fn sorted_positions(keys: Seq<SortKeyModel>) -> Seq<int> {
    sorted_below(keys, keys.len() as int)
}

/// Positions as numbers.
pub open spec fn positions(v: Seq<usize>) -> Seq<int> {
    v.map_values(|i: usize| i as int)
}

fn in_order_of(a: &SortKey, b: &SortKey) -> (r: bool)
    ensures
        r == in_order(a.deep_view(), b.deep_view()),
{
    a.rank < b.rank || (a.rank == b.rank && text::le(a.name.as_str(), b.name.as_str()))
}

/// Puts position `n` behind the last one that may stand before it.
fn put_position(keys: &Vec<SortKey>, order: &mut Vec<usize>, n: usize)
    requires
        n < keys@.len(),
        forall|i: int| 0 <= i < old(order)@.len() ==> (#[trigger] old(order)@[i]) < n,
    ensures
        positions(final(order)@) == with_position(keys.deep_view(), positions(old(order)@), n as int),
        forall|i: int| 0 <= i < final(order)@.len() ==> (#[trigger] final(order)@[i]) <= n,
{
    let ghost first = positions(order@);
    let ghost all = keys.deep_view();
    let mut at: usize = order.len();
    let ghost mut behind = Seq::<int>::empty();
    assert(first.take(at as int) =~= first);
    assert(with_position(all, first, n as int) =~= with_position(all, first.take(at as int), n as int) + behind);
    while at > 0 && !in_order_of(&keys[order[at - 1]], &keys[n])
        invariant
            at <= order@.len(),
            n < keys@.len(),
            first == positions(order@),
            all == keys.deep_view(),
            forall|i: int| 0 <= i < order@.len() ==> (#[trigger] order@[i]) < n,
            behind == first.skip(at as int),
            with_position(all, first, n as int) == with_position(all, first.take(at as int), n as int) + behind,
        decreases at,
    {
        let ghost t = first.take(at as int);
        assert(t.last() == first[at - 1]);
        assert(first[at - 1] == order@[at - 1]);
        assert(t.drop_last() =~= first.take(at - 1));
        at = at - 1;
        proof {
            assert(first.skip(at as int) =~= seq![first[at as int]] + behind);
            assert(with_position(all, first, n as int) =~= with_position(all, first.take(at as int), n as int) + first.skip(
                at as int,
            ));
            behind = first.skip(at as int);
        }
    }
    proof {
        let t = first.take(at as int);
        if at > 0 {
            assert(t.last() == first[at - 1]);
            assert(first[at - 1] == order@[at - 1]);
        }
        assert(with_position(all, t, n as int) == t.push(n as int));
    }
    order.insert(at, n);
    assert(positions(order@) =~= first.take(at as int).push(n as int) + first.skip(at as int));
}

/// The positions of `keys` in the order of their keys.
pub fn sort_positions(keys: &Vec<SortKey>) -> (order: Vec<usize>)
    ensures
        positions(order@) == sorted_positions(keys.deep_view()),
        forall|i: int| 0 <= i < order@.len() ==> (#[trigger] order@[i]) < keys@.len(),
{
    let mut order: Vec<usize> = Vec::new();
    let mut n: usize = 0;
    assert(positions(order@) =~= Seq::<int>::empty());
    while n < keys.len()
        invariant
            n <= keys@.len(),
            positions(order@) == sorted_below(keys.deep_view(), n as int),
            forall|i: int| 0 <= i < order@.len() ==> (#[trigger] order@[i]) < n,
        decreases keys@.len() - n,
    {
        put_position(keys, &mut order, n);
        n = n + 1;
    }
    order
}

/// Each number below `n` once.
pub open spec fn each_below(order: Seq<int>, n: int) -> bool {
    &&& order.len() == n
    &&& order.no_duplicates()
    &&& forall|i: int| 0 <= i < order.len() ==> 0 <= #[trigger] order[i] < n
}

/// The keys at the positions `order` do not fall.
pub open spec fn ascends(keys: Seq<SortKeyModel>, order: Seq<int>) -> bool {
    forall|i: int, j: int| 0 <= i < j < order.len() ==> in_order(keys[#[trigger] order[i]], keys[#[trigger] order[j]])
}

/// Of two positions with the same key, the smaller one comes first.
pub open spec fn keeps_ties(keys: Seq<SortKeyModel>, order: Seq<int>) -> bool {
    forall|i: int, j: int|
        0 <= i < j < order.len() && in_order(keys[#[trigger] order[j]], keys[#[trigger] order[i]]) ==> order[i] < order[j]
}

proof fn lemma_at_most_from(a: Seq<char>, b: Seq<char>, c: Seq<char>, i: int)
    ensures
        text::at_most_from(a, b, i) || text::at_most_from(b, a, i),
        text::at_most_from(a, b, i) && text::at_most_from(b, c, i) ==> text::at_most_from(a, c, i),
    decreases a.len() + b.len() + c.len() - 3 * i,
{
    if 0 <= i < a.len() && i < b.len() {
        if i < c.len() {
            lemma_at_most_from(a, b, c, i + 1);
        } else {
            lemma_at_most_total(a, b, i + 1);
        }
    }
}

proof fn lemma_at_most_total(a: Seq<char>, b: Seq<char>, i: int)
    ensures
        text::at_most_from(a, b, i) || text::at_most_from(b, a, i),
    decreases a.len() - i,
{
    if 0 <= i < a.len() && i < b.len() {
        lemma_at_most_total(a, b, i + 1);
    }
}

proof fn lemma_in_order(a: SortKeyModel, b: SortKeyModel, c: SortKeyModel)
    ensures
        in_order(a, b) || in_order(b, a),
        in_order(a, b) && in_order(b, c) ==> in_order(a, c),
{
    lemma_at_most_from(a.name, b.name, c.name, 0);
}

proof fn lemma_with_position(keys: Seq<SortKeyModel>, order: Seq<int>, n: int)
    requires
        ascends(keys, order),
        keeps_ties(keys, order),
        order.no_duplicates(),
        forall|i: int| 0 <= i < order.len() ==> 0 <= #[trigger] order[i] < n,
    ensures
        ({
            let after = with_position(keys, order, n);
            &&& after.len() == order.len() + 1
            &&& ascends(keys, after)
            &&& keeps_ties(keys, after)
            &&& after.no_duplicates()
            &&& forall|i: int| 0 <= i < after.len() ==> (#[trigger] after[i] == n || order.contains(after[i]))
        }),
    decreases order.len(),
{
    let after = with_position(keys, order, n);
    if order.len() == 0 {
    } else {
        let last = order.last();
        let rest = order.drop_last();
        if in_order(keys[last], keys[n]) {
            assert forall|i: int, j: int| 0 <= i < j < after.len() implies in_order(
                keys[#[trigger] after[i]],
                keys[#[trigger] after[j]],
            ) by {
                if j == order.len() {
                    lemma_in_order(keys[order[i]], keys[last], keys[n]);
                }
            }
            assert forall|i: int| 0 <= i < after.len() implies (#[trigger] after[i] == n || order.contains(after[i])) by {
                if i < order.len() {
                    assert(order[i] == after[i]);
                }
            }
        } else {
            let mid = with_position(keys, rest, n);
            assert forall|i: int| 0 <= i < rest.len() implies 0 <= #[trigger] rest[i] < n by {
                assert(rest[i] == order[i]);
            }
            assert(ascends(keys, rest));
            assert(keeps_ties(keys, rest));
            lemma_with_position(keys, rest, n);
            lemma_in_order(keys[last], keys[n], keys[n]);
            assert(order[order.len() - 1] == last);
            assert forall|i: int| 0 <= i < mid.len() implies mid[i] == n || (exists|k: int|
                0 <= k < order.len() - 1 && order[k] == #[trigger] mid[i]) by {
                if mid[i] != n {
                    let k = rest.index_of(mid[i]);
                    assert(order[k] == mid[i]);
                }
            }
            assert forall|i: int, j: int| 0 <= i < j < after.len() implies in_order(
                keys[#[trigger] after[i]],
                keys[#[trigger] after[j]],
            ) by {
                if j == mid.len() {
                    assert(after[i] == mid[i]);
                } else {
                    assert(after[i] == mid[i] && after[j] == mid[j]);
                }
            }
            assert forall|i: int, j: int|
                0 <= i < j < after.len() && in_order(keys[#[trigger] after[j]], keys[#[trigger] after[i]]) implies after[i]
                < after[j] by {
                if j == mid.len() {
                    assert(after[i] == mid[i]);
                } else {
                    assert(after[i] == mid[i] && after[j] == mid[j]);
                }
            }
            assert forall|i: int| 0 <= i < after.len() implies (#[trigger] after[i] == n || order.contains(after[i])) by {
                if i < mid.len() {
                    assert(after[i] == mid[i]);
                }
            }
            assert(after.no_duplicates());
        }
    }
}

proof fn lemma_sorted_below(keys: Seq<SortKeyModel>, n: int)
    requires
        0 <= n <= keys.len(),
    ensures
        each_below(sorted_below(keys, n), n),
        ascends(keys, sorted_below(keys, n)),
        keeps_ties(keys, sorted_below(keys, n)),
    decreases n,
{
    if n > 0 {
        let before = sorted_below(keys, n - 1);
        let after = sorted_below(keys, n);
        lemma_sorted_below(keys, n - 1);
        lemma_with_position(keys, before, n - 1);
        assert forall|i: int| 0 <= i < after.len() implies 0 <= #[trigger] after[i] < n by {
            if after[i] != n - 1 {
                let k = before.index_of(after[i]);
                assert(before[k] == after[i]);
            }
        }
    }
}

/// Sorting lists every position once, in the order of the keys, and leaves positions with the
/// same key in their order.
pub proof fn sorting_is_stable(keys: Seq<SortKeyModel>)
    ensures
        each_below(sorted_positions(keys), keys.len() as int),
        ascends(keys, sorted_positions(keys)),
        keeps_ties(keys, sorted_positions(keys)),
{
    lemma_sorted_below(keys, keys.len() as int);
}

/// Where each number below `n` stands once, every such number stands.
proof fn lemma_each_below_stands(order: Seq<int>, n: int, k: int)
    requires
        each_below(order, n),
        0 <= k < n,
    ensures
        order.contains(k),
{
    let places = order.to_set();
    let all = vstd::set_lib::set_int_range(0, n);
    order.unique_seq_to_set();
    vstd::set_lib::lemma_int_range(0, n);
    vstd::set_lib::lemma_subset_equality(places, all);
    assert(all.contains(k));
    assert(places.contains(k));
}

/// The items of `s` at the positions `order`.
pub open spec fn arranged<A>(s: Seq<A>, order: Seq<int>) -> Seq<A> {
    Seq::new(order.len(), |i: int| s[order[i]])
}

/// Arranging a row anew keeps its items, each as often as before.
pub proof fn arranging_keeps_the_items<A>(s: Seq<A>, order: Seq<int>)
    requires
        each_below(order, s.len() as int),
    ensures
        arranged(s, order).to_multiset() == s.to_multiset(),
    decreases s.len(),
{
    let row = arranged(s, order);
    if s.len() == 0 {
        assert(row =~= s);
    } else {
        let n = s.len() - 1;
        let rest = s.drop_last();
        lemma_each_below_stands(order, s.len() as int, n);
        let k = order.index_of(n);
        let others = order.remove(k);
        assert forall|i: int| 0 <= i < others.len() implies 0 <= #[trigger] others[i] < n by {
            let j = if i < k { i } else { i + 1 };
            assert(others[i] == order[j]);
            assert(order[j] != order[k]);
        }
        assert(others.no_duplicates()) by {
            assert forall|i: int, j: int| 0 <= i < others.len() && 0 <= j < others.len() && i != j implies others[i]
                != others[j] by {
                let a = if i < k { i } else { i + 1 };
                let b = if j < k { j } else { j + 1 };
                assert(others[i] == order[a]);
                assert(others[j] == order[b]);
            }
        }
        arranging_keeps_the_items(rest, others);
        assert(row.remove(k) =~= arranged(rest, others));
        assert(row[k] == s.last());
        vstd::seq_lib::to_multiset_remove(row, k);
        vstd::seq_lib::to_multiset_contains(row, row[k]);
        assert(row.contains(row[k]));
        assert(rest.push(s.last()) =~= s);
        vstd::seq_lib::to_multiset_build(rest, s.last());
        assert(row.to_multiset() =~= row.to_multiset().remove(row[k]).insert(row[k]));
    }
}

}
