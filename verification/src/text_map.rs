//! A map from texts to values that keeps its keys in the order in which they came in.

use vstd::prelude::*;

use crate::text;

verus! {

broadcast use vstd::string::group_string_axioms;

/// Values that can be copied: the copy stands for the same thing.
pub trait Duplicate: DeepView + Sized {
    fn duplicate(&self) -> (r: Self)
        ensures
            r.deep_view() == self.deep_view(),
    ;
}

impl Duplicate for String {
    fn duplicate(&self) -> (r: Self) {
        self.clone()
    }
}

impl<T: Duplicate> Duplicate for Vec<T> {
    fn duplicate(&self) -> (r: Self) {
        let mut r: Vec<T> = Vec::new();
        let mut i: usize = 0;
        while i < self.len()
            invariant
                i <= self@.len(),
                r.deep_view() =~= self.deep_view().take(i as int),
            decreases self@.len() - i,
        {
            let copy = self[i].duplicate();
            let ghost before = r.deep_view();
            r.push(copy);
            proof {
                assert(r.deep_view() =~= before.push(copy.deep_view()));
                assert(self.deep_view().take(i + 1) =~= self.deep_view().take(i as int).push(self.deep_view()[i as int]));
            }
            i = i + 1;
        }
        assert(self.deep_view().take(self@.len() as int) =~= self.deep_view());
        r
    }
}

impl<T: Duplicate> Duplicate for Option<T> {
    fn duplicate(&self) -> (r: Self) {
        match self {
            Some(t) => Some(t.duplicate()),
            None => None,
        }
    }
}

/// What a map says of `k`.
pub open spec fn lookup<V>(m: Map<Seq<char>, V>, k: Seq<char>) -> Option<V> {
    if m.contains_key(k) {
        Some(m[k])
    } else {
        None
    }
}

/// A map from texts to values. Its view is the mathematical map; `keys` gives the order.
#[derive(Debug)]
pub struct TextMap<V: DeepView> {
    entries: Vec<(String, V)>,
}

/// The keys of a row of entries.
spec fn entry_keys<V: DeepView>(entries: Seq<(String, V)>) -> Seq<Seq<char>> {
    Seq::new(entries.len(), |i: int| entries[i].0@)
}

/// The map that a row of entries stands for.
spec fn entry_map<V: DeepView>(entries: Seq<(String, V)>) -> Map<Seq<char>, V::V> {
    let keys = entry_keys(entries);
    Map::new(|k: Seq<char>| keys.contains(k), |k: Seq<char>| entries[keys.index_of(k)].1.deep_view())
}

impl<V: DeepView> View for TextMap<V> {
    type V = Map<Seq<char>, V::V>;

    closed spec fn view(&self) -> Map<Seq<char>, V::V> {
        entry_map(self.entries@)
    }
}

impl<V: DeepView> DeepView for TextMap<V> {
    type V = Map<Seq<char>, V::V>;

    open spec fn deep_view(&self) -> Map<Seq<char>, V::V> {
        self@
    }
}

/// With distinct keys, the entry at `i` is what the map holds for its key.
proof fn lemma_entry<V: DeepView>(entries: Seq<(String, V)>, i: int)
    requires
        entry_keys(entries).no_duplicates(),
        0 <= i < entries.len(),
    ensures
        entry_map(entries).contains_key(entries[i].0@),
        entry_map(entries)[entries[i].0@] == entries[i].1.deep_view(),
{
    let keys = entry_keys(entries);
    assert(keys[i] == entries[i].0@);
    assert(keys.contains(keys[i]));
    let j = keys.index_of(keys[i]);
    assert(keys[j] == keys[i]);
}

impl<V: DeepView> TextMap<V> {
    #[verifier::type_invariant]
    spec fn distinct(&self) -> bool {
        entry_keys(self.entries@).no_duplicates()
    }

    /// The keys, in the order in which they came in.
    pub closed spec fn keys(&self) -> Seq<Seq<char>> {
        entry_keys(self.entries@)
    }

    pub fn new() -> (m: Self)
        ensures
            m@ == Map::<Seq<char>, V::V>::empty(),
            m.keys() == Seq::<Seq<char>>::empty(),
    {
        let m = TextMap { entries: Vec::new() };
        assert(m@ =~= Map::<Seq<char>, V::V>::empty());
        m
    }

    pub fn len(&self) -> (n: usize)
        ensures
            n == self.keys().len(),
            self.keys().no_duplicates(),
            forall|x: Seq<char>| self.keys().contains(x) <==> #[trigger] self@.contains_key(x),
    {
        proof {
            use_type_invariant(self);
        }
        self.entries.len()
    }

    /// The key at `i`.
    pub fn key_at(&self, i: usize) -> (k: &str)
        requires
            i < self.keys().len(),
        ensures
            k@ == self.keys()[i as int],
            self@.contains_key(k@),
    {
        proof {
            use_type_invariant(self);
            lemma_entry(self.entries@, i as int);
        }
        self.entries[i].0.as_str()
    }

    /// The value under the key at `i`.
    pub fn value_at(&self, i: usize) -> (v: &V)
        requires
            i < self.keys().len(),
        ensures
            v.deep_view() == self@[self.keys()[i as int]],
    {
        proof {
            use_type_invariant(self);
            lemma_entry(self.entries@, i as int);
        }
        &self.entries[i].1
    }

    /// Where `k` stands among the keys.
    fn position(&self, k: &str) -> (r: Option<usize>)
        ensures
            match r {
                Some(i) => i < self.entries@.len() && self.entries@[i as int].0@ == k@,
                None => !self@.contains_key(k@),
            },
    {
        let mut i: usize = 0;
        while i < self.entries.len()
            invariant
                i <= self.entries@.len(),
                forall|j: int| 0 <= j < i ==> (#[trigger] self.entries@[j]).0@ != k@,
            decreases self.entries@.len() - i,
        {
            if text::same(self.entries[i].0.as_str(), k) {
                return Some(i);
            }
            i = i + 1;
        }
        None
    }

    pub fn get(&self, k: &str) -> (r: Option<&V>)
        ensures
            match r {
                Some(v) => self@.contains_key(k@) && v.deep_view() == self@[k@],
                None => !self@.contains_key(k@),
            },
            r.deep_view() == lookup(self@, k@),
    {
        proof {
            use_type_invariant(self);
        }
        match self.position(k) {
            Some(i) => {
                proof {
                    lemma_entry(self.entries@, i as int);
                }
                Some(&self.entries[i].1)
            },
            None => None,
        }
    }

    pub fn contains_key(&self, k: &str) -> (r: bool)
        ensures
            r == self@.contains_key(k@),
    {
        match self.get(k) {
            Some(_) => true,
            None => false,
        }
    }

    /// Puts `v` under `k`. A key that is new goes to the end.
    pub fn insert(&mut self, k: String, v: V)
        ensures
            final(self)@ == old(self)@.insert(k@, v.deep_view()),
            final(self).keys() == (if old(self)@.contains_key(k@) {
                old(self).keys()
            } else {
                old(self).keys().push(k@)
            }),
    {
        proof {
            use_type_invariant(&*self);
        }
        let at = self.position(k.as_str());
        let ghost before = self.entries@;
        let mut entries: Vec<(String, V)> = Vec::new();
        std::mem::swap(&mut entries, &mut self.entries);
        match at {
            Some(i) => {
                proof {
                    lemma_entry(before, i as int);
                }
                entries.set(i, (k, v));
                proof {
                    assert(entry_keys(entries@) =~= entry_keys(before));
                    assert(entry_keys(entries@).no_duplicates());
                    lemma_set(before, entries@, i as int);
                }
            },
            None => {
                entries.push((k, v));
                proof {
                    assert(entry_keys(entries@) =~= entry_keys(before).push(k@));
                    assert(!entry_keys(before).contains(k@));
                    lemma_pushed(before, entries@);
                }
            },
        }
        self.entries = entries;
    }

    /// Takes `k` and what stands under it out of the map.
    pub fn remove(&mut self, k: &str)
        ensures
            final(self)@ == old(self)@.remove(k@),
            old(self)@.contains_key(k@) || final(self).keys() == old(self).keys(),
    {
        proof {
            use_type_invariant(&*self);
        }
        let at = self.position(k);
        let ghost before = self.entries@;
        let mut entries: Vec<(String, V)> = Vec::new();
        std::mem::swap(&mut entries, &mut self.entries);
        match at {
            Some(i) => {
                entries.remove(i);
                proof {
                    lemma_entry(before, i as int);
                    lemma_removed(before, entries@, i as int);
                }
            },
            None => {
                assert(entry_map(before) =~= entry_map(before).remove(k@));
            },
        }
        self.entries = entries;
    }
}

/// Another value under a key that is there.
proof fn lemma_set<V: DeepView>(before: Seq<(String, V)>, after: Seq<(String, V)>, i: int)
    requires
        0 <= i < before.len(),
        after.len() == before.len(),
        entry_keys(before).no_duplicates(),
        entry_keys(after) == entry_keys(before),
        forall|j: int| 0 <= j < before.len() && j != i ==> after[j] == before[j],
    ensures
        entry_map(after) == entry_map(before).insert(after[i].0@, after[i].1.deep_view()),
{
    let keys = entry_keys(before);
    assert forall|k: Seq<char>| #[trigger] keys.contains(k) implies entry_map(after)[k] == entry_map(before).insert(
        after[i].0@,
        after[i].1.deep_view(),
    )[k] by {
        let j = keys.index_of(k);
        lemma_entry(before, j);
        lemma_entry(after, j);
        assert(keys[j] == k);
        assert(keys[i] == after[i].0@);
    }
    assert(keys[i] == after[i].0@);
    assert(keys.contains(keys[i]));
    assert(entry_map(after) =~= entry_map(before).insert(after[i].0@, after[i].1.deep_view()));
}

/// A new key at the end.
proof fn lemma_pushed<V: DeepView>(before: Seq<(String, V)>, after: Seq<(String, V)>)
    requires
        entry_keys(before).no_duplicates(),
        after.len() == before.len() + 1,
        forall|j: int| 0 <= j < before.len() ==> after[j] == before[j],
        !entry_keys(before).contains(after.last().0@),
    ensures
        entry_keys(after).no_duplicates(),
        entry_map(after) == entry_map(before).insert(after.last().0@, after.last().1.deep_view()),
{
    let old_keys = entry_keys(before);
    let keys = entry_keys(after);
    let last = after.last().0@;
    assert(keys =~= old_keys.push(last));
    assert forall|i: int, j: int| 0 <= i < keys.len() && 0 <= j < keys.len() && i != j implies keys[i] != keys[j] by {
        if i < old_keys.len() && j < old_keys.len() {
            assert(old_keys[i] != old_keys[j]);
        } else if i < old_keys.len() {
            assert(old_keys.contains(old_keys[i]));
        } else {
            assert(old_keys.contains(old_keys[j]));
        }
    }
    assert(keys[after.len() - 1] == last);
    assert forall|k: Seq<char>| keys.contains(k) <==> (k == last || old_keys.contains(k)) by {
        if old_keys.contains(k) {
            let j = old_keys.index_of(k);
            assert(keys[j] == k);
        }
        if keys.contains(k) && k != last {
            let j = keys.index_of(k);
            assert(old_keys[j] == k);
        }
    }
    assert forall|k: Seq<char>| #[trigger] keys.contains(k) implies entry_map(after)[k] == entry_map(before).insert(
        last,
        after.last().1.deep_view(),
    )[k] by {
        let j = keys.index_of(k);
        lemma_entry(after, j);
        assert(keys[j] == k);
        if j < before.len() {
            lemma_entry(before, j);
            assert(k != last);
        }
    }
    assert(entry_map(after) =~= entry_map(before).insert(last, after.last().1.deep_view()));
}

/// One key less.
proof fn lemma_removed<V: DeepView>(before: Seq<(String, V)>, after: Seq<(String, V)>, i: int)
    requires
        entry_keys(before).no_duplicates(),
        0 <= i < before.len(),
        after == before.remove(i),
    ensures
        entry_keys(after).no_duplicates(),
        entry_map(after) == entry_map(before).remove(before[i].0@),
{
    let old_keys = entry_keys(before);
    let keys = entry_keys(after);
    let gone = before[i].0@;
    assert(keys =~= old_keys.remove(i));
    assert forall|k: Seq<char>| keys.contains(k) <==> (k != gone && old_keys.contains(k)) by {
        if keys.contains(k) {
            let j = keys.index_of(k);
            let at = if j < i { j } else { j + 1 };
            assert(old_keys[at] == k);
            assert(old_keys[i] == gone);
        }
        if k != gone && old_keys.contains(k) {
            let j = old_keys.index_of(k);
            assert(old_keys[i] == gone);
            let at = if j < i { j } else { j - 1 };
            assert(keys[at] == k);
        }
    }
    assert forall|k: Seq<char>| #[trigger] keys.contains(k) implies entry_map(after)[k] == entry_map(before)[k] by {
        let j = keys.index_of(k);
        let at = if j < i { j } else { j + 1 };
        lemma_entry(after, j);
        lemma_entry(before, at);
        assert(before[at] == after[j]);
    }
    assert(entry_map(after) =~= entry_map(before).remove(gone));
}

/// What is in `s` with `last` behind it.
pub proof fn lemma_push_contains<T>(s: Seq<T>, last: T)
    ensures
        forall|x: T| #[trigger] s.push(last).contains(x) <==> (x == last || s.contains(x)),
{
    let t = s.push(last);
    assert forall|x: T| #[trigger] t.contains(x) <==> (x == last || s.contains(x)) by {
        if s.contains(x) {
            assert(t[s.index_of(x)] == x);
        }
        assert(t[s.len() as int] == last);
        if t.contains(x) && x != last {
            assert(s[t.index_of(x)] == x);
        }
    }
}

/// The first `i + 1` items are the first `i` and the one at `i`.
pub proof fn lemma_one_more<T>(s: Seq<T>, i: int)
    requires
        0 <= i < s.len(),
    ensures
        s.take(i + 1) == s.take(i).push(s[i]),
        forall|x: T| #[trigger] s.take(i + 1).contains(x) <==> (x == s[i] || s.take(i).contains(x)),
{
    assert(s.take(i + 1) =~= s.take(i).push(s[i]));
    lemma_push_contains(s.take(i), s[i]);
}

impl<V: Duplicate> Duplicate for TextMap<V> {
    fn duplicate(&self) -> (r: Self)
        ensures
            r.keys() == self.keys(),
    {
        let mut r: TextMap<V> = TextMap::new();
        let mut i: usize = 0;
        proof {
            use_type_invariant(self);
        }
        while i < self.len()
            invariant
                i <= self.keys().len(),
                self.keys() == entry_keys(self.entries@),
                self.keys().no_duplicates(),
                r.keys() == self.keys().take(i as int),
                forall|k: Seq<char>| #[trigger] r@.contains_key(k) <==> self.keys().take(i as int).contains(k),
                forall|k: Seq<char>| #[trigger] r@.contains_key(k) ==> self@.contains_key(k) && r@[k] == self@[k],
            decreases self.keys().len() - i,
        {
            let k = self.key_at(i);
            let v = self.value_at(i);
            proof {
                let keys = self.keys();
                assert(keys.take(i + 1) =~= keys.take(i as int).push(keys[i as int]));
                assert(!keys.take(i as int).contains(keys[i as int]));
                lemma_one_more(keys, i as int);
            }
            r.insert(k.to_owned(), v.duplicate());
            i = i + 1;
        }
        assert(self.keys().take(i as int) =~= self.keys());
        assert(r@ =~= self@);
        r
    }
}

impl<V: Duplicate> Clone for TextMap<V> {
    fn clone(&self) -> (r: Self)
        ensures
            r@ == self@,
    {
        self.duplicate()
    }
}

}
