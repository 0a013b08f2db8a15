//! Finite maps and sets whose keys are strings or pairs of strings, kept as
//! lists in which no key occurs twice.

use vstd::prelude::*;

use crate::text::str_eq;

verus! {

/// What can be a key: a value that is told apart by its view.
pub trait Key: View + Sized {
    /// Whether two keys have the same view.
    fn same(&self, other: &Self) -> (r: bool)
        ensures
            r == (self@ == other@),
    ;
}

impl Key for String {
    fn same(&self, other: &Self) -> (r: bool) {
        str_eq(self.as_str(), other.as_str())
    }
}

impl Key for (String, String) {
    fn same(&self, other: &Self) -> (r: bool) {
        str_eq(self.0.as_str(), other.0.as_str()) && str_eq(self.1.as_str(), other.1.as_str())
    }
}

/// No two entries have the same key.
pub open spec fn distinct_keys<K: Key, V>(e: Seq<(K, V)>) -> bool {
    forall|i: int, j: int| 0 <= i < j < e.len() ==> (#[trigger] e[i]).0@ != (#[trigger] e[j]).0@
}

/// The place of the entry with key `k`, or -1.
pub open spec fn place<K: Key, V>(e: Seq<(K, V)>, k: K::V) -> int
    decreases e.len(),
{
    if e.len() == 0 {
        -1
    } else if e.last().0@ == k {
        e.len() - 1
    } else {
        place(e.drop_last(), k)
    }
}

/// The map that a list of entries stands for.
pub open spec fn entries_map<K: Key, V>(e: Seq<(K, V)>) -> Map<K::V, V> {
    Map::new(|k: K::V| place(e, k) >= 0, |k: K::V| e[place(e, k)].1)
}

/// What a map holds under a key.
pub open spec fn looked_up<K, V>(m: Map<K, V>, k: K) -> Option<V> {
    if m.dom().contains(k) {
        Some(m[k])
    } else {
        None
    }
}

proof fn lemma_place<K: Key, V>(e: Seq<(K, V)>, k: K::V)
    ensures
        -1 <= place(e, k) < e.len(),
        place(e, k) >= 0 ==> e[place(e, k)].0@ == k,
        place(e, k) < 0 ==> forall|i: int| 0 <= i < e.len() ==> (#[trigger] e[i]).0@ != k,
    decreases e.len(),
{
    if e.len() > 0 && e.last().0@ != k {
        lemma_place(e.drop_last(), k);
        if place(e, k) < 0 {
            assert forall|i: int| 0 <= i < e.len() implies (#[trigger] e[i]).0@ != k by {
                if i < e.len() - 1 {
                    assert(e.drop_last()[i].0@ != k);
                }
            }
        }
    }
}

/// Where no key occurs twice, an entry's place is the one at which its key is
/// found.
pub proof fn lemma_place_is<K: Key, V>(e: Seq<(K, V)>, i: int)
    requires
        distinct_keys(e),
        0 <= i < e.len(),
    ensures
        place(e, e[i].0@) == i,
{
    lemma_place(e, e[i].0@);
    let p = place(e, e[i].0@);
    if p < i {
        assert(e[p].0@ != e[i].0@);
    } else if i < p {
        assert(e[i].0@ != e[p].0@);
    }
}

/// A finite map.
pub struct Table<K: Key, V> {
    entries: Vec<(K, V)>,
}

impl<K: Key, V> View for Table<K, V> {
    type V = Map<K::V, V>;

    closed spec fn view(&self) -> Map<K::V, V> {
        entries_map(self.entries@)
    }
}

impl<K: Key, V> Table<K, V> {
    #[verifier::type_invariant]
    spec fn inv(self) -> bool {
        distinct_keys(self.entries@)
    }

    /// The map without any entry.
    pub fn new() -> (r: Self)
        ensures
            r@ == Map::<K::V, V>::empty(),
    {
        let r = Table { entries: Vec::new() };
        assert(r@ =~= Map::<K::V, V>::empty());
        r
    }

    fn find(&self, k: &K) -> (r: usize)
        ensures
            r <= self.entries.len(),
            r < self.entries.len() ==> place(self.entries@, k@) == r,
            r == self.entries.len() ==> place(self.entries@, k@) < 0,
    {
        proof {
            use_type_invariant(self);
            lemma_place(self.entries@, k@);
        }
        let mut i: usize = 0;
        while i < self.entries.len()
            invariant
                i <= self.entries.len(),
                distinct_keys(self.entries@),
                forall|j: int| 0 <= j < i ==> (#[trigger] self.entries@[j]).0@ != k@,
            decreases self.entries.len() - i,
        {
            if self.entries[i].0.same(k) {
                proof {
                    lemma_place_is(self.entries@, i as int);
                }
                return i;
            }
            i = i + 1;
        }
        proof {
            lemma_place(self.entries@, k@);
        }
        i
    }

    /// The value at `k`, if there is one.
    pub fn get(&self, k: &K) -> (r: Option<&V>)
        ensures
            match r {
                Some(v) => self@.dom().contains(k@) && self@[k@] == *v,
                None => !self@.dom().contains(k@),
            },
    {
        let i = self.find(k);
        if i < self.entries.len() {
            Some(&self.entries[i].1)
        } else {
            None
        }
    }

    /// Whether there is a value at `k`.
    pub fn contains(&self, k: &K) -> (r: bool)
        ensures
            r == self@.dom().contains(k@),
    {
        let i = self.find(k);
        i < self.entries.len()
    }

    /// Puts `v` at `k`, in place of what was there.
    pub fn insert(&mut self, k: K, v: V)
        ensures
            final(self)@ == old(self)@.insert(k@, v),
    {
        proof {
            use_type_invariant(&*self);
        }
        let i = self.find(&k);
        let ghost e = self.entries@;
        let mut entries: Vec<(K, V)> = Vec::new();
        std::mem::swap(&mut entries, &mut self.entries);
        if i < entries.len() {
            let _ = entries.remove(i);
            let ghost shorter = entries@;
            entries.insert(i, (k, v));
            assert(entries@ =~= e.update(i as int, (k, v)));
            proof {
                lemma_place(e, k@);
                lemma_update(e, i as int, k, v);
            }
        } else {
            entries.push((k, v));
            proof {
                lemma_place(e, k@);
                lemma_push(e, k, v);
            }
        }
        self.entries = entries;
    }

    /// Takes the value at `k` away, if there is one.
    pub fn remove(&mut self, k: &K)
        ensures
            final(self)@ == old(self)@.remove(k@),
    {
        proof {
            use_type_invariant(&*self);
        }
        let i = self.find(k);
        let ghost e = self.entries@;
        if i < self.entries.len() {
            let mut entries: Vec<(K, V)> = Vec::new();
            std::mem::swap(&mut entries, &mut self.entries);
            let _ = entries.remove(i);
            assert(entries@ =~= e.remove(i as int));
            proof {
                lemma_place(e, k@);
                lemma_remove(e, i as int);
            }
            self.entries = entries;
        } else {
            assert(self@ =~= old(self)@.remove(k@));
        }
    }

    /// Takes every value away.
    pub fn clear(&mut self)
        ensures
            final(self)@ == Map::<K::V, V>::empty(),
    {
        self.entries = Vec::new();
        assert(self@ =~= Map::<K::V, V>::empty());
    }

    /// The keys with their values, each key once.
    pub fn entries(&self) -> (r: &Vec<(K, V)>)
        ensures
            distinct_keys(r@),
            entries_map(r@) == self@,
    {
        proof {
            use_type_invariant(self);
        }
        &self.entries
    }

    /// How many keys have a value.
    pub fn len(&self) -> (r: usize)
        ensures
            r == self@.dom().len(),
            self@.dom().finite(),
    {
        proof {
            use_type_invariant(self);
            lemma_count(self.entries@);
        }
        self.entries.len()
    }
}

proof fn lemma_update<K: Key, V>(e: Seq<(K, V)>, i: int, k: K, v: V)
    requires
        distinct_keys(e),
        0 <= i < e.len(),
        e[i].0@ == k@,
    ensures
        distinct_keys(e.update(i, (k, v))),
        entries_map(e.update(i, (k, v))) == entries_map(e).insert(k@, v),
{
    let f = e.update(i, (k, v));
    assert(distinct_keys(f)) by {
        assert forall|a: int, b: int| 0 <= a < b < f.len() implies (#[trigger] f[a]).0@ != (#[trigger] f[b]).0@ by {
            assert(e[a].0@ != e[b].0@);
        }
    }
    assert forall|q: K::V| #[trigger] place(f, q) == place(e, q) by {
        lemma_place(f, q);
        lemma_place(e, q);
        if place(f, q) >= 0 {
            lemma_place_is(e, place(f, q));
        } else if place(e, q) >= 0 {
            assert(f[place(e, q)].0@ == e[place(e, q)].0@);
        }
    }
    lemma_place_is(e, i);
    assert forall|q: K::V| q != k@ && place(e, q) >= 0 implies #[trigger] place(e, q) != i by {
        lemma_place(e, q);
    }
    assert(entries_map(f) =~= entries_map(e).insert(k@, v)) by {
        assert forall|q: K::V| entries_map(f).dom().contains(q) implies entries_map(f)[q] == entries_map(e).insert(
            k@,
            v,
        )[q] by {
            lemma_place(f, q);
        }
    }
}

proof fn lemma_push<K: Key, V>(e: Seq<(K, V)>, k: K, v: V)
    requires
        distinct_keys(e),
        place(e, k@) < 0,
    ensures
        distinct_keys(e.push((k, v))),
        entries_map(e.push((k, v))) == entries_map(e).insert(k@, v),
{
    let f = e.push((k, v));
    lemma_place(e, k@);
    assert forall|a: int, b: int| 0 <= a < b < f.len() implies (#[trigger] f[a]).0@ != (#[trigger] f[b]).0@ by {
        if b < e.len() {
            assert(e[a].0@ != e[b].0@);
        } else {
            assert(e[a].0@ != k@);
        }
    }
    assert(f.drop_last() =~= e);
    assert forall|q: K::V| entries_map(f).dom().contains(q) == entries_map(e).insert(k@, v).dom().contains(q) by {
        lemma_place(e, q);
    }
    assert(entries_map(f) =~= entries_map(e).insert(k@, v)) by {
        assert forall|q: K::V| entries_map(f).dom().contains(q) implies entries_map(f)[q] == entries_map(e).insert(
            k@,
            v,
        )[q] by {
            lemma_place(e, q);
        }
    }
}

proof fn lemma_remove<K: Key, V>(e: Seq<(K, V)>, i: int)
    requires
        distinct_keys(e),
        0 <= i < e.len(),
    ensures
        distinct_keys(e.remove(i)),
        entries_map(e.remove(i)) == entries_map(e).remove(e[i].0@),
{
    let f = e.remove(i);
    let k = e[i].0@;
    assert forall|a: int, b: int| 0 <= a < b < f.len() implies (#[trigger] f[a]).0@ != (#[trigger] f[b]).0@ by {
        let x = if a < i { a } else { a + 1 };
        let y = if b < i { b } else { b + 1 };
        assert(e[x].0@ != e[y].0@);
    }
    lemma_place_is(e, i);
    assert forall|q: K::V| q != k implies {
        &&& (place(f, q) >= 0) == (#[trigger] place(e, q) >= 0)
        &&& place(e, q) >= 0 ==> f[place(f, q)].1 == e[place(e, q)].1
    } by {
        lemma_place(e, q);
        lemma_place(f, q);
        if place(e, q) >= 0 {
            let p = place(e, q);
            let x = if p < i { p } else { p - 1 };
            assert(f[x] == e[p]);
            lemma_place_is(f, x);
        } else if place(f, q) >= 0 {
            let p = place(f, q);
            let x = if p < i { p } else { p + 1 };
            assert(e[x].0@ != q);
        }
    }
    assert(place(f, k) < 0) by {
        lemma_place(f, k);
        if place(f, k) >= 0 {
            let p = place(f, k);
            let x = if p < i { p } else { p + 1 };
            lemma_place_is(e, x);
        }
    }
    assert(entries_map(f) =~= entries_map(e).remove(k));
}

proof fn lemma_count<K: Key, V>(e: Seq<(K, V)>)
    requires
        distinct_keys(e),
    ensures
        entries_map(e).dom().finite(),
        entries_map(e).dom().len() == e.len(),
    decreases e.len(),
{
    if e.len() == 0 {
        assert(entries_map(e).dom() =~= Set::<K::V>::empty());
    } else {
        let f = e.drop_last();
        let k = e.last().0@;
        assert(distinct_keys(f)) by {
            assert forall|a: int, b: int| 0 <= a < b < f.len() implies (#[trigger] f[a]).0@ != (
            #[trigger] f[b]).0@ by {
                assert(e[a].0@ != e[b].0@);
            }
        }
        lemma_count(f);
        lemma_place(f, k);
        if place(f, k) >= 0 {
            assert(e[place(f, k)].0@ != e[e.len() - 1].0@);
        }
        assert forall|q: K::V| entries_map(e).dom().contains(q) == entries_map(f).dom().insert(k).contains(q) by {
            lemma_place(f, q);
        }
        assert(entries_map(e).dom() =~= entries_map(f).dom().insert(k));
    }
}

/// A finite set.
pub struct KeySet<K: Key> {
    members: Table<K, ()>,
}

impl<K: Key> View for KeySet<K> {
    type V = Set<K::V>;

    closed spec fn view(&self) -> Set<K::V> {
        self.members@.dom()
    }
}

impl<K: Key> KeySet<K> {
    /// The set without any member.
    pub fn new() -> (r: Self)
        ensures
            r@ == Set::<K::V>::empty(),
    {
        let r = KeySet { members: Table::new() };
        assert(r@ =~= Set::<K::V>::empty());
        r
    }

    /// Whether `k` is a member.
    pub fn contains(&self, k: &K) -> (r: bool)
        ensures
            r == self@.contains(k@),
    {
        self.members.contains(k)
    }

    /// Makes `k` a member.
    pub fn insert(&mut self, k: K)
        ensures
            final(self)@ == old(self)@.insert(k@),
    {
        self.members.insert(k, ());
        assert(self@ =~= old(self)@.insert(k@));
    }

    /// Makes `k` no member.
    pub fn remove(&mut self, k: &K)
        ensures
            final(self)@ == old(self)@.remove(k@),
    {
        self.members.remove(k);
        assert(self@ =~= old(self)@.remove(k@));
    }

    /// Takes every member away.
    pub fn clear(&mut self)
        ensures
            final(self)@ == Set::<K::V>::empty(),
    {
        self.members.clear();
        assert(self@ =~= Set::<K::V>::empty());
    }

    /// How many members there are.
    pub fn len(&self) -> (r: usize)
        ensures
            r == self@.len(),
            self@.finite(),
    {
        self.members.len()
    }
}

/// The map of a list of pairs: of two pairs with one key the later counts.
pub open spec fn pairs_map(p: Seq<(String, String)>) -> Map<Seq<char>, String>
    decreases p.len(),
{
    if p.len() == 0 {
        Map::empty()
    } else {
        pairs_map(p.drop_last()).insert(p.last().0@, p.last().1)
    }
}

/// A map of strings to strings, out of a list of pairs.
pub fn table_of(pairs: Vec<(String, String)>) -> (r: Table<String, String>)
    ensures
        r@ == pairs_map(pairs@),
{
    let mut t: Table<String, String> = Table::new();
    let mut i: usize = 0;
    while i < pairs.len()
        invariant
            i <= pairs.len(),
            t@ == pairs_map(pairs@.take(i as int)),
        decreases pairs.len() - i,
    {
        let p = &pairs[i];
        t.insert(p.0.clone(), p.1.clone());
        assert(pairs@.take(i + 1).drop_last() =~= pairs@.take(i as int));
        i = i + 1;
    }
    assert(pairs@.take(pairs@.len() as int) =~= pairs@);
    t
}

} // verus!
