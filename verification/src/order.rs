//! Stable sorting.

use vstd::prelude::*;

use crate::text;

verus! {

/// `x` put into `s` behind everything that it does not come before.
pub open spec fn put<T>(s: Seq<T>, x: T, less: spec_fn(T, T) -> bool) -> Seq<T>
    decreases s.len(),
{
    if s.len() == 0 || !less(x, s.last()) {
        s.push(x)
    } else {
        put(s.drop_last(), x, less).push(s.last())
    }
}

/// `s` in the order of `less`; what is neither before nor behind keeps its
/// order.
pub open spec fn sorted<T>(s: Seq<T>, less: spec_fn(T, T) -> bool) -> Seq<T>
    decreases s.len(),
{
    if s.len() == 0 {
        s
    } else {
        put(sorted(s.drop_last(), less), s.last(), less)
    }
}

/// `less` can order a sequence: nothing comes before itself, and "does not
/// come before" is transitive.
pub open spec fn orders<T>(less: spec_fn(T, T) -> bool) -> bool {
    &&& forall|a: T| !#[trigger] less(a, a)
    &&& forall|a: T, b: T, c: T|
        !#[trigger] less(b, a) && !#[trigger] less(c, b) ==> !less(c, a)
    &&& forall|a: T, b: T| #[trigger] less(a, b) ==> !less(b, a)
}

/// No element comes before one that stands in front of it.
pub open spec fn in_order<T>(s: Seq<T>, less: spec_fn(T, T) -> bool) -> bool {
    forall|i: int, j: int| 0 <= i < j < s.len() ==> !less(#[trigger] s[j], #[trigger] s[i])
}

proof fn lemma_put_at<T>(s: Seq<T>, x: T, less: spec_fn(T, T) -> bool, i: int)
    requires
        0 <= i <= s.len(),
        forall|j: int| i <= j < s.len() ==> less(x, #[trigger] s[j]),
        i > 0 ==> !less(x, s[i - 1]),
    ensures
        put(s, x, less) == s.insert(i, x),
    decreases s.len(),
{
    if i == s.len() {
        assert(s.insert(i, x) =~= s.push(x));
    } else {
        lemma_put_at(s.drop_last(), x, less, i);
        assert(s.drop_last().insert(i, x).push(s.last()) =~= s.insert(i, x));
    }
}

/// Sorts `items`: `comes_before` tells whether its first argument belongs in
/// front of its second.
pub fn sort_by<T, F: Fn(&T, &T) -> bool>(
    items: Vec<T>,
    comes_before: F,
    Ghost(less): Ghost<spec_fn(T, T) -> bool>,
) -> (r: Vec<T>)
    requires
        forall|a: &T, b: &T| call_requires(comes_before, (a, b)),
        forall|a: &T, b: &T, o: bool| call_ensures(comes_before, (a, b), o) ==> o == less(*a, *b),
    ensures
        r@ == sorted(items@, less),
{
    let ghost all = items@;
    let mut rest = items;
    let mut out: Vec<T> = Vec::new();
    assert(all.take(0) =~= Seq::empty());
    assert(all.skip(0) =~= all);
    while rest.len() > 0
        invariant
            rest.len() <= all.len(),
            rest@ == all.skip(all.len() - rest.len()),
            out@ == sorted(all.take(all.len() - rest.len()), less),
            forall|a: &T, b: &T| call_requires(comes_before, (a, b)),
            forall|a: &T, b: &T, o: bool| call_ensures(comes_before, (a, b), o) ==> o == less(*a, *b),
        decreases rest.len(),
    {
        let ghost n = all.len() - rest.len();
        let x = rest.remove(0);
        assert(rest@ =~= all.skip(n + 1));
        assert(x == all[n]);
        let ghost before = out@;
        let mut i: usize = out.len();
        while i > 0 && comes_before(&x, &out[i - 1])
            invariant
                i <= out.len(),
                out@ == before,
                forall|a: &T, b: &T| call_requires(comes_before, (a, b)),
                forall|a: &T, b: &T, o: bool| call_ensures(comes_before, (a, b), o) ==> o == less(*a, *b),
                forall|j: int| i <= j < out.len() ==> less(x, #[trigger] out@[j]),
            decreases i,
        {
            i = i - 1;
        }
        proof {
            lemma_put_at(before, x, less, i as int);
            assert(all.take(n + 1).drop_last() =~= all.take(n));
            assert(all.take(n + 1).last() == x);
        }
        out.insert(i, x);
    }
    assert(all.take(all.len() as int) =~= all);
    out
}

proof fn lemma_put_in_order<T>(s: Seq<T>, x: T, less: spec_fn(T, T) -> bool)
    requires
        orders(less),
        in_order(s, less),
    ensures
        in_order(put(s, x, less), less),
        put(s, x, less).to_multiset() == s.to_multiset().insert(x),
        put(s, x, less).len() == s.len() + 1,
    decreases s.len(),
{
    broadcast use vstd::seq_lib::group_to_multiset_ensures;

    let p = put(s, x, less);
    if s.len() == 0 || !less(x, s.last()) {
        assert forall|i: int, j: int| 0 <= i < j < p.len() implies !less(#[trigger] p[j], #[trigger] p[i]) by {
            if j == s.len() && i < s.len() - 1 {
                assert(!less(s[s.len() - 1], s[i]));
            }
        }
    } else {
        let t = s.drop_last();
        assert(in_order(t, less)) by {
            assert forall|i: int, j: int| 0 <= i < j < t.len() implies !less(#[trigger] t[j], #[trigger] t[i]) by {
                assert(!less(s[j], s[i]));
            }
        }
        lemma_put_in_order(t, x, less);
        let q = put(t, x, less);
        assert forall|i: int, j: int| 0 <= i < j < p.len() implies !less(#[trigger] p[j], #[trigger] p[i]) by {
            if j == p.len() - 1 {
                assert(q.to_multiset().count(q[i]) > 0) by {
                    assert(q.contains(q[i]));
                }
                if q[i] != x {
                    assert(t.to_multiset().count(q[i]) > 0);
                    assert(t.contains(q[i]));
                    let k = choose|k: int| 0 <= k < t.len() && t[k] == q[i];
                    assert(!less(s[s.len() - 1], s[k]));
                }
            } else {
                assert(!less(q[j], q[i]));
            }
        }
        assert(s =~= t.push(s.last()));
        assert(p.to_multiset() =~= s.to_multiset().insert(x));
    }
}

/// Sorting loses nothing, adds nothing and puts everything in order.
pub proof fn law_sorted<T>(s: Seq<T>, less: spec_fn(T, T) -> bool)
    requires
        orders(less),
    ensures
        in_order(sorted(s, less), less),
        sorted(s, less).to_multiset() == s.to_multiset(),
        sorted(s, less).len() == s.len(),
    decreases s.len(),
{
    broadcast use vstd::seq_lib::group_to_multiset_ensures;

    if s.len() > 0 {
        law_sorted(s.drop_last(), less);
        lemma_put_in_order(sorted(s.drop_last(), less), s.last(), less);
        assert(s =~= s.drop_last().push(s.last()));
    }
}

proof fn lemma_put_keeps<T>(s: Seq<T>, x: T, less: spec_fn(T, T) -> bool, a: T)
    requires
        orders(less),
        in_order(s, less),
    ensures
        put(s, x, less).filter(|b: T| !less(a, b) && !less(b, a)) == s.push(x).filter(
            |b: T| !less(a, b) && !less(b, a),
        ),
    decreases s.len(),
{
    reveal(Seq::filter);
    let alike = |b: T| !less(a, b) && !less(b, a);
    if s.len() > 0 && less(x, s.last()) {
        let t = s.drop_last();
        assert(in_order(t, less)) by {
            assert forall|i: int, j: int| 0 <= i < j < t.len() implies !less(#[trigger] t[j], #[trigger] t[i]) by {
                assert(!less(s[j], s[i]));
            }
        }
        lemma_put_keeps(t, x, less, a);
        let p = put(s, x, less);
        assert(p.drop_last() =~= put(t, x, less));
        assert(s.push(x).drop_last() =~= s);
        assert(t.push(x).drop_last() =~= t);
        assert(!(alike(x) && alike(s.last()))) by {
            if alike(x) && alike(s.last()) {
                assert(!less(x, a) && !less(a, s.last()));
                assert(!less(x, s.last()));
            }
        }
        assert(put(t, x, less).filter(alike) == t.push(x).filter(alike));
        let f = t.filter(alike);
        assert(s.filter(alike) == if alike(s.last()) { f.push(s.last()) } else { f });
        assert(t.push(x).filter(alike) == if alike(x) { f.push(x) } else { f });
        assert(p.last() == s.last());
        assert(p.filter(alike) == if alike(s.last()) {
            put(t, x, less).filter(alike).push(s.last())
        } else {
            put(t, x, less).filter(alike)
        });
        assert(s.push(x).filter(alike) == if alike(x) {
            s.filter(alike).push(x)
        } else {
            s.filter(alike)
        });
    }
}

/// Sorting keeps the order of what `less` does not tell apart.
pub proof fn law_sorted_stable<T>(s: Seq<T>, less: spec_fn(T, T) -> bool, a: T)
    requires
        orders(less),
    ensures
        sorted(s, less).filter(|b: T| !less(a, b) && !less(b, a)) == s.filter(
            |b: T| !less(a, b) && !less(b, a),
        ),
    decreases s.len(),
{
    reveal(Seq::filter);
    if s.len() > 0 {
        let t = s.drop_last();
        let alike = |b: T| !less(a, b) && !less(b, a);
        law_sorted(t, less);
        law_sorted_stable(t, less, a);
        lemma_put_keeps(sorted(t, less), s.last(), less, a);
        assert(sorted(t, less).push(s.last()).drop_last() =~= sorted(t, less));
    }
}

proof fn lemma_put_map<T, U>(
    s: Seq<T>,
    x: T,
    less: spec_fn(T, T) -> bool,
    f: spec_fn(T) -> U,
    under: spec_fn(U, U) -> bool,
)
    requires
        forall|a: T, b: T| #[trigger] less(a, b) == under(f(a), f(b)),
    ensures
        put(s, x, less).map_values(f) == put(s.map_values(f), f(x), under),
    decreases s.len(),
{
    if s.len() == 0 || !less(x, s.last()) {
        assert(s.push(x).map_values(f) =~= s.map_values(f).push(f(x)));
    } else {
        lemma_put_map(s.drop_last(), x, less, f, under);
        assert(s.map_values(f).drop_last() =~= s.drop_last().map_values(f));
        assert(put(s, x, less).map_values(f) =~= put(s.drop_last(), x, less).map_values(f).push(
            f(s.last()),
        ));
    }
}

/// To sort by what `f` makes of the elements is to sort what `f` makes of
/// them.
pub proof fn lemma_sorted_map<T, U>(
    s: Seq<T>,
    less: spec_fn(T, T) -> bool,
    f: spec_fn(T) -> U,
    under: spec_fn(U, U) -> bool,
)
    requires
        forall|a: T, b: T| #[trigger] less(a, b) == under(f(a), f(b)),
    ensures
        sorted(s, less).map_values(f) == sorted(s.map_values(f), under),
    decreases s.len(),
{
    if s.len() == 0 {
        assert(s.map_values(f) =~= Seq::<U>::empty());
        assert(sorted(s, less).map_values(f) =~= Seq::<U>::empty());
    } else {
        lemma_sorted_map(s.drop_last(), less, f, under);
        lemma_put_map(sorted(s.drop_last(), less), s.last(), less, f, under);
        assert(s.map_values(f).drop_last() =~= s.drop_last().map_values(f));
    }
}

/// Strings in the order of their code points.
pub open spec fn sorted_texts(s: Seq<Seq<char>>) -> Seq<Seq<char>> {
    sorted(s, |a: Seq<char>, b: Seq<char>| text::before(a, b))
}

/// Sorts strings.
pub fn sort_texts(v: Vec<String>) -> (r: Vec<String>)
    ensures
        text::views(r@) == sorted_texts(text::views(v@)),
{
    let ghost less = |a: String, b: String| text::before(a@, b@);
    let comes_before = |a: &String, b: &String| -> (o: bool)
        ensures
            o == text::before(a@, b@),
    {
        text::str_before(a.as_str(), b.as_str())
    };
    let r = sort_by(v, comes_before, Ghost(less));
    proof {
        let f = |s: String| s@;
        lemma_sorted_map(v@, less, f, |a: Seq<char>, b: Seq<char>| text::before(a, b));
        assert(v@.map_values(f) =~= text::views(v@));
        assert(r@.map_values(f) =~= text::views(r@));
    }
    r
}

/// Whatever is ordered by a text can be put in order.
pub proof fn lemma_key_orders<T>(less: spec_fn(T, T) -> bool, key: spec_fn(T) -> Seq<char>)
    requires
        forall|a: T, b: T| #[trigger] less(a, b) == text::before(key(a), key(b)),
    ensures
        orders(less),
{
    assert forall|a: T| !(#[trigger] less(a, a)) by {
        text::lemma_before_irreflexive(key(a));
    }
    assert forall|a: T, b: T, c: T| !(#[trigger] less(b, a)) && !(#[trigger] less(c, b)) implies !less(
        c,
        a,
    ) by {
        text::lemma_before_transitive(key(a), key(b), key(c));
    }
    assert forall|a: T, b: T| #[trigger] less(a, b) implies !less(b, a) by {
        text::lemma_before_total(key(a), key(b));
    }
}

/// Texts that were sorted are in order, and none is lost or added.
pub proof fn law_texts_in_order(s: Seq<Seq<char>>)
    ensures
        in_order(sorted_texts(s), |a: Seq<char>, b: Seq<char>| text::before(a, b)),
        sorted_texts(s).to_multiset() == s.to_multiset(),
{
    let less = |a: Seq<char>, b: Seq<char>| text::before(a, b);
    lemma_key_orders(less, |a: Seq<char>| a);
    law_sorted(s, less);
}

/// The key by which names are listed: their letters in lower case.
pub open spec fn lower_before(a: Seq<char>, b: Seq<char>) -> bool {
    text::before(text::lowercased(a), text::lowercased(b))
}

/// Whether the name `a` is listed in front of `b`.
pub fn name_before(a: &str, b: &str) -> (r: bool)
    ensures
        r == lower_before(a@, b@),
{
    let x = text::to_lower(a);
    let y = text::to_lower(b);
    text::str_before(x.as_str(), y.as_str())
}

} // verus!
