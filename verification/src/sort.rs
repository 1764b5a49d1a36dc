//! Stable insertion sort with an exact specification.
//!
//! `stable_sort(s, before)` is the result of inserting the elements of `s`
//! one by one, each after every earlier element that it does not go strictly
//! before. This is the unique stable sort of `s`: `sort_by` in std gives the
//! same result for any comparator whose `Less` answers are `before`.
use vstd::prelude::*;

verus! {

broadcast use vstd::seq_lib::group_to_multiset_ensures;

/// Inserts `e` into `s` just after the last element that `e` does not go
/// strictly before.
pub open spec fn insert_by<T>(s: Seq<T>, e: T, before: spec_fn(T, T) -> bool) -> Seq<T>
    decreases s.len(),
{
    if s.len() == 0 {
        seq![e]
    } else if before(e, s.last()) {
        insert_by(s.drop_last(), e, before).push(s.last())
    } else {
        s.push(e)
    }
}

/// The stable sort of `s` by the strict "goes before" relation `before`.
pub open spec fn stable_sort<T>(s: Seq<T>, before: spec_fn(T, T) -> bool) -> Seq<T>
    decreases s.len(),
{
    if s.len() == 0 {
        s
    } else {
        insert_by(stable_sort(s.drop_last(), before), s.last(), before)
    }
}

/// No element goes strictly before an element that precedes it.
pub open spec fn sorted_by<T>(s: Seq<T>, before: spec_fn(T, T) -> bool) -> bool {
    forall|i: int, j: int| 0 <= i < j < s.len() ==> !before(#[trigger] s[j], #[trigger] s[i])
}

/// `before` is a strict weak order: asymmetric, and its complement is
/// transitive.
pub open spec fn strict_weak_order<T>(before: spec_fn(T, T) -> bool) -> bool {
    &&& forall|a: T, b: T| #[trigger] before(a, b) ==> !before(b, a)
    &&& forall|a: T, b: T, c: T|
        #![trigger before(a, b), before(b, c)]
        !before(a, b) && !before(b, c) ==> !before(a, c)
}

/// The position at which `insert_by` places `e`.
pub open spec fn insert_pos<T>(s: Seq<T>, e: T, before: spec_fn(T, T) -> bool) -> int
    decreases s.len(),
{
    if s.len() == 0 {
        0
    } else if before(e, s.last()) {
        insert_pos(s.drop_last(), e, before)
    } else {
        s.len() as int
    }
}

pub proof fn lemma_insert_by_shape<T>(s: Seq<T>, e: T, before: spec_fn(T, T) -> bool)
    ensures
        0 <= insert_pos(s, e, before) <= s.len(),
        insert_by(s, e, before) == s.take(insert_pos(s, e, before)) + seq![e] + s.skip(
            insert_pos(s, e, before),
        ),
        forall|m: int|
            insert_pos(s, e, before) <= m < s.len() ==> before(e, #[trigger] s[m]),
        insert_pos(s, e, before) > 0 ==> !before(e, s[insert_pos(s, e, before) - 1]),
    decreases s.len(),
{
    let p = insert_pos(s, e, before);
    if s.len() == 0 {
        assert(insert_by(s, e, before) =~= s.take(0) + seq![e] + s.skip(0));
    } else if before(e, s.last()) {
        let t = s.drop_last();
        lemma_insert_by_shape(t, e, before);
        assert(insert_by(s, e, before) =~= s.take(p) + seq![e] + s.skip(p));
        assert forall|m: int| p <= m < s.len() implies before(e, #[trigger] s[m]) by {
            if m < s.len() - 1 {
                assert(s[m] == t[m]);
            }
        }
        if p > 0 {
            assert(s[p - 1] == t[p - 1]);
        }
    } else {
        assert(insert_by(s, e, before) =~= s.take(p) + seq![e] + s.skip(p));
    }
}

pub proof fn lemma_insert_by_multiset<T>(s: Seq<T>, e: T, before: spec_fn(T, T) -> bool)
    ensures
        insert_by(s, e, before).to_multiset() == s.to_multiset().insert(e),
    decreases s.len(),
{
    if s.len() == 0 {
        assert(seq![e] == Seq::<T>::empty().push(e));
    } else if before(e, s.last()) {
        let t = s.drop_last();
        lemma_insert_by_multiset(t, e, before);
        assert(s == t.push(s.last()));
        assert(insert_by(s, e, before).to_multiset() =~= s.to_multiset().insert(e));
    }
}

/// A stable sort is a permutation of its input.
pub proof fn lemma_stable_sort_multiset<T>(s: Seq<T>, before: spec_fn(T, T) -> bool)
    ensures
        stable_sort(s, before).to_multiset() == s.to_multiset(),
    decreases s.len(),
{
    if s.len() > 0 {
        let t = s.drop_last();
        lemma_stable_sort_multiset(t, before);
        lemma_insert_by_multiset(stable_sort(t, before), s.last(), before);
        assert(s == t.push(s.last()));
    }
}

pub proof fn lemma_stable_sort_len<T>(s: Seq<T>, before: spec_fn(T, T) -> bool)
    ensures
        stable_sort(s, before).len() == s.len(),
    decreases s.len(),
{
    if s.len() > 0 {
        let t = s.drop_last();
        lemma_stable_sort_len(t, before);
        lemma_insert_by_shape(stable_sort(t, before), s.last(), before);
    }
}

pub proof fn lemma_insert_by_sorted<T>(s: Seq<T>, e: T, before: spec_fn(T, T) -> bool)
    requires
        strict_weak_order(before),
        sorted_by(s, before),
    ensures
        sorted_by(insert_by(s, e, before), before),
{
    lemma_insert_by_shape(s, e, before);
    let p = insert_pos(s, e, before);
    let r = insert_by(s, e, before);
    assert forall|i: int, j: int| 0 <= i < j < r.len() implies !before(#[trigger] r[j], #[trigger] r[i]) by {
        if j < p {
            assert(r[i] == s[i] && r[j] == s[j]);
        } else if j == p {
            assert(r[j] == e);
            assert(r[i] == s[i]);
            assert(!before(e, s[p - 1]));
            if i < p - 1 {
                assert(!before(s[p - 1], s[i]));
            }
        } else if i == p {
            assert(r[i] == e);
            assert(r[j] == s[j - 1]);
            assert(before(e, s[j - 1]));
        } else if i < p {
            assert(r[i] == s[i] && r[j] == s[j - 1]);
        } else {
            assert(r[i] == s[i - 1] && r[j] == s[j - 1]);
        }
    }
}

/// A stable sort by a strict weak order is sorted.
pub proof fn lemma_stable_sort_sorted<T>(s: Seq<T>, before: spec_fn(T, T) -> bool)
    requires
        strict_weak_order(before),
    ensures
        sorted_by(stable_sort(s, before), before),
    decreases s.len(),
{
    if s.len() > 0 {
        lemma_stable_sort_sorted(s.drop_last(), before);
        lemma_insert_by_sorted(stable_sort(s.drop_last(), before), s.last(), before);
    }
}

/// Sorting keeps exactly the elements it was given.
pub proof fn lemma_stable_sort_contains<T>(s: Seq<T>, before: spec_fn(T, T) -> bool)
    ensures
        stable_sort(s, before).len() == s.len(),
        forall|x: T| #[trigger] stable_sort(s, before).contains(x) <==> s.contains(x),
    decreases s.len(),
{
    if s.len() > 0 {
        let t = s.drop_last();
        lemma_stable_sort_contains(t, before);
        let st = stable_sort(t, before);
        lemma_insert_by_shape(st, s.last(), before);
        let p = insert_pos(st, s.last(), before);
        let r = stable_sort(s, before);
        assert(r == st.take(p) + seq![s.last()] + st.skip(p));
        assert forall|x: T| #[trigger] r.contains(x) <==> s.contains(x) by {
            if r.contains(x) {
                let i = choose|i: int| 0 <= i < r.len() && r[i] == x;
                if i < p {
                    assert(st[i] == x);
                    assert(st.contains(x));
                    assert(t.contains(x));
                    let k = choose|k: int| 0 <= k < t.len() && t[k] == x;
                    assert(s[k] == x);
                } else if i == p {
                    assert(s[s.len() - 1] == x);
                } else {
                    assert(st[i - 1] == x);
                    assert(st.contains(x));
                    assert(t.contains(x));
                    let k = choose|k: int| 0 <= k < t.len() && t[k] == x;
                    assert(s[k] == x);
                }
            }
            if s.contains(x) {
                let k = choose|k: int| 0 <= k < s.len() && s[k] == x;
                if k == s.len() - 1 {
                    assert(r[p] == x);
                } else {
                    assert(t[k] == x);
                    assert(t.contains(x));
                    assert(st.contains(x));
                    let i = choose|i: int| 0 <= i < st.len() && st[i] == x;
                    if i < p {
                        assert(r[i] == x);
                    } else {
                        assert(r[i + 1] == x);
                    }
                }
            }
        }
    }
}

/// No two elements share a key.
pub open spec fn distinct_by<T, K>(s: Seq<T>, key: spec_fn(T) -> K) -> bool {
    forall|i: int, j: int| 0 <= i < j < s.len() ==> key(#[trigger] s[i]) != key(#[trigger] s[j])
}

/// Sorting keeps keys distinct.
pub proof fn lemma_stable_sort_distinct<T, K>(
    s: Seq<T>,
    before: spec_fn(T, T) -> bool,
    key: spec_fn(T) -> K,
)
    requires
        distinct_by(s, key),
    ensures
        distinct_by(stable_sort(s, before), key),
    decreases s.len(),
{
    if s.len() > 0 {
        let t = s.drop_last();
        assert(distinct_by(t, key)) by {
            assert forall|i: int, j: int| 0 <= i < j < t.len() implies key(#[trigger] t[i]) != key(
                #[trigger] t[j],
            ) by {
                assert(t[i] == s[i] && t[j] == s[j]);
            }
        }
        lemma_stable_sort_distinct(t, before, key);
        lemma_stable_sort_contains(t, before);
        let st = stable_sort(t, before);
        let e = s.last();
        lemma_insert_by_shape(st, e, before);
        let p = insert_pos(st, e, before);
        let r = stable_sort(s, before);
        assert forall|m: int| 0 <= m < st.len() implies key(#[trigger] st[m]) != key(e) by {
            assert(st.contains(st[m]));
            assert(t.contains(st[m]));
            let k = choose|k: int| 0 <= k < t.len() && t[k] == st[m];
            assert(s[k] == st[m]);
            assert(key(s[k]) != key(s[s.len() - 1]));
        }
        assert forall|i: int, j: int| 0 <= i < j < r.len() implies key(#[trigger] r[i]) != key(
            #[trigger] r[j],
        ) by {
            if j < p {
                assert(r[i] == st[i] && r[j] == st[j]);
            } else if j == p {
                assert(r[i] == st[i] && r[j] == e);
            } else if i == p {
                assert(r[i] == e && r[j] == st[j - 1]);
            } else if i < p {
                assert(r[i] == st[i] && r[j] == st[j - 1]);
            } else {
                assert(r[i] == st[i - 1] && r[j] == st[j - 1]);
            }
        }
    }
}

/// Sorting commutes with a map that the order only sees through.
pub proof fn lemma_stable_sort_map<T, V>(
    s: Seq<T>,
    f: spec_fn(T) -> V,
    bt: spec_fn(T, T) -> bool,
    bv: spec_fn(V, V) -> bool,
)
    requires
        forall|a: T, b: T| #[trigger] bt(a, b) == bv(f(a), f(b)),
    ensures
        stable_sort(s, bt).map_values(f) == stable_sort(s.map_values(f), bv),
    decreases s.len(),
{
    if s.len() > 0 {
        let t = s.drop_last();
        lemma_stable_sort_map(t, f, bt, bv);
        assert(s.map_values(f).drop_last() == t.map_values(f));
        lemma_insert_by_map(stable_sort(t, bt), s.last(), f, bt, bv);
    }
}

proof fn lemma_insert_by_map<T, V>(
    s: Seq<T>,
    e: T,
    f: spec_fn(T) -> V,
    bt: spec_fn(T, T) -> bool,
    bv: spec_fn(V, V) -> bool,
)
    requires
        forall|a: T, b: T| #[trigger] bt(a, b) == bv(f(a), f(b)),
    ensures
        insert_by(s, e, bt).map_values(f) == insert_by(s.map_values(f), f(e), bv),
    decreases s.len(),
{
    if s.len() > 0 {
        let t = s.drop_last();
        assert(s.map_values(f).drop_last() == t.map_values(f));
        assert(s.map_values(f).last() == f(s.last()));
        assert(bt(e, s.last()) == bv(f(e), f(s.last())));
        if bt(e, s.last()) {
            lemma_insert_by_map(t, e, f, bt, bv);
            assert(insert_by(t, e, bt).push(s.last()).map_values(f) == insert_by(t, e, bt).map_values(
                f,
            ).push(f(s.last())));
        } else {
            assert(s.push(e).map_values(f) == s.map_values(f).push(f(e)));
        }
    } else {
        assert(seq![e].map_values(f) == seq![f(e)]);
    }
}

/// Sorts `v` stably by `before`, whose executable form is `lt`.
pub fn sort_stable<T, F: Fn(&T, &T) -> bool>(
    v: Vec<T>,
    lt: F,
    Ghost(before): Ghost<spec_fn(T, T) -> bool>,
) -> (r: Vec<T>)
    requires
        forall|a: T, b: T| #[trigger] lt.requires((&a, &b)),
        forall|a: T, b: T, x: bool| lt.ensures((&a, &b), x) ==> x == before(a, b),
    ensures
        r@ == stable_sort(v@, before),
{
    let ghost orig = v@;
    let mut input = v;
    let mut out: Vec<T> = Vec::new();
    let ghost mut k: int = 0;
    assert(orig.skip(0) == orig);
    assert(orig.take(0) == Seq::<T>::empty());
    while input.len() > 0
        invariant
            0 <= k <= orig.len(),
            input@ == orig.skip(k),
            out@ == stable_sort(orig.take(k), before),
            forall|a: T, b: T| #[trigger] lt.requires((&a, &b)),
            forall|a: T, b: T, x: bool| lt.ensures((&a, &b), x) ==> x == before(a, b),
        decreases input.len(),
    {
        let ghost before_in = input@;
        let e = input.remove(0);
        assert(e == orig[k]);
        assert(input@ == orig.skip(k + 1));
        let mut j: usize = out.len();
        assert(out@.take(j as int) == out@);
        assert(out@.skip(j as int) == Seq::<T>::empty());
        assert(insert_by(out@, e, before) == insert_by(out@, e, before) + Seq::<T>::empty());
        while j > 0 && lt(&e, &out[j - 1])
            invariant
                j <= out@.len(),
                insert_by(out@, e, before) == insert_by(out@.take(j as int), e, before)
                    + out@.skip(j as int),
                forall|a: T, b: T| #[trigger] lt.requires((&a, &b)),
                forall|a: T, b: T, x: bool| lt.ensures((&a, &b), x) ==> x == before(a, b),
            decreases j,
        {
            let ghost t = out@.take(j as int);
            assert(t.drop_last() == out@.take(j - 1));
            assert(t.last() == out@[j - 1]);
            assert(out@.skip(j - 1) == seq![out@[j - 1]] + out@.skip(j as int));
            assert(insert_by(t, e, before) == insert_by(out@.take(j - 1), e, before).push(
                out@[j - 1],
            ));
            assert(insert_by(out@.take(j - 1), e, before).push(out@[j - 1]) + out@.skip(j as int)
                == insert_by(out@.take(j - 1), e, before) + out@.skip(j - 1));
            j = j - 1;
        }
        let ghost t = out@.take(j as int);
        assert(insert_by(t, e, before) == t.push(e));
        let ghost old_out = out@;
        out.insert(j, e);
        assert(out@ == old_out.take(j as int).push(e) + old_out.skip(j as int));
        let ghost tk = orig.take(k + 1);
        assert(tk.drop_last() == orig.take(k));
        assert(tk.last() == e);
        proof {
            k = k + 1;
        }
    }
    assert(orig.take(k) == orig);
    out
}

} // verus!
