//! Stable descending sort by an integer key, in specification form.
//!
//! Both the ranker (results by final score) and the registry (matched
//! providers by priority) order their output this way, so the insertion
//! sort and its laws live here, stated over any element type and key.
use vstd::prelude::*;

verus! {

broadcast use vstd::seq_lib::group_seq_lib_default;

/// `x` placed into `s` after every element whose key is at least `key(x)`;
/// on a sorted `s` this keeps it sorted and puts `x` after its equals.
pub open spec fn insert_desc<T>(s: Seq<T>, x: T, key: spec_fn(T) -> int) -> Seq<T>
    decreases s.len(),
{
    if s.len() == 0 {
        seq![x]
    } else if key(s[0]) >= key(x) {
        seq![s[0]] + insert_desc(s.drop_first(), x, key)
    } else {
        seq![x] + s
    }
}

/// The position `insert_desc` puts `x` at: the length of the run of leading
/// elements whose key is at least `key(x)`.
pub open spec fn insert_point<T>(s: Seq<T>, x: T, key: spec_fn(T) -> int) -> int
    decreases s.len(),
{
    if s.len() == 0 {
        0
    } else if key(s[0]) < key(x) {
        0
    } else {
        1 + insert_point(s.drop_first(), x, key)
    }
}

/// The stable sort of `s` by descending key: elements taken left to right,
/// each inserted after the earlier elements with an equal key.
pub open spec fn sort_desc<T>(s: Seq<T>, key: spec_fn(T) -> int) -> Seq<T>
    decreases s.len(),
{
    if s.len() == 0 {
        Seq::empty()
    } else {
        insert_desc(sort_desc(s.drop_last(), key), s.last(), key)
    }
}

/// No element with a strictly smaller key stands before one with a larger.
pub open spec fn sorted_desc<T>(s: Seq<T>, key: spec_fn(T) -> int) -> bool {
    forall|i: int, j: int| #![trigger s[i], s[j]] 0 <= i < j < s.len() ==> key(s[i]) >= key(s[j])
}

/// The elements whose key is exactly `v`, in order.
pub open spec fn key_is<T>(key: spec_fn(T) -> int, v: int) -> spec_fn(T) -> bool {
    |t: T| key(t) == v
}

pub proof fn lemma_insert_point<T>(s: Seq<T>, x: T, key: spec_fn(T) -> int)
    ensures
        0 <= insert_point(s, x, key) <= s.len(),
        forall|j: int| 0 <= j < insert_point(s, x, key) ==> key(#[trigger] s[j]) >= key(x),
        insert_point(s, x, key) < s.len() ==> key(s[insert_point(s, x, key)]) < key(x),
    decreases s.len(),
{
    if s.len() != 0 && key(s[0]) >= key(x) {
        lemma_insert_point(s.drop_first(), x, key);
        assert forall|j: int| 0 <= j < insert_point(s, x, key) implies key(
            #[trigger] s[j],
        ) >= key(x) by {
            if j > 0 {
                assert(key(s.drop_first()[j - 1]) >= key(x));
            }
        }
    }
}

/// `insert_desc` is the sequence split at the insert point with `x` between
/// the two halves.
pub proof fn lemma_insert_desc_split<T>(s: Seq<T>, x: T, key: spec_fn(T) -> int)
    ensures
        insert_desc(s, x, key) == s.take(insert_point(s, x, key)) + seq![x] + s.skip(
            insert_point(s, x, key),
        ),
    decreases s.len(),
{
    let i = insert_point(s, x, key);
    if s.len() == 0 {
        assert(insert_desc(s, x, key) =~= s.take(i) + seq![x] + s.skip(i));
    } else if key(s[0]) < key(x) {
        assert(insert_desc(s, x, key) =~= s.take(0) + seq![x] + s.skip(0));
    } else {
        lemma_insert_desc_split(s.drop_first(), x, key);
        lemma_insert_point(s.drop_first(), x, key);
        assert(insert_desc(s, x, key) =~= s.take(i) + seq![x] + s.skip(i));
    }
}

/// Inserting into a sorted sequence keeps it sorted.
pub proof fn lemma_insert_desc_sorted<T>(s: Seq<T>, x: T, key: spec_fn(T) -> int)
    requires
        sorted_desc(s, key),
    ensures
        sorted_desc(insert_desc(s, x, key), key),
{
    let i = insert_point(s, x, key);
    let out = insert_desc(s, x, key);
    lemma_insert_point(s, x, key);
    lemma_insert_desc_split(s, x, key);
    assert forall|a: int, b: int| 0 <= a < b < out.len() implies key(out[a]) >= key(out[b]) by {
        if a < i {
            assert(out[a] == s[a]);
        } else if a == i {
            assert(out[a] == x);
        } else {
            assert(out[a] == s[a - 1]);
        }
        if b < i {
            assert(out[b] == s[b]);
        } else if b == i {
            assert(out[b] == x);
        } else {
            assert(out[b] == s[b - 1]);
        }
        if a < i && b == i {
            assert(key(s[a]) >= key(x));
        }
        if a == i && b > i {
            assert(key(s[i]) < key(x));
            assert(key(s[i]) >= key(s[b - 1]));
        }
    }
}

pub proof fn lemma_filter_singleton<T>(x: T, pred: spec_fn(T) -> bool)
    ensures
        seq![x].filter(pred) == if pred(x) {
            seq![x]
        } else {
            Seq::<T>::empty()
        },
{
    reveal_with_fuel(Seq::filter, 2);
    assert(seq![x].drop_last() =~= Seq::<T>::empty());
    assert(seq![x].last() == x);
}

pub proof fn lemma_filter_none<T>(s: Seq<T>, pred: spec_fn(T) -> bool)
    requires
        forall|j: int| 0 <= j < s.len() ==> !pred(#[trigger] s[j]),
    ensures
        s.filter(pred) == Seq::<T>::empty(),
    decreases s.len(),
{
    reveal_with_fuel(Seq::filter, 2);
    if s.len() > 0 {
        lemma_filter_none(s.drop_last(), pred);
    }
}

/// Inserting appends `x` to the key class it belongs to and leaves every
/// other key class unchanged.
pub proof fn lemma_insert_desc_filter<T>(s: Seq<T>, x: T, key: spec_fn(T) -> int, v: int)
    requires
        sorted_desc(s, key),
    ensures
        insert_desc(s, x, key).filter(key_is(key, v)) == if key(x) == v {
            s.filter(key_is(key, v)).push(x)
        } else {
            s.filter(key_is(key, v))
        },
{
    let i = insert_point(s, x, key);
    let pred = key_is(key, v);
    lemma_insert_point(s, x, key);
    lemma_insert_desc_split(s, x, key);
    lemma_filter_singleton(x, pred);
    assert(s =~= s.take(i) + s.skip(i));
    assert(s.filter(pred) == s.take(i).filter(pred) + s.skip(i).filter(pred));
    assert(insert_desc(s, x, key).filter(pred) == s.take(i).filter(pred) + seq![x].filter(pred)
        + s.skip(i).filter(pred));
    if key(x) == v {
        assert forall|j: int| 0 <= j < s.skip(i).len() implies !pred(#[trigger] s.skip(i)[j]) by {
            assert(s.skip(i)[j] == s[i + j]);
            if i < s.len() {
                assert(key(s[i]) < key(x));
                assert(key(s[i]) >= key(s[i + j]));
            }
        }
        lemma_filter_none(s.skip(i), pred);
        assert(insert_desc(s, x, key).filter(pred) =~= s.filter(pred).push(x));
    } else {
        assert(seq![x].filter(pred) =~= Seq::<T>::empty());
        assert(insert_desc(s, x, key).filter(pred) =~= s.filter(pred));
    }
}

/// The sort is sorted.
pub proof fn lemma_sort_desc_sorted<T>(s: Seq<T>, key: spec_fn(T) -> int)
    ensures
        sorted_desc(sort_desc(s, key), key),
    decreases s.len(),
{
    if s.len() > 0 {
        lemma_sort_desc_sorted(s.drop_last(), key);
        lemma_insert_desc_sorted(sort_desc(s.drop_last(), key), s.last(), key);
    }
}

/// The sort is stable: for every key value, the elements holding it keep
/// exactly their input order.
pub proof fn lemma_sort_desc_stable<T>(s: Seq<T>, key: spec_fn(T) -> int, v: int)
    ensures
        sort_desc(s, key).filter(key_is(key, v)) == s.filter(key_is(key, v)),
    decreases s.len(),
{
    reveal_with_fuel(Seq::filter, 2);
    let pred = key_is(key, v);
    if s.len() == 0 {
        assert(sort_desc(s, key).filter(pred) =~= s.filter(pred));
    } else {
        lemma_sort_desc_stable(s.drop_last(), key, v);
        lemma_sort_desc_sorted(s.drop_last(), key);
        lemma_insert_desc_filter(sort_desc(s.drop_last(), key), s.last(), key, v);
    }
}

/// Sorting changes no length.
pub proof fn lemma_sort_desc_len<T>(s: Seq<T>, key: spec_fn(T) -> int)
    ensures
        sort_desc(s, key).len() == s.len(),
    decreases s.len(),
{
    if s.len() > 0 {
        lemma_sort_desc_len(s.drop_last(), key);
        lemma_insert_desc_split(sort_desc(s.drop_last(), key), s.last(), key);
        lemma_insert_point(sort_desc(s.drop_last(), key), s.last(), key);
    }
}

/// Sorting keeps exactly the input's elements, multiplicity included.
pub proof fn lemma_sort_desc_multiset<T>(s: Seq<T>, key: spec_fn(T) -> int)
    ensures
        sort_desc(s, key).to_multiset() == s.to_multiset(),
    decreases s.len(),
{
    broadcast use vstd::seq_lib::group_to_multiset_ensures;

    if s.len() > 0 {
        let sorted_prefix = sort_desc(s.drop_last(), key);
        lemma_sort_desc_multiset(s.drop_last(), key);
        lemma_insert_desc_split(sorted_prefix, s.last(), key);
        let i = insert_point(sorted_prefix, s.last(), key);
        lemma_insert_point(sorted_prefix, s.last(), key);
        assert(sort_desc(s, key) =~= sorted_prefix.insert(i, s.last()));
        vstd::seq_lib::to_multiset_insert(sorted_prefix, i, s.last());
        assert(s =~= s.drop_last().push(s.last()));
        vstd::seq_lib::to_multiset_build(s.drop_last(), s.last());
    }
}

} // verus!
