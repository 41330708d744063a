//! Association lists keyed by text: the first entry with a key is the one
//! that counts, and setting a key changes that entry or appends one.
use vstd::prelude::*;

verus! {

/// The value of the first entry with key `k`.
pub open spec fn assoc_lookup<V>(es: Seq<(Seq<char>, V)>, k: Seq<char>) -> Option<V>
    decreases es.len(),
{
    if es.len() == 0 {
        None
    } else if es[0].0 == k {
        Some(es[0].1)
    } else {
        assoc_lookup(es.drop_first(), k)
    }
}

/// `es` with the first entry for `k` set to `v`, or `(k, v)` appended.
pub open spec fn assoc_set<V>(es: Seq<(Seq<char>, V)>, k: Seq<char>, v: V) -> Seq<(Seq<char>, V)>
    decreases es.len(),
{
    if es.len() == 0 {
        seq![(k, v)]
    } else if es[0].0 == k {
        es.update(0, (k, v))
    } else {
        seq![es[0]] + assoc_set(es.drop_first(), k, v)
    }
}

/// Looking up after setting: the new value for the key set, the old value
/// for every other key.
pub proof fn lemma_assoc_set_lookup<V>(es: Seq<(Seq<char>, V)>, k: Seq<char>, v: V, q: Seq<char>)
    ensures
        assoc_lookup(assoc_set(es, k, v), q) == if q == k {
            Some(v)
        } else {
            assoc_lookup(es, q)
        },
    decreases es.len(),
{
    let n = assoc_set(es, k, v);
    if es.len() == 0 {
        assert(n[0] == (k, v));
        assert(n.drop_first() =~= Seq::<(Seq<char>, V)>::empty());
        assert(assoc_lookup(n.drop_first(), q) is None);
        assert(assoc_lookup(es, q) is None);
    } else if es[0].0 == k {
        assert(n[0] == (k, v));
        assert(n.drop_first() =~= es.drop_first());
        assert(assoc_lookup(n, q) == if q == k {
            Some(v)
        } else {
            assoc_lookup(es.drop_first(), q)
        });
    } else {
        assert(n[0] == es[0]);
        assert(n.drop_first() =~= assoc_set(es.drop_first(), k, v));
        lemma_assoc_set_lookup(es.drop_first(), k, v, q);
    }
}

/// When no entry before `i` has key `k` and entry `i` (if any) does, setting
/// `k` changes entry `i`, or appends when `i` is the length.
pub proof fn lemma_assoc_set_at<V>(es: Seq<(Seq<char>, V)>, i: int, k: Seq<char>, v: V)
    requires
        0 <= i <= es.len(),
        forall|j: int| 0 <= j < i ==> es[j].0 != k,
        i < es.len() ==> es[i].0 == k,
    ensures
        assoc_set(es, k, v) == if i < es.len() {
            es.update(i, (k, v))
        } else {
            es.push((k, v))
        },
    decreases i,
{
    if i > 0 {
        lemma_assoc_set_at(es.drop_first(), i - 1, k, v);
        if i < es.len() {
            assert(seq![es[0]] + es.drop_first().update(i - 1, (k, v)) =~= es.update(i, (k, v)));
        } else {
            assert(seq![es[0]] + es.drop_first().push((k, v)) =~= es.push((k, v)));
        }
    } else if es.len() == 0 {
        assert(seq![(k, v)] =~= es.push((k, v)));
    }
}

/// When no entry before `i` has key `k`, the lookup of `k` is the lookup in
/// the entries from `i` on.
pub proof fn lemma_assoc_lookup_skip<V>(es: Seq<(Seq<char>, V)>, i: int, k: Seq<char>)
    requires
        0 <= i <= es.len(),
        forall|j: int| 0 <= j < i ==> es[j].0 != k,
    ensures
        assoc_lookup(es, k) == assoc_lookup(es.skip(i), k),
    decreases i,
{
    if i > 0 {
        lemma_assoc_lookup_skip(es.drop_first(), i - 1, k);
        assert(es.drop_first().skip(i - 1) =~= es.skip(i));
    } else {
        assert(es.skip(0) =~= es);
    }
}

} // verus!
