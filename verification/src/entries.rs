//! Named entries: a list of `(name, value)` pairs in which no name occurs twice, the
//! form in which the configuration keeps its named fan curves and profiles.
use vstd::prelude::*;

verus! {

/// No name occurs twice.
pub open spec fn keys_unique<V>(e: Seq<(String, V)>) -> bool {
    forall|i: int, j: int| 0 <= i < j < e.len() ==> e[i].0@ != e[j].0@
}

/// The value stored under `k`.
pub open spec fn lookup<V>(e: Seq<(String, V)>, k: Seq<char>) -> Option<V>
    decreases e.len(),
{
    if e.len() == 0 {
        None
    } else if e[0].0@ == k {
        Some(e[0].1)
    } else {
        lookup(e.drop_first(), k)
    }
}

/// The names, in order.
pub open spec fn names<V>(e: Seq<(String, V)>) -> Seq<Seq<char>> {
    e.map_values(|p: (String, V)| p.0@)
}

pub proof fn lemma_lookup_index<V>(e: Seq<(String, V)>, k: Seq<char>)
    ensures
        lookup(e, k) is Some <==> exists|i: int| 0 <= i < e.len() && e[i].0@ == k,
        forall|i: int|
            0 <= i < e.len() && e[i].0@ == k && (forall|j: int| 0 <= j < i ==> e[j].0@ != k)
                ==> lookup(e, k) == Some(e[i].1),
    decreases e.len(),
{
    if e.len() > 0 {
        lemma_lookup_index(e.drop_first(), k);
        if e[0].0@ != k {
            assert forall|i: int|
                0 <= i < e.len() && e[i].0@ == k implies 0 <= i - 1 < e.drop_first().len()
                && e.drop_first()[i - 1].0@ == k by {}
            assert forall|i: int| 0 <= i < e.drop_first().len() && e.drop_first()[i].0@ == k implies
                0 <= i + 1 < e.len() && e[i + 1].0@ == k by {}
            assert forall|i: int|
                0 <= i < e.len() && e[i].0@ == k && (forall|j: int| 0 <= j < i ==> e[j].0@ != k)
                    implies lookup(e, k) == Some(e[i].1) by {
                assert(i > 0);
                assert(e.drop_first()[i - 1] == e[i]);
                assert forall|j: int| 0 <= j < i - 1 implies e.drop_first()[j].0@ != k by {
                    assert(e.drop_first()[j] == e[j + 1]);
                }
            }
        }
    }
}

/// With unique names, the value under the name at index `i` is the one stored there.
pub proof fn lemma_lookup_unique<V>(e: Seq<(String, V)>, i: int)
    requires
        keys_unique(e),
        0 <= i < e.len(),
    ensures
        lookup(e, e[i].0@) == Some(e[i].1),
{
    lemma_lookup_index(e, e[i].0@);
}

/// The index of the entry named `k`, if any.
pub fn find_key<V>(e: &Vec<(String, V)>, k: &String) -> (r: Option<usize>)
    ensures
        match r {
            Some(i) => i < e@.len() && e@[i as int].0@ == k@ && (forall|j: int|
                0 <= j < i ==> e@[j].0@ != k@) && lookup(e@, k@) == Some(e@[i as int].1),
            None => (forall|j: int| 0 <= j < e@.len() ==> e@[j].0@ != k@) && lookup(e@, k@) is None,
        },
{
    let mut i: usize = 0;
    while i < e.len()
        invariant
            i <= e@.len(),
            forall|j: int| 0 <= j < i ==> e@[j].0@ != k@,
        decreases e@.len() - i,
    {
        if e[i].0 == *k {
            proof {
                lemma_lookup_index(e@, k@);
            }
            return Some(i);
        }
        i = i + 1;
    }
    proof {
        lemma_lookup_index(e@, k@);
    }
    None
}

/// Replacing the value of an entry keeps the names unique and changes only the value
/// stored under that name.
pub proof fn lemma_lookup_set<V>(e: Seq<(String, V)>, i: int, n: String, v: V, k: Seq<char>)
    requires
        keys_unique(e),
        0 <= i < e.len(),
        n@ == e[i].0@,
    ensures
        keys_unique(e.update(i, (n, v))),
        lookup(e.update(i, (n, v)), k) == (if k == e[i].0@ {
            Some(v)
        } else {
            lookup(e, k)
        }),
{
    let e2 = e.update(i, (n, v));
    assert(keys_unique(e2));
    lemma_lookup_index(e, k);
    lemma_lookup_index(e2, k);
    if k == e[i].0@ {
        lemma_lookup_unique(e2, i);
    } else {
        if lookup(e, k) is Some {
            let j = choose|j: int| 0 <= j < e.len() && e[j].0@ == k;
            lemma_lookup_unique(e, j);
            lemma_lookup_unique(e2, j);
        }
    }
}

/// Adding an entry under a new name keeps the names unique and stores the value under
/// that name, leaving the others.
pub proof fn lemma_lookup_push<V>(e: Seq<(String, V)>, name: String, v: V, k: Seq<char>)
    requires
        keys_unique(e),
        lookup(e, name@) is None,
    ensures
        keys_unique(e.push((name, v))),
        lookup(e.push((name, v)), k) == (if k == name@ {
            Some(v)
        } else {
            lookup(e, k)
        }),
{
    let e2 = e.push((name, v));
    lemma_lookup_index(e, name@);
    assert(keys_unique(e2));
    lemma_lookup_index(e, k);
    lemma_lookup_index(e2, k);
    if k == name@ {
        lemma_lookup_unique(e2, e.len() as int);
    } else if lookup(e, k) is Some {
        let j = choose|j: int| 0 <= j < e.len() && e[j].0@ == k;
        lemma_lookup_unique(e, j);
        lemma_lookup_unique(e2, j);
    }
}

/// Stores `v` under `k`, as a map's insertion does: the entry named `k` gets the value
/// where there is one, else the entry is added at the end. The names stay unique.
pub fn insert_entry<V>(e: &mut Vec<(String, V)>, k: String, v: V)
    requires
        keys_unique(old(e)@),
    ensures
        keys_unique(final(e)@),
        forall|q: Seq<char>| #[trigger] lookup(final(e)@, q) == (if q == k@ {
            Some(v)
        } else {
            lookup(old(e)@, q)
        }),
        names(final(e)@) == (if lookup(old(e)@, k@) is Some {
            names(old(e)@)
        } else {
            names(old(e)@).push(k@)
        }),
{
    match find_key(e, &k) {
        Some(i) => {
            let ghost before = e@;
            let ghost kv = k@;
            e.set(i, (k, v));
            proof {
                assert forall|q: Seq<char>| #[trigger] lookup(e@, q) == (if q == kv {
                    Some(v)
                } else {
                    lookup(before, q)
                }) by {
                    lemma_lookup_set(before, i as int, e@[i as int].0, v, q);
                    assert(e@ == before.update(i as int, e@[i as int]));
                }
                lemma_lookup_set(before, i as int, e@[i as int].0, v, kv);
                assert(names(e@) =~= names(before));
            }
        },
        None => {
            let ghost before = e@;
            let ghost kv = k@;
            let ghost ks = k;
            e.push((k, v));
            proof {
                assert forall|q: Seq<char>| #[trigger] lookup(e@, q) == (if q == kv {
                    Some(v)
                } else {
                    lookup(before, q)
                }) by {
                    lemma_lookup_push(before, ks, v, q);
                }
                lemma_lookup_push(before, ks, v, kv);
                assert(names(e@) =~= names(before).push(kv));
            }
        },
    }
}

} // verus!
