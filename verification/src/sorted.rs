//! Lists of texts kept in order and without repeats: how the library holds a set of
//! texts whose order must be the same on every run.
use crate::text::{lemma_lex_irreflexive, lemma_lex_total, lemma_lex_transitive, lex_lt, rank, Rank};
use vstd::prelude::*;

verus! {

/// Whether the texts of `v` ascend strictly in the order of `lex_lt`. Such a list
/// holds no text twice.
pub open spec fn is_ascending(v: Seq<Seq<char>>) -> bool {
    forall|i: int, j: int| 0 <= i < j < v.len() ==> lex_lt(#[trigger] v[i], #[trigger] v[j])
}

/// The texts of `s` in ascending order, each once.
pub open spec fn ascending(s: Set<Seq<char>>) -> Seq<Seq<char>> {
    choose|v: Seq<Seq<char>>| is_ascending(v) && v.to_set() == s
}

/// Two ascending lists with the same texts are the same list.
pub proof fn lemma_ascending_unique(a: Seq<Seq<char>>, b: Seq<Seq<char>>)
    requires
        is_ascending(a),
        is_ascending(b),
        a.to_set() == b.to_set(),
    ensures
        a == b,
    decreases a.len(),
{
    if a.len() == 0 {
        if b.len() > 0 {
            assert(b.to_set().contains(b[0]));
            assert(a.to_set().contains(b[0]));
        }
        assert(a =~= b);
    } else {
        if b.len() == 0 {
            assert(a.to_set().contains(a[0]));
            assert(b.to_set().contains(a[0]));
        }
        let x = a.last();
        let y = b.last();
        // The last text of each list is its greatest, so the two are the same.
        assert(a.to_set().contains(x));
        assert(b.to_set().contains(x));
        let j = choose|j: int| 0 <= j < b.len() && b[j] == x;
        assert(b.to_set().contains(y));
        assert(a.to_set().contains(y));
        let i = choose|i: int| 0 <= i < a.len() && a[i] == y;
        lemma_lex_total(x, y);
        lemma_lex_irreflexive(x);
        if j < b.len() - 1 {
            assert(lex_lt(b[j], b[b.len() - 1]));
        }
        if i < a.len() - 1 {
            assert(lex_lt(a[i], a[a.len() - 1]));
        }
        assert(x == y);
        let a0 = a.drop_last();
        let b0 = b.drop_last();
        assert(is_ascending(a0)) by {
            assert forall|p: int, q: int| 0 <= p < q < a0.len() implies lex_lt(
                #[trigger] a0[p],
                #[trigger] a0[q],
            ) by {
                assert(a0[p] == a[p] && a0[q] == a[q]);
            }
        }
        assert(is_ascending(b0)) by {
            assert forall|p: int, q: int| 0 <= p < q < b0.len() implies lex_lt(
                #[trigger] b0[p],
                #[trigger] b0[q],
            ) by {
                assert(b0[p] == b[p] && b0[q] == b[q]);
            }
        }
        assert(a0.to_set() =~= b0.to_set()) by {
            assert forall|t: Seq<char>| a0.to_set().contains(t) <==> b0.to_set().contains(t) by {
                if a0.to_set().contains(t) {
                    let p = choose|p: int| 0 <= p < a0.len() && a0[p] == t;
                    assert(a[p] == t);
                    assert(lex_lt(a[p], a[a.len() - 1]));
                    assert(a.to_set().contains(t));
                    assert(b.to_set().contains(t));
                    let q = choose|q: int| 0 <= q < b.len() && b[q] == t;
                    assert(q < b.len() - 1);
                    assert(b0[q] == t);
                }
                if b0.to_set().contains(t) {
                    let q = choose|q: int| 0 <= q < b0.len() && b0[q] == t;
                    assert(b[q] == t);
                    assert(lex_lt(b[q], b[b.len() - 1]));
                    assert(b.to_set().contains(t));
                    assert(a.to_set().contains(t));
                    let p = choose|p: int| 0 <= p < a.len() && a[p] == t;
                    assert(p < a.len() - 1);
                    assert(a0[p] == t);
                }
            }
        }
        lemma_ascending_unique(a0, b0);
        assert(a =~= a0.push(x));
        assert(b =~= b0.push(y));
    }
}

/// An ascending list is the ascending list of its texts.
pub proof fn lemma_ascending_of_set(v: Seq<Seq<char>>)
    requires
        is_ascending(v),
    ensures
        v == ascending(v.to_set()),
{
    let want = ascending(v.to_set());
    assert(is_ascending(want) && want.to_set() == v.to_set());
    lemma_ascending_unique(v, want);
}

/// Adding a text to a list adds it to the set of its texts.
pub proof fn lemma_push_to_set(v: Seq<Seq<char>>, x: Seq<char>)
    ensures
        v.push(x).to_set() == v.to_set().insert(x),
{
    let w = v.push(x);
    assert(w.to_set() =~= v.to_set().insert(x)) by {
        assert forall|u: Seq<char>| w.to_set().contains(u) <==> v.to_set().insert(x).contains(
            u,
        ) by {
            if w.to_set().contains(u) {
                let k = choose|k: int| 0 <= k < w.len() && w[k] == u;
                if k < v.len() {
                    assert(v[k] == u);
                }
            }
            if v.to_set().contains(u) {
                let k = choose|k: int| 0 <= k < v.len() && v[k] == u;
                assert(w[k] == u);
            }
            if u == x {
                assert(w[v.len() as int] == u);
            }
        }
    }
}

/// Puts `s` into the ascending list `v`, at its place in the order, unless `v`
/// holds it already.
pub(crate) fn insert_text(v: &mut Vec<String>, s: String)
    requires
        is_ascending(old(v).deep_view()),
    ensures
        is_ascending(final(v).deep_view()),
        final(v).deep_view().to_set() == old(v).deep_view().to_set().insert(s@),
{
    let ghost before = v.deep_view();
    let mut at: usize = 0;
    let mut found = false;
    let mut stop = false;
    while at < v.len() && !stop
        invariant
            at <= v.len(),
            *v == *old(v),
            before == v.deep_view(),
            forall|i: int| 0 <= i < at ==> lex_lt(#[trigger] before[i], s@),
            found ==> stop,
            stop ==> at < v.len(),
            stop && found ==> before[at as int] == s@,
            stop && !found ==> lex_lt(s@, before[at as int]),
        decreases v.len() - at + (if stop { 0int } else { 1int }),
    {
        assert(before[at as int] == v@[at as int]@);
        match rank(v[at].as_str(), s.as_str()) {
            Rank::Before => {
                at += 1;
            },
            Rank::Same => {
                found = true;
                stop = true;
            },
            Rank::After => {
                stop = true;
            },
        }
    }
    if found {
        assert(before.to_set().contains(s@));
        assert(before.to_set().insert(s@) =~= before.to_set());
        return ;
    }
    v.insert(at, s);
    proof {
        let after = v.deep_view();
        assert(after =~= before.insert(at as int, s@));
        assert forall|i: int, j: int| 0 <= i < j < after.len() implies lex_lt(
            #[trigger] after[i],
            #[trigger] after[j],
        ) by {
            if j < at {
                assert(after[i] == before[i] && after[j] == before[j]);
            } else if j == at {
                assert(after[i] == before[i]);
            } else if i == at {
                assert(after[j] == before[j - 1]);
                if j - 1 > at {
                    assert(lex_lt(before[at as int], before[j - 1]));
                    lemma_lex_transitive(s@, before[at as int], before[j - 1]);
                }
            } else if i < at {
                assert(after[i] == before[i] && after[j] == before[j - 1]);
                if j - 1 > at {
                    assert(lex_lt(before[at as int], before[j - 1]));
                }
                lemma_lex_transitive(before[i], s@, before[at as int]);
                if j - 1 > at {
                    lemma_lex_transitive(before[i], before[at as int], before[j - 1]);
                }
            } else {
                assert(after[i] == before[i - 1] && after[j] == before[j - 1]);
            }
        }
        assert(after.to_set() =~= before.to_set().insert(s@)) by {
            assert forall|t: Seq<char>| after.to_set().contains(t) <==> before.to_set().insert(
                s@,
            ).contains(t) by {
                if after.to_set().contains(t) {
                    let k = choose|k: int| 0 <= k < after.len() && after[k] == t;
                    if k < at {
                        assert(before[k] == t);
                    } else if k > at {
                        assert(before[k - 1] == t);
                    }
                }
                if before.to_set().contains(t) {
                    let k = choose|k: int| 0 <= k < before.len() && before[k] == t;
                    if k < at {
                        assert(after[k] == t);
                    } else {
                        assert(after[k + 1] == t);
                    }
                }
                if t == s@ {
                    assert(after[at as int] == t);
                }
            }
        }
    }
}

/// The names of the entries of `v`, in order.
pub open spec fn keys_of(v: Seq<(Seq<char>, Seq<char>)>) -> Seq<Seq<char>> {
    v.map_values(|e: (Seq<char>, Seq<char>)| e.0)
}

/// Whether `v` lists the entries of `m`, each once, in ascending order of the names.
pub open spec fn lists(v: Seq<(Seq<char>, Seq<char>)>, m: Map<Seq<char>, Seq<char>>) -> bool {
    &&& is_ascending(keys_of(v))
    &&& forall|i: int| 0 <= i < v.len() ==> m.contains_pair((#[trigger] v[i]).0, v[i].1)
    &&& forall|k: Seq<char>| #[trigger]
        m.dom().contains(k) ==> exists|i: int| 0 <= i < v.len() && (#[trigger] v[i]).0 == k
}

/// The entries of `m` in ascending order of the names.
pub open spec fn listing(m: Map<Seq<char>, Seq<char>>) -> Seq<(Seq<char>, Seq<char>)> {
    choose|v: Seq<(Seq<char>, Seq<char>)>| lists(v, m)
}

/// A map has one listing only.
pub proof fn lemma_listing_unique(
    a: Seq<(Seq<char>, Seq<char>)>,
    b: Seq<(Seq<char>, Seq<char>)>,
    m: Map<Seq<char>, Seq<char>>,
)
    requires
        lists(a, m),
        lists(b, m),
    ensures
        a == b,
{
    let ka = keys_of(a);
    let kb = keys_of(b);
    assert(ka.to_set() =~= kb.to_set()) by {
        assert forall|k: Seq<char>| ka.to_set().contains(k) <==> kb.to_set().contains(k) by {
            if ka.to_set().contains(k) {
                let i = choose|i: int| 0 <= i < ka.len() && ka[i] == k;
                assert(m.contains_pair(a[i].0, a[i].1));
                assert(m.dom().contains(k));
                let j = choose|j: int| 0 <= j < b.len() && (#[trigger] b[j]).0 == k;
                assert(kb[j] == k);
            }
            if kb.to_set().contains(k) {
                let j = choose|j: int| 0 <= j < kb.len() && kb[j] == k;
                assert(m.contains_pair(b[j].0, b[j].1));
                assert(m.dom().contains(k));
                let i = choose|i: int| 0 <= i < a.len() && (#[trigger] a[i]).0 == k;
                assert(ka[i] == k);
            }
        }
    }
    lemma_ascending_unique(ka, kb);
    assert(a =~= b) by {
        assert(a.len() == ka.len() && b.len() == kb.len());
        assert forall|i: int| 0 <= i < a.len() implies a[i] == b[i] by {
            assert(ka[i] == a[i].0 && kb[i] == b[i].0);
            assert(m.contains_pair(a[i].0, a[i].1));
            assert(m.contains_pair(b[i].0, b[i].1));
        }
    }
}

/// Gives the name `key` the value `value` in the listing `v`: in place of the value
/// that the name had, or as a new entry at its place in the order.
pub(crate) fn put_entry(v: &mut Vec<(String, String)>, key: String, value: String)
    requires
        is_ascending(keys_of(old(v).deep_view())),
    ensures
        is_ascending(keys_of(final(v).deep_view())),
        forall|m: Map<Seq<char>, Seq<char>>| #[trigger]
            lists(old(v).deep_view(), m) ==> lists(final(v).deep_view(), m.insert(key@, value@)),
{
    let ghost before = v.deep_view();
    let ghost keys = keys_of(before);
    let mut at: usize = 0;
    let mut found = false;
    let mut stop = false;
    while at < v.len() && !stop
        invariant
            at <= v.len(),
            *v == *old(v),
            before == v.deep_view(),
            keys == keys_of(before),
            forall|i: int| 0 <= i < at ==> lex_lt(#[trigger] keys[i], key@),
            found ==> stop,
            stop ==> at < v.len(),
            stop && found ==> keys[at as int] == key@,
            stop && !found ==> lex_lt(key@, keys[at as int]),
        decreases v.len() - at + (if stop { 0int } else { 1int }),
    {
        assert(before[at as int] == v@[at as int].deep_view());
        assert(keys[at as int] == v@[at as int].0@);
        match rank(v[at].0.as_str(), key.as_str()) {
            Rank::Before => {
                at += 1;
            },
            Rank::Same => {
                found = true;
                stop = true;
            },
            Rank::After => {
                stop = true;
            },
        }
    }
    if found {
        v[at] = (key, value);
        proof {
            let after = v.deep_view();
            assert(after =~= before.update(at as int, (key@, value@)));
            assert(keys_of(after) =~= keys);
            assert forall|m: Map<Seq<char>, Seq<char>>| #[trigger]
                lists(before, m) implies lists(after, m.insert(key@, value@)) by {
                let m2 = m.insert(key@, value@);
                assert forall|i: int| 0 <= i < after.len() implies m2.contains_pair(
                    (#[trigger] after[i]).0,
                    after[i].1,
                ) by {
                    if i != at {
                        assert(after[i] == before[i]);
                        assert(m.contains_pair(before[i].0, before[i].1));
                        assert(keys[i] == before[i].0);
                        lemma_lex_irreflexive(key@);
                        if i < at {
                            assert(lex_lt(keys[i], keys[at as int]));
                        } else {
                            assert(lex_lt(keys[at as int], keys[i]));
                        }
                    }
                }
                assert forall|k: Seq<char>| #[trigger] m2.dom().contains(k) implies exists|i: int|
                    0 <= i < after.len() && (#[trigger] after[i]).0 == k by {
                    if k == key@ {
                        assert(after[at as int].0 == k);
                    } else {
                        assert(m.dom().contains(k));
                        let i = choose|i: int|
                            0 <= i < before.len() && (#[trigger] before[i]).0 == k;
                        assert(keys[i] == k);
                        assert(i != at);
                        assert(after[i].0 == k);
                    }
                }
            }
        }
        return ;
    }
    v.insert(at, (key, value));
    proof {
        let after = v.deep_view();
        assert(after =~= before.insert(at as int, (key@, value@)));
        let keys2 = keys_of(after);
        assert(keys2 =~= keys.insert(at as int, key@));
        assert forall|i: int, j: int| 0 <= i < j < keys2.len() implies lex_lt(
            #[trigger] keys2[i],
            #[trigger] keys2[j],
        ) by {
            if j < at {
                assert(keys2[i] == keys[i] && keys2[j] == keys[j]);
            } else if j == at {
                assert(keys2[i] == keys[i]);
            } else if i == at {
                assert(keys2[j] == keys[j - 1]);
                if j - 1 > at {
                    assert(lex_lt(keys[at as int], keys[j - 1]));
                    lemma_lex_transitive(key@, keys[at as int], keys[j - 1]);
                }
            } else if i < at {
                assert(keys2[i] == keys[i] && keys2[j] == keys[j - 1]);
                if j - 1 > at {
                    assert(lex_lt(keys[at as int], keys[j - 1]));
                }
                lemma_lex_transitive(keys[i], key@, keys[at as int]);
                if j - 1 > at {
                    lemma_lex_transitive(keys[i], keys[at as int], keys[j - 1]);
                }
            } else {
                assert(keys2[i] == keys[i - 1] && keys2[j] == keys[j - 1]);
            }
        }
        assert forall|m: Map<Seq<char>, Seq<char>>| #[trigger]
            lists(before, m) implies lists(after, m.insert(key@, value@)) by {
            let m2 = m.insert(key@, value@);
            assert forall|i: int| 0 <= i < after.len() implies m2.contains_pair(
                (#[trigger] after[i]).0,
                after[i].1,
            ) by {
                lemma_lex_irreflexive(key@);
                if i < at {
                    assert(after[i] == before[i]);
                    assert(m.contains_pair(before[i].0, before[i].1));
                    assert(keys[i] == before[i].0);
                } else if i > at {
                    assert(after[i] == before[i - 1]);
                    assert(m.contains_pair(before[i - 1].0, before[i - 1].1));
                    assert(keys[i - 1] == before[i - 1].0);
                    assert(keys2[i] == keys[i - 1]);
                    assert(lex_lt(keys2[at as int], keys2[i]));
                }
            }
            assert forall|k: Seq<char>| #[trigger] m2.dom().contains(k) implies exists|i: int|
                0 <= i < after.len() && (#[trigger] after[i]).0 == k by {
                if k == key@ {
                    assert(after[at as int].0 == k);
                } else {
                    assert(m.dom().contains(k));
                    let i = choose|i: int| 0 <= i < before.len() && (#[trigger] before[i]).0 == k;
                    if i < at {
                        assert(after[i].0 == k);
                    } else {
                        assert(after[i + 1].0 == k);
                    }
                }
            }
        }
    }
}

} // verus!
