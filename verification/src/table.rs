//! Insertion-ordered association lists keyed by strings.
//!
//! The registry and the entity graph both need a mapping whose iteration
//! order is the insertion order, so that materialization is reproducible;
//! a vector of pairs gives exactly that, with last-write-wins insertion.

use vstd::prelude::*;

use crate::text::str_eq;

verus! {

/// The index of the first entry at or after `i` whose key is `k`, or -1.
pub open spec fn key_idx_from<V>(s: Seq<(Seq<char>, V)>, k: Seq<char>, i: int) -> int
    decreases s.len() - i,
{
    if i < 0 || i >= s.len() {
        -1
    } else if s[i].0 == k {
        i
    } else {
        key_idx_from(s, k, i + 1)
    }
}

/// The index of the first entry with this key, or -1 if there is none.
pub open spec fn key_idx<V>(s: Seq<(Seq<char>, V)>, k: Seq<char>) -> int {
    key_idx_from(s, k, 0)
}

pub open spec fn has_key<V>(s: Seq<(Seq<char>, V)>, k: Seq<char>) -> bool {
    key_idx(s, k) >= 0
}

/// The value stored under this key (meaningful only when the key is there).
pub open spec fn key_value<V>(s: Seq<(Seq<char>, V)>, k: Seq<char>) -> V {
    s[key_idx(s, k)].1
}

/// Last-write-wins insertion: an existing entry is replaced in place, a new
/// key is appended at the end.
pub open spec fn put<V>(s: Seq<(Seq<char>, V)>, k: Seq<char>, v: V) -> Seq<(Seq<char>, V)> {
    if has_key(s, k) {
        s.update(key_idx(s, k), (k, v))
    } else {
        s.push((k, v))
    }
}

proof fn lemma_key_idx_from<V>(s: Seq<(Seq<char>, V)>, k: Seq<char>, i: int)
    requires
        0 <= i <= s.len(),
    ensures
        key_idx_from(s, k, i) == -1 || i <= key_idx_from(s, k, i) < s.len(),
        key_idx_from(s, k, i) == -1 <==> (forall|j: int|
            i <= j < s.len() ==> (#[trigger] s[j]).0 != k),
        key_idx_from(s, k, i) >= 0 ==> i <= key_idx_from(s, k, i) < s.len() && s[key_idx_from(
            s,
            k,
            i,
        )].0 == k && (forall|j: int| i <= j < key_idx_from(s, k, i) ==> (#[trigger] s[j]).0 != k),
    decreases s.len() - i,
{
    if i < s.len() && s[i].0 != k {
        lemma_key_idx_from(s, k, i + 1);
    }
}

/// What `key_idx` finds is the first occurrence of the key, and -1 means
/// the key is absent.
pub proof fn lemma_key_idx<V>(s: Seq<(Seq<char>, V)>, k: Seq<char>)
    ensures
        key_idx(s, k) == -1 || 0 <= key_idx(s, k) < s.len(),
        key_idx(s, k) == -1 <==> (forall|j: int| 0 <= j < s.len() ==> (#[trigger] s[j]).0 != k),
        key_idx(s, k) >= 0 ==> key_idx(s, k) < s.len() && s[key_idx(s, k)].0 == k && (forall|
            j: int,
        |
            0 <= j < key_idx(s, k) ==> (#[trigger] s[j]).0 != k),
{
    lemma_key_idx_from(s, k, 0);
}

/// Inserting under a key stores exactly that value there, and touches no
/// other key: every other key keeps its position and its value.
pub proof fn lemma_put_get<V>(s: Seq<(Seq<char>, V)>, k: Seq<char>, v: V)
    ensures
        has_key(put(s, k, v), k),
        key_value(put(s, k, v), k) == v,
        forall|k2: Seq<char>|
            k2 != k ==> #[trigger] key_idx(put(s, k, v), k2) == key_idx(s, k2) && (has_key(s, k2)
                ==> key_value(put(s, k, v), k2) == key_value(s, k2)),
{
    lemma_key_idx(s, k);
    let t = put(s, k, v);
    let ik = key_idx(s, k);
    if ik >= 0 {
        assert(t == s.update(ik, (k, v)));
        assert(t[ik] == (k, v));
        assert(forall|j: int| 0 <= j < t.len() && j != ik ==> #[trigger] t[j] == s[j]);
    } else {
        assert(t == s.push((k, v)));
        assert(t[s.len() as int] == (k, v));
        assert(forall|j: int| 0 <= j < s.len() ==> #[trigger] t[j] == s[j]);
    }
    lemma_key_idx(t, k);
    let jk = key_idx(t, k);
    if ik >= 0 {
        if jk != ik {
            if jk == -1 || jk > ik {
                assert(t[ik].0 == k);
                assert(false);
            } else {
                assert(t[jk] == s[jk]);
                assert(s[jk].0 == k);
                assert(false);
            }
        }
    } else {
        if jk != s.len() {
            if jk == -1 || jk > s.len() {
                assert(t[s.len() as int].0 == k);
                assert(false);
            } else if jk < s.len() {
                assert(t[jk] == s[jk]);
                assert(s[jk].0 == k);
                assert(false);
            }
        }
    }
    assert forall|k2: Seq<char>| k2 != k implies #[trigger] key_idx(t, k2) == key_idx(s, k2) && (
    has_key(s, k2) ==> key_value(t, k2) == key_value(s, k2)) by {
        lemma_key_idx(s, k2);
        lemma_key_idx(t, k2);
        let i2 = key_idx(s, k2);
        let j2 = key_idx(t, k2);
        if i2 == -1 {
            if j2 >= 0 {
                assert(t[j2].0 == k2);
                if ik >= 0 && j2 == ik {
                    assert(t[j2].0 == k);
                    assert(false);
                } else if j2 < s.len() {
                    assert(t[j2] == s[j2]);
                    assert(false);
                } else {
                    assert(t[j2] == (k, v));
                    assert(false);
                }
            }
        } else {
            assert(s[i2].0 == k2);
            assert(ik >= 0 ==> s[ik].0 == k);
            assert(ik >= 0 ==> i2 != ik);
            assert(t[i2] == s[i2]);
            if j2 == -1 {
                assert(t[i2].0 == k2);
                assert(false);
            } else if j2 < i2 {
                assert(t[j2].0 == k2);
                if ik >= 0 && j2 == ik {
                    assert(false);
                } else {
                    assert(t[j2] == s[j2]);
                    assert(s[j2].0 == k2);
                    assert(false);
                }
            } else if j2 > i2 {
                assert(t[i2].0 == k2);
                assert(false);
            } else {
                assert(t[j2].1 == s[i2].1);
            }
        }
    }
}

/// Looks a key up, returning a reference to its value.
pub fn table_get<'a, V: DeepView>(t: &'a Vec<(String, V)>, k: &str) -> (r: Option<&'a V>)
    ensures
        r is Some <==> has_key(t.deep_view(), k@),
        r is Some ==> r->0.deep_view() == key_value(t.deep_view(), k@),
{
    let ghost s = t.deep_view();
    let mut i: usize = 0;
    while i < t.len()
        invariant
            i <= t.len(),
            s == t.deep_view(),
            s.len() == t.len(),
            forall|j: int| 0 <= j < i ==> (#[trigger] s[j]).0 != k@,
        decreases t.len() - i,
    {
        if str_eq(t[i].0.as_str(), k) {
            proof {
                assert(s[i as int].0 == k@);
                lemma_key_idx(s, k@);
            }
            return Some(&t[i].1);
        }
        proof {
            assert(s[i as int].0 != k@);
        }
        i = i + 1;
    }
    proof {
        lemma_key_idx(s, k@);
    }
    None
}

/// Whether a key is present.
pub fn table_has<V: DeepView>(t: &Vec<(String, V)>, k: &str) -> (r: bool)
    ensures
        r == has_key(t.deep_view(), k@),
{
    let r = table_get(t, k);
    r.is_some()
}

/// Inserts last-write-wins: replaces the value of an existing key in place,
/// appends a new key at the end.
pub fn table_put<V: DeepView>(t: &mut Vec<(String, V)>, k: String, v: V)
    ensures
        final(t).deep_view() == put(old(t).deep_view(), k@, v.deep_view()),
{
    let ghost s = t.deep_view();
    let mut i: usize = 0;
    while i < t.len()
        invariant
            i <= t.len(),
            s == t.deep_view(),
            s == old(t).deep_view(),
            s.len() == t.len(),
            forall|j: int| 0 <= j < i ==> (#[trigger] s[j]).0 != k@,
        decreases t.len() - i,
    {
        if str_eq(t[i].0.as_str(), k.as_str()) {
            proof {
                assert(s[i as int].0 == k@);
                lemma_key_idx(s, k@);
                let ki = key_idx(s, k@);
                if ki == -1 {
                    assert(s[i as int].0 != k@);
                }
                if ki < i as int {
                    assert(s[ki].0 == k@);
                }
                if ki > i as int {
                    assert(s[i as int].0 != k@);
                }
                assert(ki == i as int);
            }
            t.set(i, (k, v));
            proof {
                assert(s == old(t).deep_view());
                assert(t.deep_view() =~= s.update(i as int, (k@, v.deep_view())));
                assert(has_key(s, k@));
                assert(put(s, k@, v.deep_view()) == s.update(i as int, (k@, v.deep_view())));
                assert(t.deep_view() == put(s, k@, v.deep_view()));
            }
            return ;
        }
        proof {
            assert(s[i as int].0 != k@);
        }
        i = i + 1;
    }
    proof {
        lemma_key_idx(s, k@);
    }
    t.push((k, v));
    proof {
        assert(t.deep_view() =~= s.push((k@, v.deep_view())));
    }
}

} // verus!
