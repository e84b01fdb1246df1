//! Vectors of records that each carry a text key, seen as maps from key to
//! record.  Callers keep the keys unique; the map view then has one entry
//! per element.

use vstd::prelude::*;

verus! {

/// A record identified by a text key.
pub trait Keyed: Sized {
    spec fn spec_key(&self) -> Seq<char>;

    fn key(&self) -> (k: &String)
        ensures
            k@ == self.spec_key(),
    ;
}

/// No two elements of `s` share a key.
pub open spec fn unique_keys<T: Keyed>(s: Seq<T>) -> bool {
    forall|i: int, j: int|
        0 <= i < s.len() && 0 <= j < s.len() && i != j ==> #[trigger] s[i].spec_key()
            != #[trigger] s[j].spec_key()
}

/// Some element of `s` has key `k`.
pub open spec fn has_key<T: Keyed>(s: Seq<T>, k: Seq<char>) -> bool {
    exists|i: int| 0 <= i < s.len() && #[trigger] s[i].spec_key() == k
}

/// The position of an element of `s` with key `k`.
pub open spec fn key_index<T: Keyed>(s: Seq<T>, k: Seq<char>) -> int {
    choose|i: int| 0 <= i < s.len() && #[trigger] s[i].spec_key() == k
}

/// The map from each key to the view of its element.
pub open spec fn keyed_map<T: Keyed + View>(s: Seq<T>) -> Map<Seq<char>, T::V> {
    Map::new(|k: Seq<char>| has_key(s, k), |k: Seq<char>| s[key_index(s, k)]@)
}

/// With unique keys, element `i` is what the map holds under its key.
pub proof fn lemma_keyed_at<T: Keyed + View>(s: Seq<T>, i: int)
    requires
        unique_keys(s),
        0 <= i < s.len(),
    ensures
        keyed_map(s).dom().contains(s[i].spec_key()),
        keyed_map(s)[s[i].spec_key()] == s[i]@,
        key_index(s, s[i].spec_key()) == i,
{
    let k = s[i].spec_key();
    assert(has_key(s, k));
    let j = key_index(s, k);
    assert(s[j].spec_key() == k);
}

/// Replacing an element by one with the same key updates the map at that key only.
pub proof fn lemma_keyed_update<T: Keyed + View>(s: Seq<T>, i: int, x: T)
    requires
        unique_keys(s),
        0 <= i < s.len(),
        x.spec_key() == s[i].spec_key(),
    ensures
        unique_keys(s.update(i, x)),
        keyed_map(s.update(i, x)) == keyed_map(s).insert(x.spec_key(), x@),
{
    let t = s.update(i, x);
    let k = x.spec_key();
    assert forall|a: int, b: int|
        0 <= a < t.len() && 0 <= b < t.len() && a != b implies #[trigger] t[a].spec_key()
        != #[trigger] t[b].spec_key() by {
        assert(t[a].spec_key() == s[a].spec_key());
        assert(t[b].spec_key() == s[b].spec_key());
    }
    assert forall|k2: Seq<char>| has_key(t, k2) == has_key(s, k2) by {
        if has_key(t, k2) {
            let a = choose|a: int| 0 <= a < t.len() && #[trigger] t[a].spec_key() == k2;
            assert(s[a].spec_key() == k2);
        }
        if has_key(s, k2) {
            let a = choose|a: int| 0 <= a < s.len() && #[trigger] s[a].spec_key() == k2;
            assert(t[a].spec_key() == k2);
        }
    }
    assert forall|k2: Seq<char>| #[trigger] has_key(t, k2) implies keyed_map(t)[k2] == keyed_map(
        s,
    ).insert(k, x@)[k2] by {
        let a = key_index(t, k2);
        assert(t[a].spec_key() == k2);
        lemma_keyed_at(t, a);
        if k2 == k {
            assert(t[i].spec_key() == k);
            lemma_keyed_at(t, i);
        } else {
            assert(a != i);
            assert(s[a].spec_key() == k2);
            lemma_keyed_at(s, a);
        }
    }
    assert(keyed_map(t) =~= keyed_map(s).insert(k, x@));
}

/// Appending an element with a fresh key adds that key to the map.
pub proof fn lemma_keyed_push<T: Keyed + View>(s: Seq<T>, x: T)
    requires
        unique_keys(s),
        !has_key(s, x.spec_key()),
    ensures
        unique_keys(s.push(x)),
        keyed_map(s.push(x)) == keyed_map(s).insert(x.spec_key(), x@),
{
    let t = s.push(x);
    let k = x.spec_key();
    let n = s.len() as int;
    assert forall|a: int, b: int|
        0 <= a < t.len() && 0 <= b < t.len() && a != b implies #[trigger] t[a].spec_key()
        != #[trigger] t[b].spec_key() by {
        if a == n {
            assert(t[b] == s[b]);
        } else if b == n {
            assert(t[a] == s[a]);
        } else {
            assert(t[a] == s[a]);
            assert(t[b] == s[b]);
        }
    }
    assert forall|k2: Seq<char>| has_key(t, k2) == (has_key(s, k2) || k2 == k) by {
        if has_key(t, k2) {
            let a = choose|a: int| 0 <= a < t.len() && #[trigger] t[a].spec_key() == k2;
            if a < n {
                assert(s[a] == t[a]);
            }
        }
        if has_key(s, k2) {
            let a = choose|a: int| 0 <= a < s.len() && #[trigger] s[a].spec_key() == k2;
            assert(t[a] == s[a]);
        }
        if k2 == k {
            assert(t[n].spec_key() == k);
        }
    }
    assert forall|k2: Seq<char>| #[trigger] has_key(t, k2) implies keyed_map(t)[k2] == keyed_map(
        s,
    ).insert(k, x@)[k2] by {
        let a = key_index(t, k2);
        assert(t[a].spec_key() == k2);
        lemma_keyed_at(t, a);
        if k2 == k {
            assert(t[n].spec_key() == k);
            lemma_keyed_at(t, n);
        } else {
            assert(a != n);
            assert(s[a] == t[a]);
            lemma_keyed_at(s, a);
        }
    }
    assert(keyed_map(t) =~= keyed_map(s).insert(k, x@));
}

/// The position of the element with key `k`, if any.
pub fn find_key<T: Keyed>(v: &Vec<T>, k: &String) -> (r: Option<usize>)
    ensures
        r matches Some(i) ==> i < v@.len() && v@[i as int].spec_key() == k@,
        r is None ==> !has_key(v@, k@),
{
    let n = v.len();
    let mut i: usize = 0;
    while i < n
        invariant
            n == v@.len(),
            i <= n,
            forall|j: int| 0 <= j < i ==> #[trigger] v@[j].spec_key() != k@,
        decreases n - i,
    {
        if *v[i].key() == *k {
            return Some(i);
        }
        i = i + 1;
    }
    None
}

/// Puts `x` under its key: it replaces the element with that key, if any,
/// and is appended otherwise.
pub fn insert_keyed<T: Keyed + View>(v: &mut Vec<T>, x: T)
    requires
        unique_keys(old(v)@),
    ensures
        unique_keys(final(v)@),
        keyed_map(final(v)@) == keyed_map(old(v)@).insert(x.spec_key(), x@),
{
    match find_key(v, x.key()) {
        Some(i) => {
            proof {
                lemma_keyed_update(v@, i as int, x);
            }
            v.set(i, x);
        },
        None => {
            proof {
                lemma_keyed_push(v@, x);
            }
            v.push(x);
        },
    }
}

/// The elements of `s` whose key is not `k`, in their order.
pub open spec fn other_keys<T: Keyed>(s: Seq<T>, k: Seq<char>) -> Seq<T> {
    s.filter(|x: T| x.spec_key() != k)
}

/// Removing the elements with key `k` keeps everything else in order;
/// it shortens the sequence exactly when some element has key `k`.
pub proof fn lemma_other_keys_len<T: Keyed>(s: Seq<T>, k: Seq<char>)
    ensures
        other_keys(s, k).len() <= s.len(),
        (other_keys(s, k).len() < s.len()) == (exists|i: int|
            0 <= i < s.len() && #[trigger] s[i].spec_key() == k),
    decreases s.len(),
{
    reveal(Seq::filter);
    if s.len() > 0 {
        let t = s.drop_last();
        lemma_other_keys_len(t, k);
        if exists|i: int| 0 <= i < t.len() && #[trigger] t[i].spec_key() == k {
            let i = choose|i: int| 0 <= i < t.len() && #[trigger] t[i].spec_key() == k;
            assert(s[i] == t[i]);
        }
        if exists|i: int| 0 <= i < s.len() && #[trigger] s[i].spec_key() == k {
            let i = choose|i: int| 0 <= i < s.len() && #[trigger] s[i].spec_key() == k;
            if i < t.len() {
                assert(t[i] == s[i]);
            }
        }
    }
}

/// Removing a key nobody has changes nothing.
pub proof fn lemma_other_keys_absent<T: Keyed>(s: Seq<T>, k: Seq<char>)
    requires
        forall|i: int| 0 <= i < s.len() ==> #[trigger] s[i].spec_key() != k,
    ensures
        other_keys(s, k) == s,
    decreases s.len(),
{
    reveal(Seq::filter);
    if s.len() > 0 {
        let t = s.drop_last();
        assert forall|i: int| 0 <= i < t.len() implies #[trigger] t[i].spec_key() != k by {
            assert(t[i] == s[i]);
        }
        lemma_other_keys_absent(t, k);
        assert(t.push(s.last()) =~= s);
    } else {
        assert(s.filter(|x: T| x.spec_key() != k) =~= s);
    }
}

/// After removing key `k`, no element has key `k`.
pub proof fn lemma_other_keys_removes<T: Keyed>(s: Seq<T>, k: Seq<char>)
    ensures
        forall|i: int|
            0 <= i < other_keys(s, k).len() ==> #[trigger] other_keys(s, k)[i].spec_key() != k,
    decreases s.len(),
{
    reveal(Seq::filter);
    if s.len() > 0 {
        let t = s.drop_last();
        lemma_other_keys_removes(t, k);
        let r = other_keys(s, k);
        let rt = other_keys(t, k);
        assert forall|i: int| 0 <= i < r.len() implies #[trigger] r[i].spec_key() != k by {
            if i < rt.len() {
                assert(r[i] == rt[i]);
            }
        }
    }
}

/// Appending an element and removing its key again is the same as just
/// removing the key.
pub proof fn lemma_other_keys_push<T: Keyed>(s: Seq<T>, x: T)
    ensures
        other_keys(s.push(x), x.spec_key()) == other_keys(s, x.spec_key()),
{
    reveal(Seq::filter);
    assert(s.push(x).drop_last() =~= s);
}

/// Removes, in place, every element whose key is `k`.
pub fn retain_other_keys<T: Keyed>(v: &mut Vec<T>, k: &String)
    ensures
        final(v)@ == other_keys(old(v)@, k@),
{
    let ghost orig = v@;
    let mut i: usize = 0;
    let ghost mut j: int = 0;
    while i < v.len()
        invariant
            0 <= j <= orig.len(),
            v@ == other_keys(orig.take(j), k@) + orig.skip(j),
            i == other_keys(orig.take(j), k@).len(),
        decreases v@.len() - i,
    {
        proof {
            reveal(Seq::filter);
            assert(orig.take(j + 1).drop_last() =~= orig.take(j));
            assert(orig.skip(j) =~= seq![orig[j]] + orig.skip(j + 1));
            assert(v@[i as int] == orig[j]);
        }
        if *v[i].key() == *k {
            let _ = v.remove(i);
            proof {
                assert(v@ =~= other_keys(orig.take(j + 1), k@) + orig.skip(j + 1));
            }
        } else {
            i = i + 1;
            proof {
                assert(v@ =~= other_keys(orig.take(j + 1), k@) + orig.skip(j + 1));
            }
        }
        proof {
            j = j + 1;
        }
    }
    proof {
        assert(orig.take(j) =~= orig);
        assert(v@ =~= other_keys(orig, k@));
    }
}

} // verus!
