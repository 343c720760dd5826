//! Maps keyed by strings whose entries stand in ascending key order.

use vstd::prelude::*;

use crate::text::chars_of;

verus! {

/// Lexicographic order on keys, character by character by code point.
pub open spec fn key_lt(a: Seq<char>, b: Seq<char>) -> bool
    decreases a.len(),
{
    if a.len() == 0 {
        b.len() > 0
    } else if b.len() == 0 {
        false
    } else if a[0] != b[0] {
        a[0] < b[0]
    } else {
        key_lt(a.drop_first(), b.drop_first())
    }
}

/// No key precedes itself.
pub proof fn lemma_key_lt_irreflexive(a: Seq<char>)
    ensures
        !key_lt(a, a),
    decreases a.len(),
{
    if a.len() > 0 {
        lemma_key_lt_irreflexive(a.drop_first());
    }
}

/// Of two distinct keys, exactly one precedes the other.
pub proof fn lemma_key_lt_total(a: Seq<char>, b: Seq<char>)
    ensures
        a != b ==> (key_lt(a, b) || key_lt(b, a)),
        !(key_lt(a, b) && key_lt(b, a)),
    decreases a.len(),
{
    if a.len() > 0 && b.len() > 0 {
        lemma_key_lt_total(a.drop_first(), b.drop_first());
        if a[0] == b[0] && a != b {
            assert(a == seq![a[0]] + a.drop_first());
            assert(b == seq![b[0]] + b.drop_first());
        }
    } else if a.len() == 0 && b.len() == 0 {
        assert(a == b);
    }
}

/// The order on keys is transitive.
pub proof fn lemma_key_lt_transitive(a: Seq<char>, b: Seq<char>, c: Seq<char>)
    requires
        key_lt(a, b),
        key_lt(b, c),
    ensures
        key_lt(a, c),
    decreases a.len(),
{
    if a.len() > 0 && a[0] == b[0] && b[0] == c[0] {
        lemma_key_lt_transitive(a.drop_first(), b.drop_first(), c.drop_first());
    }
}

/// Whether `a` comes strictly before `b` in key order.
pub fn key_less(a: &str, b: &str) -> (r: bool)
    ensures
        r == key_lt(a@, b@),
{
    let x = chars_of(a);
    let y = chars_of(b);
    let mut i: usize = 0;
    assert(a@.skip(0) == a@ && b@.skip(0) == b@);
    while i < x.len() && i < y.len()
        invariant
            i <= x@.len(),
            i <= y@.len(),
            x@ == a@,
            y@ == b@,
            key_lt(a@, b@) == key_lt(a@.skip(i as int), b@.skip(i as int)),
        decreases x@.len() - i,
    {
        if x[i] != y[i] {
            return x[i] < y[i];
        }
        assert(a@.skip(i as int).drop_first() == a@.skip(i + 1));
        assert(b@.skip(i as int).drop_first() == b@.skip(i + 1));
        i = i + 1;
    }
    i == x.len() && i < y.len()
}

/// Keys strictly ascending: sorted, and no key twice.
pub open spec fn keys_ascending<V>(s: Seq<(Seq<char>, V)>) -> bool {
    forall|i: int, j: int| 0 <= i < j < s.len() ==> key_lt(#[trigger] s[i].0, #[trigger] s[j].0)
}

/// The entries after setting `k` to `v`: an entry of key `k` is replaced,
/// else the pair goes in front of the first greater key.
pub open spec fn inserted<V>(s: Seq<(Seq<char>, V)>, k: Seq<char>, v: V) -> Seq<(Seq<char>, V)>
    decreases s.len(),
{
    if s.len() == 0 {
        seq![(k, v)]
    } else if s[0].0 == k {
        seq![(k, v)] + s.drop_first()
    } else if key_lt(k, s[0].0) {
        seq![(k, v)] + s
    } else {
        seq![s[0]] + inserted(s.drop_first(), k, v)
    }
}

proof fn lemma_inserted_at<V>(s: Seq<(Seq<char>, V)>, k: Seq<char>, v: V, p: int)
    requires
        keys_ascending(s),
        0 <= p <= s.len(),
        forall|j: int| 0 <= j < p ==> key_lt(#[trigger] s[j].0, k),
        p == s.len() || !key_lt(s[p].0, k),
    ensures
        p < s.len() && s[p].0 == k ==> inserted(s, k, v) == s.take(p) + seq![(k, v)] + s.skip(p + 1),
        !(p < s.len() && s[p].0 == k) ==> inserted(s, k, v) == s.take(p) + seq![(k, v)] + s.skip(p),
        keys_ascending(inserted(s, k, v)),
    decreases p,
{
    if p == 0 {
        if s.len() > 0 && s[0].0 != k {
            lemma_key_lt_total(s[0].0, k);
        }
        assert(s.take(0) == Seq::<(Seq<char>, V)>::empty());
        assert(s.skip(0) == s);
        if s.len() > 0 {
            assert(s.skip(1) == s.drop_first());
        }
    } else {
        let t = s.drop_first();
        lemma_key_lt_irreflexive(k);
        lemma_key_lt_total(s[0].0, k);
        assert forall|j: int| 0 <= j < p - 1 implies key_lt(#[trigger] t[j].0, k) by {
            assert(0 <= j + 1 < p);
            assert(t[j] == s[j + 1]);
        }
        lemma_inserted_at(t, k, v, p - 1);
        assert(s.take(p) == seq![s[0]] + t.take(p - 1));
        assert(s.skip(p) == t.skip(p - 1));
        if p < s.len() {
            assert(s.skip(p + 1) == t.skip(p));
        }
        assert(inserted(s, k, v) == seq![s[0]] + inserted(t, k, v));
    }
    let r = inserted(s, k, v);
    let q = if p < s.len() && s[p].0 == k { p + 1 } else { p };
    assert(r == s.take(p) + seq![(k, v)] + s.skip(q));
    assert forall|i: int, j: int| 0 <= i < j < r.len() implies key_lt(#[trigger] r[i].0, #[trigger] r[j].0) by {
        if j < p {
            assert(r[i] == s[i] && r[j] == s[j]);
        } else if j == p {
            assert(r[i] == s[i]);
        } else if i < p {
            assert(r[i] == s[i] && r[j] == s[j - p - 1 + q]);
            if q == p {
                lemma_key_lt_total(k, s[p].0);
                lemma_key_lt_transitive(s[i].0, k, s[p].0);
            }
        } else if i == p {
            assert(r[j] == s[j - p - 1 + q]);
            if q == p {
                lemma_key_lt_total(k, s[p].0);
                if j - 1 > p {
                    lemma_key_lt_transitive(k, s[p].0, s[j - 1].0);
                }
            } else {
                assert(s[p].0 == k);
            }
        } else {
            assert(r[i] == s[i - p - 1 + q] && r[j] == s[j - p - 1 + q]);
        }
    }
}

/// A map from string keys to values, walked in ascending key order.
pub struct SortedMap<V> {
    entries: Vec<(String, V)>,
}

impl<V> View for SortedMap<V> {
    type V = Seq<(Seq<char>, V)>;

    /// The entries, in ascending key order.
    closed spec fn view(&self) -> Seq<(Seq<char>, V)> {
        self.entries@.map_values(|e: (String, V)| (e.0@, e.1))
    }
}

impl<V> SortedMap<V> {
    #[verifier::type_invariant]
    spec fn ascending(self) -> bool {
        keys_ascending(self@)
    }

    /// An empty map.
    pub fn new() -> (r: Self)
        ensures
            r@ == Seq::<(Seq<char>, V)>::empty(),
    {
        let r = SortedMap { entries: Vec::new() };
        assert(r@ == Seq::<(Seq<char>, V)>::empty());
        r
    }

    /// Sets `key` to `value`, replacing the value that the key had.
    pub fn insert(&mut self, key: String, value: V)
        ensures
            final(self)@ == inserted(old(self)@, key@, value),
    {
        proof {
            use_type_invariant(&*self);
        }
        let ghost s = self@;
        let mut i: usize = 0;
        while i < self.entries.len()
            invariant
                i <= self.entries@.len(),
                self@ == s,
                s == old(self)@,
                keys_ascending(s),
                forall|j: int| 0 <= j < i ==> key_lt(#[trigger] s[j].0, key@),
            ensures
                i <= s.len(),
                i == s.len() || !key_lt(s[i as int].0, key@),
                forall|j: int| 0 <= j < i ==> key_lt(#[trigger] s[j].0, key@),
            decreases self.entries@.len() - i,
        {
            if !key_less(self.entries[i].0.as_str(), key.as_str()) {
                break;
            }
            i = i + 1;
        }
        proof {
            lemma_inserted_at(s, key@, value, i as int);
        }
        let replace = i < self.entries.len() && self.entries[i].0 == key;
        let mut taken = SortedMap::new();
        std::mem::swap(self, &mut taken);
        let mut entries = taken.entries;
        if replace {
            entries.set(i, (key, value));
        } else {
            entries.insert(i, (key, value));
        }
        let ghost r = entries@.map_values(|e: (String, V)| (e.0@, e.1));
        assert(r == inserted(s, key@, value));
        *self = SortedMap { entries };
    }

    /// The number of entries; the keys of a map always stand in strictly
    /// ascending order.
    pub fn len(&self) -> (r: usize)
        ensures
            r == self@.len(),
            keys_ascending(self@),
    {
        proof {
            use_type_invariant(self);
        }
        self.entries.len()
    }

    /// The key of the entry at `i` in ascending key order.
    pub fn key(&self, i: usize) -> (r: &String)
        requires
            i < self@.len(),
        ensures
            r@ == self@[i as int].0,
    {
        &self.entries[i].0
    }

    /// The value of the entry at `i` in ascending key order.
    pub fn value(&self, i: usize) -> (r: &V)
        requires
            i < self@.len(),
        ensures
            *r == self@[i as int].1,
    {
        &self.entries[i].1
    }
}

} // verus!
