//! Ordered text-to-text map: the `{"key": "value"}` tables of settings.json
//! (`replacements`, `app_styles`, `polish.styles`). Entries are kept in
//! ascending key order (code point order, the order of Rust's `str`), keys
//! are unique, and iteration follows that order.

use vstd::prelude::*;
use crate::text::chars_of;

verus! {

/// Lexicographic order of texts by code point.
pub open spec fn key_less(a: Seq<char>, b: Seq<char>) -> bool
    decreases a.len(),
{
    if a.len() == 0 {
        b.len() > 0
    } else if b.len() == 0 {
        false
    } else if a[0] != b[0] {
        a[0] < b[0]
    } else {
        key_less(a.drop_first(), b.drop_first())
    }
}

pub proof fn lemma_key_less_irreflexive(a: Seq<char>)
    ensures
        !key_less(a, a),
    decreases a.len(),
{
    if a.len() > 0 {
        lemma_key_less_irreflexive(a.drop_first());
    }
}

pub proof fn lemma_key_less_asymmetric(a: Seq<char>, b: Seq<char>)
    ensures
        key_less(a, b) ==> !key_less(b, a),
    decreases a.len(),
{
    if a.len() > 0 && b.len() > 0 && a[0] == b[0] {
        lemma_key_less_asymmetric(a.drop_first(), b.drop_first());
    }
}

pub proof fn lemma_key_less_transitive(a: Seq<char>, b: Seq<char>, c: Seq<char>)
    requires
        key_less(a, b),
        key_less(b, c),
    ensures
        key_less(a, c),
    decreases a.len(),
{
    if a.len() > 0 && b.len() > 0 && c.len() > 0 && a[0] == b[0] && b[0] == c[0] {
        lemma_key_less_transitive(a.drop_first(), b.drop_first(), c.drop_first());
    }
}

pub proof fn lemma_key_less_total(a: Seq<char>, b: Seq<char>)
    ensures
        a != b ==> key_less(a, b) || key_less(b, a),
    decreases a.len(),
{
    if a.len() > 0 && b.len() > 0 && a[0] == b[0] {
        lemma_key_less_total(a.drop_first(), b.drop_first());
        if a.drop_first() == b.drop_first() {
            assert(a =~= seq![a[0]] + a.drop_first());
            assert(b =~= seq![b[0]] + b.drop_first());
        }
    } else if a.len() == 0 && b.len() == 0 {
        assert(a =~= b);
    }
}

proof fn lemma_key_less_common_prefix(a: Seq<char>, b: Seq<char>, i: int)
    requires
        0 <= i <= a.len(),
        i <= b.len(),
        forall|j: int| 0 <= j < i ==> a[j] == b[j],
    ensures
        key_less(a, b) == key_less(a.skip(i), b.skip(i)),
    decreases i,
{
    if i > 0 {
        lemma_key_less_common_prefix(a.drop_first(), b.drop_first(), i - 1);
        assert(a.drop_first().skip(i - 1) =~= a.skip(i));
        assert(b.drop_first().skip(i - 1) =~= b.skip(i));
    } else {
        assert(a.skip(0) =~= a);
        assert(b.skip(0) =~= b);
    }
}

/// Keys strictly ascending (hence unique).
pub open spec fn sorted_keys(e: Seq<(Seq<char>, Seq<char>)>) -> bool {
    forall|i: int, j: int| 0 <= i < j < e.len() ==> key_less(#[trigger] e[i].0, #[trigger] e[j].0)
}

/// The value stored under `k`, if any.
pub open spec fn lookup(e: Seq<(Seq<char>, Seq<char>)>, k: Seq<char>) -> Option<Seq<char>> {
    if exists|i: int| 0 <= i < e.len() && #[trigger] e[i].0 == k {
        Some(e[choose|i: int| 0 <= i < e.len() && #[trigger] e[i].0 == k].1)
    } else {
        None
    }
}

/// In a map with unique keys, the entry at `i` is what its key looks up.
pub proof fn lemma_lookup_at(e: Seq<(Seq<char>, Seq<char>)>, i: int)
    requires
        sorted_keys(e),
        0 <= i < e.len(),
    ensures
        lookup(e, e[i].0) == Some(e[i].1),
{
    let k = e[i].0;
    assert(exists|j: int| 0 <= j < e.len() && #[trigger] e[j].0 == k);
    let c = choose|j: int| 0 <= j < e.len() && #[trigger] e[j].0 == k;
    assert(0 <= c < e.len() && e[c].0 == k);
    lemma_key_less_irreflexive(k);
    if c < i {
        assert(key_less(e[c].0, e[i].0));
        assert(false);
    } else if c > i {
        assert(key_less(e[i].0, e[c].0));
        assert(false);
    }
    assert(c == i);
}

/// Compares two texts in key order.
pub fn text_less(a: &str, b: &str) -> (r: bool)
    ensures
        r == key_less(a@, b@),
{
    let va = chars_of(a);
    let vb = chars_of(b);
    let mut i: usize = 0;
    while i < va.len() && i < vb.len() && va[i] == vb[i]
        invariant
            va@ == a@,
            vb@ == b@,
            i <= va@.len(),
            i <= vb@.len(),
            forall|j: int| 0 <= j < i ==> a@[j] == b@[j],
        decreases va@.len() - i,
    {
        i = i + 1;
    }
    proof {
        lemma_key_less_common_prefix(a@, b@, i as int);
    }
    if i == va.len() {
        i < vb.len()
    } else if i == vb.len() {
        false
    } else {
        proof {
            assert(a@.skip(i as int)[0] == a@[i as int]);
            assert(b@.skip(i as int)[0] == b@[i as int]);
        }
        va[i] < vb[i]
    }
}

pub open spec fn entry_view(p: (String, String)) -> (Seq<char>, Seq<char>) {
    (p.0@, p.1@)
}

/// A map from texts to texts, ordered by key.
pub struct StrMap {
    entries: Vec<(String, String)>,
}

impl View for StrMap {
    type V = Seq<(Seq<char>, Seq<char>)>;

    closed spec fn view(&self) -> Seq<(Seq<char>, Seq<char>)> {
        self.entries@.map_values(|p: (String, String)| entry_view(p))
    }
}

impl StrMap {
    #[verifier::type_invariant]
    spec fn inv(self) -> bool {
        sorted_keys(self@)
    }

    pub fn new() -> (r: StrMap)
        ensures
            r@ == Seq::<(Seq<char>, Seq<char>)>::empty(),
    {
        let r = StrMap { entries: Vec::new() };
        assert(r@ =~= Seq::<(Seq<char>, Seq<char>)>::empty());
        r
    }

    pub fn len(&self) -> (r: usize)
        ensures
            r == self@.len(),
            sorted_keys(self@),
    {
        proof {
            use_type_invariant(self);
        }
        self.entries.len()
    }

    pub fn is_empty(&self) -> (r: bool)
        ensures
            r == (self@.len() == 0),
            sorted_keys(self@),
    {
        proof {
            use_type_invariant(self);
        }
        self.entries.len() == 0
    }

    /// Key of the `i`-th entry in key order.
    pub fn key_at(&self, i: usize) -> (r: &String)
        requires
            i < self@.len(),
        ensures
            r@ == self@[i as int].0,
    {
        &self.entries[i].0
    }

    /// Value of the `i`-th entry in key order.
    pub fn value_at(&self, i: usize) -> (r: &String)
        requires
            i < self@.len(),
        ensures
            r@ == self@[i as int].1,
    {
        &self.entries[i].1
    }

    /// The value stored under `key`.
    pub fn get(&self, key: &str) -> (r: Option<&String>)
        ensures
            sorted_keys(self@),
            match r {
                Some(v) => lookup(self@, key@) == Some(v@),
                None => lookup(self@, key@) is None,
            },
    {
        proof {
            use_type_invariant(self);
        }
        let mut i: usize = 0;
        while i < self.entries.len()
            invariant
                sorted_keys(self@),
                i <= self@.len(),
                forall|j: int| 0 <= j < i ==> #[trigger] self@[j].0 != key@,
            decreases self@.len() - i,
        {
            if crate::text::str_eq(self.entries[i].0.as_str(), key) {
                proof {
                    lemma_lookup_at(self@, i as int);
                }
                return Some(&self.entries[i].1);
            }
            i = i + 1;
        }
        None
    }

    /// Stores `value` under `key`, replacing an existing value.
    pub fn insert(&mut self, key: String, value: String)
        ensures
            sorted_keys(final(self)@),
            forall|k: Seq<char>| #[trigger]
                lookup(final(self)@, k) == (if k == key@ {
                    Some(value@)
                } else {
                    lookup(old(self)@, k)
                }),
    {
        proof {
            use_type_invariant(&*self);
        }
        let ghost old_view = self@;
        let n = self.entries.len();
        let mut i: usize = 0;
        while i < n && text_less(self.entries[i].0.as_str(), key.as_str())
            invariant
                n == self@.len(),
                self@ == old_view,
                sorted_keys(old_view),
                i <= n,
                forall|j: int| 0 <= j < i ==> key_less(#[trigger] old_view[j].0, key@),
            decreases n - i,
        {
            i = i + 1;
        }
        let ghost kv = key@;
        let ghost vv = value@;
        if i < n && crate::text::str_eq(self.entries[i].0.as_str(), key.as_str()) {
            let ghost new_view = old_view.update(i as int, (kv, vv));
            proof {
                assert forall|a: int, b: int| 0 <= a < b < new_view.len() implies key_less(
                    #[trigger] new_view[a].0,
                    #[trigger] new_view[b].0,
                ) by {
                    assert(key_less(old_view[a].0, old_view[b].0));
                }
                assert forall|k: Seq<char>| #[trigger]
                    lookup(new_view, k) == (if k == kv {
                        Some(vv)
                    } else {
                        lookup(old_view, k)
                    }) by {
                    lemma_lookup_update(old_view, i as int, kv, vv, k);
                }
            }
            let mut entries: Vec<(String, String)> = Vec::new();
            std::mem::swap(&mut entries, &mut self.entries);
            entries.set(i, (key, value));
            assert(entries@.map_values(|p: (String, String)| entry_view(p)) =~= new_view);
            self.entries = entries;
        } else {
            let ghost new_view = old_view.insert(i as int, (kv, vv));
            proof {
                assert(i < n ==> key_less(kv, old_view[i as int].0)) by {
                    if i < n {
                        assert(!key_less(old_view[i as int].0, kv));
                        lemma_key_less_total(old_view[i as int].0, kv);
                    }
                }
                assert forall|a: int, b: int| 0 <= a < b < new_view.len() implies key_less(
                    #[trigger] new_view[a].0,
                    #[trigger] new_view[b].0,
                ) by {
                    if b < i {
                        assert(key_less(old_view[a].0, old_view[b].0));
                    } else if b == i {
                    } else if a < i {
                        assert(new_view[b] == old_view[b - 1]);
                        if b - 1 > i {
                            assert(key_less(old_view[i as int].0, old_view[b - 1].0));
                            lemma_key_less_transitive(kv, old_view[i as int].0, old_view[b - 1].0);
                        }
                        lemma_key_less_transitive(old_view[a].0, kv, old_view[b - 1].0);
                    } else if a == i {
                        if b - 1 > i {
                            assert(key_less(old_view[i as int].0, old_view[b - 1].0));
                            lemma_key_less_transitive(kv, old_view[i as int].0, old_view[b - 1].0);
                        }
                    } else {
                        assert(key_less(old_view[a - 1].0, old_view[b - 1].0));
                    }
                }
                assert forall|j: int| 0 <= j < n implies #[trigger] old_view[j].0 != kv by {
                    if j < i {
                        lemma_key_less_irreflexive(kv);
                    } else if j > i {
                        assert(key_less(old_view[i as int].0, old_view[j].0));
                        lemma_key_less_transitive(kv, old_view[i as int].0, old_view[j].0);
                        lemma_key_less_irreflexive(kv);
                    }
                }
                assert forall|k: Seq<char>| #[trigger]
                    lookup(new_view, k) == (if k == kv {
                        Some(vv)
                    } else {
                        lookup(old_view, k)
                    }) by {
                    lemma_lookup_insert(old_view, i as int, kv, vv, k);
                }
            }
            let mut entries: Vec<(String, String)> = Vec::new();
            std::mem::swap(&mut entries, &mut self.entries);
            entries.insert(i, (key, value));
            assert(entries@.map_values(|p: (String, String)| entry_view(p)) =~= new_view);
            self.entries = entries;
        }
    }
}

proof fn lemma_lookup_update(
    e: Seq<(Seq<char>, Seq<char>)>,
    i: int,
    kv: Seq<char>,
    vv: Seq<char>,
    k: Seq<char>,
)
    requires
        sorted_keys(e),
        0 <= i < e.len(),
        e[i].0 == kv,
        sorted_keys(e.update(i, (kv, vv))),
    ensures
        lookup(e.update(i, (kv, vv)), k) == (if k == kv {
            Some(vv)
        } else {
            lookup(e, k)
        }),
{
    let f = e.update(i, (kv, vv));
    if k == kv {
        lemma_lookup_at(f, i);
    } else {
        if exists|j: int| 0 <= j < e.len() && #[trigger] e[j].0 == k {
            let j = choose|j: int| 0 <= j < e.len() && #[trigger] e[j].0 == k;
            lemma_lookup_at(e, j);
            lemma_lookup_at(f, j);
        } else {
            assert forall|j: int| 0 <= j < f.len() implies #[trigger] f[j].0 != k by {
                if j != i {
                    assert(f[j] == e[j]);
                }
            }
        }
    }
}

proof fn lemma_lookup_insert(
    e: Seq<(Seq<char>, Seq<char>)>,
    i: int,
    kv: Seq<char>,
    vv: Seq<char>,
    k: Seq<char>,
)
    requires
        sorted_keys(e),
        0 <= i <= e.len(),
        forall|j: int| 0 <= j < e.len() ==> #[trigger] e[j].0 != kv,
        sorted_keys(e.insert(i, (kv, vv))),
    ensures
        lookup(e.insert(i, (kv, vv)), k) == (if k == kv {
            Some(vv)
        } else {
            lookup(e, k)
        }),
{
    let f = e.insert(i, (kv, vv));
    if k == kv {
        lemma_lookup_at(f, i);
    } else {
        if exists|j: int| 0 <= j < e.len() && #[trigger] e[j].0 == k {
            let j = choose|j: int| 0 <= j < e.len() && #[trigger] e[j].0 == k;
            lemma_lookup_at(e, j);
            if j < i {
                lemma_lookup_at(f, j);
            } else {
                assert(f[j + 1] == e[j]);
                lemma_lookup_at(f, j + 1);
            }
        } else {
            assert forall|j: int| 0 <= j < f.len() implies #[trigger] f[j].0 != k by {
                if j < i {
                    assert(f[j] == e[j]);
                } else if j > i {
                    assert(f[j] == e[j - 1]);
                }
            }
        }
    }
}

} // verus!
