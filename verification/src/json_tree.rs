//! The settings page's view of settings.json: a JSON document as a tree of
//! objects. Only objects have structure here; every other value (null, a
//! boolean, a number, a string, an array) is a leaf carried as its JSON text.
//! Members keep their order; the first member with a key is the one a lookup
//! finds.

use vstd::prelude::*;
use crate::text::{push_text, str_eq};

verus! {

/// A JSON value, as far as object merging looks into it.
#[derive(Debug, PartialEq, Eq)]
pub enum JsonTree {
    /// Any value that is not an object, as its JSON text.
    Leaf(String),
    /// An object: its members in order.
    Object(Vec<(String, JsonTree)>),
}

/// [`JsonTree`] with texts as character sequences.
pub enum JsonModel {
    Leaf(Seq<char>),
    Object(Seq<(Seq<char>, JsonModel)>),
}

impl JsonTree {
    /// The tree with its texts as character sequences.
    pub open spec fn model(self) -> JsonModel
        decreases self,
    {
        match self {
            JsonTree::Leaf(s) => JsonModel::Leaf(s@),
            JsonTree::Object(m) => JsonModel::Object(
                Seq::new(
                    m@.len(),
                    |i: int|
                        if 0 <= i < m@.len() {
                            (m@[i].0@, m@[i].1.model())
                        } else {
                            (Seq::empty(), JsonModel::Leaf(Seq::empty()))
                        },
                ),
            ),
        }
    }
}

/// The members of an object with their texts as character sequences.
pub open spec fn members_model(m: Seq<(String, JsonTree)>) -> Seq<(Seq<char>, JsonModel)> {
    Seq::new(m.len(), |i: int| (m[i].0@, m[i].1.model()))
}

/// `i` is the position of the first member whose key is `k`.
pub open spec fn first_with_key(ms: Seq<(Seq<char>, JsonModel)>, k: Seq<char>, i: int) -> bool {
    &&& 0 <= i < ms.len()
    &&& ms[i].0 == k
    &&& forall|j: int| 0 <= j < i ==> (#[trigger] ms[j]).0 != k
}

/// The position of the first member whose key is `k`, or -1 when no member
/// has that key.
pub open spec fn key_index(ms: Seq<(Seq<char>, JsonModel)>, k: Seq<char>) -> int {
    if exists|i: int| first_with_key(ms, k, i) {
        choose|i: int| first_with_key(ms, k, i)
    } else {
        -1
    }
}

/// Sets member `k` to `v`: in place when the key is there, else appended
/// (what inserting into a JSON object map does).
pub open spec fn set_member(ms: Seq<(Seq<char>, JsonModel)>, k: Seq<char>, v: JsonModel) -> Seq<
    (Seq<char>, JsonModel),
> {
    let j = key_index(ms, k);
    if j >= 0 {
        ms.update(j, (k, v))
    } else {
        ms.push((k, v))
    }
}

/// Deep merge: where both sides are objects, every member of `o` is merged
/// into `b` (recursively where both member values are objects, else the
/// member of `o` wins); anywhere else `o` replaces `b`.
pub open spec fn merge_model(b: JsonModel, o: JsonModel) -> JsonModel
    decreases o,
{
    match o {
        JsonModel::Object(om) => match b {
            JsonModel::Object(bm) => JsonModel::Object(merged_members(bm, om)),
            JsonModel::Leaf(_) => o,
        },
        JsonModel::Leaf(_) => o,
    }
}

/// The members of `bm` after the members of `om` were merged in, in order.
pub open spec fn merged_members(
    bm: Seq<(Seq<char>, JsonModel)>,
    om: Seq<(Seq<char>, JsonModel)>,
) -> Seq<(Seq<char>, JsonModel)>
    decreases om,
{
    if om.len() == 0 {
        bm
    } else {
        let before = merged_members(bm, om.drop_last());
        let k = om.last().0;
        let v = om.last().1;
        let j = key_index(bm, k);
        let value = if j >= 0 && bm[j].1 is Object && v is Object {
            merge_model(bm[j].1, v)
        } else {
            v
        };
        set_member(before, k, value)
    }
}

/// The model of an object is the model of its members.
pub proof fn lemma_object_model(m: Vec<(String, JsonTree)>)
    ensures
        JsonTree::Object(m).model() == JsonModel::Object(members_model(m@)),
{
    assert(members_model(m@) =~= match JsonTree::Object(m).model() {
        JsonModel::Object(s) => s,
        JsonModel::Leaf(_) => Seq::empty(),
    });
}

/// The value of member `k`: that of the first member with the key.
pub open spec fn member(ms: Seq<(Seq<char>, JsonModel)>, k: Seq<char>) -> Option<JsonModel> {
    let j = key_index(ms, k);
    if j >= 0 {
        Some(ms[j].1)
    } else {
        None
    }
}

/// No two members share a key (true of every JSON object read from text).
pub open spec fn distinct_keys(ms: Seq<(Seq<char>, JsonModel)>) -> bool {
    forall|i: int, j: int| 0 <= i < j < ms.len() ==> #[trigger] ms[i].0 != #[trigger] ms[j].0
}

/// What member `k` of `bm` becomes when `v` is merged into it.
pub open spec fn merged_value(bm: Seq<(Seq<char>, JsonModel)>, k: Seq<char>, v: JsonModel) -> JsonModel {
    let j = key_index(bm, k);
    if j >= 0 && bm[j].1 is Object && v is Object {
        merge_model(bm[j].1, v)
    } else {
        v
    }
}

/// A member with key `k` at `i` makes `key_index` a first match.
proof fn lemma_first_match_exists(ms: Seq<(Seq<char>, JsonModel)>, k: Seq<char>, i: int)
    requires
        0 <= i < ms.len(),
        ms[i].0 == k,
    ensures
        first_with_key(ms, k, key_index(ms, k)),
    decreases i,
{
    if exists|j: int| 0 <= j < i && ms[j].0 == k {
        let j = choose|j: int| 0 <= j < i && ms[j].0 == k;
        lemma_first_match_exists(ms, k, j);
    } else {
        assert(first_with_key(ms, k, i));
    }
}

/// `key_index` is the first match when there is one, and -1 exactly when
/// no member has the key.
proof fn lemma_key_index(ms: Seq<(Seq<char>, JsonModel)>, k: Seq<char>)
    ensures
        key_index(ms, k) >= 0 ==> first_with_key(ms, k, key_index(ms, k)),
        key_index(ms, k) < 0 ==> key_index(ms, k) == -1 && forall|i: int|
            0 <= i < ms.len() ==> (#[trigger] ms[i]).0 != k,
        forall|i: int| #[trigger] first_with_key(ms, k, i) ==> key_index(ms, k) == i,
{
    assert forall|i: int| 0 <= i < ms.len() && key_index(ms, k) < 0 implies (#[trigger] ms[i]).0
        != k by {
        if ms[i].0 == k {
            lemma_first_match_exists(ms, k, i);
        }
    }
    assert forall|i: int| #[trigger] first_with_key(ms, k, i) implies key_index(ms, k) == i by {
        let c = key_index(ms, k);
        assert(first_with_key(ms, k, c));
        if c < i {
            assert(ms[c].0 != k);
        } else if i < c {
            assert(ms[i].0 != k);
        }
    }
}

/// Setting member `k2` changes the value of `k2` and of no other key.
proof fn lemma_member_after_set(
    ms: Seq<(Seq<char>, JsonModel)>,
    k2: Seq<char>,
    x: JsonModel,
    k: Seq<char>,
)
    ensures
        member(set_member(ms, k2, x), k) == if k == k2 {
            Some(x)
        } else {
            member(ms, k)
        },
{
    let j = key_index(ms, k2);
    let ns = set_member(ms, k2, x);
    lemma_key_index(ms, k2);
    lemma_key_index(ms, k);
    lemma_key_index(ns, k);
    assert forall|i: int| 0 <= i < ms.len() implies (#[trigger] ns[i]).0 == ms[i].0 by {}
    if k == k2 {
        if j >= 0 {
            assert(first_with_key(ns, k, j));
        } else {
            assert(first_with_key(ns, k, ms.len() as int));
        }
    } else {
        let i = key_index(ms, k);
        if i >= 0 {
            assert(ms[i].0 == k);
            assert(i != j);
            assert(first_with_key(ns, k, i));
        } else {
            assert forall|t: int| 0 <= t < ns.len() implies (#[trigger] ns[t]).0 != k by {
                if t < ms.len() {
                    assert(ms[t].0 != k);
                }
            }
        }
    }
}

/// In an object with distinct keys the last member is found by its key;
/// every other key is found among the members before it.
proof fn lemma_member_last(om: Seq<(Seq<char>, JsonModel)>, k: Seq<char>)
    requires
        om.len() > 0,
        distinct_keys(om),
    ensures
        member(om, k) == if om.last().0 == k {
            Some(om.last().1)
        } else {
            member(om.drop_last(), k)
        },
{
    let n = om.len() - 1;
    let d = om.drop_last();
    lemma_key_index(om, k);
    lemma_key_index(d, k);
    if om.last().0 == k {
        assert forall|j: int| 0 <= j < n implies (#[trigger] om[j]).0 != k by {
            assert(om[j].0 != om[n].0);
        }
        assert(first_with_key(om, k, n));
    } else {
        let i = key_index(d, k);
        if i >= 0 {
            assert(first_with_key(om, k, i));
        } else {
            assert forall|t: int| 0 <= t < om.len() implies (#[trigger] om[t]).0 != k by {
                if t < n {
                    assert(d[t].0 != k);
                }
            }
        }
    }
}

/// Deep merge, member by member: a key that `om` sets takes its value
/// from `om` (merged into the old value where both are objects); a key that
/// `om` leaves out keeps its value from `bm`.
pub proof fn law_merge_member(
    bm: Seq<(Seq<char>, JsonModel)>,
    om: Seq<(Seq<char>, JsonModel)>,
    k: Seq<char>,
)
    requires
        distinct_keys(om),
    ensures
        member(merged_members(bm, om), k) == match member(om, k) {
            Some(v) => Some(merged_value(bm, k, v)),
            None => member(bm, k),
        },
    decreases om.len(),
{
    if om.len() == 0 {
        lemma_key_index(om, k);
    } else {
        let d = om.drop_last();
        assert(distinct_keys(d));
        law_merge_member(bm, d, k);
        lemma_member_last(om, k);
        let k2 = om.last().0;
        let v = om.last().1;
        lemma_member_after_set(merged_members(bm, d), k2, merged_value(bm, k2, v), k);
    }
}

impl JsonTree {
    /// A copy of the tree.
    pub fn deep_copy(&self) -> (r: JsonTree)
        ensures
            r.model() == self.model(),
        decreases self,
    {
        match self {
            JsonTree::Leaf(s) => JsonTree::Leaf(s.clone()),
            JsonTree::Object(m) => {
                let out = copy_members(m);
                proof {
                    lemma_object_model(out);
                    lemma_object_model(*m);
                }
                JsonTree::Object(out)
            },
        }
    }
}

/// A copy of an object's members.
fn copy_members(m: &Vec<(String, JsonTree)>) -> (r: Vec<(String, JsonTree)>)
    ensures
        members_model(r@) == members_model(m@),
    decreases m,
{
    let mut out: Vec<(String, JsonTree)> = Vec::new();
    let mut i: usize = 0;
    while i < m.len()
        invariant
            i <= m@.len(),
            out@.len() == i,
            forall|j: int|
                0 <= j < i ==> (#[trigger] out@[j]).0@ == m@[j].0@ && out@[j].1.model()
                    == m@[j].1.model(),
        decreases m@.len() - i,
    {
        let key = m[i].0.clone();
        let value = m[i].1.deep_copy();
        out.push((key, value));
        i = i + 1;
    }
    assert(members_model(out@) =~= members_model(m@));
    out
}

/// The position of the first member of `m` whose key is `k`.
fn find_member(m: &Vec<(String, JsonTree)>, k: &str) -> (r: Option<usize>)
    ensures
        match r {
            Some(j) => key_index(members_model(m@), k@) == j,
            None => key_index(members_model(m@), k@) == -1,
        },
{
    let ghost ms = members_model(m@);
    let mut i: usize = 0;
    while i < m.len()
        invariant
            ms == members_model(m@),
            i <= m@.len(),
            forall|j: int| 0 <= j < i ==> (#[trigger] ms[j]).0 != k@,
        decreases m@.len() - i,
    {
        if str_eq(m[i].0.as_str(), k) {
            assert(first_with_key(ms, k@, i as int));
            return Some(i);
        }
        assert(ms[i as int].0 != k@);
        i = i + 1;
    }
    assert forall|j: int| !first_with_key(ms, k@, j) by {
        if 0 <= j < ms.len() {
            assert(ms[j].0 != k@);
        }
    }
    None
}

/// Sets member `k` of `m` to `v` (in place, else appended).
fn put_member(m: &mut Vec<(String, JsonTree)>, k: String, v: JsonTree)
    ensures
        members_model(final(m)@) == set_member(members_model(old(m)@), k@, v.model()),
{
    match find_member(m, k.as_str()) {
        Some(j) => {
            let ghost before = m@;
            m.set(j, (k, v));
            assert(members_model(m@) =~= members_model(before).update(j as int, (k@, v.model())));
        },
        None => {
            let ghost before = m@;
            m.push((k, v));
            assert(members_model(m@) =~= members_model(before).push((k@, v.model())));
        },
    }
}

/// The JSON text of a string that needs no escaping: the text in quotes.
pub open spec fn quoted(s: Seq<char>) -> Seq<char> {
    "\""@ + s + "\""@
}

/// A leaf holding the JSON text `text`.
pub fn leaf(text: &str) -> (r: JsonTree)
    ensures
        r.model() == JsonModel::Leaf(text@),
{
    JsonTree::Leaf(text.to_owned())
}

/// A leaf holding the JSON string `s`, which needs no escaping.
pub fn string_leaf(s: &str) -> (r: JsonTree)
    ensures
        r.model() == JsonModel::Leaf(quoted(s@)),
{
    let mut t = "\"".to_owned();
    push_text(&mut t, s);
    push_text(&mut t, "\"");
    JsonTree::Leaf(t)
}

/// Appends member `k` with value `v`.
pub fn push_member(m: &mut Vec<(String, JsonTree)>, k: &str, v: JsonTree)
    ensures
        members_model(final(m)@) == members_model(old(m)@).push((k@, v.model())),
{
    let ghost before = m@;
    m.push((k.to_owned(), v));
    assert(members_model(m@) =~= members_model(before).push((k@, v.model())));
}

/// An object without members.
pub fn empty_object() -> (r: JsonTree)
    ensures
        r.model() == JsonModel::Object(Seq::empty()),
{
    let m: Vec<(String, JsonTree)> = Vec::new();
    proof {
        lemma_object_model(m);
        assert(members_model(m@) =~= Seq::empty());
    }
    JsonTree::Object(m)
}

/// Deep merge of `over` into `base` (`merge_model`).
pub fn merge(base: &JsonTree, over: &JsonTree) -> (r: JsonTree)
    ensures
        r.model() == merge_model(base.model(), over.model()),
    decreases over,
{
    match over {
        JsonTree::Object(om) => match base {
            JsonTree::Object(bm) => {
                let ghost bms = members_model(bm@);
                let ghost oms = members_model(om@);
                let mut out = copy_members(bm);
                let mut i: usize = 0;
                while i < om.len()
                    invariant
                        *over == JsonTree::Object(*om),
                        bms == members_model(bm@),
                        oms == members_model(om@),
                        i <= om@.len(),
                        members_model(out@) == merged_members(bms, oms.take(i as int)),
                    decreases om@.len() - i,
                {
                    let key = &om[i].0;
                    let v = &om[i].1;
                    proof {
                        assert(decreases_to!(*over => over->Object_0));
                        assert(decreases_to!(*om => om[i as int]));
                    }
                    let value = match find_member(bm, key.as_str()) {
                        Some(j) => match (&bm[j].1, v) {
                            (JsonTree::Object(_), JsonTree::Object(_)) => merge(&bm[j].1, v),
                            _ => v.deep_copy(),
                        },
                        None => v.deep_copy(),
                    };
                    put_member(&mut out, key.clone(), value);
                    assert(oms.take(i + 1).drop_last() =~= oms.take(i as int));
                    i = i + 1;
                }
                assert(oms.take(om@.len() as int) =~= oms);
                proof {
                    lemma_object_model(out);
                    lemma_object_model(*bm);
                    lemma_object_model(*om);
                }
                JsonTree::Object(out)
            },
            JsonTree::Leaf(_) => over.deep_copy(),
        },
        JsonTree::Leaf(_) => over.deep_copy(),
    }
}

} // verus!
