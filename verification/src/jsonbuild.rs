//! Building JSON documents member by member.
//!
//! Each step exists twice with the same name: on [`JsonTree`] as a spec
//! function, and on [`JsonValue`] as an executable method whose result's view
//! is that spec function applied to the views of its inputs. A document
//! written with the executable steps therefore has, as its view, the same
//! document written with the spec steps.

use vstd::prelude::*;
use crate::json::{JsonTree, JsonValue, first_index, lemma_first_index};
use crate::text::str_equal;

verus! {

broadcast use vstd::std_specs::vec::group_vec_axioms;

/// The JSON string `s`.
pub open spec fn tstr(s: Seq<char>) -> JsonTree {
    JsonTree::Str(s)
}

/// The JSON number written `n`.
pub open spec fn tnum(n: Seq<char>) -> JsonTree {
    JsonTree::Number(n)
}

/// The empty JSON object.
pub open spec fn tobj() -> JsonTree {
    JsonTree::Object(Seq::empty())
}

/// The empty JSON array.
pub open spec fn tarr() -> JsonTree {
    JsonTree::Array(Seq::empty())
}

impl JsonTree {
    /// An object with one more member, `k: v`, after its others; anything
    /// but an object is left as it is.
    pub open spec fn with(self, k: Seq<char>, v: JsonTree) -> JsonTree {
        match self {
            JsonTree::Object(fields) => JsonTree::Object(fields.push((k, v))),
            _ => self,
        }
    }

    /// An object with one more string member, `k: "s"`.
    pub open spec fn with_text(self, k: Seq<char>, s: Seq<char>) -> JsonTree {
        self.with(k, tstr(s))
    }

    /// An array with one more item, `v`, after its others; anything but an
    /// array is left as it is.
    pub open spec fn and(self, v: JsonTree) -> JsonTree {
        match self {
            JsonTree::Array(items) => JsonTree::Array(items.push(v)),
            _ => self,
        }
    }

    /// Map insertion into an object: the first member with key `k` gets the
    /// value `v` in its place; without such a member, `k: v` is added at the
    /// end. Anything but an object is left as it is.
    pub open spec fn put(self, k: Seq<char>, v: JsonTree) -> JsonTree {
        match self {
            JsonTree::Object(fields) => match first_index(fields, k) {
                Some(i) => JsonTree::Object(fields.update(i, (k, v))),
                None => JsonTree::Object(fields.push((k, v))),
            },
            _ => self,
        }
    }
}

/// Members with the same keys, in the same order, have the same first index
/// for every key.
pub proof fn lemma_first_index_same_keys(f: Seq<(Seq<char>, JsonTree)>, g: Seq<(Seq<char>, JsonTree)>, k: Seq<char>)
    requires
        f.len() == g.len(),
        forall|j: int| 0 <= j < f.len() ==> #[trigger] f[j].0 == g[j].0,
    ensures
        first_index(f, k) == first_index(g, k),
    decreases f.len(),
{
    if f.len() > 0 {
        assert forall|j: int| 0 <= j < f.drop_first().len() implies #[trigger] f.drop_first()[j].0 == g.drop_first()[j].0 by {
            assert(f.drop_first()[j] == f[j + 1]);
            assert(g.drop_first()[j] == g[j + 1]);
        }
        lemma_first_index_same_keys(f.drop_first(), g.drop_first(), k);
    }
}

/// After a map insertion of `k`, a lookup of `k` finds the inserted value.
pub proof fn lemma_put_then_get(t: JsonTree, k: Seq<char>, v: JsonTree)
    requires
        t is Object,
    ensures
        t.put(k, v) is Object,
        t.put(k, v).get(k) == Some(v),
{
    let f = t->Object_0;
    lemma_first_index(f, k);
    match first_index(f, k) {
        Some(i) => {
            let g = f.update(i, (k, v));
            lemma_first_index_same_keys(f, g, k);
        },
        None => {
            let g = f.push((k, v));
            lemma_first_index(g, k);
            match first_index(g, k) {
                Some(x) => {
                    if x < f.len() {
                        assert(g[x] == f[x]);
                    }
                },
                None => {
                    assert(g[f.len() as int].0 == k);
                },
            }
        },
    }
}

/// A map insertion keeps every key that an object already had.
pub proof fn lemma_put_keeps_key(t: JsonTree, k: Seq<char>, k2: Seq<char>, v2: JsonTree)
    requires
        t is Object,
        t.get(k) is Some,
    ensures
        t.put(k2, v2) is Object,
        t.put(k2, v2).get(k) is Some,
{
    let f = t->Object_0;
    lemma_first_index(f, k2);
    lemma_first_index(f, k);
    match first_index(f, k2) {
        Some(i) => {
            let g = f.update(i, (k2, v2));
            lemma_first_index_same_keys(f, g, k);
        },
        None => {
            let g = f.push((k2, v2));
            let i = first_index(f, k)->0;
            lemma_first_index(g, k);
            assert(g[i].0 == k);
            match first_index(g, k) {
                Some(x) => {},
                None => {
                    assert(false);
                },
            }
        },
    }
}

/// A map insertion of another key keeps a key absent.
pub proof fn lemma_put_keeps_absent(t: JsonTree, k: Seq<char>, k2: Seq<char>, v2: JsonTree)
    requires
        t is Object,
        t.get(k) is None,
        k2 != k,
    ensures
        t.put(k2, v2) is Object,
        t.put(k2, v2).get(k) is None,
{
    let f = t->Object_0;
    lemma_first_index(f, k2);
    lemma_first_index(f, k);
    match first_index(f, k2) {
        Some(i) => {
            let g = f.update(i, (k2, v2));
            lemma_first_index_same_keys(f, g, k);
        },
        None => {
            let g = f.push((k2, v2));
            lemma_first_index(g, k);
            match first_index(g, k) {
                Some(x) => {
                    if x < f.len() {
                        assert(g[x] == f[x]);
                    }
                },
                None => {},
            }
        },
    }
}

/// The view of a `(name, value)` pair.
pub open spec fn pair_view(p: (String, JsonValue)) -> (Seq<char>, JsonTree) {
    (p.0@, p.1@)
}

/// The views of a list of `(name, value)` pairs.
pub open spec fn pairs_view(v: Seq<(String, JsonValue)>) -> Seq<(Seq<char>, JsonTree)> {
    v.map_values(|p: (String, JsonValue)| pair_view(p))
}

/// The JSON string holding the characters of `s`.
pub fn jstr(s: &str) -> (r: JsonValue)
    ensures
        r@ == tstr(s@),
{
    JsonValue::String(String::from_str(s))
}

/// The JSON string holding `s`.
pub fn jtext(s: String) -> (r: JsonValue)
    ensures
        r@ == tstr(s@),
{
    JsonValue::String(s)
}

/// The JSON number written `n`.
pub fn jnum(n: &str) -> (r: JsonValue)
    ensures
        r@ == tnum(n@),
{
    JsonValue::Number(String::from_str(n))
}

/// The empty JSON object.
pub fn jobj() -> (r: JsonValue)
    ensures
        r@ == tobj(),
{
    let r = JsonValue::Object(Vec::new());
    assert(r@->Object_0 =~= Seq::<(Seq<char>, JsonTree)>::empty());
    r
}

/// The empty JSON array.
pub fn jarr() -> (r: JsonValue)
    ensures
        r@ == tarr(),
{
    let r = JsonValue::Array(Vec::new());
    assert(r@->Array_0 =~= Seq::<JsonTree>::empty());
    r
}

/// The concatenation of `a` and `b`.
pub fn cat(a: &str, b: &str) -> (r: String)
    ensures
        r@ == a@ + b@,
{
    let mut r = String::from_str(a);
    r.append(b);
    r
}

impl JsonValue {
    /// `self` with one more member, `k: v`, after its others (objects only).
    pub fn with(self, k: &str, v: JsonValue) -> (r: JsonValue)
        ensures
            r@ == self@.with(k@, v@),
    {
        let ghost before = self@;
        match self {
            JsonValue::Object(fields) => {
                let mut fields = fields;
                let ghost old_fields = fields@;
                proof {
                    assert(before == JsonValue::Object(fields).json());
                }
                fields.push((String::from_str(k), v));
                let r = JsonValue::Object(fields);
                proof {
                    assert(r@->Object_0 =~= before->Object_0.push((k@, v@))) by {
                        assert(before->Object_0.len() == old_fields.len());
                        assert forall|j: int| 0 <= j < old_fields.len() implies #[trigger] r@->Object_0[j]
                            == before->Object_0[j] by {
                            assert(fields@[j] == old_fields[j]);
                        }
                    }
                }
                r
            },
            other => other,
        }
    }

    /// `self` with one more string member, `k: "s"` (objects only).
    pub fn with_text(self, k: &str, s: &str) -> (r: JsonValue)
        ensures
            r@ == self@.with_text(k@, s@),
    {
        self.with(k, jstr(s))
    }

    /// `self` with one more item, `v`, after its others (arrays only).
    pub fn and(self, v: JsonValue) -> (r: JsonValue)
        ensures
            r@ == self@.and(v@),
    {
        let ghost before = self@;
        match self {
            JsonValue::Array(items) => {
                let mut items = items;
                let ghost old_items = items@;
                proof {
                    assert(before == JsonValue::Array(items).json());
                }
                items.push(v);
                let r = JsonValue::Array(items);
                proof {
                    assert(r@->Array_0 =~= before->Array_0.push(v@)) by {
                        assert(before->Array_0.len() == old_items.len());
                        assert forall|j: int| 0 <= j < old_items.len() implies #[trigger] r@->Array_0[j]
                            == before->Array_0[j] by {
                            assert(items@[j] == old_items[j]);
                        }
                    }
                }
                r
            },
            other => other,
        }
    }

    /// Map insertion into an object: the first member with key `k` takes the
    /// value `v`; without one, `k: v` is added at the end (objects only).
    pub fn put(self, k: String, v: JsonValue) -> (r: JsonValue)
        ensures
            r@ == self@.put(k@, v@),
    {
        let ghost before = self@;
        match self {
            JsonValue::Object(fields) => {
                let mut fields = fields;
                let ghost fs = before->Object_0;
                proof {
                    assert(before == JsonValue::Object(fields).json());
                    assert(fs.len() == fields.len());
                    assert(forall|j: int| 0 <= j < fields.len() ==> #[trigger] fs[j] == (fields@[j].0@, fields@[j].1@));
                    lemma_first_index(fs, k@);
                }
                let mut i: usize = 0;
                while i < fields.len()
                    invariant
                        0 <= i <= fields.len(),
                        fs.len() == fields.len(),
                        forall|j: int| 0 <= j < fields.len() ==> #[trigger] fs[j] == (fields@[j].0@, fields@[j].1@),
                        forall|j: int| 0 <= j < i ==> fs[j].0 != k@,
                    ensures
                        0 <= i <= fields.len(),
                        forall|j: int| 0 <= j < i ==> fs[j].0 != k@,
                        i < fields.len() ==> fs[i as int].0 == k@,
                    decreases fields.len() - i,
                {
                    if str_equal(fields[i].0.as_str(), k.as_str()) {
                        break;
                    }
                    i = i + 1;
                }
                let ghost found = i < fields.len();
                if i < fields.len() {
                    proof {
                        lemma_first_index(fs, k@);
                        assert(fs[i as int].0 == k@);
                        match first_index(fs, k@) {
                            Some(x) => {
                                assert(x == i as int);
                            },
                            None => {},
                        }
                    }
                    let _old = fields.remove(i);
                    fields.insert(i, (k, v));
                } else {
                    proof {
                        lemma_first_index(fs, k@);
                        assert(first_index(fs, k@) is None);
                    }
                    fields.push((k, v));
                }
                let r = JsonValue::Object(fields);
                proof {
                    if found {
                        assert(r@->Object_0 =~= fs.update(i as int, (k@, v@)));
                    } else {
                        assert(r@->Object_0 =~= fs.push((k@, v@)));
                    }
                }
                r
            },
            other => other,
        }
    }
}

} // verus!
