//! A JSON document model owned by the library.
//!
//! Request bodies, object specs and schema documents are held as [`JsonValue`].
//! Numbers keep the decimal text they were written with; object members keep
//! their order, and a lookup by key finds the first member with that key.

use vstd::prelude::*;
use crate::text::str_equal;

verus! {

broadcast use vstd::std_specs::vec::group_vec_axioms;

/// A JSON value.
#[derive(Debug, PartialEq)]
pub enum JsonValue {
    Null,
    Bool(bool),
    /// The number's decimal text, e.g. `"42"` or `"-1.5e3"`.
    Number(String),
    String(String),
    Array(Vec<JsonValue>),
    /// Members in order; the first member with a key is the one a lookup sees.
    Object(Vec<(String, JsonValue)>),
}

/// Mathematical form of a [`JsonValue`].
pub enum JsonTree {
    Null,
    Bool(bool),
    Number(Seq<char>),
    Str(Seq<char>),
    Array(Seq<JsonTree>),
    Object(Seq<(Seq<char>, JsonTree)>),
}

impl JsonValue {
    pub open spec fn json(self) -> JsonTree
        decreases self,
    {
        match self {
            JsonValue::Null => JsonTree::Null,
            JsonValue::Bool(b) => JsonTree::Bool(b),
            JsonValue::Number(n) => JsonTree::Number(n@),
            JsonValue::String(s) => JsonTree::Str(s@),
            JsonValue::Array(items) => JsonTree::Array(
                Seq::new(
                    items.len() as nat,
                    |i: int| if 0 <= i < items.len() { items[i].json() } else { JsonTree::Null },
                ),
            ),
            JsonValue::Object(fields) => JsonTree::Object(
                Seq::new(
                    fields.len() as nat,
                    |i: int|
                        if 0 <= i < fields.len() {
                            (fields[i].0@, fields[i].1.json())
                        } else {
                            (Seq::empty(), JsonTree::Null)
                        },
                ),
            ),
        }
    }
}

impl View for JsonValue {
    type V = JsonTree;

    open spec fn view(&self) -> JsonTree {
        self.json()
    }
}

/// Index of the first member of `fields` whose key is `k`, if any.
pub open spec fn first_index(fields: Seq<(Seq<char>, JsonTree)>, k: Seq<char>) -> Option<int>
    decreases fields.len(),
{
    if fields.len() == 0 {
        None
    } else if fields[0].0 == k {
        Some(0)
    } else {
        match first_index(fields.drop_first(), k) {
            Some(i) => Some(i + 1),
            None => None,
        }
    }
}

pub proof fn lemma_first_index(fields: Seq<(Seq<char>, JsonTree)>, k: Seq<char>)
    ensures
        match first_index(fields, k) {
            Some(i) => 0 <= i < fields.len() && fields[i].0 == k
                && forall|j: int| 0 <= j < i ==> fields[j].0 != k,
            None => forall|j: int| 0 <= j < fields.len() ==> fields[j].0 != k,
        },
    decreases fields.len(),
{
    if fields.len() > 0 {
        lemma_first_index(fields.drop_first(), k);
        if fields[0].0 != k {
            match first_index(fields.drop_first(), k) {
                Some(i) => {
                    assert forall|j: int| 0 <= j < i + 1 implies fields[j].0 != k by {
                        if j > 0 {
                            assert(fields[j] == fields.drop_first()[j - 1]);
                        }
                    }
                },
                None => {
                    assert forall|j: int| 0 <= j < fields.len() implies fields[j].0 != k by {
                        if j > 0 {
                            assert(fields[j] == fields.drop_first()[j - 1]);
                        }
                    }
                },
            }
        }
    }
}

impl JsonTree {
    /// `self[key]` when `self` is an object: the first member with that key.
    pub open spec fn get(self, key: Seq<char>) -> Option<JsonTree> {
        match self {
            JsonTree::Object(fields) => match first_index(fields, key) {
                Some(i) => Some(fields[i].1),
                None => None,
            },
            _ => None,
        }
    }

    /// The text when `self` is a string.
    pub open spec fn as_str(self) -> Option<Seq<char>> {
        match self {
            JsonTree::Str(s) => Some(s),
            _ => None,
        }
    }

    /// The member keys when `self` is an object.
    pub open spec fn keys(self) -> Seq<Seq<char>> {
        match self {
            JsonTree::Object(fields) => fields.map_values(|f: (Seq<char>, JsonTree)| f.0),
            _ => Seq::empty(),
        }
    }
}

impl JsonValue {
    /// `value[key]` for an object; `None` for a missing key or a non-object.
    pub fn get(&self, key: &str) -> (r: Option<&JsonValue>)
        ensures
            r is None <==> self@.get(key@) is None,
            r matches Some(v) ==> Some(v@) == self@.get(key@),
    {
        match self {
            JsonValue::Object(fields) => {
                let ghost fs = self@->Object_0;
                proof {
                    assert(self@ is Object);
                    assert(fs.len() == fields.len());
                    assert(forall|j: int| 0 <= j < fields.len() ==> #[trigger] fs[j] == (fields@[j].0@, fields@[j].1@));
                    lemma_first_index(fs, key@);
                }
                let mut i: usize = 0;
                while i < fields.len()
                    invariant
                        0 <= i <= fields.len(),
                        fs.len() == fields.len(),
                        self@ == JsonTree::Object(fs),
                        forall|j: int| 0 <= j < fields.len() ==> #[trigger] fs[j] == (fields@[j].0@, fields@[j].1@),
                        forall|j: int| 0 <= j < i ==> fs[j].0 != key@,
                    decreases fields.len() - i,
                {
                    if str_equal(fields[i].0.as_str(), key) {
                        proof {
                            lemma_first_index(fs, key@);
                            assert(fs[i as int].0 == key@);
                            match first_index(fs, key@) {
                                Some(k) => {
                                    assert(k == i as int);
                                },
                                None => {},
                            }
                        }
                        return Some(&fields[i].1);
                    }
                    i = i + 1;
                }
                proof {
                    lemma_first_index(fs, key@);
                }
                None
            },
            _ => None,
        }
    }

    /// The text when `self` is a string.
    pub fn as_str(&self) -> (r: Option<&String>)
        ensures
            r is None <==> self@.as_str() is None,
            r matches Some(s) ==> self@.as_str() == Some(s@),
    {
        match self {
            JsonValue::String(s) => Some(s),
            _ => None,
        }
    }

    /// Whether `self` is an object.
    pub fn is_object(&self) -> (r: bool)
        ensures
            r == (self@ is Object),
    {
        match self {
            JsonValue::Object(_) => true,
            _ => false,
        }
    }

    /// A value with the same content as `self`.
    pub fn duplicate(&self) -> (r: JsonValue)
        ensures
            r@ == self@,
        decreases self,
    {
        match self {
            JsonValue::Null => JsonValue::Null,
            JsonValue::Bool(b) => JsonValue::Bool(*b),
            JsonValue::Number(n) => JsonValue::Number(n.clone()),
            JsonValue::String(s) => JsonValue::String(s.clone()),
            JsonValue::Array(items) => {
                let mut out: Vec<JsonValue> = Vec::new();
                let mut i: usize = 0;
                while i < items.len()
                    invariant
                        0 <= i <= items.len(),
                        out.len() == i,
                        *self == JsonValue::Array(*items),
                        forall|j: int| 0 <= j < i ==> #[trigger] out@[j]@ == items@[j]@,
                    decreases items.len() - i,
                {
                    proof {
                        assert(decreases_to!(*self => (*self)->Array_0));
                        assert(decreases_to!(*items => items[i as int]));
                        assert(decreases_to!(*self => items[i as int]));
                    }
                    let v = items[i].duplicate();
                    out.push(v);
                    i = i + 1;
                }
                let r = JsonValue::Array(out);
                proof {
                    assert(r@->Array_0.len() == self@->Array_0.len());
                    assert(forall|j: int| 0 <= j < items.len() ==> r@->Array_0[j] == out@[j]@);
                    assert(forall|j: int| 0 <= j < items.len() ==> self@->Array_0[j] == items@[j]@);
                    assert(r@->Array_0 =~= self@->Array_0);
                }
                r
            },
            JsonValue::Object(fields) => {
                let mut out: Vec<(String, JsonValue)> = Vec::new();
                let mut i: usize = 0;
                while i < fields.len()
                    invariant
                        0 <= i <= fields.len(),
                        out.len() == i,
                        *self == JsonValue::Object(*fields),
                        forall|j: int| 0 <= j < i ==> #[trigger] out@[j].0@ == fields@[j].0@ && out@[j].1@ == fields@[j].1@,
                    decreases fields.len() - i,
                {
                    proof {
                        assert(decreases_to!(*self => (*self)->Object_0));
                        assert(decreases_to!(*fields => fields[i as int]));
                        assert(decreases_to!(fields[i as int] => fields[i as int].1));
                        assert(decreases_to!(*self => fields[i as int].1));
                    }
                    let k = fields[i].0.clone();
                    let v = fields[i].1.duplicate();
                    out.push((k, v));
                    i = i + 1;
                }
                let r = JsonValue::Object(out);
                proof {
                    assert(r@->Object_0 =~= self@->Object_0);
                }
                r
            },
        }
    }
}

impl JsonValue {
    /// Whether `self` and `other` hold the same JSON value.
    pub fn same_as(&self, other: &JsonValue) -> (b: bool)
        ensures
            b == (self@ == other@),
        decreases self,
    {
        match (self, other) {
            (JsonValue::Null, JsonValue::Null) => true,
            (JsonValue::Bool(a), JsonValue::Bool(b)) => *a == *b,
            (JsonValue::Number(a), JsonValue::Number(b)) => str_equal(a.as_str(), b.as_str()),
            (JsonValue::String(a), JsonValue::String(b)) => str_equal(a.as_str(), b.as_str()),
            (JsonValue::Array(xs), JsonValue::Array(ys)) => {
                let ghost tx = self@->Array_0;
                let ghost ty = other@->Array_0;
                if xs.len() != ys.len() {
                    assert(tx.len() != ty.len());
                    return false;
                }
                let mut i: usize = 0;
                while i < xs.len()
                    invariant
                        0 <= i <= xs.len(),
                        xs.len() == ys.len(),
                        *self == JsonValue::Array(*xs),
                        tx == self@->Array_0,
                        ty == other@->Array_0,
                        tx.len() == xs.len() && ty.len() == ys.len(),
                        forall|j: int| 0 <= j < xs.len() ==> tx[j] == #[trigger] xs@[j]@,
                        forall|j: int| 0 <= j < ys.len() ==> ty[j] == #[trigger] ys@[j]@,
                        forall|j: int| 0 <= j < i ==> tx[j] == ty[j],
                    decreases xs.len() - i,
                {
                    proof {
                        assert(decreases_to!(*self => (*self)->Array_0));
                        assert(decreases_to!(*xs => xs[i as int]));
                        assert(decreases_to!(*self => xs[i as int]));
                    }
                    if !xs[i].same_as(&ys[i]) {
                        assert(tx[i as int] != ty[i as int]);
                        return false;
                    }
                    i = i + 1;
                }
                assert(tx =~= ty);
                true
            },
            (JsonValue::Object(xs), JsonValue::Object(ys)) => {
                let ghost tx = self@->Object_0;
                let ghost ty = other@->Object_0;
                if xs.len() != ys.len() {
                    assert(tx.len() != ty.len());
                    return false;
                }
                let mut i: usize = 0;
                while i < xs.len()
                    invariant
                        0 <= i <= xs.len(),
                        xs.len() == ys.len(),
                        *self == JsonValue::Object(*xs),
                        tx == self@->Object_0,
                        ty == other@->Object_0,
                        tx.len() == xs.len() && ty.len() == ys.len(),
                        forall|j: int| 0 <= j < xs.len() ==> tx[j] == (#[trigger] xs@[j].0@, xs@[j].1@),
                        forall|j: int| 0 <= j < ys.len() ==> ty[j] == (#[trigger] ys@[j].0@, ys@[j].1@),
                        forall|j: int| 0 <= j < i ==> tx[j] == ty[j],
                    decreases xs.len() - i,
                {
                    proof {
                        assert(decreases_to!(*self => (*self)->Object_0));
                        assert(decreases_to!(*xs => xs[i as int]));
                        assert(decreases_to!(xs[i as int] => xs[i as int].1));
                        assert(decreases_to!(*self => xs[i as int].1));
                    }
                    if !str_equal(xs[i].0.as_str(), ys[i].0.as_str()) {
                        assert(tx[i as int] != ty[i as int]);
                        return false;
                    }
                    if !xs[i].1.same_as(&ys[i].1) {
                        assert(tx[i as int] != ty[i as int]);
                        return false;
                    }
                    i = i + 1;
                }
                assert(tx =~= ty);
                true
            },
            _ => false,
        }
    }
}

impl Clone for JsonValue {
    fn clone(&self) -> (r: JsonValue)
        ensures
            r@ == self@,
    {
        self.duplicate()
    }
}

} // verus!
