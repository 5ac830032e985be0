//! A JSON-like value tree and the recursive structural merge used to
//! reconstruct entry-function call arguments.
//!
//! An entry-function call carries its arguments as an ordered list of
//! loosely-typed values; the decoder folds that list into a single value by
//! merging left to right: objects merge key by key (recursing into nested
//! objects, later values overwriting earlier ones), anything else is
//! replaced outright by the later value.

use vstd::prelude::*;

verus! {

broadcast use vstd::std_specs::vec::group_vec_axioms;

/// Executable JSON-like value. Objects keep their entries in insertion
/// order.
#[derive(Debug)]
pub enum JsonValue {
    Null,
    Bool(bool),
    Int(i64),
    Str(String),
    Arr(Vec<JsonValue>),
    Obj(Vec<(String, JsonValue)>),
}

/// Mathematical model of a `JsonValue`.
pub enum SpecJson {
    Null,
    Bool(bool),
    Int(int),
    Str(Seq<char>),
    Arr(Seq<SpecJson>),
    Obj(Seq<(Seq<char>, SpecJson)>),
}

/// Models of the elements of an array.
pub open spec fn deep_vals(s: Seq<JsonValue>) -> Seq<SpecJson>
    decreases s,
{
    Seq::new(
        s.len(),
        |i: int|
            if 0 <= i < s.len() {
                s[i].deep_view()
            } else {
                SpecJson::Null
            },
    )
}

/// Models of the entries of an object.
pub open spec fn deep_entries(s: Seq<(String, JsonValue)>) -> Seq<(Seq<char>, SpecJson)>
    decreases s,
{
    Seq::new(
        s.len(),
        |i: int|
            if 0 <= i < s.len() {
                (s[i].0@, s[i].1.deep_view())
            } else {
                (Seq::empty(), SpecJson::Null)
            },
    )
}

impl DeepView for JsonValue {
    type V = SpecJson;

    open spec fn deep_view(&self) -> SpecJson
        decreases self,
    {
        match self {
            JsonValue::Null => SpecJson::Null,
            JsonValue::Bool(b) => SpecJson::Bool(*b),
            JsonValue::Int(i) => SpecJson::Int(*i as int),
            JsonValue::Str(s) => SpecJson::Str(s@),
            JsonValue::Arr(items) => SpecJson::Arr(deep_vals(items@)),
            JsonValue::Obj(entries) => SpecJson::Obj(deep_entries(entries@)),
        }
    }
}

/// Index of the first entry carrying `key`, or -1 when no entry does.
pub open spec fn obj_find_key(entries: Seq<(Seq<char>, SpecJson)>, key: Seq<char>) -> int
    decreases entries.len(),
{
    if entries.len() == 0 {
        -1
    } else if entries[0].0 == key {
        0
    } else {
        let r = obj_find_key(entries.subrange(1, entries.len() as int), key);
        if r < 0 {
            -1
        } else {
            1 + r
        }
    }
}

/// The value stored under `key`, if any (first occurrence).
pub open spec fn spec_obj_get(entries: Seq<(Seq<char>, SpecJson)>, key: Seq<char>) -> Option<
    SpecJson,
> {
    let i = obj_find_key(entries, key);
    if i >= 0 {
        Some(entries[i].1)
    } else {
        None
    }
}

/// Merge of two values: two objects merge entry by entry, anything else is
/// replaced by the later value.
pub open spec fn spec_merged(dest: SpecJson, other: SpecJson) -> SpecJson
    decreases other,
{
    match (dest, other) {
        (SpecJson::Obj(d), SpecJson::Obj(o)) => SpecJson::Obj(spec_merged_entries(d, o)),
        (_, o) => o,
    }
}

/// Entries of `o` folded into `d`, left to right.
pub open spec fn spec_merged_entries(
    d: Seq<(Seq<char>, SpecJson)>,
    o: Seq<(Seq<char>, SpecJson)>,
) -> Seq<(Seq<char>, SpecJson)>
    decreases o,
{
    if o.len() == 0 {
        d
    } else {
        spec_upsert(spec_merged_entries(d, o.drop_last()), o.last())
    }
}

/// One entry folded into an object: an entry with the same key is merged in
/// place, a fresh key is appended.
pub open spec fn spec_upsert(
    d: Seq<(Seq<char>, SpecJson)>,
    kv: (Seq<char>, SpecJson),
) -> Seq<(Seq<char>, SpecJson)>
    decreases kv,
{
    let i = obj_find_key(d, kv.0);
    if i >= 0 {
        d.update(i, (kv.0, spec_merged(d[i].1, kv.1)))
    } else {
        d.push(kv)
    }
}

/// A non-empty list of values folded into one by `spec_merged`, left to
/// right.
pub open spec fn spec_merged_list(vs: Seq<SpecJson>) -> SpecJson
    decreases vs.len(),
{
    if vs.len() == 0 {
        SpecJson::Null
    } else if vs.len() == 1 {
        vs[0]
    } else {
        spec_merged(spec_merged_list(vs.drop_last()), vs.last())
    }
}

/// The merge of a list is built strictly left to right: extending the list
/// by one value merges that value into the accumulated result.
pub proof fn lemma_merged_list_step(vs: Seq<SpecJson>, v: SpecJson)
    requires
        vs.len() >= 1,
    ensures
        spec_merged_list(vs.push(v)) == spec_merged(spec_merged_list(vs), v),
{
    assert(vs.push(v).drop_last() =~= vs);
    assert(vs.push(v).last() == v);
}

proof fn lemma_obj_find_key_found(entries: Seq<(Seq<char>, SpecJson)>, key: Seq<char>, i: int)
    requires
        0 <= i < entries.len(),
        entries[i].0 == key,
        forall|j: int| 0 <= j < i ==> entries[j].0 != key,
    ensures
        obj_find_key(entries, key) == i,
    decreases entries.len(),
{
    if i == 0 {
    } else {
        let rest = entries.subrange(1, entries.len() as int);
        assert(rest[i - 1] == entries[i]);
        assert(forall|j: int| 0 <= j < i - 1 ==> rest[j] == entries[j + 1]);
        lemma_obj_find_key_found(rest, key, i - 1);
    }
}

proof fn lemma_obj_find_key_absent(entries: Seq<(Seq<char>, SpecJson)>, key: Seq<char>)
    requires
        forall|j: int| 0 <= j < entries.len() ==> entries[j].0 != key,
    ensures
        obj_find_key(entries, key) == -1,
    decreases entries.len(),
{
    if entries.len() > 0 {
        let rest = entries.subrange(1, entries.len() as int);
        assert(forall|j: int| 0 <= j < rest.len() ==> rest[j] == entries[j + 1]);
        lemma_obj_find_key_absent(rest, key);
    }
}

/// Two character-for-character equal strings; `==` on `&str` carries no
/// specification, so the comparison walks the characters.
pub fn str_eq(a: &str, b: &str) -> (r: bool)
    ensures
        r == (a@ == b@),
{
    let la = a.unicode_len();
    let lb = b.unicode_len();
    if la != lb {
        return false;
    }
    let mut i: usize = 0;
    while i < la
        invariant
            la == a@.len(),
            la == b@.len(),
            i <= la,
            forall|j: int| 0 <= j < i ==> a@[j] == b@[j],
        decreases la - i,
    {
        if a.get_char(i) != b.get_char(i) {
            return false;
        }
        i += 1;
    }
    proof {
        assert(a@ =~= b@);
    }
    true
}

impl JsonValue {
    /// The value stored under `key` when this value is an object holding
    /// that key (first occurrence); `None` otherwise.
    #[verifier::loop_isolation(false)]
    pub fn obj_get<'a>(&'a self, key: &str) -> (r: Option<&'a JsonValue>)
        ensures
            match r {
                Some(v) => self.deep_view() matches SpecJson::Obj(entries) && spec_obj_get(
                    entries,
                    key@,
                ) == Some(v.deep_view()),
                None => !(self.deep_view() matches SpecJson::Obj(entries) && spec_obj_get(
                    entries,
                    key@,
                ) is Some),
            },
    {
        match self {
            JsonValue::Obj(entries) => {
                let n = entries.len();
                let mut i: usize = 0;
                while i < n
                    invariant
                        n == entries@.len(),
                        i <= n,
                        forall|j: int| 0 <= j < i ==> deep_entries(entries@)[j].0 != key@,
                    decreases n - i,
                {
                    if str_eq(entries[i].0.as_str(), key) {
                        proof {
                            assert(deep_entries(entries@)[i as int].0 == key@);
                            lemma_obj_find_key_found(deep_entries(entries@), key@, i as int);
                            assert(self.deep_view() == SpecJson::Obj(deep_entries(entries@)));
                            assert(spec_obj_get(deep_entries(entries@), key@) == Some(
                                entries@[i as int].1.deep_view(),
                            ));
                        }
                        return Some(&entries[i].1);
                    }
                    proof {
                        assert(deep_entries(entries@)[i as int].0 == entries@[i as int].0@);
                    }
                    i += 1;
                }
                proof {
                    lemma_obj_find_key_absent(deep_entries(entries@), key@);
                }
                None
            },
            _ => None,
        }
    }
}

impl JsonValue {
    /// A structurally equal copy of this value.
    #[verifier::loop_isolation(false)]
    pub fn deep_clone(&self) -> (r: JsonValue)
        ensures
            r.deep_view() == self.deep_view(),
        decreases self,
    {
        match self {
            JsonValue::Null => JsonValue::Null,
            JsonValue::Bool(b) => JsonValue::Bool(*b),
            JsonValue::Int(i) => JsonValue::Int(*i),
            JsonValue::Str(s) => JsonValue::Str(s.clone()),
            JsonValue::Arr(items) => {
                let n = items.len();
                let mut out: Vec<JsonValue> = Vec::new();
                let mut i: usize = 0;
                while i < n
                    invariant
                        i <= n,
                        out@.len() == i,
                        forall|j: int|
                            0 <= j < i ==> #[trigger] out@[j].deep_view()
                                == items@[j].deep_view(),
                    decreases n - i,
                {
                    let c = items[i].deep_clone();
                    out.push(c);
                    i += 1;
                }
                proof {
                    assert forall|j: int| 0 <= j < out@.len() implies deep_vals(out@)[j]
                        == deep_vals(items@)[j] by {
                        assert(deep_vals(out@)[j] == out@[j].deep_view());
                        assert(deep_vals(items@)[j] == items@[j].deep_view());
                    }
                    assert(deep_vals(out@) =~= deep_vals(items@));
                }
                JsonValue::Arr(out)
            },
            JsonValue::Obj(entries) => {
                let n = entries.len();
                let mut out: Vec<(String, JsonValue)> = Vec::new();
                let mut i: usize = 0;
                while i < n
                    invariant
                        i <= n,
                        out@.len() == i,
                        forall|j: int|
                            0 <= j < i ==> #[trigger] out@[j].0@ == entries@[j].0@
                                && out@[j].1.deep_view() == entries@[j].1.deep_view(),
                    decreases n - i,
                {
                    let k = entries[i].0.clone();
                    let v = entries[i].1.deep_clone();
                    out.push((k, v));
                    i += 1;
                }
                proof {
                    assert(deep_entries(out@) =~= deep_entries(entries@));
                }
                JsonValue::Obj(out)
            },
        }
    }
}

/// A structurally equal copy of a list of values.
#[verifier::loop_isolation(false)]
pub fn deep_clone_vec(vals: &Vec<JsonValue>) -> (r: Vec<JsonValue>)
    ensures
        r@.len() == vals@.len(),
        deep_vals(r@) == deep_vals(vals@),
{
    let n = vals.len();
    let mut out: Vec<JsonValue> = Vec::new();
    let mut i: usize = 0;
    while i < n
        invariant
            i <= n,
            out@.len() == i,
            forall|j: int| 0 <= j < i ==> #[trigger] out@[j].deep_view() == vals@[j].deep_view(),
        decreases n - i,
    {
        let c = vals[i].deep_clone();
        out.push(c);
        i += 1;
    }
    proof {
        assert forall|j: int| 0 <= j < out@.len() implies deep_vals(out@)[j] == deep_vals(vals@)[j]
            by {
            assert(deep_vals(out@)[j] == out@[j].deep_view());
            assert(deep_vals(vals@)[j] == vals@[j].deep_view());
        }
        assert(deep_vals(out@) =~= deep_vals(vals@));
    }
    out
}

/// Merge of two owned values, the executable counterpart of `spec_merged`.
pub fn merged_values(dest: JsonValue, other: JsonValue) -> (r: JsonValue)
    ensures
        r.deep_view() == spec_merged(dest.deep_view(), other.deep_view()),
    decreases other,
{
    match (dest, other) {
        (JsonValue::Obj(d), JsonValue::Obj(o)) => {
            proof {
                assert(decreases_to!(JsonValue::Obj(o) => o));
                assert(decreases_to!(o => o@));
            }
            JsonValue::Obj(merged_obj_entries(d, o))
        },
        (_, o) => o,
    }
}

/// Folds every entry of `o` into `d`, left to right.
fn merged_obj_entries(d: Vec<(String, JsonValue)>, o: Vec<(String, JsonValue)>) -> (r: Vec<
    (String, JsonValue),
>)
    ensures
        deep_entries(r@) == spec_merged_entries(deep_entries(d@), deep_entries(o@)),
    decreases o@,
{
    let ghost o0 = o@;
    let mut rest = o;
    let last = rest.pop();
    match last {
        None => {
            proof {
                assert(deep_entries(o0).len() == 0);
            }
            d
        },
        Some(kv) => {
            proof {
                vstd::seq::axiom_seq_len_decreases(o0, rest@);
            }
            let prefix = merged_obj_entries(d, rest);
            proof {
                assert(kv == o0[o0.len() - 1]);
                assert(decreases_to!(o0 => kv));
                assert(deep_entries(o0).drop_last() =~= deep_entries(o0.drop_last()));
                assert(deep_entries(o0).last() == (kv.0@, kv.1.deep_view()));
            }
            upsert_entry(prefix, kv)
        },
    }
}

/// Folds one entry into an object's entries, the executable counterpart of
/// `spec_upsert`.
#[verifier::loop_isolation(false)]
fn upsert_entry(d: Vec<(String, JsonValue)>, kv: (String, JsonValue)) -> (r: Vec<
    (String, JsonValue),
>)
    ensures
        deep_entries(r@) == spec_upsert(deep_entries(d@), (kv.0@, kv.1.deep_view())),
    decreases kv,
{
    let ghost dv = deep_entries(d@);
    let mut acc = d;
    let n = acc.len();
    let mut i: usize = 0;
    while i < n
        invariant
            deep_entries(acc@) == dv,
            n == acc@.len(),
            dv.len() == n,
            i <= n,
            forall|j: int| 0 <= j < i ==> dv[j].0 != kv.0@,
        decreases n - i,
    {
        let hit = str_eq(acc[i].0.as_str(), kv.0.as_str());
        if hit {
            proof {
                assert(dv[i as int].0 == acc@[i as int].0@);
                lemma_obj_find_key_found(dv, kv.0@, i as int);
            }
            let ghost pre = acc@;
            let old_entry = acc.remove(i);
            proof {
                assert(decreases_to!(kv => kv.1));
            }
            let merged_child = merged_values(old_entry.1, kv.1);
            acc.insert(i, (kv.0, merged_child));
            proof {
                let p = i as int;
                let kvd = (kv.0@, kv.1.deep_view());
                let target = spec_upsert(dv, kvd);
                pre.remove_ensures(p);
                pre.remove(p).insert_ensures(p, (kv.0, merged_child));
                assert(acc@.len() == pre.len());
                assert forall|j: int| 0 <= j < acc@.len() implies deep_entries(acc@)[j]
                    == target[j] by {
                    if j < p {
                        assert(acc@[j] == pre.remove(p)[j]);
                        assert(acc@[j] == pre[j]);
                    } else if j == p {
                        assert(acc@[p] == (kv.0, merged_child));
                        assert(merged_child.deep_view() == spec_merged(dv[p].1, kvd.1));
                    } else {
                        assert(acc@[j] == pre.remove(p)[j - 1]);
                        assert(pre.remove(p)[j - 1] == pre[j]);
                    }
                }
                assert(deep_entries(acc@) =~= target);
            }
            return acc;
        }
        proof {
            assert(dv[i as int].0 == acc@[i as int].0@);
        }
        i += 1;
    }
    proof {
        lemma_obj_find_key_absent(dv, kv.0@);
    }
    acc.push(kv);
    proof {
        assert(deep_entries(acc@) =~= spec_upsert(dv, (kv.0@, kv.1.deep_view())));
    }
    acc
}

/// Merges `other` into `destination` in place.
pub fn merge_two_values(destination: &mut JsonValue, other: JsonValue)
    ensures
        final (destination).deep_view() == spec_merged(
            old(destination).deep_view(),
            other.deep_view(),
        ),
{
    let mut taken = JsonValue::Null;
    core::mem::swap(destination, &mut taken);
    *destination = merged_values(taken, other);
}

/// Folds a non-empty list of values into one, left to right.
pub fn merge_values_vector(values: Vec<JsonValue>) -> (r: JsonValue)
    requires
        values@.len() > 0,
    ensures
        r.deep_view() == spec_merged_list(deep_vals(values@)),
    decreases values@,
{
    let ghost v0 = values@;
    let mut vals = values;
    if vals.len() == 1 {
        let v = vals.remove(0);
        proof {
            assert(deep_vals(v0).len() == 1);
            assert(deep_vals(v0)[0] == v.deep_view());
        }
        v
    } else {
        let last = vals.pop();
        match last {
            None => vstd::pervasive::unreached(),
            Some(v) => {
                proof {
                    vstd::seq::axiom_seq_len_decreases(v0, vals@);
                }
                let acc = merge_values_vector(vals);
                proof {
                    assert(v == v0[v0.len() - 1]);
                    assert(decreases_to!(v0 => v));
                    assert(deep_vals(v0).drop_last() =~= deep_vals(v0.drop_last()));
                    assert(deep_vals(v0).last() == v.deep_view());
                }
                merged_values(acc, v)
            },
        }
    }
}

} // verus!
