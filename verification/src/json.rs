//! The JSON trees the client sends and receives. `Json` is the executable
//! tree; its view `JsonV` is the mathematical tree over which every contract
//! in the crate is stated. Wire bodies hold only null, booleans, 64-bit
//! integers, strings, arrays and objects; object members keep their order.
use vstd::prelude::*;

verus! {

/// Mathematical JSON tree: unbounded integers, character sequences,
/// sequences of children, object members as ordered key/value pairs.
#[verifier::ext_equal]
pub enum JsonV {
    Null,
    Bool(bool),
    Int(int),
    Str(Seq<char>),
    Arr(Seq<JsonV>),
    Obj(Seq<(Seq<char>, JsonV)>),
}

/// Executable JSON tree.
#[derive(Debug, PartialEq)]
pub enum Json {
    Null,
    Bool(bool),
    Int(i64),
    Str(String),
    Arr(Vec<Json>),
    Obj(Vec<(String, Json)>),
}

/// The mathematical tree a `Json` value stands for.
pub open spec fn json_view(j: Json) -> JsonV
    decreases j,
{
    match j {
        Json::Null => JsonV::Null,
        Json::Bool(b) => JsonV::Bool(b),
        Json::Int(n) => JsonV::Int(n as int),
        Json::Str(s) => JsonV::Str(s@),
        Json::Arr(items) => JsonV::Arr(
            Seq::new(
                items@.len(),
                |i: int|
                    if 0 <= i < items@.len() {
                        json_view(items@[i])
                    } else {
                        JsonV::Null
                    },
            ),
        ),
        Json::Obj(fields) => JsonV::Obj(
            Seq::new(
                fields@.len(),
                |i: int|
                    if 0 <= i < fields@.len() {
                        (fields@[i].0@, json_view(fields@[i].1))
                    } else {
                        (Seq::empty(), JsonV::Null)
                    },
            ),
        ),
    }
}

impl View for Json {
    type V = JsonV;

    open spec fn view(&self) -> JsonV {
        json_view(*self)
    }
}

/// Trees whose integers fit in an `i64`; every tree built by executable code
/// satisfies this.
pub open spec fn wf_json(v: JsonV) -> bool
    decreases v,
{
    match v {
        JsonV::Null => true,
        JsonV::Bool(_) => true,
        JsonV::Int(n) => i64::MIN <= n <= i64::MAX,
        JsonV::Str(_) => true,
        JsonV::Arr(items) => forall|i: int| 0 <= i < items.len() ==> wf_json(#[trigger] items[i]),
        JsonV::Obj(fields) => forall|i: int|
            0 <= i < fields.len() ==> wf_json(#[trigger] fields[i].1),
    }
}

/// The view of an executable tree is always well-formed.
pub proof fn lemma_view_wf(j: Json)
    ensures
        wf_json(j@),
    decreases j,
{
    match j {
        Json::Null => {},
        Json::Bool(_) => {},
        Json::Int(_) => {},
        Json::Str(_) => {},
        Json::Arr(items) => {
            let s = j@->Arr_0;
            assert forall|i: int| 0 <= i < s.len() implies wf_json(#[trigger] s[i]) by {
                assert(s[i] == json_view(items@[i]));
                lemma_view_wf(items@[i]);
            }
        },
        Json::Obj(fields) => {
            let s = j@->Obj_0;
            assert forall|i: int| 0 <= i < s.len() implies wf_json(#[trigger] s[i].1) by {
                assert(s[i].1 == json_view(fields@[i].1));
                lemma_view_wf(fields@[i].1);
            }
        },
    }
}

/// The value of the first member of `fields` named `key`, if any.
pub open spec fn obj_lookup(fields: Seq<(Seq<char>, JsonV)>, key: Seq<char>) -> Option<JsonV>
    decreases fields.len(),
{
    if fields.len() == 0 {
        None
    } else if fields[0].0 == key {
        Some(fields[0].1)
    } else {
        obj_lookup(fields.drop_first(), key)
    }
}

/// If the first match for `key` stands at position `i`, lookup returns it.
proof fn lemma_obj_lookup_found(fs: Seq<(Seq<char>, JsonV)>, key: Seq<char>, i: int)
    requires
        0 <= i < fs.len(),
        forall|k: int| 0 <= k < i ==> (#[trigger] fs[k]).0 != key,
        fs[i].0 == key,
    ensures
        obj_lookup(fs, key) == Some(fs[i].1),
    decreases i,
{
    if i == 0 {
    } else {
        assert(fs[0].0 != key);
        let rest = fs.drop_first();
        assert(forall|k: int| 0 <= k < i - 1 ==> (#[trigger] rest[k]).0 != key);
        assert(rest[i - 1] == fs[i]);
        lemma_obj_lookup_found(rest, key, i - 1);
    }
}

/// If no member is named `key`, lookup returns nothing.
proof fn lemma_obj_lookup_absent(fs: Seq<(Seq<char>, JsonV)>, key: Seq<char>)
    requires
        forall|k: int| 0 <= k < fs.len() ==> (#[trigger] fs[k]).0 != key,
    ensures
        obj_lookup(fs, key) is None,
    decreases fs.len(),
{
    if fs.len() > 0 {
        assert(fs[0].0 != key);
        let rest = fs.drop_first();
        assert(forall|k: int| 0 <= k < rest.len() ==> (#[trigger] rest[k]).0 != key);
        lemma_obj_lookup_absent(rest, key);
    }
}

impl Json {
    /// A copy of the tree, equal at the view level.
    #[verifier::loop_isolation(false)]
    pub fn deep_clone(&self) -> (r: Json)
        ensures
            r@ == self@,
        decreases self,
    {
        match self {
            Json::Null => Json::Null,
            Json::Bool(b) => Json::Bool(*b),
            Json::Int(n) => Json::Int(*n),
            Json::Str(s) => Json::Str(s.clone()),
            Json::Arr(items) => {
                let mut out: Vec<Json> = Vec::new();
                let mut i: usize = 0;
                while i < items.len()
                    invariant
                        i <= items.len(),
                        out@.len() == i,
                        forall|k: int| 0 <= k < i ==> (#[trigger] out@[k])@ == items@[k]@,
                    decreases items.len() - i,
                {
                    let c = items[i].deep_clone();
                    out.push(c);
                    i = i + 1;
                }
                let r = Json::Arr(out);
                proof {
                    assert(r@->Arr_0 =~= self@->Arr_0);
                }
                r
            },
            Json::Obj(fields) => {
                let mut out: Vec<(String, Json)> = Vec::new();
                let mut i: usize = 0;
                while i < fields.len()
                    invariant
                        i <= fields.len(),
                        out@.len() == i,
                        forall|k: int|
                            0 <= k < i ==> (#[trigger] out@[k]).0@ == fields@[k].0@ && out@[k].1@
                                == fields@[k].1@,
                    decreases fields.len() - i,
                {
                    let (name, value) = &fields[i];
                    let c = value.deep_clone();
                    out.push((name.clone(), c));
                    i = i + 1;
                }
                let r = Json::Obj(out);
                proof {
                    assert(r@->Obj_0 =~= self@->Obj_0);
                }
                r
            },
        }
    }

    /// The value of the first member named `key` of an object tree.
    #[verifier::loop_isolation(false)]
    pub fn get<'a>(&'a self, key: &str) -> (r: Option<&'a Json>)
        ensures
            match r {
                Some(v) => self@ matches JsonV::Obj(fields) && obj_lookup(fields, key@) == Some(
                    v@,
                ),
                None => !(self@ matches JsonV::Obj(fields) && obj_lookup(fields, key@) is Some),
            },
    {
        match self {
            Json::Obj(fields) => {
                proof {
                    assert(*self matches Json::Obj(f) && f@ == fields@);
                    assert(self@ matches JsonV::Obj(fs));
                }
                let ghost fs = self@->Obj_0;
                proof {
                    assert forall|k: int| 0 <= k < fields@.len() implies (#[trigger] fs[k]) == (
                        fields@[k].0@,
                        fields@[k].1@,
                    ) by {}
                }
                let mut i: usize = 0;
                while i < fields.len()
                    invariant
                        i <= fields.len(),
                        forall|k: int| 0 <= k < i ==> (#[trigger] fs[k]).0 != key@,
                    decreases fields.len() - i,
                {
                    let (name, value) = &fields[i];
                    if crate::strutil::str_eq(name.as_str(), key) {
                        proof {
                            lemma_obj_lookup_found(fs, key@, i as int);
                        }
                        return Some(value);
                    }
                    i = i + 1;
                }
                proof {
                    lemma_obj_lookup_absent(fs, key@);
                }
                None
            },
            _ => None,
        }
    }
}

} // verus!
