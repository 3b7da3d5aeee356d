//! A model of JSON values, rich enough for the protocol: the dispatcher's
//! contracts speak of `JsonModel`, the mathematical shape of a value, while
//! the transports move `JsonValue` in and out of the process.

use vstd::prelude::*;
use vstd::string::StrSliceExecFns;

verus! {

/// The mathematical shape of a JSON value. A number is carried as the IEEE
/// 754 bit pattern of the double a JSON number denotes.
#[verifier::ext_equal]
pub enum JsonModel {
    Null,
    Bool(bool),
    Num(u64),
    Text(Seq<char>),
    Arr(Seq<JsonModel>),
    Obj(Seq<(Seq<char>, JsonModel)>),
}

/// A JSON value as the transports hand it over: object fields keep their
/// order of insertion.
#[derive(Debug, PartialEq)]
pub enum JsonValue {
    Null,
    Bool(bool),
    Num(u64),
    Text(String),
    Arr(Vec<JsonValue>),
    Obj(Vec<(String, JsonValue)>),
}

impl JsonValue {
    pub open spec fn model(self) -> JsonModel
        decreases self,
    {
        match self {
            JsonValue::Null => JsonModel::Null,
            JsonValue::Bool(b) => JsonModel::Bool(b),
            JsonValue::Num(n) => JsonModel::Num(n),
            JsonValue::Text(s) => JsonModel::Text(s@),
            JsonValue::Arr(items) => JsonModel::Arr(
                Seq::new(
                    items@.len(),
                    |i: int|
                        if 0 <= i < items@.len() {
                            items[i].model()
                        } else {
                            JsonModel::Null
                        },
                ),
            ),
            JsonValue::Obj(fields) => JsonModel::Obj(
                Seq::new(
                    fields@.len(),
                    |i: int|
                        if 0 <= i < fields@.len() {
                            (fields[i].0@, fields[i].1.model())
                        } else {
                            (Seq::empty(), JsonModel::Null)
                        },
                ),
            ),
        }
    }
}

impl View for JsonValue {
    type V = JsonModel;

    open spec fn view(&self) -> JsonModel {
        self.model()
    }
}

/// The first field of `fields` named `key`, scanning left to right.
pub open spec fn obj_lookup(fields: Seq<(Seq<char>, JsonModel)>, key: Seq<char>) -> Option<
    JsonModel,
>
    decreases fields.len(),
{
    if fields.len() == 0 {
        None
    } else if fields[0].0 == key {
        Some(fields[0].1)
    } else {
        obj_lookup(fields.skip(1), key)
    }
}

/// Lookup of `key` in `v`: a value on an object holding the key, nothing on
/// any other value.
pub open spec fn json_get(v: JsonModel, key: Seq<char>) -> Option<JsonModel> {
    match v {
        JsonModel::Obj(fields) => obj_lookup(fields, key),
        _ => None,
    }
}

/// Character-by-character equality of two string slices.
pub fn str_eq(a: &str, b: &str) -> (r: bool)
    ensures
        r == (a@ == b@),
{
    let an = a.unicode_len();
    let bn = b.unicode_len();
    if an != bn {
        return false;
    }
    let mut i: usize = 0;
    while i < an
        invariant
            an == a@.len() == b@.len(),
            0 <= i <= an,
            forall|k: int| 0 <= k < i ==> a@[k] == b@[k],
        decreases an - i,
    {
        if a.get_char(i) != b.get_char(i) {
            return false;
        }
        i += 1;
    }
    assert(a@ =~= b@);
    true
}

impl JsonValue {
    /// The value of the field named `key`, on an object that holds one.
    #[verifier::loop_isolation(false)]
    pub fn get<'a>(&'a self, key: &str) -> (r: Option<&'a JsonValue>)
        ensures
            match r {
                Some(val) => json_get(self@, key@) == Some(val@),
                None => json_get(self@, key@) is None,
            },
    {
        match self {
            JsonValue::Obj(fields) => {
                let ghost m = self@->Obj_0;
                assert(m.skip(0) =~= m);
                let mut i: usize = 0;
                while i < fields.len()
                    invariant
                        0 <= i <= fields@.len(),
                        m.len() == fields@.len(),
                        forall|k: int|
                            0 <= k < fields@.len() ==> m[k] == (fields@[k].0@, fields@[k].1@),
                        obj_lookup(m, key@) == obj_lookup(m.skip(i as int), key@),
                    decreases fields@.len() - i,
                {
                    let pair = &fields[i];
                    if str_eq(pair.0.as_str(), key) {
                        assert(m.skip(i as int)[0] == m[i as int]);
                        assert(obj_lookup(m.skip(i as int), key@) == Some(m[i as int].1));
                        return Some(&pair.1);
                    }
                    assert(m.skip(i as int)[0] == m[i as int]);
                    assert(m.skip(i as int).skip(1) =~= m.skip(i + 1));
                    i += 1;
                }
                assert(m.skip(i as int) =~= Seq::<(Seq<char>, JsonModel)>::empty());
                None
            },
            _ => None,
        }
    }

    /// The string inside, on a text value.
    pub fn as_text<'a>(&'a self) -> (r: Option<&'a String>)
        ensures
            match r {
                Some(s) => self@ == JsonModel::Text(s@),
                None => !(self@ is Text),
            },
    {
        match self {
            JsonValue::Text(s) => Some(s),
            _ => None,
        }
    }
}

} // verus!
