//! A self-contained model of JSON values.
//!
//! The wire protocol of this library is JSON, but the logic never touches an
//! outside parser's value type directly: every payload is held as a [`Json`]
//! value, whose mathematical model is [`JsonV`].  Numbers are integers; the
//! envelopes this library handles carry no fractional numbers.

use vstd::prelude::*;

verus! {

/// One `key: value` field of a JSON object.
#[derive(Debug, PartialEq)]
pub struct JsonField {
    pub key: String,
    pub value: Json,
}

/// An in-memory JSON value: the input of the payload decoder and the output
/// of the response encoder.
#[derive(Debug, PartialEq)]
pub enum Json {
    Null,
    Bool(bool),
    Int(i64),
    Str(String),
    Arr(Vec<Json>),
    Obj(Vec<JsonField>),
}

/// The mathematical model of a [`Json`] value.
pub enum JsonV {
    Null,
    Bool(bool),
    Int(int),
    Str(Seq<char>),
    Arr(Seq<JsonV>),
    Obj(Seq<(Seq<char>, JsonV)>),
}

/// The models of a sequence of array elements.
pub open spec fn spec_items_view(items: Seq<Json>) -> Seq<JsonV>
    decreases items,
{
    Seq::new(
        items.len(),
        |i: int|
            if 0 <= i < items.len() {
                items[i].deep_view()
            } else {
                JsonV::Null
            },
    )
}

/// The models of a sequence of object fields.
pub open spec fn spec_fields_view(fields: Seq<JsonField>) -> Seq<(Seq<char>, JsonV)>
    decreases fields,
{
    Seq::new(
        fields.len(),
        |i: int|
            if 0 <= i < fields.len() {
                (fields[i].key@, fields[i].value.deep_view())
            } else {
                (Seq::empty(), JsonV::Null)
            },
    )
}

impl DeepView for Json {
    type V = JsonV;

    open spec fn deep_view(&self) -> JsonV
        decreases self,
    {
        match self {
            Json::Null => JsonV::Null,
            Json::Bool(b) => JsonV::Bool(*b),
            Json::Int(i) => JsonV::Int(*i as int),
            Json::Str(s) => JsonV::Str(s@),
            Json::Arr(items) => JsonV::Arr(spec_items_view(items@)),
            Json::Obj(fields) => JsonV::Obj(spec_fields_view(fields@)),
        }
    }
}

/// First-match lookup of a key among an object's fields.
pub open spec fn spec_fields_get(fields: Seq<(Seq<char>, JsonV)>, key: Seq<char>) -> Option<JsonV>
    decreases fields.len(),
{
    if fields.len() == 0 {
        None
    } else if fields[0].0 == key {
        Some(fields[0].1)
    } else {
        spec_fields_get(fields.drop_first(), key)
    }
}

/// Looks a key up in a JSON value: `None` unless the value is an object with
/// that key.
pub open spec fn spec_get(v: JsonV, key: Seq<char>) -> Option<JsonV> {
    match v {
        JsonV::Obj(fields) => spec_fields_get(fields, key),
        _ => None,
    }
}

/// The string under a key, if the value is an object and the key holds a string.
pub open spec fn spec_get_str(v: JsonV, key: Seq<char>) -> Option<Seq<char>> {
    match spec_get(v, key) {
        Some(JsonV::Str(s)) => Some(s),
        _ => None,
    }
}

/// Compares two string slices by their character sequences.
pub fn str_eq(a: &str, b: &str) -> (r: bool)
    ensures
        r == (a@ == b@),
{
    let sa: String = a.to_owned();
    let sb: String = b.to_owned();
    sa == sb
}

/// Clones a vector of array elements, preserving each element's model.
pub fn clone_items(items: &Vec<Json>) -> (r: Vec<Json>)
    ensures
        spec_items_view(r@) == spec_items_view(items@),
        r.deep_view() == items.deep_view(),
    decreases items@,
{
    let mut out: Vec<Json> = Vec::new();
    let n = items.len();
    for i in 0..n
        invariant
            n == items.len(),
            out@.len() == i,
            forall|k: int| 0 <= k < i ==> #[trigger] out@[k].deep_view() == items@[k].deep_view(),
    {
        let c = items[i].deep_clone();
        out.push(c);
    }
    proof {
        assert forall|k: int| 0 <= k < out@.len() implies spec_items_view(out@)[k] == spec_items_view(
            items@,
        )[k] by {
            assert(out@[k].deep_view() == items@[k].deep_view());
        }
        assert(spec_items_view(out@) =~= spec_items_view(items@));
        assert forall|k: int| 0 <= k < out@.len() implies out.deep_view()[k] == items.deep_view()[k] by {
            assert(out@[k].deep_view() == items@[k].deep_view());
        }
        assert(out.deep_view() =~= items.deep_view());
    }
    out
}

/// Clones a vector of object fields, preserving each field's model.
pub fn clone_fields(fields: &Vec<JsonField>) -> (r: Vec<JsonField>)
    ensures
        spec_fields_view(r@) == spec_fields_view(fields@),
    decreases fields@,
{
    let mut out: Vec<JsonField> = Vec::new();
    let n = fields.len();
    for i in 0..n
        invariant
            n == fields.len(),
            out@.len() == i,
            forall|k: int|
                0 <= k < i ==> #[trigger] out@[k].value.deep_view() == fields@[k].value.deep_view(),
            forall|k: int| 0 <= k < i ==> #[trigger] out@[k].key@ == fields@[k].key@,
    {
        let v = fields[i].value.deep_clone();
        let k = fields[i].key.clone();
        out.push(JsonField { key: k, value: v });
    }
    proof {
        assert forall|k: int| 0 <= k < out@.len() implies spec_fields_view(out@)[k]
            == spec_fields_view(fields@)[k] by {
            assert(out@[k].value.deep_view() == fields@[k].value.deep_view());
            assert(out@[k].key@ == fields@[k].key@);
        }
        assert(spec_fields_view(out@) =~= spec_fields_view(fields@));
    }
    out
}

impl Json {
    /// Clones this value, preserving its model.
    pub fn deep_clone(&self) -> (r: Json)
        ensures
            r.deep_view() == self.deep_view(),
        decreases self,
    {
        match self {
            Json::Null => Json::Null,
            Json::Bool(b) => Json::Bool(*b),
            Json::Int(i) => Json::Int(*i),
            Json::Str(s) => Json::Str(s.clone()),
            Json::Arr(items) => Json::Arr(clone_items(items)),
            Json::Obj(fields) => Json::Obj(clone_fields(fields)),
        }
    }

    /// The field under `key`, if this value is an object that has it.
    pub fn get<'a>(&'a self, key: &str) -> (r: Option<&'a Json>)
        ensures
            match r {
                Some(j) => spec_get(self.deep_view(), key@) == Some(j.deep_view()),
                None => spec_get(self.deep_view(), key@) is None,
            },
    {
        match self {
            Json::Obj(fields) => {
                let ghost fv = spec_fields_view(fields@);
                proof {
                    assert(fv.skip(0) =~= fv);
                }
                let n = fields.len();
                for i in 0..n
                    invariant
                        n == fields.len(),
                        fv == spec_fields_view(fields@),
                        self.deep_view() == JsonV::Obj(fv),
                        spec_fields_get(fv, key@) == spec_fields_get(fv.skip(i as int), key@),
                {
                    proof {
                        assert(fv.skip(i as int)[0] == fv[i as int]);
                    }
                    if str_eq(fields[i].key.as_str(), key) {
                        return Some(&fields[i].value);
                    }
                    proof {
                        assert(fv.skip(i as int).drop_first() =~= fv.skip(i + 1));
                    }
                }
                proof {
                    assert(fv.skip(n as int).len() == 0);
                }
                None
            },
            _ => None,
        }
    }

    /// The string under `key`, if this value is an object holding one there.
    pub fn get_str<'a>(&'a self, key: &str) -> (r: Option<&'a String>)
        ensures
            match r {
                Some(s) => spec_get_str(self.deep_view(), key@) == Some(s@),
                None => spec_get_str(self.deep_view(), key@) is None,
            },
    {
        match self.get(key) {
            Some(Json::Str(s)) => Some(s),
            _ => None,
        }
    }
}

} // verus!
