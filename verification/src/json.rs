use vstd::prelude::*;

use crate::text::str_equal;

verus! {

/// A JSON document held as plain values; a number keeps its decimal text.
#[derive(Debug, PartialEq)]
pub enum JsonValue {
    Null,
    Bool(bool),
    Number(String),
    Str(String),
    Array(Vec<JsonValue>),
    Object(Vec<(String, JsonValue)>),
}

/// What a JSON document means: the same tree over mathematical strings.
pub enum JsonData {
    Null,
    Bool(bool),
    Number(Seq<char>),
    Str(Seq<char>),
    Array(Seq<JsonData>),
    Object(Seq<(Seq<char>, JsonData)>),
}

/// The meaning of a document.
pub open spec fn json_data(v: JsonValue) -> JsonData
    decreases v,
{
    match v {
        JsonValue::Null => JsonData::Null,
        JsonValue::Bool(b) => JsonData::Bool(b),
        JsonValue::Number(n) => JsonData::Number(n@),
        JsonValue::Str(s) => JsonData::Str(s@),
        JsonValue::Array(items) => JsonData::Array(items_data(items@)),
        JsonValue::Object(fields) => JsonData::Object(fields_data(fields@)),
    }
}

impl View for JsonValue {
    type V = JsonData;

    open spec fn view(&self) -> JsonData {
        json_data(*self)
    }
}


impl JsonData {
    /// The value that an object holds under `key` (its first field of that name);
    /// `None` for a value that is not an object or has no such field.
    pub open spec fn field(self, key: Seq<char>) -> Option<JsonData> {
        match self {
            JsonData::Object(fields) => field_in(fields, key),
            _ => None,
        }
    }

    /// The text of a string value.
    pub open spec fn text(self) -> Option<Seq<char>> {
        match self {
            JsonData::Str(s) => Some(s),
            _ => None,
        }
    }
}

/// The value of the first field named `key`.
pub open spec fn field_in(fields: Seq<(Seq<char>, JsonData)>, key: Seq<char>) -> Option<JsonData>
    decreases fields.len(),
{
    if fields.len() == 0 {
        None
    } else if fields[0].0 == key {
        Some(fields[0].1)
    } else {
        field_in(fields.drop_first(), key)
    }
}

/// The meanings of a list of documents.
pub open spec fn items_data(items: Seq<JsonValue>) -> Seq<JsonData>
    decreases items,
{
    Seq::new(
        items.len(),
        |i: int|
            if 0 <= i < items.len() {
                json_data(items[i])
            } else {
                JsonData::Null
            },
    )
}

/// The meaning of one field of an object.
pub open spec fn field_data(field: (String, JsonValue)) -> (Seq<char>, JsonData)
    decreases field,
{
    (field.0@, json_data(field.1))
}

/// The meanings of the fields of an object.
pub open spec fn fields_data(fields: Seq<(String, JsonValue)>) -> Seq<(Seq<char>, JsonData)>
    decreases fields,
{
    Seq::new(
        fields.len(),
        |i: int|
            if 0 <= i < fields.len() {
                field_data(fields[i])
            } else {
                (Seq::empty(), JsonData::Null)
            },
    )
}

impl JsonValue {
    /// The value that an object holds under `key`, as `serde_json::Value::get` gives it.
    pub fn get(&self, key: &str) -> (found: Option<&JsonValue>)
        ensures
            match found {
                Some(v) => self@.field(key@) == Some(v@),
                None => self@.field(key@) is None,
            },
    {
        match self {
            JsonValue::Object(fields) => {
                let ghost all = fields_data(fields@);
                let mut i: usize = 0;
                assert(all.skip(0) =~= all);
                while i < fields.len()
                    invariant
                        *self == JsonValue::Object(*fields),
                        all == fields_data(fields@),
                        i <= fields.len(),
                        field_in(all, key@) == field_in(all.skip(i as int), key@),
                    decreases fields.len() - i,
                {
                    proof {
                        assert(all.skip(i as int).drop_first() =~= all.skip(i + 1));
                        assert(all.skip(i as int)[0] == field_data(fields@[i as int]));
                    }
                    if str_equal(fields[i].0.as_str(), key) {
                        return Some(&fields[i].1);
                    }
                    i = i + 1;
                }
                assert(all.skip(i as int).len() == 0);
                None
            },
            _ => None,
        }
    }

    /// The text of a string value, as `serde_json::Value::as_str` gives it.
    pub fn as_str(&self) -> (text: Option<&str>)
        ensures
            match text {
                Some(t) => self@.text() == Some(t@),
                None => self@.text() is None,
            },
    {
        match self {
            JsonValue::Str(s) => Some(s.as_str()),
            _ => None,
        }
    }

    /// A copy of the document with the same meaning.
    pub fn duplicate(&self) -> (copy: JsonValue)
        ensures
            copy@ == self@,
        decreases self,
    {
        match self {
            JsonValue::Null => JsonValue::Null,
            JsonValue::Bool(b) => JsonValue::Bool(*b),
            JsonValue::Number(n) => JsonValue::Number(n.clone()),
            JsonValue::Str(s) => JsonValue::Str(s.clone()),
            JsonValue::Array(items) => {
                let mut out: Vec<JsonValue> = Vec::new();
                for i in 0..items.len()
                    invariant
                        *self == JsonValue::Array(*items),
                        out@.len() == i,
                        forall|j: int| 0 <= j < i ==> #[trigger] json_data(out@[j]) == json_data(items@[j]),
                {
                    proof {
                        assert(decreases_to!(*self => (*self)->Array_0));
                        assert(decreases_to!(*items => items@));
                        assert(decreases_to!(items@ => items@[i as int]));
                    }
                    out.push(items[i].duplicate());
                }
                assert(out@.len() == items@.len());
                assert(forall|k: int| 0 <= k < out@.len() ==> json_data(out@[k]) == json_data(items@[k]));
                assert(items_data(out@) =~= items_data(items@));
                JsonValue::Array(out)
            },
            JsonValue::Object(fields) => {
                let mut out: Vec<(String, JsonValue)> = Vec::new();
                for i in 0..fields.len()
                    invariant
                        *self == JsonValue::Object(*fields),
                        out@.len() == i,
                        forall|j: int|
                            0 <= j < i ==> #[trigger] field_data(out@[j]) == field_data(fields@[j]),
                {
                    proof {
                        assert(decreases_to!(*self => (*self)->Object_0));
                        assert(decreases_to!(*fields => fields@));
                        assert(decreases_to!(fields@ => fields@[i as int]));
                        assert(decreases_to!(fields@[i as int] => fields@[i as int].1));
                    }
                    let key = fields[i].0.clone();
                    let value = fields[i].1.duplicate();
                    out.push((key, value));
                }
                assert(out@.len() == fields@.len());
                assert(forall|k: int| 0 <= k < out@.len() ==> field_data(out@[k]) == field_data(fields@[k]));
                assert(fields_data(out@) =~= fields_data(fields@));
                JsonValue::Object(out)
            },
        }
    }
}

} // verus!
