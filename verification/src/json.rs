//! A model of structured (JSON) payloads.
//!
//! Tool results and tool arguments travel as JSON text. The library holds
//! such data in [`JsonValue`], a plain tree of library types that verified
//! code can inspect. Parsing text into a tree is delegated to serde_json
//! behind two trusted items; everything that reads the tree afterwards is
//! verified against the mathematical model [`Json`].

use vstd::prelude::*;

verus! {

/// A JSON number, restricted to what the tool protocol uses.
///
/// Counts and identifiers are unsigned, process identifiers are signed.
/// A number that fits neither (a float, or an integer out of both ranges)
/// is carried as `Other`; every checked decoder rejects it.
#[derive(Clone, Copy, Debug, PartialEq, Eq, Structural)]
pub enum JsonNum {
    /// A number representable as `u64` (preferred for non-negative values).
    U(u64),
    /// A negative number representable as `i64`.
    I(i64),
    /// A number representable as neither (a float or out of range).
    Other,
}

/// A structured payload value, as verified code sees it.
#[derive(Debug)]
pub enum JsonValue {
    Null,
    Bool(bool),
    Num(JsonNum),
    Str(String),
    Arr(Vec<JsonValue>),
    Obj(Vec<(String, JsonValue)>),
}

/// The mathematical model of a payload value: strings become character
/// sequences, vectors become sequences. Contracts speak of this type.
pub enum Json {
    Null,
    Bool(bool),
    Num(JsonNum),
    Str(Seq<char>),
    Arr(Seq<Json>),
    Obj(Seq<(Seq<char>, Json)>),
}

impl JsonValue {
    /// The model of this value.
    pub open spec fn deep(self) -> Json
        decreases self,
    {
        match self {
            JsonValue::Null => Json::Null,
            JsonValue::Bool(b) => Json::Bool(b),
            JsonValue::Num(n) => Json::Num(n),
            JsonValue::Str(s) => Json::Str(s@),
            JsonValue::Arr(items) => Json::Arr(
                Seq::new(
                    items.len() as nat,
                    |i: int|
                        if 0 <= i < items.len() {
                            items[i].deep()
                        } else {
                            Json::Null
                        },
                ),
            ),
            JsonValue::Obj(fields) => Json::Obj(
                Seq::new(
                    fields.len() as nat,
                    |i: int|
                        if 0 <= i < fields.len() {
                            (fields[i].0@, fields[i].1.deep())
                        } else {
                            (Seq::empty(), Json::Null)
                        },
                ),
            ),
        }
    }
}

/// The model of a sequence of object fields.
pub open spec fn fields_deep(fields: Seq<(String, JsonValue)>) -> Seq<(Seq<char>, Json)> {
    Seq::new(
        fields.len(),
        |i: int|
            if 0 <= i < fields.len() {
                (fields[i].0@, fields[i].1.deep())
            } else {
                (Seq::empty(), Json::Null)
            },
    )
}

/// The model of a sequence of array items.
pub open spec fn items_deep(items: Seq<JsonValue>) -> Seq<Json> {
    Seq::new(
        items.len(),
        |i: int|
            if 0 <= i < items.len() {
                items[i].deep()
            } else {
                Json::Null
            },
    )
}

/// An object value's model is the model of its fields.
pub proof fn lemma_obj_deep(fields: Vec<(String, JsonValue)>)
    ensures
        JsonValue::Obj(fields).deep() == Json::Obj(fields_deep(fields@)),
{
    let lhs = JsonValue::Obj(fields).deep();
    assert(lhs matches Json::Obj(s) && s =~= fields_deep(fields@));
}

/// An array value's model is the model of its items.
pub proof fn lemma_arr_deep(items: Vec<JsonValue>)
    ensures
        JsonValue::Arr(items).deep() == Json::Arr(items_deep(items@)),
{
    let lhs = JsonValue::Arr(items).deep();
    assert(lhs matches Json::Arr(s) && s =~= items_deep(items@));
}

/// The value bound to `key` among `fields`, taking the first occurrence.
pub open spec fn lookup_field(fields: Seq<(Seq<char>, Json)>, key: Seq<char>) -> Option<Json>
    decreases fields.len(),
{
    if fields.len() == 0 {
        None
    } else if fields[0].0 == key {
        Some(fields[0].1)
    } else {
        lookup_field(fields.drop_first(), key)
    }
}

proof fn lemma_lookup_skip(fields: Seq<(Seq<char>, Json)>, key: Seq<char>, i: int)
    requires
        0 <= i <= fields.len(),
        forall|j: int| 0 <= j < i ==> fields[j].0 != key,
    ensures
        lookup_field(fields, key) == lookup_field(fields.skip(i), key),
    decreases i,
{
    if i > 0 {
        assert(fields.skip(1) =~= fields.drop_first());
        assert(forall|j: int|
            0 <= j < i - 1 ==> #[trigger] fields.drop_first()[j].0 == fields[j + 1].0);
        lemma_lookup_skip(fields.drop_first(), key, i - 1);
        assert(fields.drop_first().skip(i - 1) =~= fields.skip(i));
    } else {
        assert(fields.skip(0) =~= fields);
    }
}

impl JsonValue {
    /// A structurally equal copy of this value.
    pub fn duplicate(&self) -> (r: JsonValue)
        ensures
            r.deep() == self.deep(),
        decreases *self,
    {
        match self {
            JsonValue::Null => JsonValue::Null,
            JsonValue::Bool(b) => JsonValue::Bool(*b),
            JsonValue::Num(n) => JsonValue::Num(*n),
            JsonValue::Str(s) => JsonValue::Str(s.clone()),
            JsonValue::Arr(items) => {
                let mut out: Vec<JsonValue> = Vec::new();
                let mut i: usize = 0;
                while i < items.len()
                    invariant
                        *self == JsonValue::Arr(*items),
                        i <= items.len(),
                        out.len() == i,
                        forall|j: int| 0 <= j < i ==> out[j].deep() == items[j].deep(),
                    decreases items.len() - i,
                {
                    proof {
                        broadcast use vstd::std_specs::vec::group_vec_axioms;

                        assert(decreases_to!(*self => self->Arr_0));
                        assert(decreases_to!(*items => items[i as int]));
                    }
                    out.push(items[i].duplicate());
                    i = i + 1;
                }
                let r = JsonValue::Arr(out);
                proof {
                    assert(r.deep() matches Json::Arr(s1) && self.deep() matches Json::Arr(s2)
                        && s1 =~= s2);
                }
                r
            },
            JsonValue::Obj(fields) => {
                let mut out: Vec<(String, JsonValue)> = Vec::new();
                let mut i: usize = 0;
                while i < fields.len()
                    invariant
                        *self == JsonValue::Obj(*fields),
                        i <= fields.len(),
                        out.len() == i,
                        forall|j: int|
                            0 <= j < i ==> out[j].0@ == fields[j].0@ && out[j].1.deep()
                                == fields[j].1.deep(),
                    decreases fields.len() - i,
                {
                    proof {
                        broadcast use vstd::std_specs::vec::group_vec_axioms;

                        assert(decreases_to!(*self => self->Obj_0));
                        assert(decreases_to!(*fields => fields[i as int]));
                        assert(decreases_to!(fields[i as int] => fields[i as int].1));
                    }
                    out.push((fields[i].0.clone(), fields[i].1.duplicate()));
                    i = i + 1;
                }
                let r = JsonValue::Obj(out);
                proof {
                    assert(r.deep() matches Json::Obj(s1) && self.deep() matches Json::Obj(s2)
                        && s1 =~= s2);
                }
                r
            },
        }
    }
}

/// Look up `key` among object fields, taking the first occurrence.
pub fn get_field<'a>(fields: &'a Vec<(String, JsonValue)>, key: &str) -> (r: Option<
    &'a JsonValue,
>)
    ensures
        match r {
            Some(v) => lookup_field(fields_deep(fields@), key@) == Some(v.deep()),
            None => lookup_field(fields_deep(fields@), key@) is None,
        },
{
    let ghost model = fields_deep(fields@);
    let mut i: usize = 0;
    while i < fields.len()
        invariant
            i <= fields.len(),
            model == fields_deep(fields@),
            forall|j: int| 0 <= j < i ==> #[trigger] model[j].0 != key@,
        decreases fields.len() - i,
    {
        if crate::text::str_eq(fields[i].0.as_str(), key) {
            proof {
                lemma_lookup_skip(model, key@, i as int);
                assert(model.skip(i as int)[0] == model[i as int]);
            }
            return Some(&fields[i].1);
        }
        i = i + 1;
    }
    proof {
        lemma_lookup_skip(model, key@, model.len() as int);
        assert(model.skip(model.len() as int).len() == 0);
    }
    None
}

/// The numeric value as `u64`, where it is representable.
pub open spec fn num_as_u64(n: JsonNum) -> Option<u64> {
    match n {
        JsonNum::U(u) => Some(u),
        JsonNum::I(i) => if 0 <= i {
            Some(i as u64)
        } else {
            None
        },
        JsonNum::Other => None,
    }
}

/// The numeric value as `i64`, where it is representable.
pub open spec fn num_as_i64(n: JsonNum) -> Option<i64> {
    match n {
        JsonNum::U(u) => if u <= i64::MAX {
            Some(u as i64)
        } else {
            None
        },
        JsonNum::I(i) => Some(i),
        JsonNum::Other => None,
    }
}

/// The numeric value as `u64`, where it is representable.
pub fn json_num_as_u64(n: JsonNum) -> (r: Option<u64>)
    ensures
        r == num_as_u64(n),
{
    match n {
        JsonNum::U(u) => Some(u),
        JsonNum::I(i) => if i >= 0 {
            Some(i as u64)
        } else {
            None
        },
        JsonNum::Other => None,
    }
}

/// The numeric value as `i64`, where it is representable.
pub fn json_num_as_i64(n: JsonNum) -> (r: Option<i64>)
    ensures
        r == num_as_i64(n),
{
    match n {
        JsonNum::U(u) => if u <= (i64::MAX as u64) {
            Some(u as i64)
        } else {
            None
        },
        JsonNum::I(i) => Some(i),
        JsonNum::Other => None,
    }
}

#[verifier::external_type_specification]
#[verifier::external_body]
pub struct ExValue(serde_json::Value);

/// The model of the tree that parsing a given text yields, or `None` where
/// the text is not well-formed. Parsing is a function of the characters
/// alone, so the result carries a name rather than a definition.
pub uninterp spec fn json_of(text: Seq<char>) -> Option<Json>;

/// The model of the contents of a parsed `serde_json::Value` tree.
pub uninterp spec fn value_model(v: serde_json::Value) -> Json;

/// Relies on `serde_json::from_str::<serde_json::Value>`: parses text into a
/// tree; what it returns depends on the characters alone.
#[verifier::external_body]
fn parse_value(text: &str) -> (r: Result<serde_json::Value, String>)
    ensures
        r matches Ok(v) ==> json_of(text@) == Some(value_model(v)),
        r is Err ==> json_of(text@) is None,
{
    serde_json::from_str::<serde_json::Value>(text).map_err(|e| e.to_string())
}

/// Relies on `serde_json::Value`'s accessors (`as_u64`, `as_i64` and the
/// variants themselves): reads the parsed tree into the library's own value
/// type, one variant at a time.
#[verifier::external_body]
fn convert_value(v: &serde_json::Value) -> (r: JsonValue)
    ensures
        r.deep() == value_model(*v),
{
    match v {
        serde_json::Value::Null => JsonValue::Null,
        serde_json::Value::Bool(b) => JsonValue::Bool(*b),
        serde_json::Value::Number(n) => JsonValue::Num(
            n.as_u64().map(JsonNum::U).or_else(|| n.as_i64().map(JsonNum::I)).unwrap_or(
                JsonNum::Other,
            ),
        ),
        serde_json::Value::String(s) => JsonValue::Str(s.clone()),
        serde_json::Value::Array(a) => JsonValue::Arr(a.iter().map(convert_value).collect()),
        serde_json::Value::Object(o) => JsonValue::Obj(
            o.iter().map(|(k, x)| (k.clone(), convert_value(x))).collect(),
        ),
    }
}

/// Parse payload text into the library's value type.
///
/// The result is pinned to `json_of`: well-formed text yields `Ok` of the
/// parsed tree's model, anything else yields `Err` with the parser's message.
pub fn parse_json(text: &str) -> (r: Result<JsonValue, String>)
    ensures
        r matches Ok(v) ==> json_of(text@) == Some(v.deep()),
        r is Err ==> json_of(text@) is None,
{
    match parse_value(text) {
        Ok(v) => Ok(convert_value(&v)),
        Err(e) => Err(e),
    }
}

} // verus!
