//! Validation utilities for typed decoding.
//!
//! Checked field decoders turn a payload value into a primitive while
//! enforcing its rule (non-empty, strictly positive), so invalid responses
//! fail fast with a clear message. The [`Validate`] trait adds a cross-field
//! check that runs after a record has been decoded.

use vstd::prelude::*;
use vstd::string::*;

use crate::json::{
    fields_deep, get_field, lookup_field, num_as_i64, num_as_u64, Json, JsonValue,
};
use crate::text::{dec_of, dec_of_int, i64_to_dec, u64_to_dec, usize_to_dec};

verus! {

/// Trait for shapes that a payload value decodes into.
///
/// Decoding is all-or-nothing: a record exists only in fully validated form.
/// `decodable` says on which payloads decoding succeeds, `decoded` pins the
/// record that comes out.
pub trait JsonDecode: Sized {
    /// Whether the payload value decodes into this shape.
    spec fn decodable(j: Json) -> bool;

    /// Whether `r` is the record that `j` decodes to.
    spec fn decoded(j: Json, r: Self) -> bool;

    /// Decode a payload value into this shape, reporting a message on
    /// failure.
    fn decode_json(v: &JsonValue) -> (r: Result<Self, String>)
        ensures
            r matches Ok(rec) ==> Self::decodable(v.deep()) && Self::decoded(v.deep(), rec),
            r is Err ==> !Self::decodable(v.deep()),
    ;
}

/// Trait for types that can perform post-deserialization validation.
///
/// Use this for invariants that span fields, such as a count field that must
/// equal the paired collection's length.
pub trait Validate {
    /// Whether the record's cross-field invariant holds.
    spec fn valid(&self) -> bool;

    /// Validate the data structure's invariants, reporting a message on
    /// failure.
    fn validate(&self) -> (r: Result<(), String>)
        ensures
            r is Ok <==> self.valid(),
    ;
}

/// The sequence a count mismatch report renders to.
pub open spec fn count_mismatch_message(
    field_name: Seq<char>,
    count: nat,
    actual: nat,
) -> Seq<char> {
    field_name + " field value ("@ + dec_of(count) + ") does not match actual length ("@ + dec_of(
        actual,
    ) + ")"@
}

/// Helper to format count mismatch errors consistently.
pub fn count_mismatch_error(field_name: &str, count: usize, actual: usize) -> (r: String)
    ensures
        r@ == count_mismatch_message(field_name@, count as nat, actual as nat),
{
    let mut s = String::from_str(field_name);
    s.append(" field value (");
    s.append(usize_to_dec(count).as_str());
    s.append(") does not match actual length (");
    s.append(usize_to_dec(actual).as_str());
    s.append(")");
    s
}

/// As [`count_mismatch_error`], for a count that arrived as `u64`.
pub fn count_mismatch_error_u64(field_name: &str, count: u64, actual: usize) -> (r: String)
    ensures
        r@ == count_mismatch_message(field_name@, count as nat, actual as nat),
{
    let mut s = String::from_str(field_name);
    s.append(" field value (");
    s.append(u64_to_dec(count).as_str());
    s.append(") does not match actual length (");
    s.append(usize_to_dec(actual).as_str());
    s.append(")");
    s
}

/// The string a payload value holds, where it is a string.
pub open spec fn spec_string(j: Json) -> Option<Seq<char>> {
    match j {
        Json::Str(s) => Some(s),
        _ => None,
    }
}

/// The non-empty string a payload value holds, where it is one.
pub open spec fn spec_non_empty_string(j: Json) -> Option<Seq<char>> {
    match j {
        Json::Str(s) => if s.len() > 0 {
            Some(s)
        } else {
            None
        },
        _ => None,
    }
}

/// The strictly positive `i64` a payload value holds, where it is one.
pub open spec fn spec_positive_i64(j: Json) -> Option<i64> {
    match j {
        Json::Num(num) => match num_as_i64(num) {
            Some(n) => if n > 0 {
                Some(n)
            } else {
                None
            },
            None => None,
        },
        _ => None,
    }
}

/// The strictly positive `u64` a payload value holds, where it is one.
pub open spec fn spec_positive_u64(j: Json) -> Option<u64> {
    match j {
        Json::Num(num) => match num_as_u64(num) {
            Some(n) => if n > 0 {
                Some(n)
            } else {
                None
            },
            None => None,
        },
        _ => None,
    }
}

/// Whether a payload value is a non-empty string.
pub open spec fn non_empty_str_item(j: Json) -> bool {
    j matches Json::Str(s) && s.len() > 0
}

/// Whether every item is a non-empty string.
pub open spec fn all_non_empty_strings(items: Seq<Json>) -> bool {
    forall|k: int| 0 <= k < items.len() ==> non_empty_str_item(#[trigger] items[k])
}

/// The strings of a sequence of string items.
pub open spec fn string_views(items: Seq<Json>) -> Seq<Seq<char>> {
    Seq::new(
        items.len(),
        |k: int|
            match items[k] {
                Json::Str(s) => s,
                _ => Seq::empty(),
            },
    )
}

/// The `u64` a payload value holds, where it is one.
pub open spec fn spec_u64(j: Json) -> Option<u64> {
    match j {
        Json::Num(num) => num_as_u64(num),
        _ => None,
    }
}

/// The `u32` a payload value holds, where it is one.
pub open spec fn spec_u32(j: Json) -> Option<u32> {
    match j {
        Json::Num(num) => match num_as_u64(num) {
            Some(n) => if n <= u32::MAX {
                Some(n as u32)
            } else {
                None
            },
            None => None,
        },
        _ => None,
    }
}

/// The `usize` a payload value holds, where it is one.
pub open spec fn spec_usize(j: Json) -> Option<usize> {
    match j {
        Json::Num(num) => match num_as_u64(num) {
            Some(n) => if n <= usize::MAX {
                Some(n as usize)
            } else {
                None
            },
            None => None,
        },
        _ => None,
    }
}

/// The `bool` a payload value holds, where it is one.
pub open spec fn spec_bool(j: Json) -> Option<bool> {
    match j {
        Json::Bool(b) => Some(b),
        _ => None,
    }
}

/// Whether an optional string field is acceptable: absent, null, or a
/// string.
pub open spec fn opt_string_ok(f: Option<Json>) -> bool {
    match f {
        None => true,
        Some(Json::Null) => true,
        Some(Json::Str(_)) => true,
        _ => false,
    }
}

/// The view of an optional string value.
pub open spec fn view_opt_string(o: Option<String>) -> Option<Seq<char>> {
    match o {
        Some(s) => Some(s@),
        None => None,
    }
}

/// Whether the decoded optional string `o` matches the field `f`.
pub open spec fn opt_string_matches(f: Option<Json>, o: Option<Seq<char>>) -> bool {
    match f {
        None => o is None,
        Some(Json::Null) => o is None,
        Some(Json::Str(s)) => o == Some(s),
        _ => false,
    }
}

/// The string a required field holds, where the field is present and a
/// string.
pub open spec fn req_string_of(f: Option<Json>) -> Option<Seq<char>> {
    match f {
        Some(Json::Str(s)) => Some(s),
        _ => None,
    }
}

/// The `u64` a required field holds, where the field is present and a
/// representable number.
pub open spec fn req_u64_of(f: Option<Json>) -> Option<u64> {
    match f {
        Some(Json::Num(num)) => num_as_u64(num),
        _ => None,
    }
}

/// The `bool` a required field holds, where the field is present and a
/// boolean.
pub open spec fn req_bool_of(f: Option<Json>) -> Option<bool> {
    match f {
        Some(Json::Bool(b)) => Some(b),
        _ => None,
    }
}

/// The `usize` a required field holds, where the field is present and a
/// representable number.
pub open spec fn req_usize_of(f: Option<Json>) -> Option<usize> {
    match f {
        Some(Json::Num(num)) => match num_as_u64(num) {
            Some(n) => if n <= usize::MAX {
                Some(n as usize)
            } else {
                None
            },
            None => None,
        },
        _ => None,
    }
}

/// Decode a required string field out of an object's fields.
pub fn get_string(fields: &Vec<(String, JsonValue)>, key: &str) -> (r: Result<String, String>)
    ensures
        match r {
            Ok(s) => req_string_of(lookup_field(fields_deep(fields@), key@)) == Some(s@),
            Err(_) => req_string_of(lookup_field(fields_deep(fields@), key@)) is None,
        },
{
    match get_field(fields, key) {
        Some(fv) => match fv {
            JsonValue::Str(s) => Ok(s.clone()),
            _ => Err(String::from_str("expected a string")),
        },
        None => {
            let mut m = String::from_str("missing field ");
            m.append(key);
            Err(m)
        },
    }
}

/// Decode a required `u64` field out of an object's fields.
pub fn get_u64(fields: &Vec<(String, JsonValue)>, key: &str) -> (r: Result<u64, String>)
    ensures
        match r {
            Ok(n) => req_u64_of(lookup_field(fields_deep(fields@), key@)) == Some(n),
            Err(_) => req_u64_of(lookup_field(fields_deep(fields@), key@)) is None,
        },
{
    match get_field(fields, key) {
        Some(fv) => match fv {
            JsonValue::Num(num) => match crate::json::json_num_as_u64(*num) {
                Some(n) => Ok(n),
                None => Err(String::from_str("expected an unsigned integer")),
            },
            _ => Err(String::from_str("expected a number")),
        },
        None => {
            let mut m = String::from_str("missing field ");
            m.append(key);
            Err(m)
        },
    }
}

/// Decode a required `bool` field out of an object's fields.
pub fn get_bool(fields: &Vec<(String, JsonValue)>, key: &str) -> (r: Result<bool, String>)
    ensures
        match r {
            Ok(b) => req_bool_of(lookup_field(fields_deep(fields@), key@)) == Some(b),
            Err(_) => req_bool_of(lookup_field(fields_deep(fields@), key@)) is None,
        },
{
    match get_field(fields, key) {
        Some(fv) => match fv {
            JsonValue::Bool(b) => Ok(*b),
            _ => Err(String::from_str("expected a boolean")),
        },
        None => {
            let mut m = String::from_str("missing field ");
            m.append(key);
            Err(m)
        },
    }
}

/// Decode a required `usize` field out of an object's fields.
pub fn get_usize(fields: &Vec<(String, JsonValue)>, key: &str) -> (r: Result<usize, String>)
    ensures
        match r {
            Ok(n) => req_usize_of(lookup_field(fields_deep(fields@), key@)) == Some(n),
            Err(_) => req_usize_of(lookup_field(fields_deep(fields@), key@)) is None,
        },
{
    match get_field(fields, key) {
        Some(fv) => match fv {
            JsonValue::Num(num) => match crate::json::json_num_as_u64(*num) {
                Some(n) => if n <= usize::MAX as u64 {
                    Ok(n as usize)
                } else {
                    Err(String::from_str("number out of range"))
                },
                None => Err(String::from_str("expected an unsigned integer")),
            },
            _ => Err(String::from_str("expected a number")),
        },
        None => {
            let mut m = String::from_str("missing field ");
            m.append(key);
            Err(m)
        },
    }
}

/// Whether an optional unsigned-integer field is acceptable: absent, null,
/// or a number representable as `u64`.
pub open spec fn opt_u64_ok(f: Option<Json>) -> bool {
    match f {
        None => true,
        Some(Json::Null) => true,
        Some(Json::Num(num)) => num_as_u64(num) is Some,
        _ => false,
    }
}

/// Whether the decoded optional `u64` matches the field `f`.
pub open spec fn opt_u64_matches(f: Option<Json>, o: Option<u64>) -> bool {
    match f {
        None => o is None,
        Some(Json::Null) => o is None,
        Some(Json::Num(num)) => o == num_as_u64(num) && o is Some,
        _ => false,
    }
}

/// Whether an optional boolean field is acceptable: absent, null, or a
/// boolean.
pub open spec fn opt_bool_ok(f: Option<Json>) -> bool {
    match f {
        None => true,
        Some(Json::Null) => true,
        Some(Json::Bool(_)) => true,
        _ => false,
    }
}

/// Whether the decoded optional boolean matches the field `f`.
pub open spec fn opt_bool_matches(f: Option<Json>, o: Option<bool>) -> bool {
    match f {
        None => o is None,
        Some(Json::Null) => o is None,
        Some(Json::Bool(b)) => o == Some(b),
        _ => false,
    }
}

/// Decode an optional unsigned-integer field out of an object's fields:
/// absent and null both decode to `None`.
pub fn get_opt_u64(fields: &Vec<(String, JsonValue)>, key: &str) -> (r: Result<
    Option<u64>,
    String,
>)
    ensures
        match r {
            Ok(o) => opt_u64_matches(lookup_field(fields_deep(fields@), key@), o),
            Err(_) => !opt_u64_ok(lookup_field(fields_deep(fields@), key@)),
        },
{
    match get_field(fields, key) {
        Some(fv) => match fv {
            JsonValue::Null => Ok(None),
            JsonValue::Num(num) => match crate::json::json_num_as_u64(*num) {
                Some(n) => Ok(Some(n)),
                None => Err(String::from_str("expected an unsigned integer or null")),
            },
            _ => Err(String::from_str("expected an unsigned integer or null")),
        },
        None => Ok(None),
    }
}

/// Decode an optional boolean field out of an object's fields: absent and
/// null both decode to `None`.
pub fn get_opt_bool(fields: &Vec<(String, JsonValue)>, key: &str) -> (r: Result<
    Option<bool>,
    String,
>)
    ensures
        match r {
            Ok(o) => opt_bool_matches(lookup_field(fields_deep(fields@), key@), o),
            Err(_) => !opt_bool_ok(lookup_field(fields_deep(fields@), key@)),
        },
{
    match get_field(fields, key) {
        Some(fv) => match fv {
            JsonValue::Null => Ok(None),
            JsonValue::Bool(b) => Ok(Some(*b)),
            _ => Err(String::from_str("expected a boolean or null")),
        },
        None => Ok(None),
    }
}

/// Decode a non-empty string.
///
/// # Errors
/// Returns an error if the value is not a string or the string is empty.
pub fn deserialize_non_empty_string(v: &JsonValue) -> (r: Result<String, String>)
    ensures
        match spec_non_empty_string(v.deep()) {
            Some(s) => r matches Ok(out) && out@ == s,
            None => r is Err,
        },
        v.deep() == Json::Str(Seq::<char>::empty()) ==> (r matches Err(m) && m@
            == "string cannot be empty"@),
{
    match v {
        JsonValue::Str(s) => if s.as_str().unicode_len() == 0 {
            Err(String::from_str("string cannot be empty"))
        } else {
            Ok(s.clone())
        },
        _ => Err(String::from_str("expected a string")),
    }
}

/// Decode a strictly positive `i64`.
///
/// # Errors
/// Returns an error if the value is not an integer or is zero or negative.
pub fn deserialize_positive_i64(v: &JsonValue) -> (r: Result<i64, String>)
    ensures
        match spec_positive_i64(v.deep()) {
            Some(n) => r matches Ok(out) && out == n,
            None => r is Err,
        },
        v.deep() matches Json::Num(num) ==> (num_as_i64(num) matches Some(n) ==> (n <= 0 ==> (
        r matches Err(m) && m@ == "expected positive number, got "@ + dec_of_int(n as int)))),
{
    match v {
        JsonValue::Num(num) => match crate::json::json_num_as_i64(*num) {
            Some(n) => if n <= 0 {
                let mut m = String::from_str("expected positive number, got ");
                m.append(i64_to_dec(n).as_str());
                Err(m)
            } else {
                Ok(n)
            },
            None => Err(String::from_str("expected a signed integer")),
        },
        _ => Err(String::from_str("expected a number")),
    }
}

/// Decode a strictly positive `u64`.
///
/// # Errors
/// Returns an error if the value is not an unsigned integer or is zero.
pub fn deserialize_positive_u64(v: &JsonValue) -> (r: Result<u64, String>)
    ensures
        match spec_positive_u64(v.deep()) {
            Some(n) => r matches Ok(out) && out == n,
            None => r is Err,
        },
        v.deep() matches Json::Num(num) ==> (num_as_u64(num) matches Some(n) ==> (n == 0 ==> (
        r matches Err(m) && m@ == "expected positive non-zero number"@))),
{
    match v {
        JsonValue::Num(num) => match crate::json::json_num_as_u64(*num) {
            Some(n) => if n == 0 {
                Err(String::from_str("expected positive non-zero number"))
            } else {
                Ok(n)
            },
            None => Err(String::from_str("expected an unsigned integer")),
        },
        _ => Err(String::from_str("expected a number")),
    }
}

/// Decode a vector of non-empty strings.
///
/// # Errors
/// Returns an error if the value is not an array of strings or any string
/// in it is empty.
pub fn deserialize_vec_non_empty_strings(v: &JsonValue) -> (r: Result<Vec<String>, String>)
    ensures
        match v.deep() {
            Json::Arr(items) => if all_non_empty_strings(items) {
                r matches Ok(out) && out@.len() == items.len() && forall|k: int|
                    0 <= k < items.len() ==> out@[k]@ == string_views(items)[k]
            } else {
                r is Err
            },
            _ => r is Err,
        },
        v.deep() matches Json::Arr(items) ==> (forall|k: int|
            (0 <= k < items.len() && (forall|j: int|
                0 <= j < k ==> non_empty_str_item(#[trigger] items[j])) && #[trigger] items[k]
                == Json::Str(Seq::<char>::empty())) ==> (r matches Err(m) && m@
                == "string at index "@ + dec_of(k as nat) + " cannot be empty"@)),
{
    match v {
        JsonValue::Arr(items) => {
            proof {
                crate::json::lemma_arr_deep(*items);
            }
            let ghost model = crate::json::items_deep(items@);
            let mut out: Vec<String> = Vec::new();
            let mut i: usize = 0;
            while i < items.len()
                invariant
                    i <= items.len(),
                    out.len() == i,
                    model == crate::json::items_deep(items@),
                    v.deep() == Json::Arr(model),
                    model.len() == items.len(),
                    forall|j: int| 0 <= j < i ==> non_empty_str_item(#[trigger] model[j]),
                    forall|j: int| 0 <= j < i ==> out@[j]@ == string_views(model)[j],
                decreases items.len() - i,
            {
                match &items[i] {
                    JsonValue::Str(s) => {
                        if s.as_str().unicode_len() == 0 {
                            let mut m = String::from_str("string at index ");
                            m.append(usize_to_dec(i).as_str());
                            m.append(" cannot be empty");
                            proof {
                                assert(model[i as int] == items@[i as int].deep());
                                assert(s@ =~= Seq::<char>::empty());
                                assert(!non_empty_str_item(model[i as int]));
                                assert(!all_non_empty_strings(model));
                                assert forall|k: int|
                                    (0 <= k < model.len() && (forall|j: int|
                                        0 <= j < k ==> non_empty_str_item(
                                            #[trigger] model[j],
                                        )) && #[trigger] model[k] == Json::Str(
                                        Seq::<char>::empty(),
                                    )) implies k == i as int by {
                                    if k < i as int {
                                        assert(non_empty_str_item(model[k]));
                                    }
                                    if k > i as int {
                                        assert(non_empty_str_item(model[i as int]));
                                    }
                                }
                            }
                            return Err(m);
                        }
                        out.push(s.clone());
                    },
                    _ => {
                        proof {
                            assert(model[i as int] == items@[i as int].deep());
                            assert(!non_empty_str_item(model[i as int]));
                            assert(!all_non_empty_strings(model));
                            assert forall|k: int|
                                (0 <= k < model.len() && (forall|j: int|
                                    0 <= j < k ==> non_empty_str_item(#[trigger] model[j]))
                                    && #[trigger] model[k] == Json::Str(
                                    Seq::<char>::empty(),
                                )) implies false by {
                                if k < i as int {
                                    assert(non_empty_str_item(model[k]));
                                }
                                if k == i as int {
                                    assert(non_empty_str_item(model[k]));
                                }
                                if k > i as int {
                                    assert(non_empty_str_item(model[i as int]));
                                }
                            }
                        }
                        return Err(String::from_str("expected an array of strings"));
                    },
                }
                i = i + 1;
            }
            Ok(out)
        },
        _ => Err(String::from_str("expected an array")),
    }
}

/// Whether every item is a string.
pub open spec fn all_strings(items: Seq<Json>) -> bool {
    forall|k: int| 0 <= k < items.len() ==> (#[trigger] items[k]) matches Json::Str(_)
}

/// Decode an array of strings.
pub fn decode_strings(v: &JsonValue) -> (r: Result<Vec<String>, String>)
    ensures
        match v.deep() {
            Json::Arr(items) => if all_strings(items) {
                r matches Ok(out) && out@.len() == items.len() && forall|k: int|
                    0 <= k < items.len() ==> out@[k]@ == string_views(items)[k]
            } else {
                r is Err
            },
            _ => r is Err,
        },
{
    match v {
        JsonValue::Arr(items) => {
            proof {
                crate::json::lemma_arr_deep(*items);
            }
            let ghost model = crate::json::items_deep(items@);
            let mut out: Vec<String> = Vec::new();
            let mut i: usize = 0;
            while i < items.len()
                invariant
                    i <= items.len(),
                    out.len() == i,
                    model == crate::json::items_deep(items@),
                    v.deep() == Json::Arr(model),
                    model.len() == items.len(),
                    forall|j: int| 0 <= j < i ==> (#[trigger] model[j]) matches Json::Str(_),
                    forall|j: int| 0 <= j < i ==> out@[j]@ == string_views(model)[j],
                decreases items.len() - i,
            {
                proof {
                    assert(model[i as int] == items@[i as int].deep());
                }
                match &items[i] {
                    JsonValue::Str(s) => {
                        out.push(s.clone());
                    },
                    _ => {
                        return Err(String::from_str("expected an array of strings"));
                    },
                }
                i = i + 1;
            }
            Ok(out)
        },
        _ => Err(String::from_str("expected an array")),
    }
}

/// Decode a string value.
pub fn decode_string(v: &JsonValue) -> (r: Result<String, String>)
    ensures
        match spec_string(v.deep()) {
            Some(s) => r matches Ok(out) && out@ == s,
            None => r is Err,
        },
{
    match v {
        JsonValue::Str(s) => Ok(s.clone()),
        _ => Err(String::from_str("expected a string")),
    }
}

/// Decode a `u64` value.
pub fn decode_u64(v: &JsonValue) -> (r: Result<u64, String>)
    ensures
        match spec_u64(v.deep()) {
            Some(n) => r matches Ok(out) && out == n,
            None => r is Err,
        },
{
    match v {
        JsonValue::Num(num) => match crate::json::json_num_as_u64(*num) {
            Some(n) => Ok(n),
            None => Err(String::from_str("expected an unsigned integer")),
        },
        _ => Err(String::from_str("expected a number")),
    }
}

/// Decode a `u32` value.
pub fn decode_u32(v: &JsonValue) -> (r: Result<u32, String>)
    ensures
        match spec_u32(v.deep()) {
            Some(n) => r matches Ok(out) && out == n,
            None => r is Err,
        },
{
    match v {
        JsonValue::Num(num) => match crate::json::json_num_as_u64(*num) {
            Some(n) => if n <= u32::MAX as u64 {
                Ok(n as u32)
            } else {
                Err(String::from_str("number out of range"))
            },
            None => Err(String::from_str("expected an unsigned integer")),
        },
        _ => Err(String::from_str("expected a number")),
    }
}

/// Decode a `usize` value.
pub fn decode_usize(v: &JsonValue) -> (r: Result<usize, String>)
    ensures
        match spec_usize(v.deep()) {
            Some(n) => r matches Ok(out) && out == n,
            None => r is Err,
        },
{
    match v {
        JsonValue::Num(num) => match crate::json::json_num_as_u64(*num) {
            Some(n) => if n <= usize::MAX as u64 {
                Ok(n as usize)
            } else {
                Err(String::from_str("number out of range"))
            },
            None => Err(String::from_str("expected an unsigned integer")),
        },
        _ => Err(String::from_str("expected a number")),
    }
}

/// Decode a `bool` value.
pub fn decode_bool(v: &JsonValue) -> (r: Result<bool, String>)
    ensures
        match spec_bool(v.deep()) {
            Some(b) => r matches Ok(out) && out == b,
            None => r is Err,
        },
{
    match v {
        JsonValue::Bool(b) => Ok(*b),
        _ => Err(String::from_str("expected a boolean")),
    }
}

/// Decode an optional string field out of an object's fields: absent and
/// null both decode to `None`.
pub fn get_opt_string(fields: &Vec<(String, JsonValue)>, key: &str) -> (r: Result<
    Option<String>,
    String,
>)
    ensures
        match r {
            Ok(o) => opt_string_matches(
                lookup_field(fields_deep(fields@), key@),
                view_opt_string(o),
            ),
            Err(_) => !opt_string_ok(lookup_field(fields_deep(fields@), key@)),
        },
{
    match get_field(fields, key) {
        Some(fv) => match fv {
            JsonValue::Null => Ok(None),
            JsonValue::Str(s) => Ok(Some(s.clone())),
            _ => Err(String::from_str("expected a string or null")),
        },
        None => Ok(None),
    }
}

/// Whether every item of an array decodes into `T`.
pub open spec fn vec_decodable<T: JsonDecode>(j: Json) -> bool {
    j matches Json::Arr(items) && forall|k: int|
        0 <= k < items.len() ==> T::decodable(#[trigger] items[k])
}

/// Whether `r` is the element-wise decoding of the array `j`.
pub open spec fn vec_decoded<T: JsonDecode>(j: Json, r: Seq<T>) -> bool {
    j matches Json::Arr(items) && r.len() == items.len() && forall|k: int|
        0 <= k < items.len() ==> T::decoded(#[trigger] items[k], r[k])
}

/// Decode an array of records element by element.
pub fn decode_vec<T: JsonDecode>(v: &JsonValue) -> (r: Result<Vec<T>, String>)
    ensures
        r matches Ok(out) ==> vec_decodable::<T>(v.deep()) && vec_decoded::<T>(v.deep(), out@),
        r is Err ==> !vec_decodable::<T>(v.deep()),
{
    match v {
        JsonValue::Arr(items) => {
            proof {
                crate::json::lemma_arr_deep(*items);
            }
            let ghost model = crate::json::items_deep(items@);
            let mut out: Vec<T> = Vec::new();
            let mut i: usize = 0;
            while i < items.len()
                invariant
                    i <= items.len(),
                    out.len() == i,
                    model == crate::json::items_deep(items@),
                    v.deep() == Json::Arr(model),
                    model.len() == items.len(),
                    forall|j: int| 0 <= j < i ==> T::decodable(#[trigger] model[j]),
                    forall|j: int| 0 <= j < i ==> T::decoded(#[trigger] model[j], out@[j]),
                decreases items.len() - i,
            {
                proof {
                    assert(model[i as int] == items@[i as int].deep());
                }
                match T::decode_json(&items[i]) {
                    Ok(rec) => {
                        out.push(rec);
                    },
                    Err(e) => {
                        proof {
                            assert(!T::decodable(model[i as int]));
                            assert(!vec_decodable::<T>(v.deep())) by {
                                if vec_decodable::<T>(v.deep()) {
                                    assert(v.deep()->Arr_0 == model);
                                    assert(T::decodable(v.deep()->Arr_0[i as int]));
                                }
                            }
                        }
                        return Err(e);
                    },
                }
                i = i + 1;
            }
            Ok(out)
        },
        _ => Err(String::from_str("expected an array")),
    }
}

} // verus!
