use vstd::prelude::*;

verus! {

#[verifier::external_type_specification]
#[verifier::external_body]
pub struct ExValue(serde_json::Value);

/// Mathematical view of a JSON document, as far as this library reads one:
/// strings, arrays, and objects are modelled; every other value (numbers,
/// booleans, null) is `Other`, since no contract here looks inside those.
pub enum JsonVal {
    Str(Seq<char>),
    Arr(Seq<JsonVal>),
    Obj(Map<Seq<char>, JsonVal>),
    Other,
}

/// The model of a parsed `serde_json::Value`.
pub uninterp spec fn value_rep(v: serde_json::Value) -> JsonVal;

/// The JSON document written in `s`, or `None` when `s` is not valid JSON:
/// the result of `serde_json::from_str`, a pure function of the text.
pub uninterp spec fn json_of(s: Seq<char>) -> Option<JsonVal>;

/// Relies on `serde_json::from_str`: parsing a JSON document is a pure
/// function of the text.
#[verifier::external_body]
pub(crate) fn parse_json(s: &str) -> (r: Option<serde_json::Value>)
    ensures
        (r is Some) == (json_of(s@) is Some),
        r matches Some(v) ==> Some(value_rep(v)) == json_of(s@),
{
    serde_json::from_str::<serde_json::Value>(s).ok()
}

/// Relies on `serde_json::Value::get`: on an object it looks the key up; on
/// any other value it returns `None`.
#[verifier::external_body]
pub(crate) fn value_get<'a>(v: &'a serde_json::Value, key: &str) -> (r: Option<
    &'a serde_json::Value,
>)
    ensures
        (match value_rep(*v) {
            JsonVal::Obj(m) => {
                &&& (r is Some) == m.dom().contains(key@)
                &&& (r matches Some(x) ==> m.dom().contains(key@) && value_rep(*x) == m[key@])
            },
            _ => r is None,
        }),
{
    v.get(key)
}

/// Relies on `serde_json::Value::as_str`: `Some` exactly on a JSON string,
/// returning its characters.
#[verifier::external_body]
pub(crate) fn value_as_str<'a>(v: &'a serde_json::Value) -> (r: Option<&'a str>)
    ensures
        (r is Some) == (value_rep(*v) is Str),
        r matches Some(s) ==> JsonVal::Str(s@) == value_rep(*v),
{
    v.as_str()
}

/// Relies on `serde_json::Value::as_array`: `Some` exactly on a JSON array,
/// returning its elements in order.
#[verifier::external_body]
pub(crate) fn value_as_array<'a>(v: &'a serde_json::Value) -> (r: Option<
    &'a Vec<serde_json::Value>,
>)
    ensures
        (r is Some) == (value_rep(*v) is Arr),
        r matches Some(a) ==> (value_rep(*v) matches JsonVal::Arr(elems) && a@.len() == elems.len()
            && (forall|i: int| 0 <= i < elems.len() ==> value_rep(a@[i]) == elems[i])),
{
    v.as_array()
}

/// The string held under `key` in the JSON object `j`, if `j` is an object
/// holding a string there.
pub open spec fn json_str_field(j: JsonVal, key: Seq<char>) -> Option<Seq<char>> {
    match j {
        JsonVal::Obj(m) => {
            if m.dom().contains(key) {
                match m[key] {
                    JsonVal::Str(s) => Option::Some(s),
                    _ => Option::None,
                }
            } else {
                Option::None
            }
        },
        _ => Option::None,
    }
}

/// Whether every element of `elems` is a JSON string.
pub open spec fn all_strings(elems: Seq<JsonVal>) -> bool {
    forall|i: int| 0 <= i < elems.len() ==> elems[i] is Str
}

/// The characters of each element of a sequence of JSON strings.
pub open spec fn string_seq_of(elems: Seq<JsonVal>) -> Seq<Seq<char>> {
    elems.map(
        |i: int, e: JsonVal|
            match e {
                JsonVal::Str(s) => s,
                _ => Seq::empty(),
            },
    )
}

/// The list of strings held under `key` in the JSON object `j`, if `j` is an
/// object holding an array of strings there.
pub open spec fn json_str_array_field(j: JsonVal, key: Seq<char>) -> Option<Seq<Seq<char>>> {
    match j {
        JsonVal::Obj(m) => {
            if m.dom().contains(key) {
                match m[key] {
                    JsonVal::Arr(elems) => {
                        if all_strings(elems) {
                            Option::Some(string_seq_of(elems))
                        } else {
                            Option::None
                        }
                    },
                    _ => Option::None,
                }
            } else {
                Option::None
            }
        },
        _ => Option::None,
    }
}

} // verus!
