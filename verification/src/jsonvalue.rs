use vstd::prelude::*;

verus! {

#[verifier::external_type_specification]
#[verifier::external_body]
pub struct ExJsonValue(serde_json::Value);

/// Names whether a text parses as JSON: `serde_json::from_str` accepts or
/// rejects a text deterministically, as a function of the text alone.
pub uninterp spec fn json_ok_of(s: Seq<char>) -> bool;

/// Names the string-valued fields of a JSON value: the keys of its top
/// level that hold a JSON string, each mapped to that string's text. A
/// value that is not an object has none.
pub uninterp spec fn str_fields_of(v: serde_json::Value) -> Map<Seq<char>, Seq<char>>;

/// Names the integer-valued fields of a JSON value: the keys of its top
/// level that hold a JSON number representable as a 64-bit integer, each
/// mapped to that integer.
pub uninterp spec fn int_fields_of(v: serde_json::Value) -> Map<Seq<char>, int>;

/// Names the element count of a JSON value: the length when the value is
/// an array, absent otherwise.
pub uninterp spec fn json_array_len_of(v: serde_json::Value) -> Option<int>;

/// Names the string-valued fields of an array element, as `str_fields_of`
/// does for the element itself.
pub uninterp spec fn json_elem_str_fields_of(v: serde_json::Value, i: int) -> Map<
    Seq<char>,
    Seq<char>,
>;

/// Names the integer-valued fields of an array element, as `int_fields_of`
/// does for the element itself.
pub uninterp spec fn json_elem_int_fields_of(v: serde_json::Value, i: int) -> Map<Seq<char>, int>;

/// Names the fields of the value that a text parses to, as `str_fields_of`
/// does for the value: the parsed value is a function of the text alone.
pub uninterp spec fn parsed_str_fields_of(s: Seq<char>) -> Map<Seq<char>, Seq<char>>;

/// Names the integer fields of the value that a text parses to, as
/// `int_fields_of` does for the value.
pub uninterp spec fn parsed_int_fields_of(s: Seq<char>) -> Map<Seq<char>, int>;

/// Names the element count of the value that a text parses to, as
/// `json_array_len_of` does for the value.
pub uninterp spec fn parsed_array_len_of(s: Seq<char>) -> Option<int>;

/// Names the string fields of the `i`-th element of the value that a text
/// parses to.
pub uninterp spec fn parsed_elem_str_fields_of(s: Seq<char>, i: int) -> Map<Seq<char>, Seq<char>>;

/// Names the integer fields of the `i`-th element of the value that a
/// text parses to.
pub uninterp spec fn parsed_elem_int_fields_of(s: Seq<char>, i: int) -> Map<Seq<char>, int>;

/// Names the text that `serde_json::to_string` renders a JSON value to: a
/// function of the value alone.
pub uninterp spec fn json_text_of(v: serde_json::Value) -> Seq<char>;

/// Names whether `serde_json::to_string` succeeds on a JSON value: a
/// function of the value alone.
pub uninterp spec fn json_render_ok_of(v: serde_json::Value) -> bool;

/// Relies on `serde_json::to_string`: renders a JSON value as text,
/// succeeding or not as a function of the value alone; on failure the
/// error's text is returned instead.
#[verifier::external_body]
pub(crate) fn value_to_text(v: &serde_json::Value) -> (r: Result<String, String>)
    ensures
        r is Ok <==> json_render_ok_of(*v),
        r matches Ok(t) ==> t@ == json_text_of(*v),
{
    match serde_json::to_string(v) {
        Ok(s) => Ok(s),
        Err(e) => Err(e.to_string()),
    }
}

/// Relies on `serde_json::from_str` for `serde_json::Value`: parses text
/// as JSON, succeeding exactly on the texts that are JSON; what the parsed
/// value holds is a function of the text alone. On failure the error's
/// text is returned instead.
#[verifier::external_body]
pub(crate) fn parse_json(s: &str) -> (r: Result<serde_json::Value, String>)
    ensures
        r is Ok <==> json_ok_of(s@),
        r matches Ok(v) ==> str_fields_of(v) == parsed_str_fields_of(s@),
        r matches Ok(v) ==> int_fields_of(v) == parsed_int_fields_of(s@),
        r matches Ok(v) ==> json_array_len_of(v) == parsed_array_len_of(s@),
        r matches Ok(v) ==> forall|i: int|
            #![trigger json_elem_str_fields_of(v, i)]
            json_elem_str_fields_of(v, i) == parsed_elem_str_fields_of(s@, i)
                && json_elem_int_fields_of(v, i) == parsed_elem_int_fields_of(s@, i),
{
    match serde_json::from_str::<serde_json::Value>(s) {
        Ok(v) => Ok(v),
        Err(e) => Err(e.to_string()),
    }
}

/// Relies on `serde_json::Value::get` with a string key followed by
/// `Value::as_str`: yields the text of the named field exactly when the
/// value is an object holding a string there.
#[verifier::external_body]
pub(crate) fn json_str_field<'a>(v: &'a serde_json::Value, key: &str) -> (r: Option<&'a str>)
    ensures
        r is Some <==> str_fields_of(*v).contains_key(key@),
        r matches Some(s) ==> s@ == str_fields_of(*v)[key@],
{
    match v.get(key) {
        Some(f) => f.as_str(),
        None => None,
    }
}

/// Relies on `serde_json::Value::get` with a string key followed by
/// `Value::as_i64`: yields the integer of the named field exactly when the
/// value is an object holding an `i64`-representable number there.
#[verifier::external_body]
pub(crate) fn json_i64_field(v: &serde_json::Value, key: &str) -> (r: Option<i64>)
    ensures
        r is Some <==> int_fields_of(*v).contains_key(key@),
        r matches Some(n) ==> n as int == int_fields_of(*v)[key@],
{
    match v.get(key) {
        Some(f) => f.as_i64(),
        None => None,
    }
}

/// Relies on `serde_json::Value::as_array`: the elements of a JSON array
/// in order, `None` on other values; each element's fields are the named
/// element fields of the array.
#[verifier::external_body]
pub(crate) fn json_as_array<'a>(v: &'a serde_json::Value) -> (r: Option<
    &'a Vec<serde_json::Value>,
>)
    ensures
        r is Some <==> json_array_len_of(*v) is Some,
        r matches Some(a) ==> json_array_len_of(*v) == Some(a@.len() as int),
        r matches Some(a) ==> forall|i: int|
            0 <= i < a@.len() ==> str_fields_of(#[trigger] a@[i]) == json_elem_str_fields_of(*v, i)
                && int_fields_of(a@[i]) == json_elem_int_fields_of(*v, i),
{
    v.as_array()
}

} // verus!
