//! A structured model of JSON documents.
//!
//! Inbound frames arrive as JSON text.  The decoder logic in this crate is
//! verified, so it works on `Json`, a tree of plain values, rather than on an
//! opaque value of an outside crate.  The only trusted step is the parse from
//! text into `Json`, which relies on serde_json.
use vstd::prelude::*;

verus! {

/// A JSON document as a tree of plain values.
///
/// Numbers are split the way the parser reports them: `Int` for numbers that
/// fit a signed 64-bit integer, `UInt` for larger unsigned ones, and `Num`
/// (the number's textual form) for everything else, so that any JSON document
/// is representable.  An object holds its entries in order; lookups take the
/// first entry with a matching key.
#[derive(Debug, PartialEq, Eq)]
pub enum Json {
    Null,
    Bool(bool),
    Int(i64),
    UInt(u64),
    Num(String),
    Str(String),
    Arr(Vec<Json>),
    Obj(Vec<(String, Json)>),
}

/// The value of the first entry with the given key, if any.
pub open spec fn obj_lookup(entries: Seq<(String, Json)>, key: Seq<char>) -> Option<Json>
    decreases entries.len(),
{
    if entries.len() == 0 {
        None
    } else if entries[0].0@ == key {
        Some(entries[0].1)
    } else {
        obj_lookup(entries.drop_first(), key)
    }
}

/// The field of an object with the given key; `None` on any other document.
pub open spec fn spec_field(j: Json, key: Seq<char>) -> Option<Json> {
    match j {
        Json::Obj(entries) => obj_lookup(entries@, key),
        _ => None,
    }
}

/// A required string field: present and a string, else `None`.
pub open spec fn spec_str_field(j: Json, key: Seq<char>) -> Option<String> {
    match spec_field(j, key) {
        Some(Json::Str(s)) => Some(s),
        _ => None,
    }
}

/// An optional string field: an absent or null field decodes to `Some(None)`,
/// a string to `Some(Some(..))`, and any other value is a decode failure.
pub open spec fn spec_opt_str_field(j: Json, key: Seq<char>) -> Option<Option<String>> {
    match spec_field(j, key) {
        None => Some(None),
        Some(Json::Null) => Some(None),
        Some(Json::Str(s)) => Some(Some(s)),
        Some(_) => None,
    }
}

/// A required signed 64-bit integer field.
pub open spec fn spec_i64_field(j: Json, key: Seq<char>) -> Option<i64> {
    match spec_field(j, key) {
        Some(Json::Int(i)) => Some(i),
        Some(Json::UInt(u)) => if u <= 0x7fff_ffff_ffff_ffffu64 {
            Some(u as i64)
        } else {
            None
        },
        _ => None,
    }
}

proof fn lemma_obj_lookup_at_first_match(entries: Seq<(String, Json)>, key: Seq<char>, i: int)
    requires
        0 <= i < entries.len(),
        forall|k: int| 0 <= k < i ==> entries[k].0@ != key,
        entries[i].0@ == key,
    ensures
        obj_lookup(entries, key) == Some(entries[i].1),
    decreases i,
{
    if i > 0 {
        lemma_obj_lookup_at_first_match(entries.drop_first(), key, i - 1);
    }
}

proof fn lemma_obj_lookup_absent(entries: Seq<(String, Json)>, key: Seq<char>)
    requires
        forall|k: int| 0 <= k < entries.len() ==> entries[k].0@ != key,
    ensures
        obj_lookup(entries, key) is None,
    decreases entries.len(),
{
    if entries.len() > 0 {
        lemma_obj_lookup_absent(entries.drop_first(), key);
    }
}

/// The index of the first entry with the given key, if any.
pub fn obj_find(entries: &Vec<(String, Json)>, key: &String) -> (r: Option<usize>)
    ensures
        match r {
            Some(i) => i < entries@.len() && entries@[i as int].0@ == key@ && obj_lookup(
                entries@,
                key@,
            ) == Some(entries@[i as int].1),
            None => obj_lookup(entries@, key@) is None,
        },
{
    let mut i: usize = 0;
    loop
        invariant
            i <= entries@.len(),
            forall|k: int| 0 <= k < i ==> entries@[k].0@ != key@,
        decreases entries@.len() - i,
    {
        if i == entries.len() {
            proof {
                lemma_obj_lookup_absent(entries@, key@);
            }
            return None;
        }
        if entries[i].0 == *key {
            proof {
                lemma_obj_lookup_at_first_match(entries@, key@, i as int);
            }
            return Some(i);
        }
        i = i + 1;
    }
}

/// A borrowed view of the field with the given key.
pub fn get_field<'a>(j: &'a Json, key: &String) -> (r: Option<&'a Json>)
    ensures
        match r {
            Some(v) => spec_field(*j, key@) == Some(*v),
            None => spec_field(*j, key@) is None,
        },
{
    match j {
        Json::Obj(entries) => match obj_find(entries, key) {
            Some(i) => Some(&entries[i].1),
            None => None,
        },
        _ => None,
    }
}

/// Whether the document is an object with a field of the given key.
pub fn has_field(j: &Json, key: &String) -> (r: bool)
    ensures
        r == (spec_field(*j, key@) is Some),
{
    match get_field(j, key) {
        Some(_) => true,
        None => false,
    }
}

/// A required string field, as an owned copy.
pub fn get_str_field(j: &Json, key: &String) -> (r: Option<String>)
    ensures
        r == spec_str_field(*j, key@),
{
    match get_field(j, key) {
        Some(Json::Str(s)) => Some(s.clone()),
        _ => None,
    }
}

/// An optional string field, as an owned copy.
pub fn get_opt_str_field(j: &Json, key: &String) -> (r: Option<Option<String>>)
    ensures
        r == spec_opt_str_field(*j, key@),
{
    match get_field(j, key) {
        None => Some(None),
        Some(Json::Null) => Some(None),
        Some(Json::Str(s)) => Some(Some(s.clone())),
        Some(_) => None,
    }
}

/// A required signed 64-bit integer field.
pub fn get_i64_field(j: &Json, key: &String) -> (r: Option<i64>)
    ensures
        r == spec_i64_field(*j, key@),
{
    match get_field(j, key) {
        Some(Json::Int(i)) => Some(*i),
        Some(Json::UInt(u)) => if *u <= 0x7fff_ffff_ffff_ffffu64 {
            Some(*u as i64)
        } else {
            None
        },
        _ => None,
    }
}

/// The strings of an array whose elements are all strings; `None` otherwise.
pub open spec fn spec_str_elems(elems: Seq<Json>) -> Option<Seq<String>>
    decreases elems.len(),
{
    if elems.len() == 0 {
        Some(Seq::empty())
    } else {
        match (spec_str_elems(elems.drop_last()), elems.last()) {
            (Some(rest), Json::Str(s)) => Some(rest.push(s)),
            _ => None,
        }
    }
}

/// A required field holding an array of strings, as owned copies.
pub fn get_str_array_field(j: &Json, key: &String) -> (r: Option<Vec<String>>)
    ensures
        match r {
            Some(v) => match spec_field(*j, key@) {
                Some(Json::Arr(elems)) => spec_str_elems(elems@) == Some(v@),
                _ => false,
            },
            None => match spec_field(*j, key@) {
                Some(Json::Arr(elems)) => spec_str_elems(elems@) is None,
                _ => true,
            },
        },
{
    let field = match get_field(j, key) {
        Some(f) => f,
        None => return None,
    };
    let elems = match field {
        Json::Arr(elems) => elems,
        _ => return None,
    };
    let mut out: Vec<String> = Vec::new();
    let mut i: usize = 0;
    while i < elems.len()
        invariant
            i <= elems@.len(),
            spec_str_elems(elems@.take(i as int)) == Some(out@),
            spec_field(*j, key@) == Some(Json::Arr(*elems)),
        decreases elems@.len() - i,
    {
        match &elems[i] {
            Json::Str(s) => {
                out.push(s.clone());
                proof {
                    assert(elems@.take(i + 1int).drop_last() =~= elems@.take(i as int));
                    assert(elems@.take(i + 1int).last() == elems@[i as int]);
                }
            },
            other => {
                proof {
                    assert(elems@[i as int] == *other);
                    lemma_str_elems_bad_at(elems@, i as int);
                }
                return None;
            },
        }
        i = i + 1;
    }
    proof {
        assert(elems@.take(i as int) =~= elems@);
    }
    Some(out)
}

proof fn lemma_str_elems_bad_at(elems: Seq<Json>, i: int)
    requires
        0 <= i < elems.len(),
        !(elems[i] is Str),
    ensures
        spec_str_elems(elems) is None,
    decreases elems.len(),
{
    if i < elems.len() - 1 {
        lemma_str_elems_bad_at(elems.drop_last(), i);
    }
}

/// What the JSON parser yields on a given text: a document for well-formed
/// JSON, `None` otherwise.  The parse is a function of the text alone.
pub uninterp spec fn json_parse(s: Seq<char>) -> Option<Json>;

/// The `Json` document that a given parsed value maps to, variant by variant.
pub uninterp spec fn value_model(v: serde_json::Value) -> Json;

/// serde_json's document type, declared opaquely so the parse wrappers
/// below can hand a parsed value from one to the other.
#[verifier::external_type_specification]
#[verifier::external_body]
pub struct ExValue(serde_json::Value);

/// Relies on serde_json::from_str::<Value>: the parse result is a function of
/// the text alone, and parsing fails exactly where the text is not JSON.
#[verifier::external_body]
fn text_to_value(text: &str) -> (r: Option<serde_json::Value>)
    ensures
        match r {
            Some(v) => json_parse(text@) == Some(value_model(v)),
            None => json_parse(text@) is None,
        },
{
    serde_json::from_str::<serde_json::Value>(text).ok()
}

/// Relies on serde_json::Value: each node maps to the matching `Json` variant,
/// numbers by `Number::as_i64` / `as_u64` with the textual form as fallback,
/// objects in the order the map iterates.
#[verifier::external_body]
fn value_to_json(v: serde_json::Value) -> (r: Json)
    ensures
        r == value_model(v),
{
    match v {
        serde_json::Value::Null => Json::Null,
        serde_json::Value::Bool(b) => Json::Bool(b),
        serde_json::Value::Number(n) => match (n.as_i64(), n.as_u64()) {
            (Some(i), _) => Json::Int(i),
            (None, Some(u)) => Json::UInt(u),
            _ => Json::Num(n.to_string()),
        },
        serde_json::Value::String(s) => Json::Str(s),
        serde_json::Value::Array(a) => Json::Arr(a.into_iter().map(value_to_json).collect()),
        serde_json::Value::Object(m) => Json::Obj(
            m.into_iter().map(|(k, x)| (k, value_to_json(x))).collect(),
        ),
    }
}

/// Parse JSON text into a document, or `None` where the text is not JSON.
pub fn parse_json(text: &str) -> (r: Option<Json>)
    ensures
        r == json_parse(text@),
{
    match text_to_value(text) {
        Some(v) => Some(value_to_json(v)),
        None => None,
    }
}

} // verus!
