//! Metadata documents and the display name projected from them.
use vstd::prelude::*;
use vstd::string::StringExecFns;

verus! {

#[verifier::external_type_specification]
#[verifier::external_body]
pub struct ExNumber(serde_json::Number);

#[verifier::external_type_specification]
#[verifier::external_body]
pub struct ExValue(serde_json::Value);

/// A JSON document: null, a boolean, a number, a string, an array, or an
/// object as the list of its members.
#[derive(Debug, PartialEq)]
pub enum Json {
    Null,
    Bool(bool),
    Number(serde_json::Number),
    Str(String),
    Array(Vec<Json>),
    Object(Vec<(String, Json)>),
}

/// The document that serde_json reads from a text, or `None` where the text
/// is not JSON.
pub uninterp spec fn parsed_json(text: Seq<char>) -> Option<Json>;

/// The JSON text that serde_json writes for a document, or `None` where it
/// reports a failure.
pub uninterp spec fn json_text(doc: Json) -> Option<Seq<char>>;

/// The key whose string value names a product in its metadata.
pub open spec fn name_key() -> Seq<char> {
    seq!['p', 'r', 'o', 'd', 'u', 'c', 't', 'N', 'a', 'm', 'e']
}

/// The value of the first member of `fields` under `key`.
pub open spec fn member_spec(fields: Seq<(String, Json)>, key: Seq<char>) -> Option<Json>
    decreases fields.len(),
{
    if fields.len() == 0 {
        None
    } else if fields[0].0@ == key {
        Some(fields[0].1)
    } else {
        member_spec(fields.drop_first(), key)
    }
}

/// The display name of a document: the string under `productName` where the
/// document is an object that has one, else nothing.
pub open spec fn display_name(doc: Json) -> Option<Seq<char>> {
    match doc {
        Json::Object(fields) => match member_spec(fields@, name_key()) {
            Some(Json::Str(s)) => Some(s@),
            _ => None,
        },
        _ => None,
    }
}

/// The display name read from a metadata text; nothing where the text is not
/// JSON.
pub open spec fn display_name_of_text(text: Seq<char>) -> Option<Seq<char>> {
    match parsed_json(text) {
        Some(doc) => display_name(doc),
        None => None,
    }
}

proof fn lemma_member_found(fields: Seq<(String, Json)>, key: Seq<char>, i: int)
    requires
        0 <= i < fields.len(),
        fields[i].0@ == key,
        forall|j: int| 0 <= j < i ==> fields[j].0@ != key,
    ensures
        member_spec(fields, key) == Some(fields[i].1),
    decreases i,
{
    if i > 0 {
        let rest = fields.drop_first();
        assert forall|j: int| 0 <= j < i - 1 implies rest[j].0@ != key by {
            assert(rest[j] == fields[j + 1]);
        }
        lemma_member_found(rest, key, i - 1);
    }
}

proof fn lemma_member_missing(fields: Seq<(String, Json)>, key: Seq<char>)
    requires
        forall|j: int| 0 <= j < fields.len() ==> fields[j].0@ != key,
    ensures
        member_spec(fields, key) is None,
    decreases fields.len(),
{
    if fields.len() > 0 {
        let rest = fields.drop_first();
        assert forall|j: int| 0 <= j < rest.len() implies rest[j].0@ != key by {
            assert(rest[j] == fields[j + 1]);
        }
        lemma_member_missing(rest, key);
    }
}

/// The position of the first member of `fields` under `key`.
pub fn find_member(fields: &Vec<(String, Json)>, key: &String) -> (r: Option<usize>)
    ensures
        match r {
            Some(i) => i < fields@.len() && member_spec(fields@, key@) == Some(fields@[i as int].1),
            None => member_spec(fields@, key@) is None,
        },
{
    let mut i: usize = 0;
    while i < fields.len()
        invariant
            i <= fields@.len(),
            forall|j: int| 0 <= j < i ==> fields@[j].0@ != key@,
        decreases fields@.len() - i,
    {
        if fields[i].0 == *key {
            proof {
                lemma_member_found(fields@, key@, i as int);
            }
            return Some(i);
        }
        i = i + 1;
    }
    proof {
        lemma_member_missing(fields@, key@);
    }
    None
}

/// The display name of a document: the string under `productName` where the
/// document is an object and that member is a string; nothing otherwise.
pub fn display_name_of(doc: &Json) -> (r: Option<String>)
    ensures
        match r {
            Some(s) => display_name(*doc) == Some(s@),
            None => display_name(*doc) is None,
        },
{
    match doc {
        Json::Object(fields) => {
            let key = String::from_str("productName");
            proof {
                reveal_strlit("productName");
                assert(key@ =~= name_key());
            }
            match find_member(fields, &key) {
                Some(i) => match &fields[i].1 {
                    Json::Str(s) => Some(s.clone()),
                    _ => None,
                },
                None => None,
            }
        },
        _ => None,
    }
}

/// The display name carried by a metadata text. A text that is not JSON, a
/// document that is not an object, one without `productName` and one whose
/// `productName` is not a string all give nothing; this never fails.
pub fn extract_display_name(text: &str) -> (r: Option<String>)
    ensures
        match r {
            Some(s) => display_name_of_text(text@) == Some(s@),
            None => display_name_of_text(text@) is None,
        },
{
    match parse_json(text) {
        Some(doc) => display_name_of(&doc),
        None => None,
    }
}

/// Relies on `serde_json::from_str::<serde_json::Value>`: the document a text
/// holds, or `None` where serde_json rejects the text; the result depends on
/// the text alone. The value is copied variant for variant into `Json`.
#[verifier::external_body]
pub(crate) fn parse_json(text: &str) -> (r: Option<Json>)
    ensures
        r == parsed_json(text@),
{
    serde_json::from_str::<serde_json::Value>(text).ok().map(json_from_value)
}

/// Relies on `serde_json::to_string` on the `serde_json::Value` copied
/// variant for variant from the document: its JSON text, or serde_json's
/// description of the error it reports; whether it succeeds, and the text,
/// depend on the document alone.
#[verifier::external_body]
pub(crate) fn serialize_json(doc: &Json) -> (r: Result<String, String>)
    ensures
        match r {
            Ok(t) => json_text(*doc) == Some(t@),
            Err(_) => json_text(*doc) is None,
        },
{
    match serde_json::to_string(&value_from_json(doc)) {
        Ok(t) => Ok(t),
        Err(e) => Err(e.to_string()),
    }
}

/// Copies a `serde_json::Value` into `Json`, one variant to the same variant;
/// used only inside `parse_json`.
#[verifier::external_body]
fn json_from_value(v: serde_json::Value) -> Json {
    match v {
        serde_json::Value::Null => Json::Null,
        serde_json::Value::Bool(b) => Json::Bool(b),
        serde_json::Value::Number(n) => Json::Number(n),
        serde_json::Value::String(s) => Json::Str(s),
        serde_json::Value::Array(a) => Json::Array(a.into_iter().map(json_from_value).collect()),
        serde_json::Value::Object(m) => Json::Object(
            m.into_iter().map(|(k, x)| (k, json_from_value(x))).collect(),
        ),
    }
}

/// Copies a `Json` into a `serde_json::Value`, one variant to the same
/// variant; used only inside `serialize_json`.
#[verifier::external_body]
fn value_from_json(doc: &Json) -> serde_json::Value {
    match doc {
        Json::Null => serde_json::Value::Null,
        Json::Bool(b) => serde_json::Value::Bool(*b),
        Json::Number(n) => serde_json::Value::Number(n.clone()),
        Json::Str(s) => serde_json::Value::String(s.clone()),
        Json::Array(a) => serde_json::Value::Array(a.iter().map(value_from_json).collect()),
        Json::Object(m) => serde_json::Value::Object(
            m.iter().map(|(k, x)| (k.clone(), value_from_json(x))).collect(),
        ),
    }
}

} // verus!
