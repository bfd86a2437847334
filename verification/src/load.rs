//! Loading the configuration model. The external parser turns the file's
//! text into a JSON document; the document is rebuilt as the library's own
//! model type, and verified code extracts and validates the schema of
//! [`NiksiConfig`] from that model, applying the documented defaults. The
//! contract of [`load_config`] ties both the outcome and every field of a
//! returned configuration to the document of the text.

use vstd::prelude::*;
use vstd::string::StringExecFns;

use crate::{BuilderError, NiksiConfig};

verus! {

/// The library's model of a parsed JSON document. Object entries are listed
/// in the order the parser hands them over (one entry per key); numeric
/// payloads are not carried, since the configuration schema never reads a
/// number.
#[derive(Debug)]
pub enum JsonValue {
    Null,
    Bool(bool),
    Number,
    Text(String),
    Array(Vec<JsonValue>),
    Object(Vec<(String, JsonValue)>),
}

/// What the external parser yields on `s`: the document model when `s` is a
/// well-formed JSON document, `None` otherwise. The outcome depends on the
/// text alone.
pub uninterp spec fn json_doc(s: Seq<char>) -> Option<JsonValue>;

/// Whether `s` is a well-formed JSON document, exactly as the external
/// parser decides it.
pub open spec fn json_parses(s: Seq<char>) -> bool {
    json_doc(s) is Some
}

#[verifier::external_type_specification]
#[verifier::external_body]
pub struct ExValue(serde_json::Value);

#[verifier::external_type_specification]
#[verifier::external_body]
pub struct ExJsonError(serde_json::Error);

/// Relies on `serde_json::Value`'s variants: rebuilds the parsed document
/// as the library's model, variant by variant.
#[verifier::external_body]
fn value_to_model(v: serde_json::Value) -> JsonValue {
    match v {
        serde_json::Value::Null => JsonValue::Null,
        serde_json::Value::Bool(b) => JsonValue::Bool(b),
        serde_json::Value::Number(_) => JsonValue::Number,
        serde_json::Value::String(s) => JsonValue::Text(s),
        serde_json::Value::Array(items) => JsonValue::Array(
            items.into_iter().map(value_to_model).collect(),
        ),
        serde_json::Value::Object(entries) => JsonValue::Object(
            entries.into_iter().map(|(k, v)| (k, value_to_model(v))).collect(),
        ),
    }
}

/// Relies on `serde_json::from_str::<Value>`: parses any well-formed JSON
/// document and rejects anything else; both the outcome and the document
/// depend on the text alone.
#[verifier::external_body]
fn parse_json(s: &str) -> (r: Result<JsonValue, serde_json::Error>)
    ensures
        r is Ok <==> json_parses(s@),
        r matches Ok(d) ==> json_doc(s@) == Some(d),
{
    match serde_json::from_str::<serde_json::Value>(s) {
        Ok(v) => Ok(value_to_model(v)),
        Err(e) => Err(e),
    }
}

/// Relies on `serde_json::Error`'s `Display` implementation for the
/// parser's diagnostic message.
#[verifier::external_body]
fn parse_error_message(e: &serde_json::Error) -> String {
    e.to_string()
}

/// The first entry under `key` among the object entries `pairs`.
pub open spec fn entry_lookup(pairs: Seq<(String, JsonValue)>, key: Seq<char>) -> Option<JsonValue>
    decreases pairs.len(),
{
    if pairs.len() == 0 {
        None
    } else if pairs[0].0@ == key {
        Some(pairs[0].1)
    } else {
        entry_lookup(pairs.drop_first(), key)
    }
}

/// The value under `key` when `d` is an object with such an entry.
pub open spec fn doc_field(d: JsonValue, key: Seq<char>) -> Option<JsonValue> {
    match d {
        JsonValue::Object(pairs) => entry_lookup(pairs@, key),
        _ => None,
    }
}

/// Whether `d` holds a string under the required `key`.
pub open spec fn req_string_ok(d: JsonValue, key: Seq<char>) -> bool {
    doc_field(d, key) matches Some(JsonValue::Text(_))
}

/// The string under the required `key`.
pub open spec fn req_string_value(d: JsonValue, key: Seq<char>) -> Seq<char> {
    doc_field(d, key)->Some_0->Text_0@
}

/// Whether the optional `key` is valid in `d`: absent, null, or a string.
pub open spec fn opt_string_ok(d: JsonValue, key: Seq<char>) -> bool {
    match doc_field(d, key) {
        None => true,
        Some(v) => v is Text || v is Null,
    }
}

/// The string under the optional `key`; `None` when absent or null.
pub open spec fn opt_string_value(d: JsonValue, key: Seq<char>) -> Option<Seq<char>> {
    match doc_field(d, key) {
        Some(JsonValue::Text(s)) => Some(s@),
        _ => None,
    }
}

/// Whether the list `key` is valid in `d`: absent, null, or an array of
/// strings.
pub open spec fn string_list_ok(d: JsonValue, key: Seq<char>) -> bool {
    match doc_field(d, key) {
        None => true,
        Some(JsonValue::Null) => true,
        Some(JsonValue::Array(items)) => forall|i: int|
            0 <= i < items@.len() ==> items@[i] is Text,
        Some(_) => false,
    }
}

/// The strings under the list `key`; empty when absent or null.
pub open spec fn string_list_value(d: JsonValue, key: Seq<char>) -> Seq<Seq<char>> {
    match doc_field(d, key) {
        Some(JsonValue::Array(items)) => items@.map_values(|v: JsonValue| v->Text_0@),
        _ => Seq::empty(),
    }
}

/// Whether the document `d` matches the configuration schema: `name`
/// (non-empty string) and `version` (string) are required; `course_code`,
/// `template` and `registry` are optional strings; `maintainers`,
/// `packages` and `vscode_extensions` are lists of strings.
pub open spec fn schema_ok(d: JsonValue) -> bool {
    &&& req_string_ok(d, "name"@)
    &&& req_string_value(d, "name"@).len() > 0
    &&& req_string_ok(d, "version"@)
    &&& opt_string_ok(d, "course_code"@)
    &&& opt_string_ok(d, "template"@)
    &&& opt_string_ok(d, "registry"@)
    &&& string_list_ok(d, "maintainers"@)
    &&& string_list_ok(d, "packages"@)
    &&& string_list_ok(d, "vscode_extensions"@)
}

/// Whether the configuration `c` holds, field for field, exactly what the
/// document `d` gives: the required and optional strings and the string
/// lists, with absent fields defaulted to `None` or empty.
pub open spec fn config_matches(c: NiksiConfig, d: JsonValue) -> bool {
    &&& c.name@ == req_string_value(d, "name"@)
    &&& c.version@ == req_string_value(d, "version"@)
    &&& c.course_code.deep_view() == opt_string_value(d, "course_code"@)
    &&& c.template.deep_view() == opt_string_value(d, "template"@)
    &&& c.registry.deep_view() == opt_string_value(d, "registry"@)
    &&& c.maintainers.deep_view() == string_list_value(d, "maintainers"@)
    &&& c.packages.deep_view() == string_list_value(d, "packages"@)
    &&& c.vscode_extensions.deep_view() == string_list_value(d, "vscode_extensions"@)
}

/// The entry under `key` among the object entries `pairs`.
fn entry_get<'a>(pairs: &'a Vec<(String, JsonValue)>, key: &str) -> (r: Option<&'a JsonValue>)
    ensures
        r matches Some(v) ==> entry_lookup(pairs@, key@) == Some(*v),
        r is None ==> entry_lookup(pairs@, key@) is None,
{
    let wanted: String = key.to_owned();
    proof {
        assert(pairs@.skip(0) =~= pairs@);
    }
    let mut i: usize = 0;
    while i < pairs.len()
        invariant
            0 <= i <= pairs.len(),
            wanted@ == key@,
            entry_lookup(pairs@, key@) == entry_lookup(pairs@.skip(i as int), key@),
        decreases pairs.len() - i,
    {
        if pairs[i].0 == wanted {
            proof {
                assert(pairs@.skip(i as int)[0] == pairs@[i as int]);
            }
            return Some(&pairs[i].1);
        }
        proof {
            assert(pairs@.skip(i as int)[0] == pairs@[i as int]);
            assert(pairs@.skip(i as int).drop_first() =~= pairs@.skip(i + 1));
        }
        i = i + 1;
    }
    proof {
        assert(pairs@.skip(pairs@.len() as int) =~= Seq::<(String, JsonValue)>::empty());
    }
    None
}

/// The value under `key` when `d` is an object with such an entry.
fn field<'a>(d: &'a JsonValue, key: &str) -> (r: Option<&'a JsonValue>)
    ensures
        r matches Some(v) ==> doc_field(*d, key@) == Some(*v),
        r is None ==> doc_field(*d, key@) is None,
{
    match d {
        JsonValue::Object(pairs) => entry_get(pairs, key),
        _ => None,
    }
}

/// A schema failure: `detail` followed by the field's name.
fn schema_error(detail: &str, field: &str) -> (r: BuilderError)
    ensures
        r matches BuilderError::ParseError(_),
{
    let mut m = detail.to_owned();
    m.append(field);
    BuilderError::ParseError(m)
}

/// The string under `key`, required: absent, null or non-string yields a
/// schema failure.
fn required_string(d: &JsonValue, key: &str) -> (r: Result<String, BuilderError>)
    ensures
        r is Ok <==> req_string_ok(*d, key@),
        r matches Ok(s) ==> s@ == req_string_value(*d, key@),
        r matches Err(e) ==> e matches BuilderError::ParseError(_),
{
    match field(d, key) {
        Some(JsonValue::Text(s)) => Ok(s.clone()),
        Some(_) => Err(schema_error("expected a string for required field ", key)),
        None => Err(schema_error("missing required field ", key)),
    }
}

/// The string under `key`, optional: absent or null yields `None`, any
/// other non-string value a schema failure.
fn optional_string(d: &JsonValue, key: &str) -> (r: Result<Option<String>, BuilderError>)
    ensures
        r is Ok <==> opt_string_ok(*d, key@),
        r matches Ok(o) ==> o.deep_view() == opt_string_value(*d, key@),
        r matches Err(e) ==> e matches BuilderError::ParseError(_),
{
    match field(d, key) {
        Some(JsonValue::Text(s)) => Ok(Some(s.clone())),
        Some(JsonValue::Null) => Ok(None),
        Some(_) => Err(schema_error("expected a string for field ", key)),
        None => Ok(None),
    }
}

/// The list of strings under `key`: absent or null yields the empty list, a
/// non-array value or a non-string element a schema failure.
fn string_list(d: &JsonValue, key: &str) -> (r: Result<Vec<String>, BuilderError>)
    ensures
        r is Ok <==> string_list_ok(*d, key@),
        r matches Ok(l) ==> l.deep_view() == string_list_value(*d, key@),
        r matches Err(e) ==> e matches BuilderError::ParseError(_),
{
    let items = match field(d, key) {
        Some(JsonValue::Array(items)) => items,
        Some(JsonValue::Null) => {
            return Ok(Vec::new());
        },
        Some(_) => {
            return Err(schema_error("expected a list of strings for field ", key));
        },
        None => {
            return Ok(Vec::new());
        },
    };
    proof {
        assert(doc_field(*d, key@) == Some(JsonValue::Array(*items)));
    }
    let mut out: Vec<String> = Vec::new();
    let mut i: usize = 0;
    while i < items.len()
        invariant
            0 <= i <= items.len(),
            doc_field(*d, key@) == Some(JsonValue::Array(*items)),
            out.deep_view() =~= items@.take(i as int).map_values(|v: JsonValue| v->Text_0@),
            forall|k: int| 0 <= k < i ==> items@[k] is Text,
        decreases items.len() - i,
    {
        match &items[i] {
            JsonValue::Text(s) => out.push(s.clone()),
            _ => {
                proof {
                    assert(!(items@[i as int] is Text));
                    assert(!string_list_ok(*d, key@));
                }
                return Err(schema_error("expected only strings in field ", key));
            },
        }
        proof {
            let pre = items@.take(i as int).map_values(|v: JsonValue| v->Text_0@);
            let cur = items@.take(i + 1).map_values(|v: JsonValue| v->Text_0@);
            assert(cur =~= pre.push(items@[i as int]->Text_0@));
            assert(out.deep_view() =~= cur);
        }
        i = i + 1;
    }
    proof {
        assert(items@.take(items@.len() as int) =~= items@);
        assert(out.deep_view() =~= string_list_value(*d, key@));
        assert(string_list_ok(*d, key@));
    }
    Ok(out)
}

/// Parses `text` into the configuration model.
///
/// Fails with `ParseError` exactly when `text` is not well-formed JSON or
/// its document does not match the schema; on success every field of the
/// returned configuration holds exactly what the document gives, with
/// absent optional fields defaulted to `None` or empty. No other failure
/// mode exists, and nothing is defaulted unless the whole document is
/// valid.
pub fn load_config(text: &str) -> (r: Result<NiksiConfig, BuilderError>)
    ensures
        !json_parses(text@) ==> r matches Err(BuilderError::ParseError(_)),
        json_parses(text@) ==> ((r is Ok) <==> schema_ok(json_doc(text@)->Some_0)),
        r matches Ok(c) ==> c.wf() && config_matches(c, json_doc(text@)->Some_0),
        r matches Err(e) ==> e matches BuilderError::ParseError(_),
{
    let doc = match parse_json(text) {
        Ok(d) => d,
        Err(e) => {
            return Err(BuilderError::ParseError(parse_error_message(&e)));
        },
    };
    let name = match required_string(&doc, "name") {
        Ok(s) => s,
        Err(e) => {
            return Err(e);
        },
    };
    if name.as_str().is_empty() {
        return Err(schema_error("expected a non-empty string for required field ", "name"));
    }
    let version = match required_string(&doc, "version") {
        Ok(s) => s,
        Err(e) => {
            return Err(e);
        },
    };
    let course_code = match optional_string(&doc, "course_code") {
        Ok(o) => o,
        Err(e) => {
            return Err(e);
        },
    };
    let template = match optional_string(&doc, "template") {
        Ok(o) => o,
        Err(e) => {
            return Err(e);
        },
    };
    let registry = match optional_string(&doc, "registry") {
        Ok(o) => o,
        Err(e) => {
            return Err(e);
        },
    };
    let maintainers = match string_list(&doc, "maintainers") {
        Ok(l) => l,
        Err(e) => {
            return Err(e);
        },
    };
    let packages = match string_list(&doc, "packages") {
        Ok(l) => l,
        Err(e) => {
            return Err(e);
        },
    };
    let vscode_extensions = match string_list(&doc, "vscode_extensions") {
        Ok(l) => l,
        Err(e) => {
            return Err(e);
        },
    };
    Ok(
        NiksiConfig {
            name,
            course_code,
            version,
            maintainers,
            packages,
            vscode_extensions,
            template,
            registry,
        },
    )
}

} // verus!
