//! The rewrite of the generated `package.json`.

use vstd::prelude::*;
use vstd::string::*;

use crate::error::{BuildError, BuildErrorView};

verus! {

/// A JSON value of `serde_json`.
#[verifier::external_type_specification]
#[verifier::external_body]
pub struct ExJsonValue(serde_json::Value);

/// A JSON object's members in `serde_json`.
#[verifier::external_type_specification]
#[verifier::external_body]
#[verifier::reject_recursive_types(K)]
#[verifier::reject_recursive_types(V)]
pub struct ExJsonMap<K, V>(serde_json::Map<K, V>);

/// An error of `serde_json`.
#[verifier::external_type_specification]
#[verifier::external_body]
pub struct ExJsonError(serde_json::Error);

/// What the top level of a text is when read as JSON.
#[derive(Debug, Clone, Copy, PartialEq, Eq)]
pub enum JsonRoot {
    /// The text is not a JSON document.
    Invalid,
    /// The document is `null`.
    Null,
    /// The document is an object.
    Object,
    /// The document is an array, a string, a number or a boolean.
    Other,
}

/// A JSON value as `serde_json` holds it: a number is kept as the text
/// that `serde_json` writes for it, and an object as its members (without
/// the `preserve_order` feature, `serde_json` keeps and writes members in
/// the order of their keys).
pub enum JsonDoc {
    Null,
    Bool(bool),
    Number(Seq<char>),
    Str(Seq<char>),
    Array(Seq<JsonDoc>),
    Object(Map<Seq<char>, JsonDoc>),
}

/// What `serde_json::from_str::<serde_json::Value>` gives for `text`: the
/// value read, or the message of the error it reports.
pub uninterp spec fn json_read(text: Seq<char>) -> Result<JsonDoc, Seq<char>>;

/// The message that a `serde_json::Error` carries (its `Display` text).
pub uninterp spec fn json_error_view(e: serde_json::Error) -> Seq<char>;

/// The JSON document in `text`, or `None` when `text` is not JSON.
pub open spec fn json_document(text: Seq<char>) -> Option<JsonDoc> {
    match json_read(text) {
        Ok(doc) => Some(doc),
        Err(_) => None,
    }
}

/// The message of the error that reading `text` as JSON reports.
pub open spec fn json_read_error(text: Seq<char>) -> Seq<char> {
    match json_read(text) {
        Ok(_) => Seq::empty(),
        Err(message) => message,
    }
}

/// The JSON value that a `serde_json::Value` holds.
pub uninterp spec fn json_value_view(v: serde_json::Value) -> JsonDoc;

/// The members that a `serde_json::Map` holds.
pub uninterp spec fn json_map_contents(m: serde_json::Map<String, serde_json::Value>) -> Map<
    Seq<char>,
    JsonDoc,
>;

/// The text that `serde_json::to_string_pretty` writes for a JSON value.
pub uninterp spec fn pretty_json(doc: JsonDoc) -> Seq<char>;

/// An object without members.
pub open spec fn no_members() -> Map<Seq<char>, JsonDoc> {
    Map::empty()
}

/// What the top of `text` is when read as JSON.
pub open spec fn json_text_root(text: Seq<char>) -> JsonRoot {
    match json_document(text) {
        None => JsonRoot::Invalid,
        Some(JsonDoc::Null) => JsonRoot::Null,
        Some(JsonDoc::Object(_)) => JsonRoot::Object,
        Some(_) => JsonRoot::Other,
    }
}

/// The members of the document in `text` that the rewrite keeps: those of
/// an object, or none for `null`.
pub open spec fn kept_members(text: Seq<char>) -> Map<Seq<char>, JsonDoc> {
    match json_document(text) {
        Some(JsonDoc::Object(m)) => m,
        _ => Map::empty(),
    }
}

/// The value of `files` in the published `package.json`.
pub open spec fn published_files() -> JsonDoc {
    JsonDoc::Array(
        seq![JsonDoc::Str("index_bg.wasm"@), JsonDoc::Str("index.js"@), JsonDoc::Str("index.d.ts"@)],
    )
}

/// The value of `sideEffects` in the published `package.json`.
pub open spec fn published_side_effects() -> JsonDoc {
    JsonDoc::Array(seq![JsonDoc::Str("./index.js"@)])
}

/// The members of the published `package.json`: the kept members with
/// `files`, `main` and `sideEffects` set.
pub open spec fn published_members(text: Seq<char>) -> Map<Seq<char>, JsonDoc> {
    kept_members(text).insert("files"@, published_files()).insert(
        "main"@,
        JsonDoc::Str("index.js"@),
    ).insert("sideEffects"@, published_side_effects())
}

/// Reads `text` with `serde_json::from_str::<serde_json::Value>`: it gives
/// the value read or the error reported, as `json_read` names them.
#[verifier::external_body]
fn parse_json(text: &str) -> (r: Result<serde_json::Value, serde_json::Error>)
    ensures
        r matches Ok(v) ==> (json_read(text@) matches Ok(d) && d == json_value_view(v)),
        r matches Err(e) ==> (json_read(text@) matches Err(m) && m == json_error_view(e)),
{
    serde_json::from_str::<serde_json::Value>(text)
}

/// Whether a JSON value is `null` (`serde_json::Value::is_null`).
#[verifier::external_body]
fn is_json_null(value: &serde_json::Value) -> (r: bool)
    ensures
        r <==> json_value_view(*value) == JsonDoc::Null,
{
    value.is_null()
}

/// The members of a JSON value that is an object, or `None` for any other
/// value.
#[verifier::external_body]
fn into_object(value: serde_json::Value) -> (r: Option<serde_json::Map<String, serde_json::Value>>)
    ensures
        r is Some <==> json_value_view(value) is Object,
        r matches Some(m) ==> json_value_view(value) == JsonDoc::Object(json_map_contents(m)),
{
    match value {
        serde_json::Value::Object(m) => Some(m),
        serde_json::Value::Null => None,
        serde_json::Value::Bool(_) => None,
        serde_json::Value::Number(_) => None,
        serde_json::Value::String(_) => None,
        serde_json::Value::Array(_) => None,
    }
}

/// What the top of `text` is when read as JSON.
fn document_root(text: &str) -> (k: JsonRoot)
    ensures
        k == json_text_root(text@),
{
    match parse_json(text) {
        Err(_) => JsonRoot::Invalid,
        Ok(value) => {
            if is_json_null(&value) {
                JsonRoot::Null
            } else {
                match into_object(value) {
                    Some(_) => JsonRoot::Object,
                    None => JsonRoot::Other,
                }
            }
        },
    }
}

/// An empty object (`serde_json::Map::new`).
#[verifier::external_body]
fn empty_object() -> (r: serde_json::Map<String, serde_json::Value>)
    ensures
        json_map_contents(r) == no_members(),
{
    serde_json::Map::new()
}

/// Sets member `key` of an object (`serde_json::Map::insert`).
#[verifier::external_body]
fn set_member(
    object: &mut serde_json::Map<String, serde_json::Value>,
    key: String,
    value: serde_json::Value,
)
    ensures
        json_map_contents(*final(object)) == json_map_contents(*old(object)).insert(
            key@,
            json_value_view(value),
        ),
{
    object.insert(key, value);
}

/// A JSON string (`serde_json::Value::String`).
#[verifier::external_body]
fn json_string(s: String) -> (r: serde_json::Value)
    ensures
        json_value_view(r) == JsonDoc::Str(s@),
{
    serde_json::Value::String(s)
}

/// A JSON array (`serde_json::Value::Array`).
#[verifier::external_body]
fn json_array(items: Vec<serde_json::Value>) -> (r: serde_json::Value)
    ensures
        json_value_view(r) == JsonDoc::Array(items@.map_values(|v: serde_json::Value| json_value_view(v))),
{
    serde_json::Value::Array(items)
}

/// A JSON object (`serde_json::Value::Object`).
#[verifier::external_body]
fn json_object(object: serde_json::Map<String, serde_json::Value>) -> (r: serde_json::Value)
    ensures
        json_value_view(r) == JsonDoc::Object(json_map_contents(object)),
{
    serde_json::Value::Object(object)
}

/// The pretty-printed text of a JSON value (`serde_json::to_string_pretty`),
/// which depends on the value alone and cannot fail for a
/// `serde_json::Value`: its keys are strings and its serialization never
/// reports an error.
#[verifier::external_body]
fn pretty_text(value: &serde_json::Value) -> (r: Result<String, serde_json::Error>)
    ensures
        r is Ok,
        r is Ok ==> r->Ok_0@ == pretty_json(json_value_view(*value)),
{
    serde_json::to_string_pretty(value)
}

/// The message of a `serde_json` error (its `Display` text).
#[verifier::external_body]
fn json_error_message(e: &serde_json::Error) -> (r: String)
    ensures
        r@ == json_error_view(*e),
{
    e.to_string()
}

/// A JSON array of the given strings.
fn string_array(items: &[&str]) -> (r: serde_json::Value)
    ensures
        json_value_view(r) == JsonDoc::Array(items@.map_values(|s: &str| JsonDoc::Str(s@))),
{
    let mut values: Vec<serde_json::Value> = Vec::new();
    let mut i: usize = 0;
    while i < items.len()
        invariant
            i <= items.len(),
            values@.len() == i,
            forall|k: int|
                0 <= k < i ==> json_value_view(#[trigger] values@[k]) == JsonDoc::Str(items@[k]@),
        decreases items.len() - i,
    {
        let v = json_string(String::from_str(items[i]));
        values.push(v);
        i = i + 1;
    }
    assert(values@.map_values(|v: serde_json::Value| json_value_view(v)) =~= items@.map_values(
        |s: &str| JsonDoc::Str(s@),
    ));
    json_array(values)
}

/// Rewrites the generated `package.json` so that it publishes the bundled
/// module: `files` becomes `["index_bg.wasm", "index.js", "index.d.ts"]`,
/// `main` becomes `"index.js"` and `sideEffects` becomes `["./index.js"]`;
/// every other member is kept, and a `null` document becomes an object.
///
/// A document whose top is neither an object nor `null` has no members to
/// set and is not accepted (see `try_update_package_json`).
pub fn update_package_json(content: &str) -> (r: Result<String, BuildError>)
    requires
        json_text_root(content@) != JsonRoot::Other,
    ensures
        r is Err <==> json_text_root(content@) == JsonRoot::Invalid,
        r matches Err(e) ==> e@ == BuildErrorView::InvalidPackageJson(json_read_error(content@)),
        r matches Ok(s) ==> s@ == pretty_json(JsonDoc::Object(published_members(content@))),
{
    let value = match parse_json(content) {
        Ok(value) => value,
        Err(e) => return Err(BuildError::InvalidPackageJson(json_error_message(&e))),
    };
    let mut object = match into_object(value) {
        Some(object) => object,
        None => empty_object(),
    };
    assert(json_map_contents(object) == kept_members(content@));
    let files: &[&str] = &["index_bg.wasm", "index.js", "index.d.ts"];
    let files_value = string_array(files);
    assert(json_value_view(files_value) == published_files()) by {
        assert(files@ =~= seq!["index_bg.wasm", "index.js", "index.d.ts"]);
        assert(files@.map_values(|s: &str| JsonDoc::Str(s@)) =~= seq![
            JsonDoc::Str("index_bg.wasm"@),
            JsonDoc::Str("index.js"@),
            JsonDoc::Str("index.d.ts"@),
        ]);
    }
    set_member(&mut object, String::from_str("files"), files_value);
    set_member(&mut object, String::from_str("main"), json_string(String::from_str("index.js")));
    let side_effects: &[&str] = &["./index.js"];
    let side_effects_value = string_array(side_effects);
    assert(json_value_view(side_effects_value) == published_side_effects()) by {
        assert(side_effects@ =~= seq!["./index.js"]);
        assert(side_effects@.map_values(|s: &str| JsonDoc::Str(s@)) =~= seq![
            JsonDoc::Str("./index.js"@),
        ]);
    }
    set_member(&mut object, String::from_str("sideEffects"), side_effects_value);
    assert(json_map_contents(object) == published_members(content@));
    match pretty_text(&json_object(object)) {
        Ok(text) => Ok(text),
        Err(e) => Err(BuildError::InvalidPackageJson(json_error_message(&e))),
    }
}

/// Rewrites the generated `package.json` as `update_package_json` does, or
/// gives `None` when the document's top is neither an object nor `null`.
pub fn try_update_package_json(content: &str) -> (r: Option<Result<String, BuildError>>)
    ensures
        r is None <==> json_text_root(content@) == JsonRoot::Other,
        r matches Some(x) ==> (x is Err <==> json_text_root(content@) == JsonRoot::Invalid),
        r matches Some(Err(e)) ==> e@ == BuildErrorView::InvalidPackageJson(
            json_read_error(content@),
        ),
        r matches Some(Ok(s)) ==> s@ == pretty_json(JsonDoc::Object(published_members(content@))),
{
    match document_root(content) {
        JsonRoot::Other => None,
        _ => Some(update_package_json(content)),
    }
}

} // verus!
