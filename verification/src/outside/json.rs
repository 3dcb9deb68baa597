//! JSON, by serde_json.

use crate::outside::{told_text, told_texts};
use crate::text::texts;
use vstd::prelude::*;

verus! {

/// A value in JSON.
pub enum JsonView {
    Text(Seq<char>),
    Number(int),
    List(Seq<JsonView>),
    Object(Map<Seq<char>, JsonView>),
}

/// A list of texts in JSON.
pub open spec fn text_list(list: Seq<Seq<char>>) -> JsonView {
    JsonView::List(Seq::new(list.len(), |i: int| JsonView::Text(list[i])))
}

/// A list of objects in JSON.
pub open spec fn object_list(list: Seq<Map<Seq<char>, JsonView>>) -> JsonView {
    JsonView::List(Seq::new(list.len(), |i: int| JsonView::Object(list[i])))
}

/// A value that is a text, a number or a list of these.
pub open spec fn flat(value: JsonView) -> bool {
    match value {
        JsonView::Text(_) | JsonView::Number(_) => true,
        JsonView::List(list) => forall|i: int|
            0 <= i < list.len() ==> (#[trigger] list[i] is Text || list[i] is Number),
        JsonView::Object(_) => false,
    }
}

/// Fields that are flat, or lists of objects with flat fields.
pub open spec fn shallow(fields: Map<Seq<char>, JsonView>) -> bool {
    forall|key: Seq<char>| #[trigger]
        fields.contains_key(key) ==> (flat(fields[key]) || match fields[key] {
            JsonView::List(list) => forall|i: int|
                0 <= i < list.len() ==> match #[trigger] list[i] {
                    JsonView::Object(inner) => forall|name: Seq<char>| #[trigger]
                        inner.contains_key(name) ==> flat(inner[name]),
                    _ => false,
                },
            _ => false,
        })
}

#[verifier::external_type_specification]
#[verifier::external_body]
pub struct ExJsonValue(serde_json::Value);

#[verifier::external_type_specification]
#[verifier::external_body]
#[verifier::reject_recursive_types(K)]
#[verifier::reject_recursive_types(V)]
pub struct ExJsonMap<K, V>(serde_json::Map<K, V>);

/// The fields of a JSON object.
pub uninterp spec fn json_fields(object: serde_json::Map<String, serde_json::Value>) -> Map<
    Seq<char>,
    JsonView,
>;

/// No fields at all.
pub open spec fn no_fields() -> Map<Seq<char>, JsonView> {
    Map::empty()
}

/// Calls `serde_json::Map::new`: an object without fields.
#[verifier::external_body]
pub(crate) fn json_object() -> (r: serde_json::Map<String, serde_json::Value>)
    ensures
        json_fields(r) == no_fields(),
{
    serde_json::Map::new()
}

/// Calls `serde_json::Map::insert` with a text.
#[verifier::external_body]
pub(crate) fn json_put_text(
    object: &mut serde_json::Map<String, serde_json::Value>,
    key: &str,
    value: &str,
)
    ensures
        json_fields(*final(object)) == json_fields(*old(object)).insert(
            key@,
            JsonView::Text(value@),
        ),
{
    object.insert(key.to_owned(), value.into());
}

/// Calls `serde_json::Map::insert` with an integer.
#[verifier::external_body]
pub(crate) fn json_put_integer(
    object: &mut serde_json::Map<String, serde_json::Value>,
    key: &str,
    value: i64,
)
    ensures
        json_fields(*final(object)) == json_fields(*old(object)).insert(
            key@,
            JsonView::Number(value as int),
        ),
{
    object.insert(key.to_owned(), value.into());
}

/// Calls `serde_json::Map::insert` with a natural number.
#[verifier::external_body]
pub(crate) fn json_put_natural(
    object: &mut serde_json::Map<String, serde_json::Value>,
    key: &str,
    value: usize,
)
    ensures
        json_fields(*final(object)) == json_fields(*old(object)).insert(
            key@,
            JsonView::Number(value as int),
        ),
{
    object.insert(key.to_owned(), value.into());
}

/// Calls `serde_json::Map::insert` with a list of texts.
#[verifier::external_body]
pub(crate) fn json_put_texts(
    object: &mut serde_json::Map<String, serde_json::Value>,
    key: &str,
    value: &Vec<String>,
)
    ensures
        json_fields(*final(object)) == json_fields(*old(object)).insert(
            key@,
            text_list(texts(value@)),
        ),
{
    object.insert(key.to_owned(), value.clone().into());
}

/// Calls `serde_json::Map::insert` with a list of objects.
#[verifier::external_body]
pub(crate) fn json_put_objects(
    object: &mut serde_json::Map<String, serde_json::Value>,
    key: &str,
    value: Vec<serde_json::Map<String, serde_json::Value>>,
)
    ensures
        json_fields(*final(object)) == json_fields(*old(object)).insert(
            key@,
            object_list(
                value@.map_values(
                    |o: serde_json::Map<String, serde_json::Value>| json_fields(o),
                ),
            ),
        ),
{
    object.insert(key.to_owned(), value.into());
}

/// How `serde_json::Value` writes an object with the given fields.
pub uninterp spec fn json_of(fields: Map<Seq<char>, JsonView>) -> Seq<char>;

/// Calls `serde_json::Value::to_string` on an object. The text depends on its
/// fields alone.
#[verifier::external_body]
pub(crate) fn json_text(object: serde_json::Map<String, serde_json::Value>) -> (r: String)
    ensures
        r@ == json_of(json_fields(object)),
{
    serde_json::Value::Object(object).to_string()
}

/// What `serde_json::from_str` makes of a text that is to be a list of texts:
/// the list, or the debug text of its error.
pub uninterp spec fn list_of_json(json: Seq<char>) -> Result<Seq<Seq<char>>, Seq<char>>;

/// Whether a text is read as the given list.
pub open spec fn reads_as(json: Seq<char>, list: Seq<Seq<char>>) -> bool {
    list_of_json(json) == Ok::<Seq<Seq<char>>, Seq<char>>(list)
}

/// Calls `serde_json::from_str::<Vec<String>>`.
#[verifier::external_body]
pub(crate) fn read_list(json: &str) -> (r: Result<Vec<String>, String>)
    ensures
        told_texts(r) == list_of_json(json@),
{
    serde_json::from_str(json).map_err(|e| format!("{:?}", e))
}

/// What `serde_json::to_string` makes of a list of texts.
pub uninterp spec fn json_of_list(list: Seq<Seq<char>>) -> Result<Seq<char>, Seq<char>>;

/// Calls `serde_json::to_string` on a list of texts; `serde_json::from_str`
/// reads the list in what it writes.
#[verifier::external_body]
pub(crate) fn write_list(list: &Vec<String>) -> (r: Result<String, String>)
    ensures
        told_text(r) == json_of_list(texts(list@)),
        r matches Ok(json) ==> reads_as(json@, texts(list@)),
{
    serde_json::to_string(list).map_err(|e| format!("{:?}", e))
}

} // verus!
