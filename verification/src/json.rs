//! Structured records: the JSON documents that the filter reads and writes.
//!
//! Parsing and printing are done by `serde_json`. What a document holds is
//! modelled by [`JsonTree`]; the functions of this module that are marked
//! `external_body` tie the calls into `serde_json` to that model and are
//! believed, not proved.

use vstd::prelude::*;
use serde_json::Value;

verus! {

/// `serde_json::Value`: a JSON document. Nothing of its inside is visible
/// here; what it holds is spoken of through `json_tree`.
#[verifier::external_type_specification]
#[verifier::external_body]
pub struct ExValue(serde_json::Value);

/// `serde_json::Error`: why a document could not be read or printed. It is
/// only ever passed on or dropped.
#[verifier::external_type_specification]
#[verifier::external_body]
pub struct ExJsonError(serde_json::Error);

/// A JSON number: a non-negative integer, a negative integer, or a float
/// (by its bit pattern).
pub enum JsonNumber {
    Unsigned(u64),
    Negative(i64),
    Float(u64),
}

/// The fields of a JSON object, in the order in which they are printed.
pub type JsonFields = Seq<(Seq<char>, JsonTree)>;

/// What a JSON document holds.
pub enum JsonTree {
    Null,
    Bool(bool),
    Number(JsonNumber),
    Text(Seq<char>),
    List(Seq<JsonTree>),
    Object(JsonFields),
}

/// The value of the first field named `key`, if there is one.
pub open spec fn get_field(fields: JsonFields, key: Seq<char>) -> Option<JsonTree>
    decreases fields.len(),
{
    if fields.len() == 0 {
        None
    } else if fields[0].0 == key {
        Some(fields[0].1)
    } else {
        get_field(fields.drop_first(), key)
    }
}

/// `fields` after `key` is set to `value`: an existing field keeps its place
/// and takes the new value, a new field is added at the end.
pub open spec fn put_field(fields: JsonFields, key: Seq<char>, value: JsonTree) -> JsonFields
    decreases fields.len(),
{
    if fields.len() == 0 {
        seq![(key, value)]
    } else if fields[0].0 == key {
        fields.update(0, (key, value))
    } else {
        seq![fields[0]] + put_field(fields.drop_first(), key, value)
    }
}

/// Setting a field that is not there adds it at the end.
pub proof fn lemma_put_new_field(fields: JsonFields, key: Seq<char>, value: JsonTree)
    requires
        get_field(fields, key) is None,
    ensures
        put_field(fields, key, value) == fields.push((key, value)),
    decreases fields.len(),
{
    if fields.len() != 0 {
        lemma_put_new_field(fields.drop_first(), key, value);
        assert(seq![fields[0]] + fields.drop_first().push((key, value)) =~= fields.push(
            (key, value),
        ));
    }
}

/// Looking a field up after another was added at the end: fields that were
/// there come first.
pub proof fn lemma_get_after_push(
    fields: JsonFields,
    added: Seq<char>,
    value: JsonTree,
    key: Seq<char>,
)
    ensures
        get_field(fields.push((added, value)), key) == if get_field(fields, key) is Some {
            get_field(fields, key)
        } else if added == key {
            Some(value)
        } else {
            None
        },
    decreases fields.len(),
{
    let longer = fields.push((added, value));
    if fields.len() == 0 {
        assert(longer.drop_first() =~= fields);
    } else {
        assert(longer.drop_first() =~= fields.drop_first().push((added, value)));
        lemma_get_after_push(fields.drop_first(), added, value, key);
    }
}

/// After a field is set, it holds the new value.
pub proof fn lemma_put_field_sets(fields: JsonFields, key: Seq<char>, value: JsonTree)
    ensures
        get_field(put_field(fields, key, value), key) == Some(value),
    decreases fields.len(),
{
    if fields.len() != 0 && fields[0].0 != key {
        lemma_put_field_sets(fields.drop_first(), key, value);
        assert((seq![fields[0]] + put_field(fields.drop_first(), key, value)).drop_first()
            =~= put_field(fields.drop_first(), key, value));
    }
}

/// Setting a field leaves every field of another name as it was.
pub proof fn lemma_put_field_keeps_others(
    fields: JsonFields,
    key: Seq<char>,
    value: JsonTree,
    other: Seq<char>,
)
    requires
        other != key,
    ensures
        get_field(put_field(fields, key, value), other) == get_field(fields, other),
    decreases fields.len(),
{
    if fields.len() == 0 {
        assert(get_field(seq![(key, value)].drop_first(), other) is None);
    } else {
        if fields[0].0 == key {
            assert(fields.update(0, (key, value)).drop_first() =~= fields.drop_first());
        } else {
            lemma_put_field_keeps_others(fields.drop_first(), key, value, other);
            assert((seq![fields[0]] + put_field(fields.drop_first(), key, value)).drop_first()
                =~= put_field(fields.drop_first(), key, value));
        }
    }
}

/// Setting a field removes none and moves none: every field keeps its place
/// and its name, and all but the one that was set keep their value. At most
/// one field is added, at the end.
pub proof fn lemma_put_field_keeps_places(fields: JsonFields, key: Seq<char>, value: JsonTree)
    ensures
        fields.len() <= put_field(fields, key, value).len() <= fields.len() + 1,
        forall|i: int|
            0 <= i < fields.len() ==> (#[trigger] put_field(fields, key, value)[i]).0
                == fields[i].0,
        forall|i: int|
            0 <= i < fields.len() && fields[i].0 != key ==> #[trigger] put_field(
                fields,
                key,
                value,
            )[i] == fields[i],
    decreases fields.len(),
{
    if fields.len() != 0 && fields[0].0 != key {
        lemma_put_field_keeps_places(fields.drop_first(), key, value);
    }
}

/// What the document `value` holds.
pub uninterp spec fn json_tree(value: Value) -> JsonTree;

/// The document that `serde_json` reads from `bytes`, or `None` where it
/// rejects them.
pub uninterp spec fn parsed_json(bytes: Seq<u8>) -> Option<JsonTree>;

/// The compact text that `serde_json` prints for a document, or `None` where
/// it reports an error.
pub uninterp spec fn json_text(tree: JsonTree) -> Option<Seq<u8>>;

/// What each of `values` holds, in order.
pub open spec fn json_trees(values: Seq<Value>) -> Seq<JsonTree> {
    values.map_values(|v: Value| json_tree(v))
}

/// Calls `serde_json::from_slice` for a `Value`. Believed: the outcome depends
/// on the bytes alone, so it is `parsed_json` of them.
#[verifier::external_body]
pub(crate) fn parse_json(bytes: &[u8]) -> (parsed: Result<Value, serde_json::Error>)
    ensures
        match parsed {
            Ok(value) => parsed_json(bytes@) == Some(json_tree(value)),
            Err(_) => parsed_json(bytes@) is None,
        },
{
    serde_json::from_slice(bytes)
}

/// Calls `serde_json::to_vec`. Believed: the outcome depends on what the
/// document holds alone, so it is `json_text` of that.
#[verifier::external_body]
pub(crate) fn print_json(value: &Value) -> (printed: Result<Vec<u8>, serde_json::Error>)
    ensures
        match printed {
            Ok(bytes) => json_text(json_tree(*value)) == Some(bytes@),
            Err(_) => json_text(json_tree(*value)) is None,
        },
{
    serde_json::to_vec(value)
}

/// Builds `Value::Bool`.
#[verifier::external_body]
pub(crate) fn json_bool(flag: bool) -> (value: Value)
    ensures
        json_tree(value) == JsonTree::Bool(flag),
{
    Value::Bool(flag)
}

/// Builds `Value::String`.
#[verifier::external_body]
pub(crate) fn json_string(text: String) -> (value: Value)
    ensures
        json_tree(value) == JsonTree::Text(text@),
{
    Value::String(text)
}

/// Builds `Value::Number` from an unsigned integer, through
/// `serde_json::Number::from`, which keeps it as it is.
#[verifier::external_body]
pub(crate) fn json_number(number: u64) -> (value: Value)
    ensures
        json_tree(value) == JsonTree::Number(JsonNumber::Unsigned(number)),
{
    Value::Number(serde_json::Number::from(number))
}

/// Builds `Value::Array`, which holds the items in their order.
#[verifier::external_body]
pub(crate) fn json_list(items: Vec<Value>) -> (value: Value)
    ensures
        json_tree(value) == JsonTree::List(json_trees(items@)),
{
    Value::Array(items)
}

/// Builds `Value::Object` from `serde_json::Map::new`, a map without fields.
#[verifier::external_body]
pub(crate) fn json_object() -> (value: Value)
    ensures
        json_tree(value) == JsonTree::Object(Seq::empty()),
{
    Value::Object(serde_json::Map::new())
}

/// Calls `serde_json::Map::insert` on the map of an object. Believed, of the
/// map that `serde_json` has with its `preserve_order` feature (an
/// `indexmap::IndexMap`): a key that is present keeps its place and takes
/// the new value, a new key goes last. A document that is no object stays as
/// it is, and the result says so.
#[verifier::external_body]
pub(crate) fn json_insert(target: &mut Value, key: String, value: Value) -> (inserted: bool)
    ensures
        inserted == (json_tree(*old(target)) is Object),
        json_tree(*final(target)) == match json_tree(*old(target)) {
            JsonTree::Object(fields) => JsonTree::Object(put_field(fields, key@, json_tree(value))),
            other => other,
        },
{
    match target.as_object_mut() {
        Some(fields) => {
            fields.insert(key, value);
            true
        },
        None => false,
    }
}

} // verus!
