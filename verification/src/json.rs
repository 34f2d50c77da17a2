//! JSON documents: what they say, and the outside crate that holds, reads and writes them.

use vstd::prelude::*;

verus! {

/// What a JSON document says. The order of an object's fields carries no meaning.
pub enum Json {
    Null,
    Bool(bool),
    /// An integer of at most 64 bits.
    Int(int),
    /// Any other number, as it is written.
    Real(Seq<char>),
    Text(Seq<char>),
    List(Seq<Json>),
    Object(Map<Seq<char>, Json>),
}

/// The object without a field.
pub open spec fn blank() -> Map<Seq<char>, Json> {
    Map::empty()
}

/// The list of the given texts.
pub open spec fn text_list(items: Seq<Seq<char>>) -> Json {
    Json::List(items.map_values(|s: Seq<char>| Json::Text(s)))
}

/// The fields with one more, where there is one.
pub open spec fn put_if(
    fields: Map<Seq<char>, Json>,
    key: Seq<char>,
    value: Option<Json>,
) -> Map<Seq<char>, Json> {
    match value {
        Some(v) => fields.insert(key, v),
        None => fields,
    }
}

/// The fields that pairs of texts spell; of two pairs with one key the later one counts.
pub open spec fn text_fields(kvs: Seq<(Seq<char>, Seq<char>)>) -> Map<Seq<char>, Json>
    decreases kvs.len(),
{
    if kvs.len() == 0 {
        Map::empty()
    } else {
        text_fields(kvs.drop_last()).insert(kvs.last().0, Json::Text(kvs.last().1))
    }
}

/// The field of that name, where the document is an object that has one.
pub open spec fn field(doc: Json, key: Seq<char>) -> Option<Json> {
    match doc {
        Json::Object(fields) => if fields.contains_key(key) {
            Some(fields[key])
        } else {
            None
        },
        _ => None,
    }
}

/// Whether the document has no more than `levels` lists and objects inside one another, and
/// only integers for numbers.
pub open spec fn nests_within(doc: Json, levels: nat) -> bool
    decreases levels,
{
    match doc {
        Json::Real(_) => false,
        Json::List(items) => levels > 0 && forall|i: int|
            0 <= i < items.len() ==> #[trigger] nests_within(items[i], (levels - 1) as nat),
        Json::Object(fields) => levels > 0 && forall|k: Seq<char>|
            fields.contains_key(k) ==> #[trigger] nests_within(fields[k], (levels - 1) as nat),
        _ => true,
    }
}

/// A JSON value as `serde_json` holds it.
#[verifier::external_type_specification]
#[verifier::external_body]
pub struct ExValue(serde_json::Value);

/// The fields of an object as `serde_json` holds them.
#[verifier::external_type_specification]
#[verifier::external_body]
#[verifier::reject_recursive_types(K)]
#[verifier::reject_recursive_types(V)]
pub struct ExFields<K, V>(serde_json::Map<K, V>);

/// Why `serde_json` could not read, write or type a document.
#[verifier::external_type_specification]
#[verifier::external_body]
pub struct ExJsonError(serde_json::Error);

/// What a `serde_json::Value` holds.
pub uninterp spec fn tree_of(value: serde_json::Value) -> Json;

/// What a `serde_json::Map` holds.
pub uninterp spec fn fields_of(fields: serde_json::Map<String, serde_json::Value>) -> Map<
    Seq<char>,
    Json,
>;

/// The document that a text spells, where `serde_json` accepts it.
pub uninterp spec fn parsed_json(text: Seq<char>) -> Option<Json>;

/// The bytes in which `serde_json` writes a document.
pub uninterp spec fn json_bytes(doc: Json) -> Seq<u8>;

/// What each of the values holds.
pub open spec fn trees_of(values: Seq<serde_json::Value>) -> Seq<Json> {
    values.map_values(|v: serde_json::Value| tree_of(v))
}

/// `serde_json::Value::from` on a `bool` holds that boolean.
#[verifier::external_body]
pub(crate) fn bool_value(b: bool) -> (value: serde_json::Value)
    ensures
        tree_of(value) == Json::Bool(b),
{
    serde_json::Value::from(b)
}

/// `serde_json::Value::from` on an `i64` holds that integer.
#[verifier::external_body]
pub(crate) fn int_value(n: i64) -> (value: serde_json::Value)
    ensures
        tree_of(value) == Json::Int(n as int),
{
    serde_json::Value::from(n)
}

/// `serde_json::Value::from` on a string holds that text.
#[verifier::external_body]
pub(crate) fn text_value(s: &str) -> (value: serde_json::Value)
    ensures
        tree_of(value) == Json::Text(s@),
{
    serde_json::Value::from(s)
}

/// `serde_json::Value::from` on a vector holds the list of what its items hold.
#[verifier::external_body]
pub(crate) fn list_value(items: Vec<serde_json::Value>) -> (value: serde_json::Value)
    ensures
        tree_of(value) == Json::List(trees_of(items@)),
{
    serde_json::Value::from(items)
}

/// `serde_json::Value::from` on a map holds the object with the map's fields.
#[verifier::external_body]
pub(crate) fn object_value(fields: serde_json::Map<String, serde_json::Value>) -> (value:
    serde_json::Value)
    ensures
        tree_of(value) == Json::Object(fields_of(fields)),
{
    serde_json::Value::from(fields)
}

/// `serde_json::Map::new` holds no field.
#[verifier::external_body]
pub(crate) fn no_fields() -> (fields: serde_json::Map<String, serde_json::Value>)
    ensures
        fields_of(fields) == blank(),
{
    serde_json::Map::new()
}

/// `serde_json::Map::insert` gives the map that field, in place of one with the same name.
#[verifier::external_body]
pub(crate) fn insert_field(
    fields: &mut serde_json::Map<String, serde_json::Value>,
    key: String,
    value: serde_json::Value,
)
    ensures
        fields_of(*final(fields)) == fields_of(*old(fields)).insert(key@, tree_of(value)),
{
    fields.insert(key, value);
}

/// `serde_json::Value::get` with a string gives the field of that name where the value is an
/// object that has one, and nothing otherwise.
#[verifier::external_body]
pub(crate) fn value_field<'a>(value: &'a serde_json::Value, key: &str) -> (field: Option<
    &'a serde_json::Value,
>)
    ensures
        match tree_of(*value) {
            Json::Object(fields) if fields.contains_key(key@) => field is Some && tree_of(
                *field->0,
            ) == fields[key@],
            _ => field is None,
        },
{
    value.get(key)
}

/// `serde_json::Value::as_str` gives the text where the value is one, and nothing otherwise.
#[verifier::external_body]
pub(crate) fn value_text<'a>(value: &'a serde_json::Value) -> (text: Option<&'a str>)
    ensures
        match tree_of(*value) {
            Json::Text(s) => text is Some && text->0@ == s,
            _ => text is None,
        },
{
    value.as_str()
}

/// `serde_json::from_str` reads a text as a document, or refuses it; which of the two, and
/// which document, rests on the text alone.
#[verifier::external_body]
pub(crate) fn read_json(text: &str) -> (value: Result<serde_json::Value, serde_json::Error>)
    ensures
        match value {
            Ok(v) => parsed_json(text@) == Some(tree_of(v)),
            Err(_) => parsed_json(text@) is None,
        },
{
    serde_json::from_str(text)
}

/// `serde_json::to_vec` on a `Value` always succeeds, and the bytes rest on what the value
/// holds alone. They are UTF-8, and reading them gives the document back where it nests no
/// deeper than `serde_json` reads.
#[verifier::external_body]
pub(crate) fn write_json(value: &serde_json::Value) -> (bytes: Result<Vec<u8>, serde_json::Error>)
    ensures
        bytes is Ok,
        bytes->Ok_0@ == json_bytes(tree_of(*value)),
        vstd::utf8::valid_utf8(bytes->Ok_0@),
        nests_within(tree_of(*value), 127) ==> parsed_json(
            vstd::utf8::decode_utf8(bytes->Ok_0@),
        ) == Some(tree_of(*value)),
{
    serde_json::to_vec(value)
}

/// Gives the object the field.
pub(crate) fn put(
    fields: &mut serde_json::Map<String, serde_json::Value>,
    key: &str,
    value: serde_json::Value,
)
    ensures
        fields_of(*final(fields)) == fields_of(*old(fields)).insert(key@, tree_of(value)),
{
    insert_field(fields, key.to_owned(), value);
}

/// The list of the given strings.
pub(crate) fn text_list_value(items: &[String]) -> (value: serde_json::Value)
    ensures
        tree_of(value) == text_list(crate::text::texts(items@)),
{
    let mut values: Vec<serde_json::Value> = Vec::new();
    for i in 0..items.len()
        invariant
            values@.len() == i,
            forall|j: int| 0 <= j < i ==> tree_of(#[trigger] values@[j]) == Json::Text(items@[j]@),
    {
        values.push(text_value(items[i].as_str()));
    }
    assert(trees_of(values@) =~= crate::text::texts(items@).map_values(
        |s: Seq<char>| Json::Text(s),
    ));
    list_value(values)
}

/// The object whose fields the pairs of strings spell.
pub(crate) fn text_fields_value(kvs: &[(String, String)]) -> (value: serde_json::Value)
    ensures
        tree_of(value) == Json::Object(text_fields(crate::text::pairs(kvs@))),
{
    let mut fields = no_fields();
    for i in 0..kvs.len()
        invariant
            fields_of(fields) == text_fields(crate::text::pairs(kvs@.take(i as int))),
    {
        insert_field(&mut fields, kvs[i].0.clone(), text_value(kvs[i].1.as_str()));
        let ghost more = crate::text::pairs(kvs@.take(i + 1));
        assert(more.drop_last() =~= crate::text::pairs(kvs@.take(i as int)));
    }
    assert(kvs@.take(kvs@.len() as int) =~= kvs@);
    object_value(fields)
}

}
