//! JSON values as plain data.
//!
//! serde_json reads the text; what it read is turned, node by node, into a
//! [`Json`], on which the rest of the library works.
use vstd::prelude::*;

use crate::text::{decimal, same_text, trimmed};

verus! {

/// A number of a JSON text: its value where it is an integer from zero up that
/// fits 64 bits, and its notation.
#[derive(Debug)]
pub struct JsonNumber {
    pub unsigned: Option<u64>,
    pub text: String,
}

/// A JSON value.
#[derive(Debug)]
pub enum Json {
    Null,
    Bool(bool),
    Number(JsonNumber),
    Text(String),
    Array(Vec<Json>),
    Object(Vec<(String, Json)>),
}

/// The mathematical form of a JSON value.
pub enum JsonTree {
    Null,
    Bool(bool),
    Number { unsigned: Option<u64>, text: Seq<char> },
    Text(Seq<char>),
    Array(Seq<JsonTree>),
    Object(Seq<(Seq<char>, JsonTree)>),
}

/// serde_json's own value, which is opaque here.
#[verifier::external_type_specification]
#[verifier::external_body]
pub struct ExJsonValue(serde_json::Value);

/// One level of a serde_json value.
pub enum JsonNode {
    Null,
    Bool(bool),
    Number(JsonNumber),
    Text(String),
    Array(Vec<serde_json::Value>),
    Object(Vec<(String, serde_json::Value)>),
}

/// What a serde_json value holds.
pub uninterp spec fn value_tree(value: serde_json::Value) -> JsonTree;

/// What `serde_json::from_str` reads in a text, if the text is JSON.
pub uninterp spec fn parsed_json(text: Seq<char>) -> Option<JsonTree>;

/// What `serde_json::from_slice` reads in a row of bytes, or the description of
/// why the bytes are no JSON.
pub uninterp spec fn parsed_json_bytes(bytes: Seq<u8>) -> Result<JsonTree, Seq<char>>;

/// The first JSON value that serde_json's stream reader finds at the beginning
/// of a text, and the text behind it.
pub uninterp spec fn leading_json(text: Seq<char>) -> Option<(JsonTree, Seq<char>)>;

/// What the level of a serde_json value says of the whole value.
pub open spec fn node_tree(node: JsonNode) -> JsonTree {
    match node {
        JsonNode::Null => JsonTree::Null,
        JsonNode::Bool(b) => JsonTree::Bool(b),
        JsonNode::Number(n) => JsonTree::Number { unsigned: n.unsigned, text: n.text@ },
        JsonNode::Text(text) => JsonTree::Text(text@),
        JsonNode::Array(items) => JsonTree::Array(
            Seq::new(items@.len(), |i: int| value_tree(items@[i])),
        ),
        JsonNode::Object(fields) => JsonTree::Object(
            Seq::new(fields@.len(), |i: int| (fields@[i].0@, value_tree(fields@[i].1))),
        ),
    }
}

/// `serde_json::from_str` to a `Value`. It is trusted to give the same value for
/// the same text, and none for a blank one; the kind of its error is dropped.
#[verifier::external_body]
pub(crate) fn read_value(text: &str) -> (r: Option<serde_json::Value>)
    ensures
        match r {
            Some(value) => parsed_json(text@) == Some(value_tree(value)),
            None => parsed_json(text@) is None,
        },
        trimmed(text@).len() == 0 ==> r is None,
{
    serde_json::from_str(text).ok()
}

/// `serde_json::from_slice` to a `Value`. It is trusted to give the same value,
/// or the same description of its error, for the same bytes.
#[verifier::external_body]
pub(crate) fn read_value_bytes(bytes: &[u8]) -> (r: Result<serde_json::Value, String>)
    ensures
        match r {
            Ok(value) => parsed_json_bytes(bytes@) == Ok::<JsonTree, Seq<char>>(value_tree(value)),
            Err(text) => parsed_json_bytes(bytes@) == Err::<JsonTree, Seq<char>>(text@),
        },
{
    serde_json::from_slice(bytes).map_err(|error| error.to_string())
}

/// The first item of serde_json's `StreamDeserializer`, and the text from its
/// `byte_offset` on. It is trusted to give the same value and the same rest for
/// the same text; an error counts as no value.
#[verifier::external_body]
pub(crate) fn read_leading_value(text: &str) -> (r: Option<(serde_json::Value, String)>)
    ensures
        match r {
            Some(found) => leading_json(text@) == Some((value_tree(found.0), found.1@)),
            None => leading_json(text@) is None,
        },
{
    let mut stream = serde_json::Deserializer::from_str(text).into_iter::<serde_json::Value>();
    let value = stream.next()?.ok()?;
    Some((value, text.get(stream.byte_offset()..)?.to_owned()))
}

/// The variants of `serde_json::Value`, told apart, with `Number::as_u64` and
/// the notation of a number. It is trusted that the value holds what its
/// variant holds, and that an unsigned number is written in decimal.
#[verifier::external_body]
fn value_node(value: serde_json::Value) -> (r: JsonNode)
    ensures
        node_tree(r) == value_tree(value),
        r matches JsonNode::Number(n) ==> (n.unsigned matches Some(v) ==> n.text@ == decimal(
            v as nat,
        )),
{
    match value {
        serde_json::Value::Null => JsonNode::Null,
        serde_json::Value::Bool(b) => JsonNode::Bool(b),
        serde_json::Value::Number(n) => JsonNode::Number(
            JsonNumber { unsigned: n.as_u64(), text: n.to_string() },
        ),
        serde_json::Value::String(text) => JsonNode::Text(text),
        serde_json::Value::Array(items) => JsonNode::Array(items),
        serde_json::Value::Object(fields) => JsonNode::Object(fields.into_iter().collect()),
    }
}

/// `Value::get` with a key, and a copy of what it finds. It is trusted to find
/// the field of that name of an object, and nothing in any other value.
#[verifier::external_body]
pub(crate) fn value_field(value: &serde_json::Value, key: &str) -> (r: Option<serde_json::Value>)
    ensures
        match r {
            Some(found) => field_of(value_tree(*value), key@) == Some(value_tree(found)),
            None => field_of(value_tree(*value), key@) is None,
        },
{
    value.get(key).cloned()
}

impl Json {
    /// The mathematical form of the value.
    pub open spec fn tree(self) -> JsonTree
        decreases self,
    {
        match self {
            Json::Null => JsonTree::Null,
            Json::Bool(b) => JsonTree::Bool(b),
            Json::Number(n) => JsonTree::Number { unsigned: n.unsigned, text: n.text@ },
            Json::Text(text) => JsonTree::Text(text@),
            Json::Array(items) => JsonTree::Array(
                Seq::new(
                    items@.len(),
                    |i: int|
                        if 0 <= i < items@.len() {
                            items@[i].tree()
                        } else {
                            JsonTree::Null
                        },
                ),
            ),
            Json::Object(fields) => JsonTree::Object(
                Seq::new(
                    fields@.len(),
                    |i: int|
                        if 0 <= i < fields@.len() {
                            (fields@[i].0@, fields@[i].1.tree())
                        } else {
                            (Seq::empty(), JsonTree::Null)
                        },
                ),
            ),
        }
    }
}

/// The value of the first field of that name.
pub open spec fn first_field(fields: Seq<(Seq<char>, JsonTree)>, key: Seq<char>) -> Option<JsonTree>
    decreases fields.len(),
{
    if fields.len() == 0 {
        None
    } else if fields[0].0 == key {
        Some(fields[0].1)
    } else {
        first_field(fields.skip(1), key)
    }
}

/// The field of that name of an object.
pub open spec fn field_of(tree: JsonTree, key: Seq<char>) -> Option<JsonTree> {
    match tree {
        JsonTree::Object(fields) => first_field(fields, key),
        _ => None,
    }
}

/// The text that a value is, if it is one.
pub open spec fn text_in(tree: JsonTree) -> Option<Seq<char>> {
    match tree {
        JsonTree::Text(text) => Some(text),
        _ => None,
    }
}

/// The text in the field of that name.
pub open spec fn text_field(tree: JsonTree, key: Seq<char>) -> Option<Seq<char>> {
    match field_of(tree, key) {
        Some(JsonTree::Text(text)) => Some(text),
        _ => None,
    }
}

/// Whether the field of that name holds `true`.
pub open spec fn true_field(tree: JsonTree, key: Seq<char>) -> bool {
    field_of(tree, key) == Some(JsonTree::Bool(true))
}

/// The array in the field of that name.
pub open spec fn array_field(tree: JsonTree, key: Seq<char>) -> Option<Seq<JsonTree>> {
    match field_of(tree, key) {
        Some(JsonTree::Array(items)) => Some(items),
        _ => None,
    }
}

/// The field of that name, or null.
pub open spec fn field_or_null(tree: JsonTree, key: Seq<char>) -> JsonTree {
    match field_of(tree, key) {
        Some(value) => value,
        None => JsonTree::Null,
    }
}

/// A row of values as a row of their mathematical forms.
pub open spec fn trees(items: Seq<Json>) -> Seq<JsonTree> {
    items.map_values(|item: Json| item.tree())
}

impl Json {
    /// The field of that name, if the value is an object that has it.
    pub fn field(&self, key: &str) -> (r: Option<&Json>)
        ensures
            match r {
                Some(value) => field_of(self.tree(), key@) == Some(value.tree()),
                None => field_of(self.tree(), key@) is None,
            },
    {
        let fields = match self {
            Json::Object(fields) => fields,
            _ => return None,
        };
        let ghost all = self.tree()->Object_0;
        let mut i: usize = 0;
        assert(all.skip(0) =~= all);
        while i < fields.len()
            invariant
                i <= fields@.len(),
                all.len() == fields@.len(),
                forall|k: int|
                    0 <= k < fields@.len() ==> #[trigger] all[k] == (
                        fields@[k].0@,
                        fields@[k].1.tree(),
                    ),
                field_of(self.tree(), key@) == first_field(all, key@),
                first_field(all, key@) == first_field(all.skip(i as int), key@),
            decreases fields@.len() - i,
        {
            assert(all.skip(i as int)[0] == all[i as int]);
            if same_text(fields[i].0.as_str(), key) {
                return Some(&fields[i].1);
            }
            assert(all.skip(i as int).skip(1) =~= all.skip(i + 1));
            i = i + 1;
        }
        None
    }

    /// The text in the field of that name.
    pub fn text(&self, key: &str) -> (r: Option<&String>)
        ensures
            match r {
                Some(text) => text_field(self.tree(), key@) == Some(text@),
                None => text_field(self.tree(), key@) is None,
            },
    {
        match self.field(key) {
            Some(Json::Text(text)) => Some(text),
            _ => None,
        }
    }

    /// Whether the field of that name holds `true`.
    pub fn is_true(&self, key: &str) -> (r: bool)
        ensures
            r == true_field(self.tree(), key@),
    {
        match self.field(key) {
            Some(Json::Bool(b)) => *b,
            _ => false,
        }
    }

    /// The array in the field of that name.
    pub fn array(&self, key: &str) -> (r: Option<&Vec<Json>>)
        ensures
            match r {
                Some(items) => array_field(self.tree(), key@) == Some(trees(items@)),
                None => array_field(self.tree(), key@) is None,
            },
    {
        match self.field(key) {
            Some(Json::Array(items)) => {
                assert(array_field(self.tree(), key@)->0 =~= trees(items@));
                Some(items)
            },
            _ => None,
        }
    }
}

/// A serde_json value as plain data.
pub(crate) fn json_of(value: serde_json::Value) -> (r: Json)
    ensures
        r.tree() == value_tree(value),
    decreases value_tree(value),
{
    let ghost whole = value_tree(value);
    match value_node(value) {
        JsonNode::Null => Json::Null,
        JsonNode::Bool(b) => Json::Bool(b),
        JsonNode::Number(n) => Json::Number(n),
        JsonNode::Text(text) => Json::Text(text),
        JsonNode::Array(items) => {
            let ghost parts = whole->Array_0;
            let mut out: Vec<Json> = Vec::new();
            for item in it: items
                invariant
                    it.seq() == items@,
                    whole == value_tree(value),
                    whole is Array,
                    parts == whole->Array_0,
                    parts == Seq::new(items@.len(), |i: int| value_tree(items@[i])),
                    out@.len() == it.index(),
                    forall|k: int| 0 <= k < out@.len() ==> #[trigger] out@[k].tree() == parts[k],
            {
                assert(value_tree(item) == parts[it.index() as int]);
                assert(decreases_to!(whole => whole->Array_0[it.index() as int]));
                out.push(json_of(item));
            }
            let ghost made = Json::Array(out).tree()->Array_0;
            assert forall|k: int| 0 <= k < parts.len() implies made[k] == parts[k] by {
                assert(made[k] == out@[k].tree());
            }
            assert(made =~= parts);
            Json::Array(out)
        },
        JsonNode::Object(fields) => {
            let ghost parts = whole->Object_0;
            let mut out: Vec<(String, Json)> = Vec::new();
            for field in it: fields
                invariant
                    it.seq() == fields@,
                    whole == value_tree(value),
                    whole is Object,
                    parts == whole->Object_0,
                    parts == Seq::new(
                        fields@.len(),
                        |i: int| (fields@[i].0@, value_tree(fields@[i].1)),
                    ),
                    out@.len() == it.index(),
                    forall|k: int|
                        0 <= k < out@.len() ==> (#[trigger] out@[k]).0@ == parts[k].0
                            && out@[k].1.tree() == parts[k].1,
            {
                assert(value_tree(field.1) == parts[it.index() as int].1);
                assert(decreases_to!(whole => whole->Object_0[it.index() as int].1));
                let inner = json_of(field.1);
                out.push((field.0, inner));
            }
            let ghost made = Json::Object(out).tree()->Object_0;
            assert forall|k: int| 0 <= k < parts.len() implies made[k] == parts[k] by {
                assert(made[k] == (out@[k].0@, out@[k].1.tree()));
            }
            assert(made =~= parts);
            Json::Object(out)
        },
    }
}

/// The JSON value that a text is, if it is one.
pub fn parse_json(text: &str) -> (r: Option<Json>)
    ensures
        match r {
            Some(json) => parsed_json(text@) == Some(json.tree()),
            None => parsed_json(text@) is None,
        },
        trimmed(text@).len() == 0 ==> r is None,
{
    match read_value(text) {
        Some(value) => Some(json_of(value)),
        None => None,
    }
}

/// The JSON value that a row of bytes is, if it is one.
pub fn parse_json_bytes(bytes: &[u8]) -> (r: Option<Json>)
    ensures
        match r {
            Some(json) => parsed_json_bytes(bytes@) == Ok::<JsonTree, Seq<char>>(json.tree()),
            None => parsed_json_bytes(bytes@) is Err,
        },
{
    match read_value_bytes(bytes) {
        Ok(value) => Some(json_of(value)),
        Err(_) => None,
    }
}

/// The JSON value at the beginning of a text, and the text behind it.
pub fn parse_leading_json(text: &str) -> (r: Option<(Json, String)>)
    ensures
        match r {
            Some(found) => leading_json(text@) == Some((found.0.tree(), found.1@)),
            None => leading_json(text@) is None,
        },
{
    match read_leading_value(text) {
        Some(found) => Some((json_of(found.0), found.1)),
        None => None,
    }
}

/// A field is found by its own name, the first of that name where there are
/// several; an object without one, and a value that is no object, has none.
pub proof fn fields_are_found_by_name(
    fields: Seq<(Seq<char>, JsonTree)>,
    key: Seq<char>,
    i: int,
)
    requires
        0 <= i <= fields.len(),
        forall|j: int| 0 <= j < i ==> (#[trigger] fields[j]).0 != key,
        i < fields.len() ==> fields[i].0 == key,
    ensures
        field_of(JsonTree::Object(fields), key) == if i < fields.len() {
            Some(fields[i].1)
        } else {
            None
        },
    decreases fields.len(),
{
    if i > 0 {
        let rest = fields.skip(1);
        assert(fields[0].0 != key);
        assert forall|j: int| 0 <= j < i - 1 implies (#[trigger] rest[j]).0 != key by {
            assert(rest[j] == fields[j + 1]);
        }
        fields_are_found_by_name(rest, key, i - 1);
    }
}

/// A field is read as what it is: text as text, a list as a list, and `true` as
/// `true`, never one as another.
pub proof fn fields_are_read_as_they_are(tree: JsonTree, key: Seq<char>, value: JsonTree)
    requires
        field_of(tree, key) == Some(value),
    ensures
        value matches JsonTree::Text(text) ==> text_field(tree, key) == Some(text),
        !(value is Text) ==> text_field(tree, key) is None,
        value matches JsonTree::Array(items) ==> array_field(tree, key) == Some(items),
        !(value is Array) ==> array_field(tree, key) is None,
        true_field(tree, key) <==> value == JsonTree::Bool(true),
        field_or_null(tree, key) == value,
{
}

/// A field that is not there reads as no text and no list, is not `true`, and
/// stands for null.
pub proof fn missing_fields_read_as_nothing(tree: JsonTree, key: Seq<char>)
    requires
        field_of(tree, key) is None,
    ensures
        text_field(tree, key) is None,
        array_field(tree, key) is None,
        !true_field(tree, key),
        field_or_null(tree, key) == JsonTree::Null,
{
}

} // verus!
