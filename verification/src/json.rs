//! JSON documents as trees. `serde_json` reads a text into a tree and prints
//! a tree as text; what a tree means is for the rest of the library to say.

use vstd::prelude::*;

verus! {

/// `serde_json::Number`, carried through unopened.
#[verifier::external_type_specification]
#[verifier::external_body]
pub struct ExNumber(serde_json::Number);

/// `serde_json::Value`, which only the two functions that turn it into a
/// tree and back look into.
#[verifier::external_type_specification]
#[verifier::external_body]
pub struct ExValue(serde_json::Value);

/// A JSON value. The entries of an object stand in the order in which the
/// text gives them.
#[derive(Debug, PartialEq)]
pub enum Json {
    Null,
    Bool(bool),
    Number(serde_json::Number),
    Text(String),
    Array(Vec<Json>),
    Object(Vec<(String, Json)>),
}

/// What a JSON value says, with its texts as sequences of characters.
pub enum JsonModel {
    Null,
    Bool(bool),
    Number(serde_json::Number),
    Text(Seq<char>),
    Array(Seq<JsonModel>),
    Object(Seq<(Seq<char>, JsonModel)>),
}

/// What a tree says: each text as its characters, each array and object
/// item by item.
pub open spec fn model_of(tree: Json) -> JsonModel
    decreases tree,
{
    match tree {
        Json::Null => JsonModel::Null,
        Json::Bool(b) => JsonModel::Bool(b),
        Json::Number(n) => JsonModel::Number(n),
        Json::Text(t) => JsonModel::Text(t@),
        Json::Array(items) => JsonModel::Array(
            Seq::new(
                items@.len(),
                |i: int|
                    if 0 <= i < items@.len() {
                        model_of(items@[i])
                    } else {
                        JsonModel::Null
                    },
            ),
        ),
        Json::Object(entries) => JsonModel::Object(
            Seq::new(
                entries@.len(),
                |i: int|
                    if 0 <= i < entries@.len() {
                        (entries@[i].0@, model_of(entries@[i].1))
                    } else {
                        (Seq::empty(), JsonModel::Null)
                    },
            ),
        ),
    }
}

impl View for Json {
    type V = JsonModel;

    open spec fn view(&self) -> JsonModel {
        model_of(*self)
    }
}

/// What `serde_json::from_str` makes of a text when asked for a
/// `serde_json::Value`: the tree it reads, or the words of its complaint.
pub uninterp spec fn json_parsed(text: Seq<char>) -> Result<JsonModel, Seq<char>>;

/// What `serde_json::to_string_pretty` prints for a tree.
pub uninterp spec fn json_pretty(value: JsonModel) -> Seq<char>;

/// Whether a tree is read back from its own text as itself.
pub open spec fn json_reads_back(value: JsonModel) -> bool {
    json_parsed(json_pretty(value)) == Ok::<JsonModel, Seq<char>>(value)
}

/// Turns a `serde_json::Value` into a tree of the library, variant by
/// variant. The entries of an object are taken in the order in which
/// `serde_json`'s map hands them out, which is the order of the text.
#[verifier::external_body]
fn tree_of_value(value: serde_json::Value) -> Json {
    match value {
        serde_json::Value::Null => Json::Null,
        serde_json::Value::Bool(b) => Json::Bool(b),
        serde_json::Value::Number(n) => Json::Number(n),
        serde_json::Value::String(t) => Json::Text(t),
        serde_json::Value::Array(items) => Json::Array(
            items.into_iter().map(tree_of_value).collect(),
        ),
        serde_json::Value::Object(entries) => Json::Object(
            entries.into_iter().map(|(key, value)| (key, tree_of_value(value))).collect(),
        ),
    }
}

/// Turns a tree of the library into a `serde_json::Value`, variant by
/// variant. The entries of an object are inserted in their order; of two
/// entries with one key `serde_json`'s map keeps the later value.
#[verifier::external_body]
fn value_of_tree(tree: &Json) -> serde_json::Value {
    match tree {
        Json::Null => serde_json::Value::Null,
        Json::Bool(b) => serde_json::Value::Bool(*b),
        Json::Number(n) => serde_json::Value::Number(n.clone()),
        Json::Text(t) => serde_json::Value::String(t.clone()),
        Json::Array(items) => serde_json::Value::Array(items.iter().map(value_of_tree).collect()),
        Json::Object(entries) => serde_json::Value::Object(
            entries.iter().map(|(key, value)| (key.clone(), value_of_tree(value))).collect(),
        ),
    }
}

/// `serde_json::from_str` for a `serde_json::Value`, with the value turned
/// into a tree and the error into the text that its `Display` prints. The
/// outcome depends on the text alone.
#[verifier::external_body]
fn serde_from_str(text: &str) -> (r: Result<Json, String>)
    ensures
        match r {
            Ok(tree) => json_parsed(text@) == Ok::<JsonModel, Seq<char>>(tree@),
            Err(why) => json_parsed(text@) == Err::<JsonModel, Seq<char>>(why@),
        },
{
    match serde_json::from_str::<serde_json::Value>(text) {
        Ok(value) => Ok(tree_of_value(value)),
        Err(why) => Err(why.to_string()),
    }
}

/// `serde_json::to_string_pretty` on the `serde_json::Value` of a tree.
/// Printing a `Value` cannot fail: its keys are strings and its numbers are
/// finite.
#[verifier::external_body]
fn serde_to_string_pretty(tree: &Json) -> (text: String)
    ensures
        text@ == json_pretty(tree@),
{
    serde_json::to_string_pretty(&value_of_tree(tree)).unwrap()
}

impl Json {
    /// Reads a JSON text into a tree, or says why the text is none.
    pub fn parse(text: &str) -> (r: Result<Json, String>)
        ensures
            match r {
                Ok(tree) => json_parsed(text@) == Ok::<JsonModel, Seq<char>>(tree@),
                Err(why) => json_parsed(text@) == Err::<JsonModel, Seq<char>>(why@),
            },
    {
        serde_from_str(text)
    }

    /// Prints a tree as indented JSON text.
    pub fn to_pretty(&self) -> (text: String)
        ensures
            text@ == json_pretty(self@),
    {
        serde_to_string_pretty(self)
    }
}


/// What an array says is what its items say, one by one.
pub proof fn lemma_array_model(items: Vec<Json>)
    ensures
        Json::Array(items)@ is Array,
        Json::Array(items)@->Array_0.len() == items@.len(),
        forall|i: int|
            0 <= i < items@.len() ==> (#[trigger] Json::Array(items)@->Array_0[i]) == items@[i]@,
{
    reveal_with_fuel(model_of, 2);
}

/// What an object says is what its entries say, one by one.
pub proof fn lemma_object_model(entries: Vec<(String, Json)>)
    ensures
        Json::Object(entries)@ is Object,
        Json::Object(entries)@->Object_0.len() == entries@.len(),
        forall|i: int|
            0 <= i < entries@.len() ==> (#[trigger] Json::Object(entries)@->Object_0[i]) == (
                entries@[i].0@,
                entries@[i].1@,
            ),
{
    reveal_with_fuel(model_of, 2);
}

} // verus!
