//! JSON as this crate reads and writes it. Reading and the quoting of
//! strings are serde_json's; what a document means is decided on the tree
//! defined here.

use vstd::prelude::*;
use crate::error::{ChatError, ChatErrorView};

verus! {

/// A JSON document. Numbers are kept only as a kind: nothing in this crate
/// reads one.
#[derive(Debug, PartialEq, Eq)]
pub enum Json {
    Null,
    Bool(bool),
    Number,
    Text(String),
    Array(Vec<Json>),
    Object(Vec<Member>),
}

/// One `"name": value` pair of an object.
#[derive(Debug, PartialEq, Eq)]
pub struct Member {
    pub name: String,
    pub value: Json,
}

/// The mathematical tree behind a `Json`.
pub enum JsonTree {
    Null,
    Bool(bool),
    Number,
    Text(Seq<char>),
    Array(Seq<JsonTree>),
    Object(Seq<Pair>),
}

/// One `"name": value` pair of an object's tree.
pub struct Pair {
    pub name: Seq<char>,
    pub value: JsonTree,
}

impl View for Json {
    type V = JsonTree;

    open spec fn view(&self) -> JsonTree
        decreases self,
    {
        match self {
            Json::Null => JsonTree::Null,
            Json::Bool(b) => JsonTree::Bool(*b),
            Json::Number => JsonTree::Number,
            Json::Text(text) => JsonTree::Text(text@),
            Json::Array(items) => JsonTree::Array(
                Seq::new(
                    items@.len(),
                    |i: int|
                        if 0 <= i < items@.len() {
                            items@[i].view()
                        } else {
                            JsonTree::Null
                        },
                ),
            ),
            Json::Object(members) => JsonTree::Object(
                Seq::new(
                    members@.len(),
                    |i: int|
                        if 0 <= i < members@.len() {
                            Pair { name: members@[i].name@, value: members@[i].value.view() }
                        } else {
                            Pair { name: Seq::empty(), value: JsonTree::Null }
                        },
                ),
            ),
        }
    }
}

/// The trees of a run of documents, in order.
pub open spec fn trees_of(items: Seq<Json>) -> Seq<JsonTree> {
    Seq::new(items.len(), |i: int| items[i]@)
}

/// The value of the first pair called `name`, if there is one.
pub open spec fn first_named(members: Seq<Pair>, name: Seq<char>) -> Option<
    JsonTree,
>
    decreases members.len(),
{
    if members.len() == 0 {
        None
    } else if members[0].name == name {
        Some(members[0].value)
    } else {
        first_named(members.drop_first(), name)
    }
}

impl JsonTree {
    /// The member `name` of an object; `None` for what is no object or has
    /// no such member.
    pub open spec fn member(self, name: Seq<char>) -> Option<JsonTree> {
        match self {
            JsonTree::Object(members) => first_named(members, name),
            _ => None,
        }
    }

    /// The elements of an array; `None` for anything else.
    pub open spec fn items(self) -> Option<Seq<JsonTree>> {
        match self {
            JsonTree::Array(items) => Some(items),
            _ => None,
        }
    }
}

proof fn lemma_first_named_skip(members: Seq<Pair>, name: Seq<char>, i: int)
    requires
        0 <= i < members.len(),
        members[i].name != name,
    ensures
        first_named(members.skip(i), name) == first_named(members.skip(i + 1), name),
{
    assert(members.skip(i).drop_first() =~= members.skip(i + 1));
}

impl Json {
    /// The member `name` of an object.
    pub fn member(&self, name: &str) -> (found: Option<&Json>)
        ensures
            match found {
                Some(value) => self@.member(name@) == Some(value@),
                None => self@.member(name@) is None,
            },
    {
        match self {
            Json::Object(members) => {
                let wanted = name.to_owned();
                let ghost pairs = self@->Object_0;
                let mut i: usize = 0;
                assert(pairs.skip(0) =~= pairs);
                while i < members.len()
                    invariant
                        i <= members.len(),
                        wanted@ == name@,
                        self@ == JsonTree::Object(pairs),
                        pairs.len() == members@.len(),
                        forall|k: int|
                            0 <= k < pairs.len() ==> pairs[k] == (Pair {
                                name: members@[k].name@,
                                value: members@[k].value@,
                            }),
                        first_named(pairs, name@) == first_named(pairs.skip(i as int), name@),
                    decreases members.len() - i,
                {
                    if members[i].name == wanted {
                        assert(pairs.skip(i as int)[0] == pairs[i as int]);
                        return Some(&members[i].value);
                    }
                    proof {
                        lemma_first_named_skip(pairs, name@, i as int);
                    }
                    i += 1;
                }
                assert(pairs.skip(i as int).len() == 0);
                None
            },
            _ => None,
        }
    }

    /// The elements of an array, in order.
    pub fn as_array(&self) -> (found: Option<&Vec<Json>>)
        ensures
            match found {
                Some(items) => self@.items() == Some(trees_of(items@)),
                None => self@.items() is None,
            },
    {
        match self {
            Json::Array(items) => {
                assert(self@->Array_0 =~= trees_of(items@));
                Some(items)
            },
            _ => None,
        }
    }
}

/// serde_json's own tree, which its parser returns.
#[verifier::external_type_specification]
#[verifier::external_body]
pub struct ExValue(serde_json::Value);

/// serde_json's error, returned when text is no JSON or a value cannot be
/// written.
#[verifier::external_type_specification]
#[verifier::external_body]
pub struct ExError(serde_json::Error);

/// The tree that a `serde_json::Value` holds, variant by variant: a number
/// as its kind alone, the elements of an array in order, and the members
/// of an object in the order in which serde_json's map hands them out.
pub uninterp spec fn value_tree(value: serde_json::Value) -> JsonTree;

/// What `serde_json::from_str` makes of `text` when asked for a
/// `serde_json::Value`: the tree of the value it returns, or `None` where
/// it returns an error.
pub uninterp spec fn json_parse(text: Seq<char>) -> Option<JsonTree>;

/// What `serde_json::to_string` writes for the string `text`: a JSON string
/// literal, quotes included.
pub uninterp spec fn json_quoted(text: Seq<char>) -> Seq<char>;

/// Calls `serde_json::from_str` for a `serde_json::Value`. The contract
/// only names the outcome: the tree of the value is `json_parse` of the
/// text, and there is an error exactly where that is `None`.
#[verifier::external_body]
fn parse_value(text: &str) -> (parsed: Result<serde_json::Value, serde_json::Error>)
    ensures
        match parsed {
            Ok(value) => json_parse(text@) == Some(value_tree(value)),
            Err(_) => json_parse(text@) is None,
        },
{
    serde_json::from_str::<serde_json::Value>(text)
}

/// Rebuilds a `serde_json::Value` as a `Json`, one arm for each of its
/// variants: a number keeps only its kind, strings and booleans are moved
/// over, and arrays and objects are rebuilt element by element in the
/// order in which serde_json iterates over them. The contract says that
/// the result shows the tree that the value holds.
#[verifier::external_body]
fn json_of_value(value: serde_json::Value) -> (json: Json)
    ensures
        json@ == value_tree(value),
{
    match value {
        serde_json::Value::Null => Json::Null,
        serde_json::Value::Bool(b) => Json::Bool(b),
        serde_json::Value::Number(_) => Json::Number,
        serde_json::Value::String(text) => Json::Text(text),
        serde_json::Value::Array(items) => Json::Array(
            items.into_iter().map(json_of_value).collect(),
        ),
        serde_json::Value::Object(members) => Json::Object(
            members.into_iter().map(|(name, v)| Member { name, value: json_of_value(v) }).collect(),
        ),
    }
}

/// Calls `serde_json::to_string` on a string slice. The contract names
/// what is written, `json_quoted` of the text, and says that there is
/// never an error: for a string serde_json passes on only the errors of
/// the writer it writes to, and `to_string` writes to a `Vec<u8>`, which
/// takes every write.
#[verifier::external_body]
fn quote_string(text: &str) -> (quoted: Result<String, serde_json::Error>)
    ensures
        quoted is Ok,
        quoted->Ok_0@ == json_quoted(text@),
{
    serde_json::to_string(text)
}

/// Reads a text as a JSON document.
pub fn parse_json(text: &str) -> (outcome: Result<Json, ChatError>)
    ensures
        match outcome {
            Ok(json) => json_parse(text@) == Some(json@),
            Err(error) => json_parse(text@) is None && error@ == ChatErrorView::Parse,
        },
{
    match parse_value(text) {
        Ok(value) => Ok(json_of_value(value)),
        Err(_) => Err(ChatError::Parse),
    }
}

/// Writes a string as a JSON string literal, quotes included.
pub fn quote_json(text: &str) -> (literal: String)
    ensures
        literal@ == json_quoted(text@),
{
    match quote_string(text) {
        Ok(literal) => literal,
        Err(_) => vstd::pervasive::unreached(),
    }
}

} // verus!
