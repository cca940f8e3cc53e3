//! JSON documents as plain trees, and the reading of text into them.

use vstd::prelude::*;

verus! {

/// One entry of a JSON object.
#[derive(Debug)]
pub struct Member {
    pub key: String,
    pub value: Json,
}

/// A JSON document held in memory.
///
/// A number keeps its decimal rendering and, where it is an integer that fits,
/// its value as `u64` and as `i64`.
#[derive(Debug)]
pub enum Json {
    Null,
    Bool(bool),
    Number { unsigned: Option<u64>, signed: Option<i64>, text: String },
    Text(String),
    Array(Vec<Json>),
    Object(Vec<Member>),
}

/// The value stored under `key` among `members`, looking from index `from` on:
/// the first entry with that key wins.
pub open spec fn find(members: Seq<Member>, key: Seq<char>, from: int) -> Option<Json>
    decreases members.len() - from,
{
    if from < 0 || from >= members.len() {
        None
    } else if members[from].key@ == key {
        Some(members[from].value)
    } else {
        find(members, key, from + 1)
    }
}

/// Whether two documents hold the same content, node by node.
pub open spec fn same_tree(a: Json, b: Json) -> bool
    decreases a,
{
    match (a, b) {
        (Json::Null, Json::Null) => true,
        (Json::Bool(x), Json::Bool(y)) => x == y,
        (
            Json::Number { unsigned: xu, signed: xs, text: xt },
            Json::Number { unsigned: yu, signed: ys, text: yt },
        ) => xu == yu && xs == ys && xt@ == yt@,
        (Json::Text(x), Json::Text(y)) => x@ == y@,
        (Json::Array(x), Json::Array(y)) => x@.len() == y@.len() && forall|i: int|
            0 <= i < x@.len() ==> same_tree(#[trigger] x@[i], y@[i]),
        (Json::Object(x), Json::Object(y)) => x@.len() == y@.len() && forall|i: int|
            0 <= i < x@.len() ==> (#[trigger] x@[i]).key@ == y@[i].key@ && same_tree(
                x@[i].value,
                y@[i].value,
            ),
        _ => false,
    }
}

/// The error with which `serde_json` rejects a text.
#[verifier::external_type_specification]
#[verifier::external_body]
pub struct ExSyntaxError(serde_json::Error);

/// A document as `serde_json` holds it.
#[verifier::external_type_specification]
#[verifier::external_body]
pub struct ExValue(serde_json::Value);

/// The document that a text spells, or `None` where the text is no JSON.
pub uninterp spec fn json_document(text: Seq<char>) -> Option<Json>;

/// What a `serde_json::Value` holds.
pub uninterp spec fn content(value: serde_json::Value) -> Json;

/// `serde_json::from_str`, at the type `serde_json::Value`: parses a text as
/// one JSON document. The contract claims only that the outcome is a function
/// of the text, the one named `json_document`; the error is handed on as it
/// came.
#[verifier::external_body]
fn parse_value(text: &str) -> (r: Result<serde_json::Value, serde_json::Error>)
    ensures
        r is Ok <==> json_document(text@) is Some,
        r matches Ok(value) ==> json_document(text@) == Some(content(value)),
{
    serde_json::from_str::<serde_json::Value>(text)
}

/// Moves a `serde_json::Value` into a `Json`, variant by variant; of a number
/// it keeps what `Number::as_u64`, `Number::as_i64` and its `Display` give.
#[verifier::external_body]
fn lift(value: serde_json::Value) -> (json: Json)
    ensures
        json == content(value),
{
    match value {
        serde_json::Value::Null => Json::Null,
        serde_json::Value::Bool(b) => Json::Bool(b),
        serde_json::Value::Number(n) => Json::Number {
            unsigned: n.as_u64(),
            signed: n.as_i64(),
            text: n.to_string(),
        },
        serde_json::Value::String(s) => Json::Text(s),
        serde_json::Value::Array(items) => Json::Array(items.into_iter().map(lift).collect()),
        serde_json::Value::Object(members) => Json::Object(
            members.into_iter().map(|(key, value)| Member { key, value: lift(value) }).collect(),
        ),
    }
}

/// Parses a text as one JSON document.
pub fn parse_document(text: &str) -> (r: Result<Json, serde_json::Error>)
    ensures
        r is Ok <==> json_document(text@) is Some,
        r matches Ok(json) ==> json_document(text@) == Some(json),
{
    match parse_value(text) {
        Ok(value) => Ok(lift(value)),
        Err(e) => Err(e),
    }
}

/// Whether two pieces of text hold the same characters.
pub fn same_text(a: &String, b: &str) -> (r: bool)
    ensures
        r == (a@ == b@),
{
    let other = String::from_str(b);
    *a == other
}

impl Json {
    /// The member of an object stored under `key`; `None` for a missing key and
    /// for every document that is no object.
    pub open spec fn at(self, key: Seq<char>) -> Option<Json> {
        match self {
            Json::Object(members) => find(members@, key, 0),
            _ => None,
        }
    }

    /// Looks up the member of an object stored under `key`.
    pub fn member(&self, key: &str) -> (r: Option<&Json>)
        ensures
            r is Some <==> self.at(key@) is Some,
            r matches Some(v) ==> self.at(key@) == Some(*v),
    {
        match self {
            Json::Object(members) => {
                let mut i: usize = 0;
                while i < members.len()
                    invariant
                        i <= members.len(),
                        self matches Json::Object(all) && all == members,
                        find(members@, key@, 0) == find(members@, key@, i as int),
                    decreases members.len() - i,
                {
                    if same_text(&members[i].key, key) {
                        return Some(&members[i].value);
                    }
                    i += 1;
                }
                None
            },
            _ => None,
        }
    }

    /// A copy of the whole document.
    pub fn duplicate(&self) -> (r: Json)
        ensures
            same_tree(*self, r),
            same_tree(r, *self),
        decreases self,
    {
        match self {
            Json::Null => Json::Null,
            Json::Bool(b) => Json::Bool(*b),
            Json::Number { unsigned, signed, text } => Json::Number {
                unsigned: *unsigned,
                signed: *signed,
                text: text.clone(),
            },
            Json::Text(s) => Json::Text(s.clone()),
            Json::Array(items) => {
                let mut copy: Vec<Json> = Vec::new();
                let mut i: usize = 0;
                while i < items.len()
                    invariant
                        i <= items.len(),
                        copy@.len() == i,
                        self matches Json::Array(all) && all == items,
                        forall|k: int| 0 <= k < i ==> same_tree(#[trigger] items@[k], copy@[k]),
                        forall|k: int| 0 <= k < i ==> same_tree(#[trigger] copy@[k], items@[k]),
                    decreases items.len() - i,
                {
                    proof {
                        vstd::std_specs::vec::axiom_vec_index_decreases(*items, i as int);
                    }
                    copy.push(items[i].duplicate());
                    i += 1;
                }
                Json::Array(copy)
            },
            Json::Object(members) => {
                let mut copy: Vec<Member> = Vec::new();
                let mut i: usize = 0;
                while i < members.len()
                    invariant
                        i <= members.len(),
                        copy@.len() == i,
                        self matches Json::Object(all) && all == members,
                        forall|k: int|
                            0 <= k < i ==> (#[trigger] members@[k]).key@ == copy@[k].key@
                                && same_tree(members@[k].value, copy@[k].value),
                        forall|k: int|
                            0 <= k < i ==> same_tree((#[trigger] copy@[k]).value, members@[k].value),
                    decreases members.len() - i,
                {
                    proof {
                        vstd::std_specs::vec::axiom_vec_index_decreases(*members, i as int);
                    }
                    copy.push(
                        Member { key: members[i].key.clone(), value: members[i].value.duplicate() },
                    );
                    i += 1;
                }
                Json::Object(copy)
            },
        }
    }
}

} // verus!
