//! JSON documents as trees of plain values, and the parser that produces them.

use vstd::prelude::*;

verus! {

/// One named entry of a JSON object.
#[derive(Debug, PartialEq, Eq)]
pub struct Member {
    pub name: String,
    pub value: Json,
}

/// A JSON document.
///
/// A number that is an unsigned 64-bit integer is held as `Unsigned`; every
/// other number (negative, fractional, or too large) is held by its text, so
/// that no binary float ever stands for it.
#[derive(Debug, PartialEq, Eq)]
pub enum Json {
    Null,
    Bool(bool),
    Unsigned(u64),
    Number(String),
    Text(String),
    Array(Vec<Json>),
    Object(Vec<Member>),
}

/// The value of the first member called `key`, if there is one.
pub open spec fn field(members: Seq<Member>, key: Seq<char>) -> Option<Json>
    decreases members.len(),
{
    if members.len() == 0 {
        None
    } else if members[0].name@ == key {
        Some(members[0].value)
    } else {
        field(members.drop_first(), key)
    }
}

/// The value of member `key` of `v`, where `v` is an object that has one.
pub open spec fn get(v: Json, key: Seq<char>) -> Option<Json> {
    match v {
        Json::Object(members) => field(members@, key),
        _ => None,
    }
}

/// The value behind a reference that a lookup returned.
pub open spec fn held(found: Option<&Json>) -> Option<Json> {
    match found {
        Some(value) => Some(*value),
        None => None,
    }
}

/// A value found by `field` is the value of one of the members.
pub proof fn lemma_field_is_member(members: Seq<Member>, key: Seq<char>)
    ensures
        field(members, key) matches Some(found) ==> exists|i: int|
            0 <= i < members.len() && members[i].name@ == key && #[trigger] members[i].value
                == found,
    decreases members.len(),
{
    if members.len() > 0 && members[0].name@ != key {
        let rest = members.drop_first();
        lemma_field_is_member(rest, key);
        if let Some(found) = field(rest, key) {
            let i = choose|i: int|
                0 <= i < rest.len() && rest[i].name@ == key && #[trigger] rest[i].value == found;
            assert(members[i + 1].value == found);
        }
    }
}

/// `serde_json::Value`, the tree that `serde_json` parses a text into. It is
/// only carried from the parser to `lift`.
#[verifier::external_type_specification]
#[verifier::external_body]
pub struct ExValue(serde_json::Value);

/// What `serde_json` reads from a text: `None` where it is not one JSON
/// document.
pub uninterp spec fn json_parse(text: Seq<char>) -> Option<Json>;

/// `str::eq`: two texts are equal when they hold the same characters.
#[verifier::external_body]
pub(crate) fn same_text(a: &str, b: &str) -> (same: bool)
    ensures
        same == (a@ == b@),
{
    a == b
}

/// Moves a `serde_json::Value` into a `Json`, variant by variant: a number
/// becomes `Unsigned` where `serde_json::Number::as_u64` gives one and its
/// text (`to_string`) otherwise, and an object's members come in the order in
/// which its map hands them out. Nothing is claimed of the result.
#[verifier::external_body]
fn lift(value: serde_json::Value) -> Json {
    match value {
        serde_json::Value::Null => Json::Null,
        serde_json::Value::Bool(b) => Json::Bool(b),
        serde_json::Value::Number(n) => match n.as_u64() {
            Some(u) => Json::Unsigned(u),
            None => Json::Number(n.to_string()),
        },
        serde_json::Value::String(s) => Json::Text(s),
        serde_json::Value::Array(items) => Json::Array(items.into_iter().map(lift).collect()),
        serde_json::Value::Object(map) => Json::Object(
            map.into_iter().map(|(name, value)| Member { name, value: lift(value) }).collect(),
        ),
    }
}

/// `serde_json::from_str` into a `serde_json::Value`, which `lift` then moves
/// into a `Json`. The contract claims only that the outcome is a function of
/// the text: the same text always gives the same tree, or always fails.
#[verifier::external_body]
pub(crate) fn parse_json(text: &str) -> (tree: Option<Json>)
    ensures
        tree == json_parse(text@),
{
    match serde_json::from_str::<serde_json::Value>(text) {
        Ok(value) => Some(lift(value)),
        Err(_) => None,
    }
}

/// Looks a member up by its name; the first one of that name is found.
pub fn lookup<'a>(members: &'a Vec<Member>, key: &str) -> (found: Option<&'a Json>)
    ensures
        held(found) == field(members@, key@),
{
    let mut i: usize = 0;
    proof {
        assert(members@.skip(0) =~= members@);
    }
    while i < members.len()
        invariant
            i <= members.len(),
            field(members@, key@) == field(members@.skip(i as int), key@),
        decreases members.len() - i,
    {
        if same_text(members[i].name.as_str(), key) {
            return Some(&members[i].value);
        }
        proof {
            assert(members@.skip(i as int).drop_first() =~= members@.skip(i + 1));
        }
        i += 1;
    }
    None
}

/// Looks a member of `v` up by its name; `None` where `v` is no object.
pub fn member<'a>(v: &'a Json, key: &str) -> (found: Option<&'a Json>)
    ensures
        held(found) == get(*v, key@),
{
    match v {
        Json::Object(members) => lookup(members, key),
        _ => None,
    }
}

} // verus!
