//! Reading and writing JSON, one level at a time: the parts of an object or of
//! a list are JSON texts again.

use vstd::prelude::*;

use crate::lists::{first_where, first_where_is, first_where_none, texts_of};
use crate::text::{opt_text, same};

verus! {

/// The members of a JSON object, each with its value as JSON: what
/// `serde_json::from_str` reads as a `Map<String, Value>`. `None` where the
/// text is no JSON object.
pub uninterp spec fn json_members(text: Seq<char>) -> Option<Seq<(Seq<char>, Seq<char>)>>;

/// The elements of a JSON array, each as JSON: what `serde_json::from_str`
/// reads as a `Vec<Value>`. `None` where the text is no JSON array.
pub uninterp spec fn json_elements(text: Seq<char>) -> Option<Seq<Seq<char>>>;

/// The text that a JSON string stands for: what `serde_json::from_str` reads as
/// a `String`. `None` where the text is no JSON string.
pub uninterp spec fn json_text(text: Seq<char>) -> Option<Seq<char>>;

/// The whole number that a JSON text stands for: what `serde_json::from_str`
/// reads as an `i64`. `None` where the text is no such number.
pub uninterp spec fn json_integer(text: Seq<char>) -> Option<i64>;

/// A text as a JSON string: what `serde_json::Value` writes for it.
pub uninterp spec fn json_quoted(text: Seq<char>) -> Seq<char>;

/// What a list of members holds.
pub open spec fn member_views(members: Seq<(String, String)>) -> Seq<(Seq<char>, Seq<char>)> {
    members.map_values(|m: (String, String)| (m.0@, m.1@))
}

/// `serde_json::from_str` for a `Map<String, Value>`, with each value written
/// as JSON. Nothing is claimed of the members beyond that they depend on the
/// text alone.
#[verifier::external_body]
pub(crate) fn read_members(text: &str) -> (r: Option<Vec<(String, String)>>)
    ensures
        match r {
            Some(members) => json_members(text@) == Some(member_views(members@)),
            None => json_members(text@) is None,
        },
{
    let read = serde_json::from_str::<serde_json::Map<String, serde_json::Value>>(text);
    read.ok().map(|map| map.into_iter().map(|(key, value)| (key, value.to_string())).collect())
}

/// `serde_json::from_str` for a `Vec<Value>`, with each element written as
/// JSON. Nothing is claimed of the elements beyond that they depend on the text
/// alone.
#[verifier::external_body]
pub(crate) fn read_elements(text: &str) -> (r: Option<Vec<String>>)
    ensures
        match r {
            Some(elements) => json_elements(text@) == Some(texts_of(elements@)),
            None => json_elements(text@) is None,
        },
{
    let read = serde_json::from_str::<Vec<serde_json::Value>>(text);
    read.ok().map(|list| list.into_iter().map(|value| value.to_string()).collect())
}

/// `serde_json::from_str` for a `String`. Nothing is claimed of the result
/// beyond that it depends on the text alone.
#[verifier::external_body]
pub(crate) fn read_text(text: &str) -> (r: Option<String>)
    ensures
        opt_text(r) == json_text(text@),
{
    serde_json::from_str::<String>(text).ok()
}

/// `serde_json::from_str` for an `i64`. Nothing is claimed of the result beyond
/// that it depends on the text alone.
#[verifier::external_body]
pub(crate) fn read_integer(text: &str) -> (r: Option<i64>)
    ensures
        r == json_integer(text@),
{
    serde_json::from_str::<i64>(text).ok()
}

/// What `serde_json::Value` writes for a string. That reading it gives the text
/// back is all that is claimed of it, beside that it depends on the text alone.
#[verifier::external_body]
pub(crate) fn quote(text: &str) -> (r: String)
    ensures
        r@ == json_quoted(text@),
        json_text(r@) == Some(text@),
{
    serde_json::Value::from(text).to_string()
}

// ---------------------------------------------------------------------------
// Members
// ---------------------------------------------------------------------------

/// Whether a member has a name.
pub open spec fn named(key: Seq<char>) -> spec_fn((Seq<char>, Seq<char>)) -> bool {
    |m: (Seq<char>, Seq<char>)| m.0 == key
}

/// The value of a member, if the list has it.
pub open spec fn value_of(
    members: Seq<(Seq<char>, Seq<char>)>,
    key: Seq<char>,
) -> Option<Seq<char>> {
    match first_where(members, named(key)) {
        Some(i) => Some(members[i].1),
        None => None,
    }
}

/// The value of a member, if the list has it.
pub fn value_in(members: &Vec<(String, String)>, key: &str) -> (r: Option<String>)
    ensures
        opt_text(r) == value_of(member_views(members@), key@),
{
    let ghost all = member_views(members@);
    let mut i: usize = 0;
    while i < members.len()
        invariant
            all == member_views(members@),
            0 <= i <= members@.len(),
            forall|j: int| 0 <= j < i ==> !named(key@)(#[trigger] all[j]),
        decreases members@.len() - i,
    {
        assert(all[i as int] == (members@[i as int].0@, members@[i as int].1@));
        if same(&members[i].0, key) {
            proof {
                first_where_is(all, named(key@), i as int);
            }
            return Some(members[i].1.clone());
        }
        i += 1;
    }
    proof {
        first_where_none(all, named(key@));
    }
    None
}

/// The value of an object's member, as JSON.
pub open spec fn member_of(text: Seq<char>, key: Seq<char>) -> Option<Seq<char>> {
    match json_members(text) {
        Some(members) => value_of(members, key),
        None => None,
    }
}

/// The value of an object's member, as JSON.
pub fn member(text: &str, key: &str) -> (r: Option<String>)
    ensures
        opt_text(r) == member_of(text@, key@),
{
    match read_members(text) {
        Some(members) => value_in(&members, key),
        None => None,
    }
}

/// The text of an object's member, if it is a JSON string.
pub open spec fn member_text_of(text: Seq<char>, key: Seq<char>) -> Option<Seq<char>> {
    match member_of(text, key) {
        Some(raw) => json_text(raw),
        None => None,
    }
}

/// The text of an object's member, if it is a JSON string.
pub fn member_text(text: &str, key: &str) -> (r: Option<String>)
    ensures
        opt_text(r) == member_text_of(text@, key@),
{
    match member(text, key) {
        Some(raw) => read_text(&raw),
        None => None,
    }
}

/// The whole number of an object's member, if it is one.
pub open spec fn member_integer_of(text: Seq<char>, key: Seq<char>) -> Option<i64> {
    match member_of(text, key) {
        Some(raw) => json_integer(raw),
        None => None,
    }
}

/// The whole number of an object's member, if it is one.
pub fn member_integer(text: &str, key: &str) -> (r: Option<i64>)
    ensures
        r == member_integer_of(text@, key@),
{
    match member(text, key) {
        Some(raw) => read_integer(&raw),
        None => None,
    }
}

} // verus!
