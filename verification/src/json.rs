//! The top-level members of a JSON document, as the collectors read them.

use vstd::prelude::*;
use crate::text::{chars_eq, chars_of};

verus! {

/// A JSON member value, as far as the collectors read it: a string, a
/// boolean, or anything else.
#[derive(Debug)]
pub enum JsonScalar {
    Str(String),
    Bool(bool),
    Other,
}

/// What a member value holds, as a mathematical value.
pub enum JsonScalarView {
    Str(Seq<char>),
    Bool(bool),
    Other,
}

impl View for JsonScalar {
    type V = JsonScalarView;

    open spec fn view(&self) -> JsonScalarView {
        match self {
            JsonScalar::Str(s) => JsonScalarView::Str(s@),
            JsonScalar::Bool(b) => JsonScalarView::Bool(*b),
            JsonScalar::Other => JsonScalarView::Other,
        }
    }
}

/// The members as (name, value) pairs.
pub open spec fn members_view(v: Seq<(String, JsonScalar)>) -> Seq<(Seq<char>, JsonScalarView)> {
    v.map_values(|p: (String, JsonScalar)| (p.0@, p.1@))
}

/// Names what `serde_json::from_str::<serde_json::Value>` makes of `text`:
/// the members of the value when it is an object (none when it is not),
/// each value reduced to a `JsonScalarView`, or the text of the error it
/// reports.
pub uninterp spec fn json_parse(text: Seq<char>) -> Result<
    Seq<(Seq<char>, JsonScalarView)>,
    Seq<char>,
>;

/// Whether `text` parses as JSON.
pub open spec fn json_parses(text: Seq<char>) -> bool {
    json_parse(text) is Ok
}

/// The members of the JSON value in `text` (none when it does not parse).
pub open spec fn json_members(text: Seq<char>) -> Seq<(Seq<char>, JsonScalarView)> {
    match json_parse(text) {
        Ok(ms) => ms,
        Err(_) => Seq::empty(),
    }
}

/// The error text of `text` when it does not parse as JSON.
pub open spec fn json_error(text: Seq<char>) -> Seq<char> {
    match json_parse(text) {
        Ok(_) => Seq::empty(),
        Err(m) => m,
    }
}

/// Parses `text` with `serde_json::from_str` into a `serde_json::Value` and,
/// when it is an object, lists its members, mapping string and boolean
/// values to `JsonScalar` and every other value to `JsonScalar::Other`; a
/// value that is not an object has no members; an error is given as its
/// display text. The contract claims only that the result is the named one,
/// a function of the text; parsing itself is the crate's.
#[verifier::external_body]
pub fn parse_json_members(text: &str) -> (res: Result<Vec<(String, JsonScalar)>, String>)
    ensures
        match res {
            Ok(v) => json_parse(text@) == Ok::<Seq<(Seq<char>, JsonScalarView)>, Seq<char>>(
                members_view(v@),
            ),
            Err(m) => json_parse(text@) == Err::<Seq<(Seq<char>, JsonScalarView)>, Seq<char>>(m@),
        },
{
    match serde_json::from_str::<serde_json::Value>(text) {
        Ok(serde_json::Value::Object(map)) => Ok(
            map.iter().map(|(k, v)| (k.clone(), match v {
                serde_json::Value::String(s) => JsonScalar::Str(s.clone()),
                serde_json::Value::Bool(b) => JsonScalar::Bool(*b),
                _ => JsonScalar::Other,
            })).collect(),
        ),
        Ok(_) => Ok(Vec::new()),
        Err(e) => Err(e.to_string()),
    }
}

/// The value of the first member named `name`.
pub open spec fn member(ms: Seq<(Seq<char>, JsonScalarView)>, name: Seq<char>) -> Option<
    JsonScalarView,
>
    decreases ms.len(),
{
    if ms.len() == 0 {
        None
    } else if ms[0].0 == name {
        Some(ms[0].1)
    } else {
        member(ms.drop_first(), name)
    }
}

/// The text of member `name` when it is a string.
pub open spec fn member_str(ms: Seq<(Seq<char>, JsonScalarView)>, name: Seq<char>) -> Option<
    Seq<char>,
> {
    match member(ms, name) {
        Some(JsonScalarView::Str(s)) => Some(s),
        _ => None,
    }
}

/// The value of member `name` when it is a boolean.
pub open spec fn member_bool(ms: Seq<(Seq<char>, JsonScalarView)>, name: Seq<char>) -> Option<bool> {
    match member(ms, name) {
        Some(JsonScalarView::Bool(b)) => Some(b),
        _ => None,
    }
}

/// Looks a member up by name.
pub fn get_member<'a>(ms: &'a Vec<(String, JsonScalar)>, name: &str) -> (res: Option<
    &'a JsonScalar,
>)
    ensures
        match member(members_view(ms@), name@) {
            Some(v) => res matches Some(r) && r@ == v,
            None => res is None,
        },
{
    let n = chars_of(name);
    let ghost all = members_view(ms@);
    let mut i: usize = 0;
    assert(all.skip(0) =~= all);
    while i < ms.len()
        invariant
            i <= ms@.len(),
            n@ == name@,
            all == members_view(ms@),
            member(all, name@) == member(all.skip(i as int), name@),
        decreases ms.len() - i,
    {
        assert(all.skip(i as int)[0] == (ms@[i as int].0@, ms@[i as int].1@));
        assert(all.skip(i as int).drop_first() =~= all.skip(i + 1));
        if chars_eq(&chars_of(ms[i].0.as_str()), &n) {
            return Some(&ms[i].1);
        }
        i = i + 1;
    }
    None
}

/// The text of member `name` when it is a string.
pub fn get_str<'a>(ms: &'a Vec<(String, JsonScalar)>, name: &str) -> (res: Option<&'a String>)
    ensures
        match member_str(members_view(ms@), name@) {
            Some(s) => res matches Some(r) && r@ == s,
            None => res is None,
        },
{
    match get_member(ms, name) {
        Some(JsonScalar::Str(s)) => Some(s),
        _ => None,
    }
}

/// The value of member `name` when it is a boolean.
pub fn get_bool(ms: &Vec<(String, JsonScalar)>, name: &str) -> (res: Option<bool>)
    ensures
        res == member_bool(members_view(ms@), name@),
{
    match get_member(ms, name) {
        Some(JsonScalar::Bool(b)) => Some(*b),
        _ => None,
    }
}

} // verus!
