//! Reading JSON response bodies, one level at a time.
//!
//! serde_json does the parsing. Each reader below asks it for one plain shape
//! (an object's members, an array's elements, a string, an integer) and hands
//! nested values back as their own JSON text, so that callers descend into a
//! document by reading the member's text again.

use vstd::prelude::*;

verus! {

/// Whether serde_json reads `s` as one JSON value, with nothing but
/// whitespace around it.
pub uninterp spec fn json_valid(s: Seq<char>) -> bool;

/// The members of the JSON object that `s` is, as (name, value text) pairs in
/// the order of their names, one pair per name, or `None` when serde_json does
/// not read `s` as an object.
pub uninterp spec fn json_members_of(s: Seq<char>) -> Option<Seq<(Seq<char>, Seq<char>)>>;

/// The elements of the JSON array that `s` is, in order, each as its JSON
/// text, or `None` when serde_json does not read `s` as an array.
pub uninterp spec fn json_elements_of(s: Seq<char>) -> Option<Seq<Seq<char>>>;

/// The contents of the JSON string that `s` is, or `None` when it is not a string.
pub uninterp spec fn json_string_of(s: Seq<char>) -> Option<Seq<char>>;

/// The JSON integer that `s` is, or `None` when it is not one that fits in a `u64`.
pub uninterp spec fn json_u64_of(s: Seq<char>) -> Option<u64>;

/// Whether `s` is a JSON number.
pub uninterp spec fn json_number_ok(s: Seq<char>) -> bool;

/// Relies on serde_json::from_str into a Box<RawValue>: it succeeds exactly
/// when the whole text is one well-formed JSON value.
#[verifier::external_body]
pub(crate) fn is_json(text: &str) -> (r: bool)
    ensures
        r == json_valid(text@),
{
    serde_json::from_str::<Box<serde_json::value::RawValue>>(text).is_ok()
}

/// Relies on serde_json::from_str into a BTreeMap of RawValue: the members of
/// an object, each value kept as its JSON text; of a repeated name the last
/// value stays.
#[verifier::external_body]
pub(crate) fn object_members(text: &str) -> (r: Option<Vec<(String, String)>>)
    ensures
        match r {
            Some(v) => json_members_of(text@) == Some(v.deep_view()),
            None => json_members_of(text@) is None,
        },
{
    serde_json::from_str::<std::collections::BTreeMap<String, Box<serde_json::value::RawValue>>>(
        text,
    ).ok().map(|m| m.into_iter().map(|(k, v)| (k, v.get().to_string())).collect())
}

/// Relies on serde_json::from_str into a Vec of RawValue: the elements of an
/// array, each kept as its JSON text.
#[verifier::external_body]
pub(crate) fn array_elements(text: &str) -> (r: Option<Vec<String>>)
    ensures
        match r {
            Some(v) => json_elements_of(text@) == Some(v.deep_view()),
            None => json_elements_of(text@) is None,
        },
{
    serde_json::from_str::<Vec<Box<serde_json::value::RawValue>>>(text).ok().map(
        |v| v.into_iter().map(|e| e.get().to_string()).collect(),
    )
}

/// Relies on serde_json::from_str into a String: the unescaped contents of a
/// JSON string.
#[verifier::external_body]
pub(crate) fn string_value(text: &str) -> (r: Option<String>)
    ensures
        match r {
            Some(s) => json_string_of(text@) == Some(s@),
            None => json_string_of(text@) is None,
        },
{
    serde_json::from_str::<String>(text).ok()
}

/// Relies on serde_json::from_str into a u64: a JSON integer in range.
#[verifier::external_body]
pub(crate) fn u64_value(text: &str) -> (r: Option<u64>)
    ensures
        r == json_u64_of(text@),
{
    serde_json::from_str::<u64>(text).ok()
}

/// Relies on serde_json::from_str into a serde_json::Number: it succeeds
/// exactly when the text is a JSON number.
#[verifier::external_body]
pub(crate) fn is_number(text: &str) -> (r: bool)
    ensures
        r == json_number_ok(text@),
{
    serde_json::from_str::<serde_json::Number>(text).is_ok()
}

/// The value text of the member called `key`; where a name repeats, the last
/// one counts.
pub open spec fn member_of(members: Seq<(Seq<char>, Seq<char>)>, key: Seq<char>) -> Option<
    Seq<char>,
>
    decreases members.len(),
{
    if members.len() == 0 {
        None
    } else if members.last().0 == key {
        Some(members.last().1)
    } else {
        member_of(members.drop_last(), key)
    }
}

/// Looks up the member called `key`.
pub fn find_member(members: &Vec<(String, String)>, key: &String) -> (r: Option<String>)
    ensures
        match r {
            Some(t) => member_of(members.deep_view(), key@) == Some(t@),
            None => member_of(members.deep_view(), key@) is None,
        },
{
    let ghost all = members.deep_view();
    let mut i: usize = members.len();
    assert(all.take(i as int) =~= all);
    while i > 0
        invariant
            i <= members.len(),
            all == members.deep_view(),
            member_of(all.take(i as int), key@) == member_of(all, key@),
        decreases i,
    {
        let ghost prefix = all.take(i as int);
        assert(prefix.last() == all[i - 1]);
        if members[i - 1].0 == *key {
            return Some(members[i - 1].1.clone());
        }
        assert(prefix.drop_last() =~= all.take(i - 1));
        i = i - 1;
    }
    None
}

/// The member `key` read as a JSON string.
pub open spec fn string_field(members: Seq<(Seq<char>, Seq<char>)>, key: Seq<char>) -> Option<
    Seq<char>,
> {
    match member_of(members, key) {
        Some(t) => json_string_of(t),
        None => None,
    }
}

/// The member `key` read as an unsigned integer.
pub open spec fn u64_field(members: Seq<(Seq<char>, Seq<char>)>, key: Seq<char>) -> Option<u64> {
    match member_of(members, key) {
        Some(t) => json_u64_of(t),
        None => None,
    }
}

/// The member `key` when it is a JSON number, kept as the number's text.
pub open spec fn number_field(members: Seq<(Seq<char>, Seq<char>)>, key: Seq<char>) -> Option<
    Seq<char>,
> {
    match member_of(members, key) {
        Some(t) => if json_number_ok(t) {
            Some(t)
        } else {
            None
        },
        None => None,
    }
}

/// The member `key` when it is a JSON string, unescaped.
pub fn string_member(members: &Vec<(String, String)>, key: &str) -> (r: Option<String>)
    ensures
        match r {
            Some(s) => string_field(members.deep_view(), key@) == Some(s@),
            None => string_field(members.deep_view(), key@) is None,
        },
{
    match find_member(members, &String::from_str(key)) {
        Some(t) => string_value(t.as_str()),
        None => None,
    }
}

/// The member `key` when it is an unsigned integer.
pub fn u64_member(members: &Vec<(String, String)>, key: &str) -> (r: Option<u64>)
    ensures
        r == u64_field(members.deep_view(), key@),
{
    match find_member(members, &String::from_str(key)) {
        Some(t) => u64_value(t.as_str()),
        None => None,
    }
}

/// The member `key` when it is a number, as the number's JSON text.
pub fn number_member(members: &Vec<(String, String)>, key: &str) -> (r: Option<String>)
    ensures
        match r {
            Some(s) => number_field(members.deep_view(), key@) == Some(s@),
            None => number_field(members.deep_view(), key@) is None,
        },
{
    match find_member(members, &String::from_str(key)) {
        Some(t) => if is_number(t.as_str()) {
            Some(t)
        } else {
            None
        },
        None => None,
    }
}

} // verus!
