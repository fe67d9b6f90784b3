//! Reading single claims out of a token's JSON object.

use vstd::prelude::*;

use crate::json::{
    are_raw_json, array_of_json, is_repeated, member, member_names, names_in, number_of_json,
    object_of_json, read_array, read_number, read_object, read_string, repeats, repeats_none,
    string_of_json, JsonMap,
};
use crate::text::{joined, optional, outcome, same, texts};

verus! {

/// What is said of a claim that is not there.
pub open spec fn missing_claim(name: Seq<char>) -> Seq<char> {
    "JSON error: missing field `"@ + name + "`"@
}

/// What is said of a claim whose value is not of its type.
pub open spec fn invalid_claim(name: Seq<char>) -> Seq<char> {
    "JSON error: invalid type for field `"@ + name + "`"@
}

/// What is said of a claim that is there twice.
pub open spec fn duplicate_claim(name: Seq<char>) -> Seq<char> {
    "JSON error: duplicate field `"@ + name + "`"@
}

/// The members of the claims in a JSON text: it must be an object that has none of the
/// given names twice.
pub open spec fn claim_members(json: Seq<char>, names: Seq<Seq<char>>) -> Result<
    Map<Seq<char>, Seq<char>>,
    Seq<char>,
> {
    match object_of_json(json) {
        None => Err("JSON error: invalid type: expected an object"@),
        Some(members) => match first_repeated(json, names) {
            Some(name) => Err(duplicate_claim(name)),
            None => Ok(members),
        },
    }
}

/// The members of the claims in a JSON text that is an object, or an array with the claims
/// in the order of their names: at least the first `least` ones.
pub open spec fn listed_members(json: Seq<char>, names: Seq<Seq<char>>, least: nat) -> Result<
    Map<Seq<char>, Seq<char>>,
    Seq<char>,
> {
    match (object_of_json(json), array_of_json(json)) {
        (None, Some(items)) => if least <= items.len() && items.len() <= names.len() {
            Ok(named(names, items))
        } else {
            Err("JSON error: invalid length"@)
        },
        _ => claim_members(json, names),
    }
}

/// The members with the given names and values, in their order.
pub open spec fn named(names: Seq<Seq<char>>, items: Seq<Seq<char>>) -> Map<Seq<char>, Seq<char>>
    decreases items.len(),
{
    if items.len() == 0 {
        Map::empty()
    } else {
        named(names, items.drop_last()).insert(names[items.len() - 1], items.last())
    }
}

/// The first of some names that a JSON object has twice.
pub open spec fn first_repeated(json: Seq<char>, names: Seq<Seq<char>>) -> Option<Seq<char>>
    decreases names.len(),
{
    if names.len() == 0 {
        None
    } else if repeats(json, names[0]) {
        Some(names[0])
    } else {
        first_repeated(json, names.skip(1))
    }
}

/// An object that has no name twice has none of some names twice.
pub proof fn lemma_none_repeated(json: Seq<char>, names: Seq<Seq<char>>)
    requires
        repeats_none(json),
    ensures
        first_repeated(json, names) is None,
    decreases names.len(),
{
    if names.len() > 0 {
        assert(!repeats(json, names[0]));
        lemma_none_repeated(json, names.skip(1));
    }
}

/// Some names as character sequences.
pub open spec fn name_views(names: Seq<&str>) -> Seq<Seq<char>> {
    Seq::new(names.len(), |i: int| names[i]@)
}

/// A claim that has to be there and to be a string.
pub open spec fn string_claim(
    claims: Map<Seq<char>, Seq<char>>,
    name: Seq<char>,
) -> Result<Seq<char>, Seq<char>> {
    match member(claims, name) {
        Some(json) => match string_of_json(json) {
            Some(text) => Ok(text),
            None => Err(invalid_claim(name)),
        },
        None => Err(missing_claim(name)),
    }
}

/// A claim that has to be there and to be a number.
pub open spec fn number_claim(
    claims: Map<Seq<char>, Seq<char>>,
    name: Seq<char>,
) -> Result<u64, Seq<char>> {
    match member(claims, name) {
        Some(json) => match number_of_json(json) {
            Some(number) => Ok(number),
            None => Err(invalid_claim(name)),
        },
        None => Err(missing_claim(name)),
    }
}

/// A claim that may be missing or `null`, and is a string otherwise.
pub open spec fn optional_claim(
    claims: Map<Seq<char>, Seq<char>>,
    name: Seq<char>,
) -> Result<Option<Seq<char>>, Seq<char>> {
    match member(claims, name) {
        Some(json) => if json == "null"@ {
            Ok(None)
        } else {
            match string_of_json(json) {
                Some(text) => Ok(Some(text)),
                None => Err(invalid_claim(name)),
            }
        },
        None => Ok(None),
    }
}

/// What is said of a claim that is not there.
pub(crate) fn missing(name: &str) -> (text: String)
    ensures
        text@ == missing_claim(name@),
{
    let mut text = joined("JSON error: missing field `", name);
    text.append("`");
    text
}

/// What is said of a claim whose value is not of its type.
fn invalid(name: &str) -> (text: String)
    ensures
        text@ == invalid_claim(name@),
{
    let mut text = joined("JSON error: invalid type for field `", name);
    text.append("`");
    text
}

/// What is said of a claim that is there twice.
fn duplicate(name: &str) -> (text: String)
    ensures
        text@ == duplicate_claim(name@),
{
    let mut text = joined("JSON error: duplicate field `", name);
    text.append("`");
    text
}

/// Reads the members of the claims in a JSON text, which must be an object that has none
/// of the given names twice.
pub fn read_members(json: &str, names: &[&str]) -> (members: Result<JsonMap, String>)
    ensures
        outcome(members) == claim_members(json@, name_views(names@)),
{
    let members = match read_object(json) {
        Some(members) => members,
        None => return Err("JSON error: invalid type: expected an object".to_owned()),
    };
    let found = member_names(json);
    let ghost all = name_views(names@);
    let mut i: usize = 0;
    assert(all.skip(0) =~= all);
    while i < names.len()
        invariant
            all == name_views(names@),
            i <= names@.len(),
            texts(found@) == names_in(json@, json@.len() as int),
            object_of_json(json@) == Some(members@),
            first_repeated(json@, all.skip(i as int)) == first_repeated(json@, all),
        decreases names@.len() - i,
    {
        assert(all.skip(i as int)[0] == names@[i as int]@);
        assert(all.skip(i as int).skip(1) =~= all.skip(i + 1));
        if is_repeated(&found, names[i]) {
            return Err(duplicate(names[i]));
        }
        i += 1;
    }
    Ok(members)
}

/// Reads the members of the claims in a JSON text that is an object, or an array with the
/// claims in the order of their names: at least the first `least` ones.
pub fn read_listed(json: &str, names: &[&str], least: usize) -> (members: Result<JsonMap, String>)
    ensures
        outcome(members) == listed_members(json@, name_views(names@), least as nat),
{
    if read_object(json).is_some() {
        return read_members(json, names);
    }
    let items = match read_array(json) {
        Some(items) => items,
        None => return read_members(json, names),
    };
    if items.len() < least || names.len() < items.len() {
        return Err("JSON error: invalid length".to_owned());
    }
    let ghost (all, values) = (name_views(names@), texts(items@));
    let mut members = JsonMap::new();
    let mut i: usize = 0;
    assert(values.take(0).len() == 0);
    while i < items.len()
        invariant
            all == name_views(names@),
            values == texts(items@),
            are_raw_json(values),
            i <= items@.len() <= names@.len(),
            members@ == named(all, values.take(i as int)),
        decreases items@.len() - i,
    {
        assert(values.take(i + 1).drop_last() =~= values.take(i as int));
        assert(values[i as int] == items@[i as int]@);
        assert(all[i as int] == names@[i as int]@);
        members.insert_raw(names[i], items[i].clone());
        i += 1;
    }
    assert(values.take(i as int) =~= values);
    Ok(members)
}

/// Reads a claim that has to be there and to be a string.
pub fn read_string_claim(claims: &JsonMap, name: &str) -> (value: Result<String, String>)
    ensures
        outcome(value) == string_claim(claims@, name@),
{
    match claims.get(name) {
        Some(json) => match read_string(&json) {
            Some(text) => Ok(text),
            None => Err(invalid(name)),
        },
        None => Err(missing(name)),
    }
}

/// Reads a claim that has to be there and to be a number.
pub fn read_number_claim(claims: &JsonMap, name: &str) -> (value: Result<u64, String>)
    ensures
        number_claim(claims@, name@) == match value {
            Ok(number) => Ok(number),
            Err(text) => Err(text@),
        },
{
    match claims.get(name) {
        Some(json) => match read_number(&json) {
            Some(number) => Ok(number),
            None => Err(invalid(name)),
        },
        None => Err(missing(name)),
    }
}

/// Reads a claim that may be missing or `null`, and is a string otherwise.
pub fn read_optional_claim(claims: &JsonMap, name: &str) -> (value: Result<Option<String>, String>)
    ensures
        optional_claim(claims@, name@) == match value {
            Ok(text) => Ok(optional(text)),
            Err(text) => Err(text@),
        },
{
    match claims.get(name) {
        Some(json) => if same(&json, "null") {
            Ok(None)
        } else {
            match read_string(&json) {
                Some(text) => Ok(Some(text)),
                None => Err(invalid(name)),
            }
        },
        None => Ok(None),
    }
}

} // verus!
