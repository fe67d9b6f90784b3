//! JSON values as text, and JSON objects as maps from member names to such texts.

use std::collections::BTreeMap;

use serde_json::value::RawValue;
use vstd::prelude::*;

use crate::text::{chars_of, decimal, optional, same, text_between, texts};

verus! {

/// What [`serde_json::value::RawValue::from_string`] makes of a text: the JSON value in
/// it, without white space around it, or nothing if it is no JSON value.
pub uninterp spec fn raw_json(text: Seq<char>) -> Option<Seq<char>>;

/// What [`serde_json::to_string`] makes of a string: a JSON string.
pub uninterp spec fn string_json(text: Seq<char>) -> Seq<char>;

/// What [`serde_json::from_str`] reads from a text as a string.
pub uninterp spec fn string_of_json(json: Seq<char>) -> Option<Seq<char>>;

/// What [`serde_json::from_str`] reads from a text as an unsigned 64-bit number.
pub uninterp spec fn number_of_json(json: Seq<char>) -> Option<u64>;

/// What [`serde_json::to_string`] makes of an object of raw values, its members in the
/// order of their names.
pub uninterp spec fn object_json(members: Map<Seq<char>, Seq<char>>) -> Seq<char>;

/// What [`serde_json::from_str`] reads from a text as an object of raw values.
pub uninterp spec fn object_of_json(json: Seq<char>) -> Option<Map<Seq<char>, Seq<char>>>;

/// What [`serde_json::from_str`] reads from a text as an array of raw values.
pub uninterp spec fn array_of_json(json: Seq<char>) -> Option<Seq<Seq<char>>>;

/// The members that a list of entries stands for: of two entries with one name the later
/// counts.
pub open spec fn members(entries: Seq<(String, String)>) -> Map<Seq<char>, Seq<char>>
    decreases entries.len(),
{
    if entries.len() == 0 {
        Map::empty()
    } else {
        members(entries.drop_last()).insert(entries.last().0@, entries.last().1@)
    }
}

/// Whether a text is a JSON value without white space around it.
pub open spec fn is_raw_json(text: Seq<char>) -> bool {
    raw_json(text) == Some(text)
}

/// Whether some texts are JSON values without white space around them.
pub open spec fn are_raw_json(items: Seq<Seq<char>>) -> bool {
    forall|i: int| 0 <= i < items.len() ==> is_raw_json(#[trigger] items[i])
}

/// A JSON object: member names with the JSON text of each value.
#[derive(Debug)]
pub struct JsonMap {
    pub(crate) entries: Vec<(String, String)>,
}

impl View for JsonMap {
    type V = Map<Seq<char>, Seq<char>>;

    closed spec fn view(&self) -> Map<Seq<char>, Seq<char>> {
        members(self.entries@)
    }
}

/// The value text that a member lookup finds.
pub open spec fn member(
    members: Map<Seq<char>, Seq<char>>,
    name: Seq<char>,
) -> Option<Seq<char>> {
    if members.dom().contains(name) {
        Some(members[name])
    } else {
        None
    }
}

/// Members that come after a list's end and have another name change no lookup.
proof fn lemma_members_prefix(entries: Seq<(String, String)>, end: int, name: Seq<char>)
    requires
        0 <= end <= entries.len(),
        forall|j: int| end <= j < entries.len() ==> #[trigger] entries[j].0@ != name,
    ensures
        member(members(entries), name) == member(members(entries.take(end)), name),
    decreases entries.len(),
{
    if end == entries.len() {
        assert(entries.take(end) =~= entries);
    } else {
        lemma_members_prefix(entries.drop_last(), end, name);
        assert(entries.drop_last().take(end) =~= entries.take(end));
    }
}

impl JsonMap {
    /// Every value is a JSON value without white space around it.
    #[verifier::type_invariant]
    pub(crate) closed spec fn type_inv(self) -> bool {
        forall|j: int| 0 <= j < self.entries@.len() ==> is_raw_json(#[trigger] self.entries@[j].1@)
    }

    /// The object without members.
    pub fn new() -> (map: JsonMap)
        ensures
            map@ == Map::<Seq<char>, Seq<char>>::empty(),
    {
        JsonMap { entries: Vec::new() }
    }

    /// Sets a member to the JSON value in `json`, and says whether there is one.
    ///
    /// A text that holds no JSON value leaves the object as it was.
    pub fn insert(&mut self, name: &str, json: &str) -> (inserted: bool)
        ensures
            inserted == (raw_json(json@) is Some),
            final(self)@ == match raw_json(json@) {
                Some(value) => old(self)@.insert(name@, value),
                None => old(self)@,
            },
    {
        match raw_value(json) {
            Some(value) => {
                self.insert_raw(name, value);
                true
            },
            None => false,
        }
    }

    /// Sets a member to a JSON value that has no white space around it.
    pub(crate) fn insert_raw(&mut self, name: &str, value: String)
        requires
            is_raw_json(value@),
        ensures
            final(self)@ == old(self)@.insert(name@, value@),
    {
        proof {
            use_type_invariant(&*self);
        }
        let mut entries: Vec<(String, String)> = Vec::new();
        std::mem::swap(&mut entries, &mut self.entries);
        let ghost before = entries@;
        entries.push((name.to_owned(), value));
        proof {
            assert(entries@.drop_last() =~= before);
        }
        self.entries = entries;
    }

    /// The JSON text of a member's value, if the object has it.
    pub fn get(&self, name: &str) -> (value: Option<String>)
        ensures
            optional(value) == member(self@, name@),
    {
        let mut end: usize = self.entries.len();
        while end > 0
            invariant
                end <= self.entries@.len(),
                forall|j: int|
                    end <= j < self.entries@.len() ==> #[trigger] self.entries@[j].0@ != name@,
            decreases end,
        {
            if same(&self.entries[end - 1].0, name) {
                let value = self.entries[end - 1].1.clone();
                proof {
                    let all = self.entries@;
                    lemma_members_prefix(all, end as int, name@);
                    assert(all.take(end as int).last() == all[end - 1]);
                }
                return Some(value);
            }
            end -= 1;
        }
        proof {
            lemma_members_prefix(self.entries@, 0, name@);
        }
        None
    }

    /// Takes a member out of the object, if it is there.
    pub fn remove(&mut self, name: &str)
        ensures
            final(self)@ == old(self)@.remove(name@),
    {
        proof {
            use_type_invariant(&*self);
        }
        let mut kept: Vec<(String, String)> = Vec::new();
        let mut i: usize = 0;
        let ghost all = self.entries@;
        while i < self.entries.len()
            invariant
                all == self.entries@,
                i <= all.len(),
                forall|j: int| 0 <= j < all.len() ==> is_raw_json(#[trigger] all[j].1@),
                forall|j: int| 0 <= j < kept@.len() ==> is_raw_json(#[trigger] kept@[j].1@),
                members(kept@) =~= members(all.take(i as int)).remove(name@),
            decreases all.len() - i,
        {
            proof {
                assert(all.take(i + 1).drop_last() =~= all.take(i as int));
                assert(all.take(i + 1).last() == all[i as int]);
            }
            if !same(&self.entries[i].0, name) {
                let ghost before = kept@;
                kept.push((self.entries[i].0.clone(), self.entries[i].1.clone()));
                assert(kept@.drop_last() =~= before);
            }
            i += 1;
        }
        proof {
            assert(all.take(i as int) =~= all);
        }
        self.entries = kept;
    }

    /// The entries of the object, in the order in which they were set.
    pub fn entries(&self) -> (entries: &Vec<(String, String)>)
        ensures
            members(entries@) == self@,
    {
        &self.entries
    }
}

impl Clone for JsonMap {
    fn clone(&self) -> (copy: JsonMap)
        ensures
            copy@ == self@,
    {
        let mut entries: Vec<(String, String)> = Vec::new();
        let mut i: usize = 0;
        while i < self.entries.len()
            invariant
                i <= self.entries@.len(),
                entries@ =~= self.entries@.take(i as int),
            decreases self.entries@.len() - i,
        {
            entries.push((self.entries[i].0.clone(), self.entries[i].1.clone()));
            i += 1;
        }
        proof {
            use_type_invariant(&*self);
            assert(entries@ =~= self.entries@);
        }
        JsonMap { entries }
    }
}

/// A place between two characters of a JSON text.
#[derive(Clone, Copy)]
pub struct Place {
    /// How many objects and arrays are open.
    pub depth: usize,
    /// Whether a string is open.
    pub in_string: bool,
    /// Whether the next character of the open string is escaped.
    pub escaped: bool,
    /// Where the last string begins.
    pub start: usize,
    /// Whether the last string is the name of a member of the outermost object.
    pub is_name: bool,
    /// Whether the next string of the outermost object is the name of a member.
    pub expects_name: bool,
}

/// The place before a JSON text.
pub open spec fn first_place() -> Place {
    Place {
        depth: 0,
        in_string: false,
        escaped: false,
        start: 0,
        is_name: false,
        expects_name: false,
    }
}

/// The place after a character that stands at an index of the text.
pub open spec fn place_after(place: Place, c: char, at: usize) -> Place {
    if place.in_string {
        if place.escaped {
            Place { escaped: false, ..place }
        } else if c == '\\' {
            Place { escaped: true, ..place }
        } else if c == '"' {
            Place {
                in_string: false,
                expects_name: place.expects_name && !place.is_name,
                ..place
            }
        } else {
            place
        }
    } else if c == '"' {
        Place {
            in_string: true,
            start: at,
            is_name: place.depth == 1 && place.expects_name,
            ..place
        }
    } else if c == '{' || c == '[' {
        Place { depth: (place.depth + 1) as usize, expects_name: place.depth == 0, ..place }
    } else if c == '}' || c == ']' {
        Place {
            depth: if place.depth > 0 {
                (place.depth - 1) as usize
            } else {
                0
            },
            ..place
        }
    } else if c == ',' {
        Place { expects_name: place.depth == 1, ..place }
    } else {
        place
    }
}

/// The place after the first `n` characters of a JSON text.
pub open spec fn place_at(json: Seq<char>, n: int) -> Place
    decreases n,
{
    if n <= 0 {
        first_place()
    } else {
        place_after(place_at(json, n - 1), json[n - 1], (n - 1) as usize)
    }
}

/// Whether a character ends the name of a member of the outermost object.
pub open spec fn ends_name(place: Place, c: char) -> bool {
    place.in_string && place.is_name && !place.escaped && c == '"'
}

/// The names of the members of a JSON object, as the JSON strings that stand in the first
/// `n` characters of its text. A name that stands there twice is listed twice.
pub open spec fn names_in(json: Seq<char>, n: int) -> Seq<Seq<char>>
    decreases n,
{
    if n <= 0 {
        seq![]
    } else if ends_name(place_at(json, n - 1), json[n - 1]) {
        names_in(json, n - 1).push(json.subrange(place_at(json, n - 1).start as int, n))
    } else {
        names_in(json, n - 1)
    }
}

/// How many of some JSON strings hold a text.
pub open spec fn times_named(names: Seq<Seq<char>>, name: Seq<char>) -> nat
    decreases names.len(),
{
    if names.len() == 0 {
        0
    } else {
        times_named(names.drop_last(), name) + (if string_of_json(names.last()) == Some(name) {
            1nat
        } else {
            0nat
        })
    }
}

/// Whether a JSON object has two members with the name.
pub open spec fn repeats(json: Seq<char>, name: Seq<char>) -> bool {
    times_named(names_in(json, json.len() as int), name) > 1
}

/// Whether a JSON object has no two members with one name.
pub open spec fn repeats_none(json: Seq<char>) -> bool {
    forall|name: Seq<char>| !#[trigger] repeats(json, name)
}

/// The place after a character that stands at an index of the text.
fn step_over(place: Place, c: char, at: usize) -> (after: Place)
    requires
        place.depth <= at < usize::MAX,
    ensures
        after == place_after(place, c, at),
        after.depth <= at + 1,
{
    if place.in_string {
        if place.escaped {
            Place { escaped: false, ..place }
        } else if c == '\\' {
            Place { escaped: true, ..place }
        } else if c == '"' {
            Place {
                in_string: false,
                expects_name: place.expects_name && !place.is_name,
                ..place
            }
        } else {
            place
        }
    } else if c == '"' {
        Place {
            in_string: true,
            start: at,
            is_name: place.depth == 1 && place.expects_name,
            ..place
        }
    } else if c == '{' || c == '[' {
        Place { depth: place.depth + 1, expects_name: place.depth == 0, ..place }
    } else if c == '}' || c == ']' {
        Place { depth: if place.depth > 0 { place.depth - 1 } else { 0 }, ..place }
    } else if c == ',' {
        Place { expects_name: place.depth == 1, ..place }
    } else {
        place
    }
}

/// The names of the members of a JSON object, as JSON strings.
pub fn member_names(json: &str) -> (names: Vec<String>)
    ensures
        texts(names@) == names_in(json@, json@.len() as int),
{
    let chars = chars_of(json);
    let mut names: Vec<String> = Vec::new();
    let mut place = Place {
        depth: 0,
        in_string: false,
        escaped: false,
        start: 0,
        is_name: false,
        expects_name: false,
    };
    let mut i: usize = 0;
    while i < chars.len()
        invariant
            chars@ == json@,
            i <= chars@.len(),
            place == place_at(json@, i as int),
            place.depth <= i,
            place.start <= i,
            texts(names@) =~= names_in(json@, i as int),
        decreases chars@.len() - i,
    {
        let c = chars[i];
        if place.in_string && place.is_name && !place.escaped && c == '"' {
            let ghost before = names@;
            names.push(text_between(&chars, place.start, i + 1));
            assert(texts(names@) =~= texts(before).push(
                json@.subrange(place.start as int, i + 1),
            ));
        }
        place = step_over(place, c, i);
        i += 1;
    }
    names
}

/// Whether more than one of some JSON strings hold a text.
pub fn is_repeated(names: &Vec<String>, name: &str) -> (repeated: bool)
    ensures
        repeated == (times_named(texts(names@), name@) > 1),
{
    let ghost all = texts(names@);
    let mut times: usize = 0;
    let mut i: usize = 0;
    assert(all.take(0).len() == 0);
    while i < names.len()
        invariant
            all == texts(names@),
            i <= names@.len(),
            times <= i,
            times == times_named(all.take(i as int), name@),
        decreases names@.len() - i,
    {
        proof {
            assert(all.take(i + 1).drop_last() =~= all.take(i as int));
            assert(all.take(i + 1).last() == names@[i as int]@);
        }
        if let Some(text) = read_string(&names[i]) {
            if same(&text, name) {
                times += 1;
            }
        }
        i += 1;
    }
    assert(all.take(i as int) =~= all);
    times > 1
}

/// `serde_json::value::RawValue::from_string`: the JSON value in a text, without the
/// white space around it. A value that it gives is itself such a text.
#[verifier::external_body]
fn raw_value(json: &str) -> (value: Option<String>)
    ensures
        optional(value) == raw_json(json@),
        value is Some ==> is_raw_json(value->0@),
{
    RawValue::from_string(json.to_string()).ok().map(|raw| raw.get().to_string())
}

/// `serde_json::to_string` on a string: a JSON string from which
/// [`serde_json::from_str`] reads the same string.
#[verifier::external_body]
pub(crate) fn write_string(text: &str) -> (json: String)
    ensures
        json@ == string_json(text@),
        string_of_json(json@) == Some(text@),
        is_raw_json(json@),
{
    serde_json::to_string(text).unwrap()
}

/// `serde_json::to_string` on a number: its decimal digits, from which
/// [`serde_json::from_str`] reads the same number.
#[verifier::external_body]
pub(crate) fn write_number(number: u64) -> (json: String)
    ensures
        json@ == decimal(number as nat),
        number_of_json(json@) == Some(number),
        is_raw_json(json@),
{
    serde_json::to_string(&number).unwrap()
}

/// `serde_json::to_string` on an object of raw values: a JSON object that names each member
/// once, and from which [`serde_json::from_str`] reads the same members.
#[verifier::external_body]
pub(crate) fn write_object(map: &JsonMap) -> (json: String)
    ensures
        json@ == object_json(map@),
        object_of_json(json@) == Some(map@),
        repeats_none(json@),
        is_raw_json(json@),
{
    let object: BTreeMap<&String, Box<RawValue>> = map
        .entries
        .iter()
        .map(|entry| (&entry.0, RawValue::from_string(entry.1.clone()).unwrap()))
        .collect();
    serde_json::to_string(&object).unwrap()
}

/// `serde_json::from_str` to a string: the string that a JSON string holds.
#[verifier::external_body]
pub(crate) fn read_string(json: &str) -> (text: Option<String>)
    ensures
        optional(text) == string_of_json(json@),
{
    serde_json::from_str(json).ok()
}

/// `serde_json::from_str` to an unsigned 64-bit number.
#[verifier::external_body]
pub(crate) fn read_number(json: &str) -> (number: Option<u64>)
    ensures
        number == number_of_json(json@),
{
    serde_json::from_str(json).ok()
}

/// `serde_json::from_str` to an object of raw values: the members of a JSON object.
#[verifier::external_body]
pub(crate) fn read_object(json: &str) -> (map: Option<JsonMap>)
    ensures
        object_of_json(json@) == match map {
            Some(map) => Some(map@),
            None => None,
        },
{
    let object: BTreeMap<String, Box<RawValue>> = serde_json::from_str(json).ok()?;
    let entries = object.into_iter().map(|(name, raw)| (name, raw.get().to_string())).collect();
    Some(JsonMap { entries })
}

/// `serde_json::from_str` to an array of raw values: the elements of a JSON array.
#[verifier::external_body]
pub(crate) fn read_array(json: &str) -> (items: Option<Vec<String>>)
    ensures
        array_of_json(json@) == match items {
            Some(items) => Some(texts(items@)),
            None => None,
        },
        items is Some ==> are_raw_json(texts(items->0@)),
{
    let items: Vec<Box<RawValue>> = serde_json::from_str(json).ok()?;
    Some(items.into_iter().map(|raw| raw.get().to_string()).collect())
}

} // verus!
