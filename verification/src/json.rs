//! A JSON document as the library reads it, and the questions it asks of one.
use vstd::prelude::*;

use crate::text::{same_text, strs};

verus! {

/// A JSON value. Numbers are told from the other kinds, but what they are is
/// never read. The members of an object stand in the order of their names.
#[derive(Debug, PartialEq, Eq)]
pub enum Json {
    Null,
    Bool(bool),
    Number,
    Text(String),
    Array(Vec<Json>),
    Object(Vec<(String, Json)>),
}

/// The first member of that name.
pub open spec fn member_of(members: Seq<(String, Json)>, name: Seq<char>) -> Option<Json>
    decreases members.len(),
{
    if members.len() == 0 {
        None
    } else if members[0].0@ == name {
        Some(members[0].1)
    } else {
        member_of(members.drop_first(), name)
    }
}

/// The member of that name of an object; other values have none.
pub open spec fn member(value: Json, name: Seq<char>) -> Option<Json> {
    match value {
        Json::Object(members) => member_of(members@, name),
        _ => None,
    }
}

/// The text that a value is.
pub open spec fn as_text(value: Option<Json>) -> Option<Seq<char>> {
    match value {
        Some(Json::Text(s)) => Some(s@),
        _ => None,
    }
}

/// The truth value that a value is.
pub open spec fn as_bool(value: Option<Json>) -> Option<bool> {
    match value {
        Some(Json::Bool(b)) => Some(b),
        _ => None,
    }
}

/// The items of an array; other values have none.
pub open spec fn items_of(value: Option<Json>) -> Seq<Json> {
    match value {
        Some(Json::Array(items)) => items@,
        _ => Seq::empty(),
    }
}

/// The text member of that name.
pub open spec fn text_member(value: Json, name: Seq<char>) -> Option<Seq<char>> {
    as_text(member(value, name))
}

/// The text of the first of the names under which an object holds a text.
pub open spec fn first_text(members: Seq<(String, Json)>, names: Seq<Seq<char>>) -> Option<
    Seq<char>,
>
    decreases names.len(),
{
    if names.len() == 0 {
        None
    } else {
        match as_text(member_of(members, names[0])) {
            Some(text) => Some(text),
            None => first_text(members, names.drop_first()),
        }
    }
}

/// The text that stands under one of the names, outermost object first: an
/// object's own members go before what its members hold.
pub open spec fn find_text(value: Json, names: Seq<Seq<char>>) -> Option<Seq<char>>
    decreases value,
{
    match value {
        Json::Object(members) => match first_text(members@, names) {
            Some(text) => Some(text),
            None => find_text_in_members(members@, names),
        },
        Json::Array(items) => find_text_in_items(items@, names),
        _ => None,
    }
}

/// The first text found in the values of an object, in their order.
pub open spec fn find_text_in_members(
    members: Seq<(String, Json)>,
    names: Seq<Seq<char>>,
) -> Option<Seq<char>>
    decreases members,
{
    if members.len() == 0 {
        None
    } else {
        match find_text(members[0].1, names) {
            Some(text) => Some(text),
            None => find_text_in_members(members.drop_first(), names),
        }
    }
}

/// The first text found in the items of an array, in their order.
pub open spec fn find_text_in_items(items: Seq<Json>, names: Seq<Seq<char>>) -> Option<Seq<char>>
    decreases items,
{
    if items.len() == 0 {
        None
    } else {
        match find_text(items[0], names) {
            Some(text) => Some(text),
            None => find_text_in_items(items.drop_first(), names),
        }
    }
}

/// The text under one of the names of a document, where there is a document.
pub open spec fn text_under(value: Option<Json>, names: Seq<Seq<char>>) -> Option<Seq<char>> {
    match value {
        Some(document) => find_text(document, names),
        None => None,
    }
}

fn get_member<'a>(members: &'a Vec<(String, Json)>, name: &str) -> (r: Option<&'a Json>)
    ensures
        match member_of(members@, name@) {
            Some(value) => r == Some(&value),
            None => r is None,
        },
{
    let mut i: usize = 0;
    assert(members@.skip(0) =~= members@);
    while i < members.len()
        invariant
            i <= members@.len(),
            member_of(members@, name@) == member_of(members@.skip(i as int), name@),
        decreases members.len() - i,
    {
        assert(members@.skip(i as int).drop_first() =~= members@.skip(i + 1));
        assert(members@.skip(i as int)[0] == members@[i as int]);
        if same_text(members[i].0.as_str(), name) {
            return Some(&members[i].1);
        }
        i += 1;
    }
    None
}

impl Json {
    /// The member of that name of an object.
    pub fn get(&self, name: &str) -> (r: Option<&Json>)
        ensures
            match member(*self, name@) {
                Some(value) => r == Some(&value),
                None => r is None,
            },
    {
        match self {
            Json::Object(members) => get_member(members, name),
            _ => None,
        }
    }

    /// The text that a value is.
    pub fn as_str(&self) -> (r: Option<&str>)
        ensures
            match as_text(Some(*self)) {
                Some(text) => r matches Some(s) && s@ == text,
                None => r is None,
            },
    {
        match self {
            Json::Text(s) => Some(s.as_str()),
            _ => None,
        }
    }

    /// The text member of that name.
    pub fn get_str(&self, name: &str) -> (r: Option<&str>)
        ensures
            match text_member(*self, name@) {
                Some(text) => r matches Some(s) && s@ == text,
                None => r is None,
            },
    {
        match self.get(name) {
            Some(value) => value.as_str(),
            None => None,
        }
    }

    /// The text member of that name, as a string of its own.
    pub fn get_string(&self, name: &str) -> (r: Option<String>)
        ensures
            crate::text::opt_text(r) == text_member(*self, name@),
    {
        match self.get_str(name) {
            Some(text) => Some(text.to_owned()),
            None => None,
        }
    }

    /// The truth value member of that name.
    pub fn get_bool(&self, name: &str) -> (r: Option<bool>)
        ensures
            r == as_bool(member(*self, name@)),
    {
        match self.get(name) {
            Some(Json::Bool(b)) => Some(*b),
            _ => None,
        }
    }

    /// The array member of that name.
    pub fn get_array(&self, name: &str) -> (r: Option<&Vec<Json>>)
        ensures
            match member(*self, name@) {
                Some(Json::Array(items)) => r == Some(&items),
                _ => r is None,
            },
    {
        match self.get(name) {
            Some(Json::Array(items)) => Some(items),
            _ => None,
        }
    }
}

/// The text that stands under one of the names, outermost object first.
pub fn json_string(value: &Json, names: &[&str]) -> (r: Option<String>)
    ensures
        crate::text::opt_text(r) == find_text(*value, strs(names@)),
    decreases value,
{
    match value {
        Json::Object(members) => {
            let mut k: usize = 0;
            assert(strs(names@).skip(0) =~= strs(names@));
            while k < names.len()
                invariant
                    k <= names@.len(),
                    first_text(members@, strs(names@)) == first_text(
                        members@,
                        strs(names@).skip(k as int),
                    ),
                    *value == Json::Object(*members),
                decreases names.len() - k,
            {
                assert(strs(names@).skip(k as int).drop_first() =~= strs(names@).skip(k + 1));
                if let Some(found) = get_member(members, names[k]) {
                    if let Some(text) = found.as_str() {
                        return Some(text.to_owned());
                    }
                }
                k += 1;
            }
            let mut i: usize = 0;
            assert(members@.skip(0) =~= members@);
            while i < members.len()
                invariant
                    i <= members@.len(),
                    find_text_in_members(members@, strs(names@)) == find_text_in_members(
                        members@.skip(i as int),
                        strs(names@),
                    ),
                    first_text(members@, strs(names@)) is None,
                    *value == Json::Object(*members),
                decreases members.len() - i,
            {
                assert(members@.skip(i as int).drop_first() =~= members@.skip(i + 1));
                assert(members@.skip(i as int)[0] == members@[i as int]);
                if let Some(text) = json_string(&members[i].1, names) {
                    return Some(text);
                }
                i += 1;
            }
            None
        },
        Json::Array(items) => {
            let mut i: usize = 0;
            assert(items@.skip(0) =~= items@);
            while i < items.len()
                invariant
                    i <= items@.len(),
                    find_text_in_items(items@, strs(names@)) == find_text_in_items(
                        items@.skip(i as int),
                        strs(names@),
                    ),
                    *value == Json::Array(*items),
                decreases items.len() - i,
            {
                assert(items@.skip(i as int).drop_first() =~= items@.skip(i + 1));
                assert(items@.skip(i as int)[0] == items@[i as int]);
                if let Some(text) = json_string(&items[i], names) {
                    return Some(text);
                }
                i += 1;
            }
            None
        },
        _ => None,
    }
}

/// The text under one of the names of a document, where there is a document.
pub fn document_string(value: &Option<Json>, names: &[&str]) -> (r: Option<String>)
    ensures
        crate::text::opt_text(r) == text_under(*value, strs(names@)),
{
    match value {
        Some(document) => json_string(document, names),
        None => None,
    }
}

proof fn lemma_member_of(members: Seq<(String, Json)>, name: Seq<char>, i: int)
    requires
        0 <= i < members.len(),
        members[i].0@ == name,
        forall|k: int| 0 <= k < i ==> (#[trigger] members[k]).0@ != name,
    ensures
        member_of(members, name) == Some(members[i].1),
    decreases i,
{
    if i > 0 {
        assert(members[0].0@ != name);
        let rest = members.drop_first();
        assert forall|k: int| 0 <= k < i - 1 implies (#[trigger] rest[k]).0@ != name by {
            assert(rest[k] == members[k + 1]);
        }
        lemma_member_of(rest, name, i - 1);
    }
}

proof fn lemma_no_member_of(members: Seq<(String, Json)>, name: Seq<char>)
    requires
        forall|k: int| 0 <= k < members.len() ==> (#[trigger] members[k]).0@ != name,
    ensures
        member_of(members, name) is None,
    decreases members.len(),
{
    if members.len() > 0 {
        assert(members[0].0@ != name);
        let rest = members.drop_first();
        assert forall|k: int| 0 <= k < rest.len() implies (#[trigger] rest[k]).0@ != name by {
            assert(rest[k] == members[k + 1]);
        }
        lemma_no_member_of(rest, name);
    }
}

/// A member of an object is the first value that stands under its name; where the
/// name does not stand in the object there is none, nor is there in any other value.
pub proof fn law_members_stand_under_their_names(value: Json, name: Seq<char>, i: int)
    ensures
        value matches Json::Object(members) ==> {
            &&& 0 <= i < members@.len() && members@[i].0@ == name && (forall|k: int|
                0 <= k < i ==> (#[trigger] members@[k]).0@ != name) ==> member(value, name) == Some(
                members@[i].1,
            )
            &&& (forall|k: int| 0 <= k < members@.len() ==> (#[trigger] members@[k]).0@ != name)
                ==> member(value, name) is None
        },
        !(value is Object) ==> member(value, name) is None,
{
    if let Json::Object(members) = value {
        if 0 <= i < members@.len() && members@[i].0@ == name && (forall|k: int|
            0 <= k < i ==> (#[trigger] members@[k]).0@ != name) {
            lemma_member_of(members@, name, i);
        }
        if forall|k: int| 0 <= k < members@.len() ==> (#[trigger] members@[k]).0@ != name {
            lemma_no_member_of(members@, name);
        }
    }
}

/// A value is read as what it is and as nothing else: a text as a text, a truth value
/// as a truth value and an array by its items.
pub proof fn law_values_are_read_as_what_they_are(value: Json, name: Seq<char>)
    ensures
        text_member(value, name) == match member(value, name) {
            Some(Json::Text(text)) => Some(text@),
            _ => None,
        },
        as_text(Some(value)) == match value {
            Json::Text(text) => Some(text@),
            _ => None,
        },
        as_text(None) is None,
        as_bool(Some(value)) == match value {
            Json::Bool(truth) => Some(truth),
            _ => None,
        },
        as_bool(None) is None,
        items_of(Some(value)) == match value {
            Json::Array(items) => items@,
            _ => Seq::empty(),
        },
        items_of(None).len() == 0,
{
}

proof fn lemma_first_text(members: Seq<(String, Json)>, names: Seq<Seq<char>>, k: int)
    requires
        0 <= k < names.len(),
        as_text(member_of(members, names[k])) is Some,
        forall|j: int| 0 <= j < k ==> as_text(member_of(members, #[trigger] names[j])) is None,
    ensures
        first_text(members, names) == as_text(member_of(members, names[k])),
    decreases k,
{
    if k > 0 {
        assert(as_text(member_of(members, names[0])) is None);
        let rest = names.drop_first();
        assert forall|j: int| 0 <= j < k - 1 implies as_text(
            member_of(members, #[trigger] rest[j]),
        ) is None by {
            assert(rest[j] == names[j + 1]);
        }
        lemma_first_text(members, rest, k - 1);
    }
}

proof fn lemma_no_first_text(members: Seq<(String, Json)>, names: Seq<Seq<char>>)
    requires
        forall|j: int| 0 <= j < names.len() ==> as_text(member_of(members, #[trigger] names[j]))
            is None,
    ensures
        first_text(members, names) is None,
    decreases names.len(),
{
    if names.len() > 0 {
        assert(as_text(member_of(members, names[0])) is None);
        let rest = names.drop_first();
        assert forall|j: int| 0 <= j < rest.len() implies as_text(
            member_of(members, #[trigger] rest[j]),
        ) is None by {
            assert(rest[j] == names[j + 1]);
        }
        lemma_no_first_text(members, rest);
    }
}

/// A search by several names takes the text under the first of them under which the
/// object itself has one, whatever stands deeper.
pub proof fn law_own_texts_are_found_first(value: Json, names: Seq<Seq<char>>, k: int)
    requires
        0 <= k < names.len(),
        text_member(value, names[k]) is Some,
        forall|j: int| 0 <= j < k ==> text_member(value, #[trigger] names[j]) is None,
    ensures
        find_text(value, names) == text_member(value, names[k]),
{
    if let Json::Object(members) = value {
        assert forall|j: int| 0 <= j < k implies as_text(
            member_of(members@, #[trigger] names[j]),
        ) is None by {
            assert(text_member(value, names[j]) is None);
        }
        lemma_first_text(members@, names, k);
    }
}

proof fn lemma_find_text_in_members(members: Seq<(String, Json)>, names: Seq<Seq<char>>, i: int)
    requires
        0 <= i <= members.len(),
        forall|j: int| 0 <= j < i ==> find_text((#[trigger] members[j]).1, names) is None,
        i < members.len() ==> find_text(members[i].1, names) is Some,
    ensures
        find_text_in_members(members, names) == if i < members.len() {
            find_text(members[i].1, names)
        } else {
            None
        },
    decreases i,
{
    if i > 0 {
        assert(find_text(members[0].1, names) is None);
        let rest = members.drop_first();
        assert forall|j: int| 0 <= j < i - 1 implies find_text((#[trigger] rest[j]).1, names)
            is None by {
            assert(rest[j] == members[j + 1]);
        }
        lemma_find_text_in_members(rest, names, i - 1);
    }
}

proof fn lemma_find_text_in_items(items: Seq<Json>, names: Seq<Seq<char>>, i: int)
    requires
        0 <= i <= items.len(),
        forall|j: int| 0 <= j < i ==> find_text(#[trigger] items[j], names) is None,
        i < items.len() ==> find_text(items[i], names) is Some,
    ensures
        find_text_in_items(items, names) == if i < items.len() {
            find_text(items[i], names)
        } else {
            None
        },
    decreases i,
{
    if i > 0 {
        assert(find_text(items[0], names) is None);
        let rest = items.drop_first();
        assert forall|j: int| 0 <= j < i - 1 implies find_text(#[trigger] rest[j], names)
            is None by {
            assert(rest[j] == items[j + 1]);
        }
        lemma_find_text_in_items(rest, names, i - 1);
    }
}

/// Where an object has none of the names itself, or the value is an array, the first
/// part in which something is found counts; where no part has anything, nothing is
/// found.
pub proof fn law_deeper_texts_are_found_in_order(value: Json, names: Seq<Seq<char>>, i: int)
    requires
        forall|j: int| 0 <= j < names.len() ==> text_member(value, #[trigger] names[j]) is None,
    ensures
        value matches Json::Object(members) ==> (0 <= i <= members@.len() && (forall|j: int|
            0 <= j < i ==> find_text((#[trigger] members@[j]).1, names) is None) && (i
            < members@.len() ==> find_text(members@[i].1, names) is Some) ==> find_text(
            value,
            names,
        ) == if i < members@.len() {
            find_text(members@[i].1, names)
        } else {
            None
        }),
        value matches Json::Array(items) ==> (0 <= i <= items@.len() && (forall|j: int|
            0 <= j < i ==> find_text(#[trigger] items@[j], names) is None) && (i < items@.len()
            ==> find_text(items@[i], names) is Some) ==> find_text(value, names) == if i
            < items@.len() {
            find_text(items@[i], names)
        } else {
            None
        }),
        !(value is Object) && !(value is Array) ==> find_text(value, names) is None,
{
    match value {
        Json::Object(members) => {
            assert forall|j: int| 0 <= j < names.len() implies as_text(
                member_of(members@, #[trigger] names[j]),
            ) is None by {
                assert(text_member(value, names[j]) is None);
            }
            lemma_no_first_text(members@, names);
            if 0 <= i <= members@.len() && (forall|j: int|
                0 <= j < i ==> find_text((#[trigger] members@[j]).1, names) is None) && (i
                < members@.len() ==> find_text(members@[i].1, names) is Some) {
                lemma_find_text_in_members(members@, names, i);
            }
        },
        Json::Array(items) => {
            if 0 <= i <= items@.len() && (forall|j: int|
                0 <= j < i ==> find_text(#[trigger] items@[j], names) is None) && (i < items@.len()
                ==> find_text(items@[i], names) is Some) {
                lemma_find_text_in_items(items@, names, i);
            }
        },
        _ => {},
    }
}

} // verus!
