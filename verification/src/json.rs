//! A JSON document as plain values, and the lookups that read it.

use vstd::prelude::*;

verus! {

/// A JSON document. A number is kept by its kind alone.
#[derive(Debug, PartialEq, Eq)]
pub enum Json {
    Null,
    Bool(bool),
    Number,
    Text(String),
    Array(Vec<Json>),
    Object(Vec<(String, Json)>),
}

/// The mathematical value of a [`Json`]: strings are sequences of characters,
/// arrays are sequences of values, objects are sequences of named values.
pub enum JsonView {
    Null,
    Bool(bool),
    Number,
    Text(Seq<char>),
    Array(Seq<JsonView>),
    Object(Seq<(Seq<char>, JsonView)>),
}

impl View for Json {
    type V = JsonView;

    /// The bounds inside the two closures serve the termination proof:
    /// `Seq::new` asks for no place beyond them.
    open spec fn view(&self) -> JsonView
        decreases self,
    {
        match self {
            Json::Null => JsonView::Null,
            Json::Bool(b) => JsonView::Bool(*b),
            Json::Number => JsonView::Number,
            Json::Text(s) => JsonView::Text(s@),
            Json::Array(items) => JsonView::Array(
                Seq::new(
                    items@.len(),
                    |i: int| if 0 <= i < items@.len() { items@[i]@ } else { JsonView::Null },
                ),
            ),
            Json::Object(members) => JsonView::Object(
                Seq::new(
                    members@.len(),
                    |i: int| (
                        members@[i].0@,
                        if 0 <= i < members@.len() { members@[i].1@ } else { JsonView::Null },
                    ),
                ),
            ),
        }
    }
}

/// The value of the first of `members` that is called `key`.
pub open spec fn first_named(members: Seq<(Seq<char>, JsonView)>, key: Seq<char>) -> Option<
    JsonView,
>
    decreases members.len(),
{
    if members.len() == 0 {
        None
    } else if members[0].0 == key {
        Some(members[0].1)
    } else {
        first_named(members.skip(1), key)
    }
}

/// A lookup by name finds the first member of that name, and finds nothing
/// only where no member has the name.
pub proof fn lemma_first_named(members: Seq<(Seq<char>, JsonView)>, key: Seq<char>)
    ensures
        match first_named(members, key) {
            Some(value) => exists|i: int|
                0 <= i < members.len() && #[trigger] members[i] == (key, value) && forall|j: int|
                    0 <= j < i ==> (#[trigger] members[j]).0 != key,
            None => forall|i: int| 0 <= i < members.len() ==> (#[trigger] members[i]).0 != key,
        },
    decreases members.len(),
{
    if members.len() > 0 && members[0].0 != key {
        let rest = members.skip(1);
        lemma_first_named(rest, key);
        match first_named(rest, key) {
            Some(value) => {
                let i = choose|i: int|
                    0 <= i < rest.len() && #[trigger] rest[i] == (key, value) && forall|j: int|
                        0 <= j < i ==> (#[trigger] rest[j]).0 != key;
                assert(members[i + 1] == (key, value));
                assert forall|j: int| 0 <= j < i + 1 implies (#[trigger] members[j]).0 != key by {
                    if j > 0 {
                        assert(rest[j - 1] == members[j]);
                    }
                }
            },
            None => {
                assert forall|i: int| 0 <= i < members.len() implies (#[trigger] members[i]).0
                    != key by {
                    if i > 0 {
                        assert(rest[i - 1] == members[i]);
                    }
                }
            },
        }
    } else if members.len() > 0 {
        assert(members[0] == (key, members[0].1));
    }
}

impl JsonView {
    /// The value of the first member called `key`, where this is an object
    /// that has one.
    pub open spec fn member(self, key: Seq<char>) -> Option<JsonView> {
        match self {
            JsonView::Object(members) => first_named(members, key),
            _ => None,
        }
    }

    /// The element at `index`, where this is an array that is long enough.
    pub open spec fn element(self, index: int) -> Option<JsonView> {
        match self {
            JsonView::Array(items) => if 0 <= index < items.len() {
                Some(items[index])
            } else {
                None
            },
            _ => None,
        }
    }

    /// The characters, where this is a string.
    pub open spec fn text(self) -> Option<Seq<char>> {
        match self {
            JsonView::Text(s) => Some(s),
            _ => None,
        }
    }
}

impl Json {
    /// Looks a member of an object up by its name.
    pub fn member(&self, key: &str) -> (found: Option<&Json>)
        ensures
            found matches Some(value) ==> self@.member(key@) == Some(value@),
            found is None ==> self@.member(key@) is None,
    {
        match self {
            Json::Object(members) => {
                let wanted = key.to_owned();
                let ghost named = self@->Object_0;
                assert(named.skip(0) == named);
                let mut i: usize = 0;
                while i < members.len()
                    invariant
                        i <= members.len(),
                        wanted@ == key@,
                        self@ == JsonView::Object(named),
                        named.len() == members@.len(),
                        forall|j: int|
                            0 <= j < members@.len() ==> named[j] == (
                                members@[j].0@,
                                members@[j].1@,
                            ),
                        first_named(named, key@) == first_named(named.skip(i as int), key@),
                    decreases members.len() - i,
                {
                    if members[i].0 == wanted {
                        return Some(&members[i].1);
                    }
                    assert(named.skip(i as int).skip(1) == named.skip(i + 1));
                    i += 1;
                }
                None
            },
            _ => None,
        }
    }

    /// Looks an element of an array up by its place.
    pub fn element(&self, index: usize) -> (found: Option<&Json>)
        ensures
            found matches Some(value) ==> self@.element(index as int) == Some(value@),
            found is None ==> self@.element(index as int) is None,
    {
        match self {
            Json::Array(items) => if index < items.len() {
                Some(&items[index])
            } else {
                None
            },
            _ => None,
        }
    }

    /// The characters of a string.
    pub fn text(&self) -> (found: Option<&str>)
        ensures
            found matches Some(s) ==> self@.text() == Some(s@),
            found is None ==> self@.text() is None,
    {
        match self {
            Json::Text(s) => Some(s.as_str()),
            _ => None,
        }
    }
}

} // verus!
