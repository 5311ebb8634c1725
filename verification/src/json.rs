use vstd::prelude::*;
use crate::table::lookup;
use crate::text::str_eq;

verus! {

/// A value of a JSON document. A number is kept as the document writes it.
pub enum Json {
    Null,
    Bool(bool),
    Number(String),
    Text(String),
    List(Vec<Json>),
    Object(Vec<(String, Json)>),
}

/// The member under a key of a value that was found, if it was found.
pub open spec fn then_member(value: Option<Json>, key: Seq<char>) -> Option<Json> {
    match value {
        Some(value) => value.member_of(key),
        None => None,
    }
}

/// The element at a place of a value that was found, if it was found.
pub open spec fn then_element(value: Option<Json>, index: int) -> Option<Json> {
    match value {
        Some(value) => value.element_of(index),
        None => None,
    }
}

/// The member under a key of a value that was found.
pub fn member_then<'a>(value: Option<&'a Json>, key: &str) -> (found: Option<&'a Json>)
    ensures
        match found {
            Some(member) => then_member(
                match value {
                    Some(value) => Some(*value),
                    None => None,
                },
                key@,
            ) == Some(*member),
            None => then_member(
                match value {
                    Some(value) => Some(*value),
                    None => None,
                },
                key@,
            ) is None,
        },
{
    match value {
        Some(value) => value.member(key),
        None => None,
    }
}

/// The element at a place of a value that was found.
pub fn element_then<'a>(value: Option<&'a Json>, index: usize) -> (found: Option<&'a Json>)
    ensures
        match found {
            Some(element) => then_element(
                match value {
                    Some(value) => Some(*value),
                    None => None,
                },
                index as int,
            ) == Some(*element),
            None => then_element(
                match value {
                    Some(value) => Some(*value),
                    None => None,
                },
                index as int,
            ) is None,
        },
{
    match value {
        Some(value) => value.element(index),
        None => None,
    }
}

impl Json {
    /// The member of an object under a key; `None` for a value that is no
    /// object and for an object without the key.
    pub open spec fn member_of(self, key: Seq<char>) -> Option<Json> {
        match self {
            Json::Object(members) => lookup(members@, key),
            _ => None,
        }
    }

    /// The element of a list at a place; `None` for a value that is no list
    /// and for a list that is too short.
    pub open spec fn element_of(self, index: int) -> Option<Json> {
        match self {
            Json::List(elements) => if 0 <= index < elements@.len() {
                Some(elements@[index])
            } else {
                None
            },
            _ => None,
        }
    }

    /// The text that a value holds; `None` for a value that is no text.
    pub open spec fn text_of(self) -> Option<Seq<char>> {
        match self {
            Json::Text(text) => Some(text@),
            _ => None,
        }
    }

    /// The number that a value holds, as the document writes it; `None` for a
    /// value that is no number.
    pub open spec fn number_of(self) -> Option<Seq<char>> {
        match self {
            Json::Number(number) => Some(number@),
            _ => None,
        }
    }

    /// The member of an object under a key.
    pub fn member(&self, key: &str) -> (found: Option<&Json>)
        ensures
            match found {
                Some(member) => self.member_of(key@) == Some(*member),
                None => self.member_of(key@) is None,
            },
    {
        match self {
            Json::Object(members) => {
                let mut i: usize = members.len();
                assert(self.member_of(key@) == lookup(members@, key@));
                assert(members@.take(i as int) =~= members@);
                while i > 0
                    invariant
                        i <= members.len(),
                        self.member_of(key@) == lookup(members@, key@),
                        lookup(members@, key@) == lookup(members@.take(i as int), key@),
                    decreases i,
                {
                    assert(members@.take(i as int).drop_last() =~= members@.take(i - 1));
                    assert(members@.take(i as int).last() == members@[i - 1]);
                    if str_eq(members[i - 1].0.as_str(), key) {
                        assert(members@.take(i as int).len() > 0);
                        assert(lookup(members@.take(i as int), key@) == Some(members@[i - 1].1));
                        return Some(&members[i - 1].1);
                    }
                    i = i - 1;
                }
                None
            },
            _ => None,
        }
    }

    /// The element of a list at a place.
    pub fn element(&self, index: usize) -> (found: Option<&Json>)
        ensures
            match found {
                Some(element) => self.element_of(index as int) == Some(*element),
                None => self.element_of(index as int) is None,
            },
    {
        match self {
            Json::List(elements) => if index < elements.len() {
                Some(&elements[index])
            } else {
                None
            },
            _ => None,
        }
    }

    /// The text that a value holds.
    pub fn text(&self) -> (found: Option<&String>)
        ensures
            match found {
                Some(text) => self.text_of() == Some(text@),
                None => self.text_of() is None,
            },
    {
        match self {
            Json::Text(text) => Some(text),
            _ => None,
        }
    }

    /// The number that a value holds, as the document writes it.
    pub fn number(&self) -> (found: Option<&String>)
        ensures
            match found {
                Some(number) => self.number_of() == Some(number@),
                None => self.number_of() is None,
            },
    {
        match self {
            Json::Number(number) => Some(number),
            _ => None,
        }
    }
}

} // verus!
