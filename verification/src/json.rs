//! A JSON document as a tree of plain values, and the three ways in which
//! the library reads one: a member of an object by its key, the text of a
//! string, the items of an array.

use vstd::prelude::*;
use vstd::string::StringExecFns;

verus! {

/// A JSON value.
#[derive(Debug, PartialEq, Eq)]
pub enum Json {
    Null,
    Bool(bool),
    /// A number, in the digits that it was written with.
    Number(String),
    Text(String),
    List(Vec<Json>),
    /// An object: its members in order, each under its key.
    Record(Vec<(String, Json)>),
}

/// The value of the first of `members[i..]` whose key is `key`.
pub open spec fn member_from(members: Seq<(String, Json)>, key: Seq<char>, i: int) -> Option<Json>
    decreases members.len() - i,
{
    if i < 0 || i >= members.len() {
        None
    } else if members[i].0@ == key {
        Some(members[i].1)
    } else {
        member_from(members, key, i + 1)
    }
}

impl Json {
    /// The member of an object under `key`: the first one, should the key
    /// stand twice. Anything but an object has no members.
    pub open spec fn member(self, key: Seq<char>) -> Option<Json> {
        match self {
            Json::Record(members) => member_from(members@, key, 0),
            _ => None,
        }
    }

    /// The text of a string. Anything else has none.
    pub open spec fn text(self) -> Option<Seq<char>> {
        match self {
            Json::Text(t) => Some(t@),
            _ => None,
        }
    }

    /// The items of an array. Anything else has none.
    pub open spec fn items(self) -> Option<Seq<Json>> {
        match self {
            Json::List(items) => Some(items@),
            _ => None,
        }
    }

    /// The text of the member under `key`, where that member is a string.
    pub open spec fn member_text(self, key: Seq<char>) -> Option<Seq<char>> {
        match self.member(key) {
            Some(v) => v.text(),
            None => None,
        }
    }

    /// The member of an object under `key`.
    pub fn get(&self, key: &str) -> (r: Option<&Json>)
        ensures
            match r {
                Some(v) => self.member(key@) == Some(*v),
                None => self.member(key@) is None,
            },
    {
        match self {
            Json::Record(members) => {
                let wanted = String::from_str(key);
                let mut i: usize = 0;
                while i < members.len()
                    invariant
                        i <= members.len(),
                        wanted@ == key@,
                        self.member(key@) == member_from(members@, key@, i as int),
                    decreases members.len() - i,
                {
                    if members[i].0 == wanted {
                        return Some(&members[i].1);
                    }
                    i += 1;
                }
                None
            },
            _ => None,
        }
    }

    /// The text of a string.
    pub fn as_str(&self) -> (r: Option<&str>)
        ensures
            match r {
                Some(t) => self.text() == Some(t@),
                None => self.text() is None,
            },
    {
        match self {
            Json::Text(t) => Some(t.as_str()),
            _ => None,
        }
    }

    /// The items of an array.
    pub fn as_array(&self) -> (r: Option<&Vec<Json>>)
        ensures
            match r {
                Some(items) => self.items() == Some(items@),
                None => self.items() is None,
            },
    {
        match self {
            Json::List(items) => Some(items),
            _ => None,
        }
    }

    /// The text of the member under `key`, where that member is a string.
    pub fn get_str(&self, key: &str) -> (r: Option<&str>)
        ensures
            match r {
                Some(t) => self.member_text(key@) == Some(t@),
                None => self.member_text(key@) is None,
            },
    {
        match self.get(key) {
            Some(v) => v.as_str(),
            None => None,
        }
    }
}

} // verus!
