use vstd::prelude::*;
use vstd::string::*;

verus! {

/// A JSON document as a tree of plain values.
///
/// An object keeps its members as a list of key and value; a number keeps the
/// text that denotes it.
#[derive(Debug, PartialEq, Eq)]
pub enum Json {
    Null,
    Bool(bool),
    Number(String),
    Text(String),
    Array(Vec<Json>),
    Object(Vec<(String, Json)>),
}

/// A value of `serde_json`, carried from its parser to `lower` and nowhere else.
#[verifier::external_type_specification]
#[verifier::external_body]
pub struct ExValue(serde_json::Value);

/// The document that a text denotes, or `None` where the text is not JSON.
pub uninterp spec fn json_document(text: Seq<char>) -> Option<Json>;

/// The converting half of `parse_json`: moves a value of `serde_json` into the
/// library's tree, variant by variant. A number becomes the text that
/// `serde_json` prints for it, an object the list of its members in the order
/// in which `serde_json` hands them out. Nothing is claimed of it by itself.
#[verifier::external_body]
fn lower(value: serde_json::Value) -> Json {
    match value {
        serde_json::Value::Null => Json::Null,
        serde_json::Value::Bool(b) => Json::Bool(b),
        serde_json::Value::Number(n) => Json::Number(n.to_string()),
        serde_json::Value::String(s) => Json::Text(s),
        serde_json::Value::Array(items) => Json::Array(items.into_iter().map(lower).collect()),
        serde_json::Value::Object(members) => Json::Object(
            members.into_iter().map(|(k, v)| (k, lower(v))).collect(),
        ),
    }
}

/// Calls `serde_json::from_str`. The result is a function of the text alone:
/// the document that the text denotes, or `None` where `serde_json` rejects it.
#[verifier::external_body]
fn parse_json(text: &str) -> (r: Option<Json>)
    ensures
        r == json_document(text@),
{
    match serde_json::from_str::<serde_json::Value>(text) {
        Ok(value) => Some(lower(value)),
        Err(_) => None,
    }
}

/// The value under `key` in a list of members: that of the first member with
/// this key.
pub open spec fn lookup(members: Seq<(String, Json)>, key: Seq<char>) -> Option<Json>
    decreases members.len(),
{
    if members.len() == 0 {
        None
    } else if members[0].0@ == key {
        Some(members[0].1)
    } else {
        lookup(members.drop_first(), key)
    }
}

/// The value at the end of a path of keys that starts at `root`; `None` where a
/// step does not lead to a member of an object.
pub open spec fn descend(root: Json, path: Seq<Seq<char>>) -> Option<Json>
    decreases path.len(),
{
    if path.len() == 0 {
        Some(root)
    } else {
        match root.member(path[0]) {
            Some(next) => descend(next, path.drop_first()),
            None => None,
        }
    }
}

/// The value under the first of `keys` that `holder` has a member for.
pub open spec fn first_present(holder: Json, keys: Seq<Seq<char>>) -> Option<Json>
    decreases keys.len(),
{
    if keys.len() == 0 {
        None
    } else {
        match holder.member(keys[0]) {
            Some(found) => Some(found),
            None => first_present(holder, keys.drop_first()),
        }
    }
}

/// The characters of each text of a list.
pub open spec fn texts(list: Seq<&str>) -> Seq<Seq<char>> {
    Seq::new(list.len(), |i: int| list[i]@)
}

impl Json {
    /// The member of an object under `key`; `None` for anything but an object
    /// and for an object without this key.
    pub open spec fn member(self, key: Seq<char>) -> Option<Json> {
        match self {
            Json::Object(members) => lookup(members@, key),
            _ => None,
        }
    }

    /// The item of an array at `index`; `None` for anything but an array and
    /// for an index outside it.
    pub open spec fn item(self, index: int) -> Option<Json> {
        match self {
            Json::Array(items) => if 0 <= index < items@.len() {
                Some(items@[index])
            } else {
                None
            },
            _ => None,
        }
    }

    /// The items of an array; `None` for anything else.
    pub open spec fn items(self) -> Option<Seq<Json>> {
        match self {
            Json::Array(items) => Some(items@),
            _ => None,
        }
    }

    /// The characters of a string; `None` for anything else.
    pub open spec fn text(self) -> Option<Seq<char>> {
        match self {
            Json::Text(s) => Some(s@),
            _ => None,
        }
    }

    /// The text of a number; `None` for anything else.
    pub open spec fn number(self) -> Option<Seq<char>> {
        match self {
            Json::Number(s) => Some(s@),
            _ => None,
        }
    }

    /// Reads `text` as a JSON document.
    pub fn parse(text: &str) -> (r: Option<Json>)
        ensures
            r == json_document(text@),
    {
        parse_json(text)
    }

    /// Looks up the member of an object under `key`.
    pub fn get(&self, key: &str) -> (r: Option<&Json>)
        ensures
            match r {
                Some(found) => self.member(key@) == Some(*found),
                None => self.member(key@) is None,
            },
    {
        match self {
            Json::Object(members) => {
                let wanted = String::from_str(key);
                let mut i: usize = 0;
                assert(members@.skip(0) == members@);
                while i < members.len()
                    invariant
                        i <= members.len(),
                        wanted@ == key@,
                        self.member(key@) == lookup(members@, key@),
                        lookup(members@, key@) == lookup(members@.skip(i as int), key@),
                    decreases members.len() - i,
                {
                    let ghost rest = members@.skip(i as int);
                    assert(rest[0] == members@[i as int]);
                    assert(rest.drop_first() == members@.skip(i + 1));
                    if members[i].0 == wanted {
                        assert(lookup(rest, key@) == Some(rest[0].1));
                        return Some(&members[i].1);
                    }
                    i += 1;
                }
                None
            },
            _ => None,
        }
    }

    /// Looks up the item of an array at `index`.
    pub fn at(&self, index: usize) -> (r: Option<&Json>)
        ensures
            match r {
                Some(found) => self.item(index as int) == Some(*found),
                None => self.item(index as int) is None,
            },
    {
        match self {
            Json::Array(items) => if index < items.len() {
                Some(&items[index])
            } else {
                None
            },
            _ => None,
        }
    }

    /// The items of an array.
    pub fn as_array(&self) -> (r: Option<&Vec<Json>>)
        ensures
            match r {
                Some(items) => self.items() == Some(items@),
                None => self.items() is None,
            },
    {
        match self {
            Json::Array(items) => Some(items),
            _ => None,
        }
    }

    /// The characters of a string.
    pub fn as_str(&self) -> (r: Option<&str>)
        ensures
            match r {
                Some(s) => self.text() == Some(s@),
                None => self.text() is None,
            },
    {
        match self {
            Json::Text(s) => Some(s.as_str()),
            _ => None,
        }
    }

    /// The text of a number.
    pub fn as_number(&self) -> (r: Option<&str>)
        ensures
            match r {
                Some(s) => self.number() == Some(s@),
                None => self.number() is None,
            },
    {
        match self {
            Json::Number(s) => Some(s.as_str()),
            _ => None,
        }
    }

    /// Follows a path of keys from this value, member by member.
    pub fn follow<'a>(&'a self, path: &[&str]) -> (r: Option<&'a Json>)
        ensures
            match r {
                Some(found) => descend(*self, texts(path@)) == Some(*found),
                None => descend(*self, texts(path@)) is None,
            },
    {
        let mut current = self;
        let mut i: usize = 0;
        assert(texts(path@).skip(0) == texts(path@));
        while i < path.len()
            invariant
                i <= path.len(),
                descend(*self, texts(path@)) == descend(*current, texts(path@).skip(i as int)),
            decreases path.len() - i,
        {
            let ghost rest = texts(path@).skip(i as int);
            assert(rest[0] == path@[i as int]@);
            assert(rest.drop_first() == texts(path@).skip(i + 1));
            match current.get(path[i]) {
                Some(next) => {
                    current = next;
                },
                None => {
                    return None;
                },
            }
            i += 1;
        }
        Some(current)
    }

    /// Looks up the member under the first of `keys` for which there is one.
    pub fn first_of<'a>(&'a self, keys: &[&str]) -> (r: Option<&'a Json>)
        ensures
            match r {
                Some(found) => first_present(*self, texts(keys@)) == Some(*found),
                None => first_present(*self, texts(keys@)) is None,
            },
    {
        let mut i: usize = 0;
        assert(texts(keys@).skip(0) == texts(keys@));
        while i < keys.len()
            invariant
                i <= keys.len(),
                first_present(*self, texts(keys@)) == first_present(
                    *self,
                    texts(keys@).skip(i as int),
                ),
            decreases keys.len() - i,
        {
            let ghost rest = texts(keys@).skip(i as int);
            assert(rest[0] == keys@[i as int]@);
            assert(rest.drop_first() == texts(keys@).skip(i + 1));
            match self.get(keys[i]) {
                Some(found) => {
                    return Some(found);
                },
                None => {},
            }
            i += 1;
        }
        None
    }
}

} // verus!
