//! The structured value that payloads are carried in between versions.

use vstd::prelude::*;
use crate::text::{last_named, same_text, without_named};
use crate::traits::ToValue;

verus! {

/// The mathematical content of a [`Node`].
pub enum Json {
    Null,
    Bool(bool),
    Number(Seq<char>),
    Text(Seq<char>),
    Array(Seq<Json>),
    Object(Seq<(Seq<char>, Json)>),
}

/// A tree of named fields, lists and scalars.
///
/// In an object the last entry with a given name is the one that counts.
#[derive(Debug)]
pub enum Node {
    Null,
    Bool(bool),
    /// A number, as its decimal text.
    Number(String),
    Text(String),
    Array(Vec<Node>),
    Object(Vec<(String, Node)>),
}

/// The content of a list of values.
pub open spec fn items_model(items: Seq<Node>) -> Seq<Json>
    decreases items,
{
    Seq::new(
        items.len(),
        |i: int|
            if 0 <= i < items.len() {
                items[i]@
            } else {
                Json::Null
            },
    )
}

/// The content of a list of named values.
pub open spec fn entries_model(entries: Seq<(String, Node)>) -> Seq<(Seq<char>, Json)>
    decreases entries,
{
    Seq::new(
        entries.len(),
        |i: int|
            if 0 <= i < entries.len() {
                (entries[i].0@, entries[i].1@)
            } else {
                (Seq::empty(), Json::Null)
            },
    )
}

impl View for Node {
    type V = Json;

    open spec fn view(&self) -> Json
        decreases self,
    {
        match self {
            Node::Null => Json::Null,
            Node::Bool(b) => Json::Bool(*b),
            Node::Number(n) => Json::Number(n@),
            Node::Text(s) => Json::Text(s@),
            Node::Array(items) => Json::Array(items_model(items@)),
            Node::Object(entries) => Json::Object(entries_model(entries@)),
        }
    }
}

/// The value that `key` names among `entries`: the last entry of that name.
pub open spec fn lookup(entries: Seq<(Seq<char>, Json)>, key: Seq<char>) -> Option<Json> {
    last_named(entries, key)
}

/// `entries` without every entry named `key`, the others in their order.
pub open spec fn without(entries: Seq<(Seq<char>, Json)>, key: Seq<char>) -> Seq<(Seq<char>, Json)> {
    without_named(entries, key)
}

/// `entries` with `key` naming `value` and nothing else under that name.
pub open spec fn with_entry(entries: Seq<(Seq<char>, Json)>, key: Seq<char>, value: Json) -> Seq<
    (Seq<char>, Json),
> {
    without(entries, key).push((key, value))
}

impl Json {
    /// The field `key` of an object; nothing for any other value.
    pub open spec fn field(self, key: Seq<char>) -> Option<Json> {
        match self {
            Json::Object(entries) => lookup(entries, key),
            _ => None,
        }
    }

    /// The characters of a text value; nothing for any other value.
    pub open spec fn as_text(self) -> Option<Seq<char>> {
        match self {
            Json::Text(s) => Some(s),
            _ => None,
        }
    }
}

/// Removing a name leaves no entry of that name.
pub proof fn lemma_without_absent(entries: Seq<(Seq<char>, Json)>, key: Seq<char>)
    ensures
        lookup(without(entries, key), key) is None,
    decreases entries.len(),
{
    if entries.len() > 0 {
        lemma_without_absent(entries.drop_last(), key);
        if entries.last().0 != key {
            let w = without(entries.drop_last(), key).push(entries.last());
            assert(w.drop_last() =~= without(entries.drop_last(), key));
        }
    }
}

/// Removing a name leaves every other name as it was.
pub proof fn lemma_without_other(entries: Seq<(Seq<char>, Json)>, key: Seq<char>, other: Seq<char>)
    requires
        other != key,
    ensures
        lookup(without(entries, key), other) == lookup(entries, other),
    decreases entries.len(),
{
    if entries.len() > 0 {
        lemma_without_other(entries.drop_last(), key, other);
        if entries.last().0 != key {
            let w = without(entries.drop_last(), key).push(entries.last());
            assert(w.drop_last() =~= without(entries.drop_last(), key));
        }
    }
}

/// A field that was set is read back, and no other field changes.
pub proof fn lemma_with_entry(
    entries: Seq<(Seq<char>, Json)>,
    key: Seq<char>,
    value: Json,
    other: Seq<char>,
)
    ensures
        lookup(with_entry(entries, key, value), key) == Some(value),
        other != key ==> lookup(with_entry(entries, key, value), other) == lookup(entries, other),
{
    let w = with_entry(entries, key, value);
    assert(w.drop_last() =~= without(entries, key));
    if other != key {
        lemma_without_other(entries, key, other);
    }
}

impl Clone for Node {
    fn clone(&self) -> (r: Self)
        ensures
            r@ == self@,
        decreases self,
    {
        match self {
            Node::Null => Node::Null,
            Node::Bool(b) => Node::Bool(*b),
            Node::Number(n) => Node::Number(n.clone()),
            Node::Text(s) => Node::Text(s.clone()),
            Node::Array(items) => {
                let mut out: Vec<Node> = Vec::new();
                let mut i: usize = 0;
                while i < items.len()
                    invariant
                        self is Array,
                        self->Array_0 == *items,
                        i <= items.len(),
                        out@.len() == i,
                        forall|j: int| 0 <= j < i ==> out@[j]@ == items@[j]@,
                    decreases items.len() - i,
                {
                    proof {
                        let ghost v = *self;
                        assert(decreases_to!(v => v->Array_0));
                        assert(decreases_to!(v->Array_0 => v->Array_0[i as int]));
                    }
                    out.push(items[i].clone());
                    i += 1;
                }
                proof {
                    assert(items_model(out@) =~= items_model(items@));
                }
                Node::Array(out)
            },
            Node::Object(entries) => {
                let mut out: Vec<(String, Node)> = Vec::new();
                let mut i: usize = 0;
                while i < entries.len()
                    invariant
                        self is Object,
                        self->Object_0 == *entries,
                        i <= entries.len(),
                        out@.len() == i,
                        forall|j: int|
                            0 <= j < i ==> out@[j].0@ == entries@[j].0@ && out@[j].1@
                                == entries@[j].1@,
                    decreases entries.len() - i,
                {
                    proof {
                        let ghost v = *self;
                        assert(decreases_to!(v => v->Object_0));
                        assert(decreases_to!(v->Object_0 => v->Object_0[i as int]));
                        assert(decreases_to!(v->Object_0[i as int] => v->Object_0[i as int].1));
                    }
                    out.push((entries[i].0.clone(), entries[i].1.clone()));
                    i += 1;
                }
                proof {
                    assert(entries_model(out@) =~= entries_model(entries@));
                }
                Node::Object(out)
            },
        }
    }
}

/// Looks `key` up among `entries`.
pub fn find_entry<'a>(entries: &'a Vec<(String, Node)>, key: &str) -> (r: Option<&'a Node>)
    ensures
        match r {
            Some(v) => lookup(entries_model(entries@), key@) == Some(v@),
            None => lookup(entries_model(entries@), key@) is None,
        },
{
    let mut i: usize = entries.len();
    assert(entries_model(entries@).take(i as int) =~= entries_model(entries@));
    while i > 0
        invariant
            i <= entries.len(),
            lookup(entries_model(entries@), key@) == lookup(
                entries_model(entries@).take(i as int),
                key@,
            ),
        decreases i,
    {
        let ghost m = entries_model(entries@).take(i as int);
        assert(m.drop_last() =~= entries_model(entries@).take(i - 1));
        if same_text(entries[i - 1].0.as_str(), key) {
            return Some(&entries[i - 1].1);
        }
        i -= 1;
    }
    None
}

/// Drops every entry named `key`.
pub fn remove_entries(entries: &Vec<(String, Node)>, key: &str) -> (r: Vec<(String, Node)>)
    ensures
        entries_model(r@) == without(entries_model(entries@), key@),
{
    let mut out: Vec<(String, Node)> = Vec::new();
    let mut i: usize = 0;
    while i < entries.len()
        invariant
            i <= entries.len(),
            entries_model(out@) == without(entries_model(entries@).take(i as int), key@),
        decreases entries.len() - i,
    {
        let ghost before = entries_model(out@);
        let ghost m = entries_model(entries@).take(i + 1);
        assert(m.drop_last() =~= entries_model(entries@).take(i as int));
        if !same_text(entries[i].0.as_str(), key) {
            out.push((entries[i].0.clone(), entries[i].1.clone()));
            assert(entries_model(out@) =~= before.push(m.last()));
        }
        i += 1;
    }
    assert(entries_model(entries@).take(entries@.len() as int) =~= entries_model(entries@));
    out
}

/// Sets `key` to `value`, replacing what the name held before.
pub fn insert_entry(entries: &Vec<(String, Node)>, key: &str, value: Node) -> (r: Vec<
    (String, Node),
>)
    ensures
        entries_model(r@) == with_entry(entries_model(entries@), key@, value@),
{
    let mut out = remove_entries(entries, key);
    let ghost before = entries_model(out@);
    out.push((String::from_str(key), value));
    assert(entries_model(out@) =~= before.push((key@, value@)));
    out
}

impl Node {
    /// The field `key` of an object.
    pub fn get(&self, key: &str) -> (r: Option<&Node>)
        ensures
            match r {
                Some(v) => self@.field(key@) == Some(v@),
                None => self@.field(key@) is None,
            },
    {
        match self {
            Node::Object(entries) => {
                find_entry(entries, key)
            },
            _ => None,
        }
    }

    /// The text of a text value.
    pub fn as_str(&self) -> (r: Option<&str>)
        ensures
            match r {
                Some(s) => self@.as_text() == Some(s@),
                None => self@.as_text() is None,
            },
    {
        match self {
            Node::Text(s) => Some(s.as_str()),
            _ => None,
        }
    }

    /// The items of a list.
    pub fn as_array(&self) -> (r: Option<&Vec<Node>>)
        ensures
            match r {
                Some(items) => self@ == Json::Array(items_model(items@)),
                None => !(self@ is Array),
            },
    {
        match self {
            Node::Array(items) => {
                Some(items)
            },
            _ => None,
        }
    }

    /// The entries of an object.
    pub fn as_object(&self) -> (r: Option<&Vec<(String, Node)>>)
        ensures
            match r {
                Some(entries) => self@ == Json::Object(entries_model(entries@)),
                None => !(self@ is Object),
            },
    {
        match self {
            Node::Object(entries) => {
                Some(entries)
            },
            _ => None,
        }
    }

    /// Whether this is the null value.
    pub fn is_null(&self) -> (r: bool)
        ensures
            r == (self@ is Null),
    {
        match self {
            Node::Null => true,
            _ => false,
        }
    }

    /// Whether this is a list.
    pub fn is_array(&self) -> (r: bool)
        ensures
            r == (self@ is Array),
    {
        match self {
            Node::Array(_) => true,
            _ => false,
        }
    }

    /// Whether this is an object.
    pub fn is_object(&self) -> (r: bool)
        ensures
            r == (self@ is Object),
    {
        match self {
            Node::Object(_) => true,
            _ => false,
        }
    }

    /// A text value holding `s`.
    pub fn text(s: &str) -> (r: Node)
        ensures
            r@ == Json::Text(s@),
    {
        Node::Text(String::from_str(s))
    }
}

impl ToValue for Node {
    open spec fn encoded(&self) -> Result<Json, Seq<char>> {
        Ok(self@)
    }

    fn to_value(&self) -> (r: Result<Node, String>) {
        Ok(self.clone())
    }
}

} // verus!
