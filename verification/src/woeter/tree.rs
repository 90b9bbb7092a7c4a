//! JSON as a tree of plain values, as far as the answers of a model
//! provider are read: texts, lists and objects. Everything else is one
//! kind of leaf.

use vstd::prelude::*;
use crate::text::{text_eq, texts};

verus! {

/// A JSON value.
#[derive(Debug)]
pub enum JsonTree {
    /// A string.
    Text(String),
    /// An array, with its items in order.
    List(Vec<JsonTree>),
    /// An object, with its members in order.
    Object(Vec<JsonField>),
    /// A number, a boolean or null.
    Other,
}

/// A member of a JSON object.
#[derive(Debug)]
pub struct JsonField {
    pub name: String,
    pub value: JsonTree,
}

/// The value of the first of `fields` that has the name `key`.
pub open spec fn first_named(fields: Seq<JsonField>, key: Seq<char>) -> Option<JsonTree>
    decreases fields.len(),
{
    if fields.len() == 0 {
        None
    } else if fields[0].name@ == key {
        Some(fields[0].value)
    } else {
        first_named(fields.drop_first(), key)
    }
}

/// The member `key` of `tree`, where `tree` is an object that has one.
pub open spec fn member(tree: Option<JsonTree>, key: Seq<char>) -> Option<JsonTree> {
    match tree {
        Some(JsonTree::Object(fields)) => first_named(fields@, key),
        _ => None,
    }
}

/// The characters of `tree`, where it is a string.
pub open spec fn text_of(tree: Option<JsonTree>) -> Option<Seq<char>> {
    match tree {
        Some(JsonTree::Text(s)) => Some(s@),
        _ => None,
    }
}

/// The items of `tree`, where it is an array.
pub open spec fn items_of(tree: Option<JsonTree>) -> Option<Seq<JsonTree>> {
    match tree {
        Some(JsonTree::List(items)) => Some(items@),
        _ => None,
    }
}

/// The first text that `pick` finds in one of `items`, in order.
pub open spec fn first_text(items: Seq<JsonTree>, pick: spec_fn(JsonTree) -> Option<Seq<char>>)
    -> Option<Seq<char>>
    decreases items.len(),
{
    if items.len() == 0 {
        None
    } else {
        match pick(items[0]) {
            Some(text) => Some(text),
            None => first_text(items.drop_first(), pick),
        }
    }
}

/// The view of an optional reference to a tree.
pub open spec fn opt_tree(tree: Option<&JsonTree>) -> Option<JsonTree> {
    match tree {
        Some(t) => Some(*t),
        None => None,
    }
}

/// The view of an optional text.
pub open spec fn opt_str(text: Option<&str>) -> Option<Seq<char>> {
    match text {
        Some(t) => Some(t@),
        None => None,
    }
}

/// The items of `items` that are strings, in order.
pub open spec fn texts_among(items: Seq<JsonTree>) -> Seq<Seq<char>>
    decreases items.len(),
{
    if items.len() == 0 {
        Seq::empty()
    } else {
        let before = texts_among(items.drop_last());
        match items.last() {
            JsonTree::Text(s) => before.push(s@),
            _ => before,
        }
    }
}

/// The texts that `tree` holds: itself where it is a string, its items
/// that are strings where it is an array, none otherwise.
pub open spec fn texts_in(tree: JsonTree) -> Seq<Seq<char>> {
    match tree {
        JsonTree::Text(s) => seq![s@],
        JsonTree::List(items) => texts_among(items@),
        _ => Seq::empty(),
    }
}

/// `parts` in a row, with `separator` between each two.
pub open spec fn joined(parts: Seq<Seq<char>>, separator: Seq<char>) -> Seq<char>
    decreases parts.len(),
{
    if parts.len() == 0 {
        Seq::empty()
    } else if parts.len() == 1 {
        parts[0]
    } else {
        joined(parts.drop_last(), separator) + separator + parts.last()
    }
}

/// `parts` in a row, with `separator` between each two.
pub fn join(parts: &Vec<String>, separator: &str) -> (r: String)
    ensures
        r@ == joined(texts(parts@), separator@),
{
    let mut out = String::new();
    let mut i: usize = 0;
    assert(texts(parts@).take(0) =~= Seq::<Seq<char>>::empty());
    while i < parts.len()
        invariant
            i <= parts@.len(),
            out@ == joined(texts(parts@).take(i as int), separator@),
        decreases parts@.len() - i,
    {
        proof {
            let upto = texts(parts@).take(i + 1);
            assert(upto.drop_last() =~= texts(parts@).take(i as int));
            assert(upto.last() == parts@[i as int]@);
            if i == 0 {
                assert(out@ =~= Seq::<char>::empty());
                assert(out@ + parts@[0]@ =~= parts@[0]@);
            }
        }
        if i > 0 {
            out.append(separator);
        }
        out.append(parts[i].as_str());
        i += 1;
    }
    assert(texts(parts@).take(parts@.len() as int) =~= texts(parts@));
    out
}

/// The texts that `tree` holds.
pub fn texts_of_tree(tree: &JsonTree) -> (r: Vec<String>)
    ensures
        texts(r@) == texts_in(*tree),
{
    match tree {
        JsonTree::Text(s) => {
            let out = vec![s.clone()];
            assert(texts(out@) =~= seq![s@]);
            out
        },
        JsonTree::List(items) => texts_of_items(items),
        _ => {
            let out: Vec<String> = Vec::new();
            assert(texts(out@) =~= Seq::<Seq<char>>::empty());
            out
        },
    }
}

/// The items of `items` that are strings, in order.
pub fn texts_of_items(items: &Vec<JsonTree>) -> (r: Vec<String>)
    ensures
        texts(r@) == texts_among(items@),
{
    let mut out: Vec<String> = Vec::new();
    let mut i: usize = 0;
    assert(items@.take(0) =~= Seq::<JsonTree>::empty());
    assert(texts(out@) =~= Seq::<Seq<char>>::empty());
    while i < items.len()
        invariant
            i <= items@.len(),
            texts(out@) == texts_among(items@.take(i as int)),
        decreases items@.len() - i,
    {
        let ghost before = out@;
        proof {
            assert(items@.take(i + 1).drop_last() =~= items@.take(i as int));
            assert(items@.take(i + 1).last() == items@[i as int]);
        }
        match &items[i] {
            JsonTree::Text(s) => {
                out.push(s.clone());
                assert(texts(out@) =~= texts(before).push(s@));
            },
            _ => {},
        }
        i += 1;
    }
    assert(items@.take(items@.len() as int) =~= items@);
    out
}

/// The value of the first of `fields` that has the name `key`.
pub fn find_field<'a>(fields: &'a Vec<JsonField>, key: &str) -> (r: Option<&'a JsonTree>)
    ensures
        opt_tree(r) == first_named(fields@, key@),
{
    let mut i: usize = 0;
    assert(fields@.skip(0) =~= fields@);
    while i < fields.len()
        invariant
            i <= fields@.len(),
            first_named(fields@, key@) == first_named(fields@.skip(i as int), key@),
        decreases fields@.len() - i,
    {
        proof {
            assert(fields@.skip(i as int)[0] == fields@[i as int]);
            assert(fields@.skip(i as int).drop_first() =~= fields@.skip(i + 1));
        }
        if text_eq(fields[i].name.as_str(), key) {
            return Some(&fields[i].value);
        }
        i += 1;
    }
    None
}

impl JsonTree {
    /// The member `key` of the object.
    pub fn get<'a>(&'a self, key: &str) -> (r: Option<&'a JsonTree>)
        ensures
            opt_tree(r) == member(Some(*self), key@),
    {
        match self {
            JsonTree::Object(fields) => find_field(fields, key),
            _ => None,
        }
    }

    /// The text, where the value is a string.
    pub fn as_str<'a>(&'a self) -> (r: Option<&'a str>)
        ensures
            opt_str(r) == text_of(Some(*self)),
    {
        match self {
            JsonTree::Text(s) => Some(s.as_str()),
            _ => None,
        }
    }

    /// The items, where the value is an array.
    pub fn as_array<'a>(&'a self) -> (r: Option<&'a Vec<JsonTree>>)
        ensures
            match r {
                Some(items) => items_of(Some(*self)) == Some(items@),
                None => items_of(Some(*self)) is None,
            },
    {
        match self {
            JsonTree::List(items) => Some(items),
            _ => None,
        }
    }

    /// The text of the member `key`, where there is such a member and it
    /// is a string.
    pub fn text_at<'a>(&'a self, key: &str) -> (r: Option<&'a str>)
        ensures
            opt_str(r) == text_of(member(Some(*self), key@)),
    {
        match self.get(key) {
            Some(value) => value.as_str(),
            None => None,
        }
    }

    /// The items of the member `key`, where there is such a member and it
    /// is an array.
    pub fn items_at<'a>(&'a self, key: &str) -> (r: Option<&'a Vec<JsonTree>>)
        ensures
            match r {
                Some(items) => items_of(member(Some(*self), key@)) == Some(items@),
                None => items_of(member(Some(*self), key@)) is None,
            },
    {
        match self.get(key) {
            Some(value) => value.as_array(),
            None => None,
        }
    }
}

} // verus!
