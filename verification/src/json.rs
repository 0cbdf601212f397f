//! JSON documents as plain values, their mathematical view, and the readers
//! that every shape in this library is decoded with.

use vstd::prelude::*;
use crate::error::DecodeError;

verus! {

/// A JSON document.
///
/// An integer holds any whole number; a float holds the IEEE-754 bit pattern
/// of a double, so that a document is carried through without loss. The
/// members of an object keep their order; a key is looked up from the front.
#[derive(Debug, PartialEq)]
pub enum Json {
    Null,
    Bool(bool),
    Integer(i128),
    Float(u64),
    Text(String),
    Array(Vec<Json>),
    Object(Vec<(String, Json)>),
}

/// The mathematical value of a JSON document.
pub enum JsonView {
    Null,
    Bool(bool),
    Integer(int),
    Float(u64),
    Text(Seq<char>),
    Array(Seq<JsonView>),
    Object(Seq<(Seq<char>, JsonView)>),
}

/// The value that a document denotes.
pub open spec fn value_of(doc: Json) -> JsonView
    decreases doc,
{
    match doc {
        Json::Null => JsonView::Null,
        Json::Bool(b) => JsonView::Bool(b),
        Json::Integer(n) => JsonView::Integer(n as int),
        Json::Float(bits) => JsonView::Float(bits),
        Json::Text(s) => JsonView::Text(s@),
        Json::Array(items) => JsonView::Array(
            Seq::new(
                items@.len(),
                |i: int|
                    if 0 <= i < items@.len() {
                        value_of(items@[i])
                    } else {
                        JsonView::Null
                    },
            ),
        ),
        Json::Object(members) => JsonView::Object(
            Seq::new(
                members@.len(),
                |i: int|
                    if 0 <= i < members@.len() {
                        (members@[i].0@, value_of(members@[i].1))
                    } else {
                        (Seq::empty(), JsonView::Null)
                    },
            ),
        ),
    }
}

impl View for Json {
    type V = JsonView;

    open spec fn view(&self) -> JsonView {
        value_of(*self)
    }
}

/// The views of a sequence of values, one for one.
pub open spec fn views<T: View>(items: Seq<T>) -> Seq<T::V> {
    Seq::new(items.len(), |i: int| items[i]@)
}

/// The views of a sequence of members, one for one.
pub open spec fn members_view(members: Seq<(String, Json)>) -> Seq<(Seq<char>, JsonView)> {
    Seq::new(members.len(), |i: int| (members[i].0@, members[i].1@))
}

/// The value of the first member named `key`, if there is one.
pub open spec fn lookup(members: Seq<(Seq<char>, JsonView)>, key: Seq<char>) -> Option<JsonView>
    decreases members.len(),
{
    if members.len() == 0 {
        None
    } else if members[0].0 == key {
        Some(members[0].1)
    } else {
        lookup(members.skip(1), key)
    }
}

/// The value of the member named `key`, which the shape requires.
pub open spec fn required(members: Seq<(Seq<char>, JsonView)>, key: Seq<char>) -> Result<
    JsonView,
    DecodeError,
> {
    match lookup(members, key) {
        Some(value) => Ok(value),
        None => Err(DecodeError::MissingField),
    }
}

/// The value of the member named `key`, where the shape lets it be left out:
/// a member that is `null` counts as left out.
pub open spec fn optional(members: Seq<(Seq<char>, JsonView)>, key: Seq<char>) -> Option<
    JsonView,
> {
    match lookup(members, key) {
        Some(JsonView::Null) => None,
        Some(value) => Some(value),
        None => None,
    }
}

/// The text of a required member.
pub open spec fn text_field(members: Seq<(Seq<char>, JsonView)>, key: Seq<char>) -> Result<
    Seq<char>,
    DecodeError,
> {
    match required(members, key) {
        Ok(value) => value.text(),
        Err(e) => Err(e),
    }
}

/// The truth value of a required member.
pub open spec fn bool_field(members: Seq<(Seq<char>, JsonView)>, key: Seq<char>) -> Result<
    bool,
    DecodeError,
> {
    match required(members, key) {
        Ok(value) => value.boolean(),
        Err(e) => Err(e),
    }
}

/// Every item of a sequence decoded in order by `one`; the first item that
/// fails decides the error.
pub open spec fn decoded_all<T>(
    items: Seq<JsonView>,
    one: spec_fn(JsonView) -> Result<T, DecodeError>,
) -> Result<Seq<T>, DecodeError>
    decreases items.len(),
{
    if items.len() == 0 {
        Ok(Seq::empty())
    } else {
        match decoded_all(items.drop_last(), one) {
            Err(e) => Err(e),
            Ok(front) => match one(items.last()) {
                Err(e) => Err(e),
                Ok(last) => Ok(front.push(last)),
            },
        }
    }
}

impl JsonView {
    /// The members of an object.
    pub open spec fn members(self) -> Result<Seq<(Seq<char>, JsonView)>, DecodeError> {
        match self {
            JsonView::Object(members) => Ok(members),
            _ => Err(DecodeError::WrongType),
        }
    }

    /// The items of an array.
    pub open spec fn items(self) -> Result<Seq<JsonView>, DecodeError> {
        match self {
            JsonView::Array(items) => Ok(items),
            _ => Err(DecodeError::WrongType),
        }
    }

    /// The characters of a text.
    pub open spec fn text(self) -> Result<Seq<char>, DecodeError> {
        match self {
            JsonView::Text(text) => Ok(text),
            _ => Err(DecodeError::WrongType),
        }
    }

    /// The truth value of a boolean.
    pub open spec fn boolean(self) -> Result<bool, DecodeError> {
        match self {
            JsonView::Bool(b) => Ok(b),
            _ => Err(DecodeError::WrongType),
        }
    }

    /// A whole number that fits sixteen unsigned bits.
    pub open spec fn small_unsigned(self) -> Result<u16, DecodeError> {
        match self {
            JsonView::Integer(n) => if 0 <= n <= u16::MAX {
                Ok(n as u16)
            } else {
                Err(DecodeError::OutOfRange)
            },
            _ => Err(DecodeError::WrongType),
        }
    }
}

/// The view of an array is the views of its items.
pub proof fn lemma_array_view(doc: Json)
    requires
        doc is Array,
    ensures
        doc@ == JsonView::Array(views(doc->Array_0@)),
{
    assert(doc@->Array_0 =~= views(doc->Array_0@));
}

/// The view of an object is the views of its members.
pub proof fn lemma_object_view(doc: Json)
    requires
        doc is Object,
    ensures
        doc@ == JsonView::Object(members_view(doc->Object_0@)),
{
    assert(doc@->Object_0 =~= members_view(doc->Object_0@));
}

/// A key is found at the first index that holds it.
pub proof fn lemma_lookup_at(members: Seq<(Seq<char>, JsonView)>, key: Seq<char>, at: int)
    requires
        0 <= at < members.len(),
        members[at].0 == key,
        forall|j: int| 0 <= j < at ==> members[j].0 != key,
    ensures
        lookup(members, key) == Some(members[at].1),
    decreases at,
{
    if at > 0 {
        let rest = members.skip(1);
        assert forall|j: int| 0 <= j < at - 1 implies rest[j].0 != key by {
            assert(rest[j] == members[j + 1]);
        }
        lemma_lookup_at(rest, key, at - 1);
    }
}

/// Decoding one item more extends what the items before it decoded to.
pub proof fn lemma_decoded_all_step<T>(
    items: Seq<JsonView>,
    one: spec_fn(JsonView) -> Result<T, DecodeError>,
    n: int,
)
    requires
        0 <= n < items.len(),
    ensures
        decoded_all(items.take(n + 1), one) == (match decoded_all(items.take(n), one) {
            Err(e) => Err(e),
            Ok(front) => match one(items[n]) {
                Err(e) => Err(e),
                Ok(last) => Ok(front.push(last)),
            },
        }),
{
    let longer = items.take(n + 1);
    assert(longer.drop_last() =~= items.take(n));
}

/// Once an item fails, every longer sequence fails with the same error.
pub proof fn lemma_decoded_all_fails<T>(
    items: Seq<JsonView>,
    one: spec_fn(JsonView) -> Result<T, DecodeError>,
    n: int,
)
    requires
        0 <= n <= items.len(),
        decoded_all(items.take(n), one) is Err,
    ensures
        decoded_all(items, one) == decoded_all(items.take(n), one),
    decreases items.len() - n,
{
    if n < items.len() {
        lemma_decoded_all_step(items, one, n);
        lemma_decoded_all_fails(items, one, n + 1);
    } else {
        assert(items.take(n) =~= items);
    }
}

/// Whether two texts hold the same characters.
pub fn same_text(a: &str, b: &str) -> (r: bool)
    ensures
        r == (a@ == b@),
{
    let left = a.to_owned();
    let right = b.to_owned();
    left == right
}

impl Json {
    /// The members of an object; any other document has none to give.
    pub fn members(&self) -> (r: Result<&Vec<(String, Json)>, DecodeError>)
        ensures
            self@.members() == (match r {
                Ok(members) => Ok(members_view(members@)),
                Err(e) => Err(e),
            }),
    {
        match self {
            Json::Object(members) => {
                proof {
                    lemma_object_view(*self);
                }
                Ok(members)
            },
            _ => Err(DecodeError::WrongType),
        }
    }

    /// The items of an array.
    pub fn items(&self) -> (r: Result<&Vec<Json>, DecodeError>)
        ensures
            self@.items() == (match r {
                Ok(items) => Ok(views(items@)),
                Err(e) => Err(e),
            }),
    {
        match self {
            Json::Array(items) => {
                proof {
                    lemma_array_view(*self);
                }
                Ok(items)
            },
            _ => Err(DecodeError::WrongType),
        }
    }

    /// The characters of a text.
    pub fn text(&self) -> (r: Result<&String, DecodeError>)
        ensures
            self@.text() == (match r {
                Ok(text) => Ok(text@),
                Err(e) => Err(e),
            }),
    {
        match self {
            Json::Text(text) => Ok(text),
            _ => Err(DecodeError::WrongType),
        }
    }

    /// The truth value of a boolean.
    pub fn boolean(&self) -> (r: Result<bool, DecodeError>)
        ensures
            r == self@.boolean(),
    {
        match self {
            Json::Bool(b) => Ok(*b),
            _ => Err(DecodeError::WrongType),
        }
    }

    /// A whole number that fits sixteen unsigned bits.
    pub fn small_unsigned(&self) -> (r: Result<u16, DecodeError>)
        ensures
            r == self@.small_unsigned(),
    {
        match self {
            Json::Integer(n) => {
                if 0 <= *n && *n <= 65535 {
                    Ok(*n as u16)
                } else {
                    Err(DecodeError::OutOfRange)
                }
            },
            _ => Err(DecodeError::WrongType),
        }
    }

    /// The object with the given members, in their order.
    pub fn object(members: Vec<(String, Json)>) -> (r: Json)
        ensures
            r@ == JsonView::Object(members_view(members@)),
    {
        let r = Json::Object(members);
        proof {
            lemma_object_view(r);
        }
        r
    }

    /// The array with the given items, in their order.
    pub fn array(items: Vec<Json>) -> (r: Json)
        ensures
            r@ == JsonView::Array(views(items@)),
    {
        let r = Json::Array(items);
        proof {
            lemma_array_view(r);
        }
        r
    }

    /// The text with the characters of `text`.
    pub fn text_of(text: &str) -> (r: Json)
        ensures
            r@ == JsonView::Text(text@),
    {
        Json::Text(text.to_owned())
    }

    /// Whether the document is `null`.
    pub fn is_null(&self) -> (r: bool)
        ensures
            r == (self@ is Null),
    {
        match self {
            Json::Null => true,
            _ => false,
        }
    }
}

/// Looks a key up among the members of an object, from the front.
pub fn find<'a>(members: &'a Vec<(String, Json)>, key: &str) -> (r: Option<&'a Json>)
    ensures
        lookup(members_view(members@), key@) == (match r {
            Some(value) => Some(value@),
            None => None,
        }),
{
    let wanted = key.to_owned();
    let ghost all = members_view(members@);
    let mut i: usize = 0;
    assert(all.skip(0) =~= all);
    while i < members.len()
        invariant
            i <= members.len(),
            wanted@ == key@,
            all == members_view(members@),
            lookup(all, key@) == lookup(all.skip(i as int), key@),
        decreases members.len() - i,
    {
        assert(all.skip(i as int).skip(1) =~= all.skip(i + 1));
        if members[i].0 == wanted {
            return Some(&members[i].1);
        }
        i += 1;
    }
    None
}

/// Looks up a member that the shape requires.
pub fn field<'a>(members: &'a Vec<(String, Json)>, key: &str) -> (r: Result<&'a Json, DecodeError>)
    ensures
        required(members_view(members@), key@) == (match r {
            Ok(value) => Ok(value@),
            Err(e) => Err(e),
        }),
{
    match find(members, key) {
        Some(value) => Ok(value),
        None => Err(DecodeError::MissingField),
    }
}

/// Looks up a member that the shape lets be left out.
pub fn find_present<'a>(members: &'a Vec<(String, Json)>, key: &str) -> (r: Option<&'a Json>)
    ensures
        optional(members_view(members@), key@) == (match r {
            Some(value) => Some(value@),
            None => None,
        }),
{
    match find(members, key) {
        Some(value) => if value.is_null() {
            None
        } else {
            Some(value)
        },
        None => None,
    }
}

/// Reads the text of a required member.
pub fn read_text(members: &Vec<(String, Json)>, key: &str) -> (r: Result<String, DecodeError>)
    ensures
        text_field(members_view(members@), key@) == (match r {
            Ok(text) => Ok(text@),
            Err(e) => Err(e),
        }),
{
    match field(members, key) {
        Ok(value) => match value.text() {
            Ok(text) => Ok(text.clone()),
            Err(e) => Err(e),
        },
        Err(e) => Err(e),
    }
}

/// Reads the truth value of a required member.
pub fn read_bool(members: &Vec<(String, Json)>, key: &str) -> (r: Result<bool, DecodeError>)
    ensures
        r == bool_field(members_view(members@), key@),
{
    match field(members, key) {
        Ok(value) => value.boolean(),
        Err(e) => Err(e),
    }
}

/// Appends a member to the members of an object under construction.
pub fn push_member(members: &mut Vec<(String, Json)>, key: &str, value: Json)
    ensures
        members_view(final(members)@) == members_view(old(members)@).push((key@, value@)),
{
    members.push((key.to_owned(), value));
}

/// A copy of a document, member for member.
pub fn deep_copy(doc: &Json) -> (r: Json)
    ensures
        r@ == doc@,
    decreases doc,
{
    match doc {
        Json::Null => Json::Null,
        Json::Bool(b) => Json::Bool(*b),
        Json::Integer(n) => Json::Integer(*n),
        Json::Float(bits) => Json::Float(*bits),
        Json::Text(s) => Json::Text(s.clone()),
        Json::Array(items) => {
            let mut out: Vec<Json> = Vec::new();
            let mut i: usize = 0;
            while i < items.len()
                invariant
                    i <= items.len(),
                    out.len() == i,
                    forall|k: int| 0 <= k < i ==> out[k]@ == items[k]@,
                    *doc == Json::Array(*items),
                decreases items.len() - i,
            {
                proof {
                    assert(decreases_to!(*doc => doc->Array_0));
                    assert(decreases_to!(*items => items[i as int]));
                }
                let copy = deep_copy(&items[i]);
                out.push(copy);
                i += 1;
            }
            let r = Json::Array(out);
            assert(r@->Array_0 =~= doc@->Array_0);
            r
        },
        Json::Object(members) => {
            let mut out: Vec<(String, Json)> = Vec::new();
            let mut i: usize = 0;
            while i < members.len()
                invariant
                    i <= members.len(),
                    out.len() == i,
                    forall|k: int|
                        0 <= k < i ==> out[k].0@ == members[k].0@ && out[k].1@ == members[k].1@,
                    *doc == Json::Object(*members),
                decreases members.len() - i,
            {
                proof {
                    assert(decreases_to!(*doc => doc->Object_0));
                    assert(decreases_to!(*members => members[i as int]));
                    assert(decreases_to!(members[i as int] => members[i as int].1));
                }
                let key = members[i].0.clone();
                let value = deep_copy(&members[i].1);
                out.push((key, value));
                i += 1;
            }
            let r = Json::Object(out);
            assert(r@->Object_0 =~= doc@->Object_0);
            r
        },
    }
}

impl Clone for Json {
    fn clone(&self) -> (r: Json)
        ensures
            r@ == self@,
    {
        deep_copy(self)
    }
}

} // verus!
