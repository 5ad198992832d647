//! A plain model of JSON documents: what the home server answers and what is
//! sent to it.

use crate::text::same;
use vstd::prelude::*;

verus! {

/// A JSON value as the engine reads and builds it.
#[derive(Debug, PartialEq, Eq)]
pub enum Json {
    Null,
    Bool(bool),
    /// A number; `None` where it is no integer that fits in 64 bits.
    Number(Option<i64>),
    Text(String),
    List(Vec<Json>),
    /// An object, as the list of its members in order.
    Dict(Vec<(String, Json)>),
}

/// The mathematical content of a [`Json`] value.
pub enum JsonView {
    Null,
    Bool(bool),
    Number(Option<i64>),
    Text(Seq<char>),
    List(Seq<JsonView>),
    Dict(Seq<(Seq<char>, JsonView)>),
}

/// What a [`Json`] value holds.
pub open spec fn content(j: Json) -> JsonView
    decreases j,
{
    match j {
        Json::Null => JsonView::Null,
        Json::Bool(b) => JsonView::Bool(b),
        Json::Number(n) => JsonView::Number(n),
        Json::Text(s) => JsonView::Text(s@),
        Json::List(items) => JsonView::List(
            Seq::new(
                items@.len(),
                |i: int|
                    if 0 <= i < items@.len() {
                        content(items@[i])
                    } else {
                        JsonView::Null
                    },
            ),
        ),
        Json::Dict(members) => JsonView::Dict(
            Seq::new(
                members@.len(),
                |i: int|
                    if 0 <= i < members@.len() {
                        (members@[i].0@, content(members@[i].1))
                    } else {
                        (Seq::empty(), JsonView::Null)
                    },
            ),
        ),
    }
}

impl View for Json {
    type V = JsonView;

    open spec fn view(&self) -> JsonView {
        content(*self)
    }
}

impl DeepView for Json {
    type V = JsonView;

    open spec fn deep_view(&self) -> JsonView {
        self@
    }
}

/// The value of the first member called `key` in a list of members.
pub open spec fn lookup(members: Seq<(Seq<char>, JsonView)>, key: Seq<char>) -> Option<JsonView>
    decreases members.len(),
{
    if members.len() == 0 {
        None
    } else if members[0].0 == key {
        Some(members[0].1)
    } else {
        lookup(members.drop_first(), key)
    }
}

/// What an optional value stands for: an absent one reads as `null`.
pub open spec fn value_of(j: Option<&Json>) -> JsonView {
    match j {
        Some(j) => j@,
        None => JsonView::Null,
    }
}

/// The text that an optional string slice holds.
pub open spec fn text_of(s: Option<&str>) -> Option<Seq<char>> {
    match s {
        Some(s) => Some(s@),
        None => None,
    }
}

impl JsonView {
    /// The member called `key` of an object; `null` where `self` is no
    /// object or has no such member.
    pub open spec fn get(self, key: Seq<char>) -> JsonView {
        match self {
            JsonView::Dict(members) => match lookup(members, key) {
                Some(j) => j,
                None => JsonView::Null,
            },
            _ => JsonView::Null,
        }
    }

    /// The characters of a string value.
    pub open spec fn text(self) -> Option<Seq<char>> {
        match self {
            JsonView::Text(s) => Some(s),
            _ => None,
        }
    }

    /// The characters of a string value, `default` for any other value.
    pub open spec fn text_or(self, default: Seq<char>) -> Seq<char> {
        match self {
            JsonView::Text(s) => s,
            _ => default,
        }
    }

    /// The elements of an array.
    pub open spec fn items(self) -> Option<Seq<JsonView>> {
        match self {
            JsonView::List(items) => Some(items),
            _ => None,
        }
    }

    /// The members of an object, in order.
    pub open spec fn members(self) -> Option<Seq<(Seq<char>, JsonView)>> {
        match self {
            JsonView::Dict(members) => Some(members),
            _ => None,
        }
    }

    /// The value of a number that is an integer of 64 bits.
    pub open spec fn integer(self) -> Option<i64> {
        match self {
            JsonView::Number(n) => n,
            _ => None,
        }
    }

    /// The value of a boolean.
    pub open spec fn truth(self) -> Option<bool> {
        match self {
            JsonView::Bool(b) => Some(b),
            _ => None,
        }
    }
}

/// The view of an array is the array of its elements' views.
pub proof fn lemma_list_view(items: Vec<Json>)
    ensures
        Json::List(items)@ == JsonView::List(items.deep_view()),
{
    assert(Json::List(items)@->List_0 =~= items.deep_view());
}

/// The view of an object is the list of its members' views.
pub proof fn lemma_dict_view(members: Vec<(String, Json)>)
    ensures
        Json::Dict(members)@ == JsonView::Dict(members.deep_view()),
{
    assert(Json::Dict(members)@->Dict_0 =~= members.deep_view());
}

impl Json {
    /// A string value.
    pub fn text(s: &str) -> (r: Json)
        ensures
            r@ == JsonView::Text(s@),
    {
        Json::Text(String::from_str(s))
    }

    /// An object with the given members.
    pub fn object(members: Vec<(String, Json)>) -> (r: Json)
        ensures
            r@ == JsonView::Dict(members.deep_view()),
    {
        proof {
            lemma_dict_view(members);
        }
        Json::Dict(members)
    }

    /// The member called `key`, where `self` is an object that has one.
    pub fn get(&self, key: &str) -> (r: Option<&Json>)
        ensures
            value_of(r) == self@.get(key@),
            r is Some <==> (self@ is Dict && lookup(self@->Dict_0, key@) is Some),
    {
        match self {
            Json::Dict(members) => {
                proof {
                    lemma_dict_view(*members);
                }
                let ghost all = members.deep_view();
                let mut i: usize = 0;
                proof {
                    assert(all.skip(0) == all);
                }
                while i < members.len()
                    invariant
                        i <= members.len(),
                        all == members.deep_view(),
                        self@ == JsonView::Dict(all),
                        lookup(all, key@) == lookup(all.skip(i as int), key@),
                    decreases members.len() - i,
                {
                    proof {
                        assert(all.skip(i as int).drop_first() == all.skip(i as int + 1));
                        assert(all.skip(i as int)[0] == all[i as int]);
                        assert(all[i as int] == (members@[i as int].0@, members@[i as int].1@));
                    }
                    if same(members[i].0.as_str(), key) {
                        return Some(&members[i].1);
                    }
                    i += 1;
                }
                None
            },
            _ => None,
        }
    }

    /// The characters of a string value.
    pub fn as_str(&self) -> (r: Option<&str>)
        ensures
            text_of(r) == self@.text(),
    {
        match self {
            Json::Text(s) => Some(s.as_str()),
            _ => None,
        }
    }

    /// The elements of an array.
    pub fn as_array(&self) -> (r: Option<&Vec<Json>>)
        ensures
            r.deep_view() == self@.items(),
    {
        match self {
            Json::List(items) => {
                proof {
                    lemma_list_view(*items);
                }
                Some(items)
            },
            _ => None,
        }
    }

    /// The members of an object, in order.
    pub fn as_object(&self) -> (r: Option<&Vec<(String, Json)>>)
        ensures
            r.deep_view() == self@.members(),
    {
        match self {
            Json::Dict(members) => {
                proof {
                    lemma_dict_view(*members);
                }
                Some(members)
            },
            _ => None,
        }
    }

    /// The value of a number that is an integer of 64 bits.
    pub fn as_i64(&self) -> (r: Option<i64>)
        ensures
            r == self@.integer(),
    {
        match self {
            Json::Number(n) => *n,
            _ => None,
        }
    }

    /// The value of a boolean.
    pub fn as_bool(&self) -> (r: Option<bool>)
        ensures
            r == self@.truth(),
    {
        match self {
            Json::Bool(b) => Some(*b),
            _ => None,
        }
    }

    /// The string that the member called `key` holds.
    pub fn str_at(&self, key: &str) -> (r: Option<&str>)
        ensures
            text_of(r) == self@.get(key@).text(),
    {
        match self.get(key) {
            Some(j) => j.as_str(),
            None => None,
        }
    }

    /// The string that the member called `key` holds, `default` where there
    /// is no such string.
    pub fn string_at(&self, key: &str, default: &str) -> (r: String)
        ensures
            r@ == self@.get(key@).text_or(default@),
    {
        match self.str_at(key) {
            Some(s) => String::from_str(s),
            None => String::from_str(default),
        }
    }
}

/// Appends the member `key` with the value `value` to a list of members.
pub fn put(members: &mut Vec<(String, Json)>, key: &str, value: Json)
    ensures
        final(members).deep_view() == old(members).deep_view().push((key@, value@)),
{
    members.push((String::from_str(key), value));
    assert(members.deep_view() =~= old(members).deep_view().push((key@, value@)));
}

/// An object with the one member `key`, a string.
pub fn single(key: &str, value: &str) -> (r: Json)
    ensures
        r@ == JsonView::Dict(seq![(key@, JsonView::Text(value@))]),
{
    let mut members: Vec<(String, Json)> = Vec::new();
    assert(members.deep_view() =~= Seq::empty());
    put(&mut members, key, Json::text(value));
    Json::object(members)
}

/// The member called `key` of an optional value.
pub fn child<'a>(j: Option<&'a Json>, key: &str) -> (r: Option<&'a Json>)
    ensures
        value_of(r) == value_of(j).get(key@),
{
    match j {
        Some(j) => j.get(key),
        None => None,
    }
}

} // verus!
