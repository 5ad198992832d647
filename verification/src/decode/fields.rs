//! Reading single fields out of a document, and finding the rooms and
//! events of a synchronization in it.

use crate::decode::collect::lemma_empty_text;
use crate::json::{child, value_of, Json, JsonView};
use vstd::prelude::*;

verus! {

/// The events of one section (`state`, `timeline`) of a room of a
/// synchronization: none where the section holds no list of events.
pub open spec fn events_of(room: JsonView, section: Seq<char>) -> Seq<JsonView> {
    match room.get(section).get("events"@).items() {
        Some(events) => events,
        None => Seq::empty(),
    }
}

/// The string that the member `key` of an optional value holds, empty where
/// there is none.
pub fn text_under(j: Option<&Json>, key: &str) -> (r: String)
    ensures
        r@ == value_of(j).get(key@).text_or(Seq::empty()),
{
    proof {
        lemma_empty_text();
    }
    match j {
        Some(j) => j.string_at(key, ""),
        None => String::from_str(""),
    }
}

/// The integer that a value holds, 0 where it holds none.
pub open spec fn integer_or_zero(j: JsonView) -> int {
    match j.integer() {
        Some(n) => n as int,
        None => 0,
    }
}

/// The integer that the member `key` of an optional value holds, 0 where
/// there is none.
pub fn integer_under(j: Option<&Json>, key: &str) -> (r: i64)
    ensures
        r as int == integer_or_zero(value_of(j).get(key@)),
{
    match child(j, key) {
        Some(n) => match n.as_i64() {
            Some(n) => n,
            None => 0,
        },
        None => 0,
    }
}

/// The boolean that the member `key` of an optional value holds, `false`
/// where there is none.
pub fn flag_under(j: Option<&Json>, key: &str) -> (r: bool)
    ensures
        r == (value_of(j).get(key@).truth() == Some(true)),
{
    match child(j, key) {
        Some(b) => match b.as_bool() {
            Some(b) => b,
            None => false,
        },
        None => false,
    }
}

/// The rooms that the user has joined, as a synchronization lists them:
/// each under its id.
pub open spec fn joined_rooms(reply: JsonView) -> Option<Seq<(Seq<char>, JsonView)>> {
    reply.get("rooms"@).get("join"@).members()
}

/// The rooms that the user has joined, as a synchronization lists them.
pub fn joined_rooms_of(reply: &Json) -> (r: Option<&Vec<(String, Json)>>)
    ensures
        r.deep_view() == joined_rooms(reply@),
{
    match child(child(Some(reply), "rooms"), "join") {
        Some(join) => join.as_object(),
        None => None,
    }
}

/// The events of one section of a room of a synchronization.
pub fn section_events<'a>(room: &'a Json, section: &str) -> (r: Option<&'a Vec<Json>>)
    ensures
        match r {
            Some(events) => events.deep_view() == events_of(room@, section@),
            None => events_of(room@, section@) == Seq::<JsonView>::empty(),
        },
{
    match child(child(Some(room), section), "events") {
        Some(events) => match events.as_array() {
            Some(events) => Some(events),
            None => None,
        },
        None => None,
    }
}

} // verus!
