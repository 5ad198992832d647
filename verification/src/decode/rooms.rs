//! The rooms of a first synchronization.

use crate::decode::collect::{
    collect, found, gather, lemma_collect_refused, lemma_collect_step, lemma_empty_text,
    lemma_gather_step, lemma_push_view, listed,
};
use crate::decode::fields::{integer_or_zero, integer_under, joined_rooms, joined_rooms_of, text_under};
use crate::error::Error;
use crate::json::{child, Json, JsonView};
use crate::text::same;
use crate::types::{Room, RoomView};
use vstd::prelude::*;

verus! {

/// The first of `events` that is of the kind `kind`.
pub open spec fn first_of_kind(events: Seq<JsonView>, kind: Seq<char>) -> Option<JsonView>
    decreases events.len(),
{
    if events.len() == 0 {
        None
    } else if events[0].get("type"@).text() == Some(kind) {
        Some(events[0])
    } else {
        first_of_kind(events.drop_first(), kind)
    }
}

/// The text under `field` in the content of the first state event of the
/// kind `kind`; empty where there is no such event or no such text.
pub open spec fn state_text(events: Seq<JsonView>, kind: Seq<char>, field: Seq<char>) -> Seq<char> {
    match first_of_kind(events, kind) {
        Some(event) => event.get("content"@).get(field).text_or(Seq::empty()),
        None => Seq::empty(),
    }
}

/// The display name in a member event that tells of a joined member other
/// than `user`; nothing for any other event.
pub open spec fn other_member(user: Seq<char>, event: JsonView) -> Seq<Seq<char>> {
    let content = event.get("content"@);
    if event.get("type"@).text() == Some("m.room.member"@) && content.get("membership"@).text()
        == Some("join"@) && event.get("sender"@).text() != Some(user) {
        seq![content.get("displayname"@).text_or(Seq::empty())]
    } else {
        Seq::empty()
    }
}

/// The reader of the member events of a room as `user` sees them.
pub open spec fn other_member_reader(user: Seq<char>) -> spec_fn(JsonView) -> Seq<Seq<char>> {
    |event: JsonView| other_member(user, event)
}

/// The name under which `user` sees a room with the state `events`: the
/// name that the room was given; failing that its canonical alias; failing
/// that a name made of the other members who have joined.
pub open spec fn room_name(events: Seq<JsonView>, user: Seq<char>) -> Seq<char> {
    let given = state_text(events, "m.room.name"@, "name"@);
    let alias = state_text(events, "m.room.canonical_alias"@, "alias"@);
    let others = gather(events, other_member_reader(user));
    if given.len() > 0 {
        given
    } else if alias.len() > 0 {
        alias
    } else if others.len() == 0 {
        "EMPTY ROOM"@
    } else if others.len() == 1 {
        others[0]
    } else if others.len() == 2 {
        others[0] + " and "@ + others[1]
    } else {
        others[0] + " and Others"@
    }
}

/// The room that one joined room of a first synchronization stands for, as
/// `user` sees it.
pub open spec fn room_of(user: Seq<char>, room: (Seq<char>, JsonView)) -> Result<
    Seq<RoomView>,
    Error,
> {
    match room.1.get("state"@).get("events"@).items() {
        None => Err(Error::BackendError),
        Some(events) => Ok(
            seq![
                RoomView {
                    id: room.0,
                    name: room_name(events, user),
                    alias: state_text(events, "m.room.canonical_alias"@, "alias"@),
                    topic: state_text(events, "m.room.topic"@, "topic"@),
                    avatar: state_text(events, "m.room.avatar"@, "url"@),
                    members: 0,
                    world_readable: false,
                    guest_can_join: false,
                    notifications: integer_or_zero(
                        room.1.get("unread_notifications"@).get("notification_count"@),
                    ),
                },
            ],
        ),
    }
}

/// The decoder of the joined rooms of a first synchronization.
pub open spec fn room_decoder(user: Seq<char>) -> spec_fn((Seq<char>, JsonView)) -> Result<
    Seq<RoomView>,
    Error,
> {
    |room: (Seq<char>, JsonView)| room_of(user, room)
}

/// The rooms that a first synchronization lists as joined, as `user` sees
/// them.
pub open spec fn rooms_of(reply: JsonView, user: Seq<char>) -> Result<Seq<RoomView>, Error> {
    match joined_rooms(reply) {
        None => Err(Error::BackendError),
        Some(rooms) => collect(rooms, room_decoder(user)),
    }
}

/// The first of `rooms` with the id `marker`; none where `marker` is empty.
pub open spec fn default_room(rooms: Seq<RoomView>, marker: Seq<char>) -> Option<RoomView>
    decreases rooms.len(),
{
    if marker.len() == 0 || rooms.len() == 0 {
        None
    } else if rooms[0].id == marker {
        Some(rooms[0])
    } else {
        default_room(rooms.drop_first(), marker)
    }
}

/// Finds the text under `field` in the content of the first state event of
/// the kind `kind`.
pub fn find_state_text(events: &Vec<Json>, kind: &str, field: &str) -> (r: String)
    ensures
        r@ == state_text(events.deep_view(), kind@, field@),
{
    proof {
        lemma_empty_text();
    }
    let ghost all = events.deep_view();
    let n = events.len();
    let mut i: usize = 0;
    proof {
        assert(all.skip(0) == all);
    }
    while i < n
        invariant
            n == events.len(),
            i <= n,
            all == events.deep_view(),
            first_of_kind(all, kind@) == first_of_kind(all.skip(i as int), kind@),
        decreases n - i,
    {
        proof {
            assert(all.skip(i as int).drop_first() == all.skip(i as int + 1));
            assert(all.skip(i as int)[0] == events@[i as int]@);
        }
        let found = match events[i].str_at("type") {
            Some(k) => same(k, kind),
            None => false,
        };
        if found {
            return text_under(events[i].get("content"), field);
        }
        i += 1;
    }
    String::from_str("")
}

/// Reads the display names of the joined members other than `user`.
pub fn other_members(events: &Vec<Json>, user: &str) -> (r: Vec<String>)
    ensures
        r.deep_view() == gather(events.deep_view(), other_member_reader(user@)),
{
    let ghost all = events.deep_view();
    let mut out: Vec<String> = Vec::new();
    let n = events.len();
    let mut i: usize = 0;
    proof {
        assert(all.take(0) == Seq::<JsonView>::empty());
        assert(out.deep_view() == Seq::<Seq<char>>::empty());
    }
    while i < n
        invariant
            n == events.len(),
            i <= n,
            all == events.deep_view(),
            gather(all.take(i as int), other_member_reader(user@)) == out.deep_view(),
        decreases n - i,
    {
        proof {
            lemma_gather_step(all, other_member_reader(user@), i as int);
        }
        let event = &events[i];
        let content = event.get("content");
        let is_member = match event.str_at("type") {
            Some(k) => same(k, "m.room.member"),
            None => false,
        };
        let has_joined = match child(content, "membership") {
            Some(m) => match m.as_str() {
                Some(m) => same(m, "join"),
                None => false,
            },
            None => false,
        };
        let is_other = match event.str_at("sender") {
            Some(s) => !same(s, user),
            None => true,
        };
        if is_member && has_joined && is_other {
            let name = text_under(content, "displayname");
            let ghost before = out;
            out.push(name);
            proof {
                lemma_push_view(before, out, name);
            }
        } else {
            proof {
                assert(out.deep_view() + Seq::<Seq<char>>::empty() == out.deep_view());
            }
        }
        i += 1;
    }
    proof {
        assert(all.take(n as int) == all);
    }
    out
}

/// Works out the name under which `user` sees a room with the state
/// `events`.
pub fn calculate_room_name(events: &Vec<Json>, user: &str) -> (r: String)
    ensures
        r@ == room_name(events.deep_view(), user@),
{
    let given = find_state_text(events, "m.room.name", "name");
    if !given.as_str().is_empty() {
        return given;
    }
    let alias = find_state_text(events, "m.room.canonical_alias", "alias");
    if !alias.as_str().is_empty() {
        return alias;
    }
    let others = other_members(events, user);
    proof {
        assert(others.deep_view().len() == others.len());
    }
    if others.len() == 0 {
        String::from_str("EMPTY ROOM")
    } else if others.len() == 1 {
        proof {
            assert(others.deep_view()[0] == others@[0]@);
        }
        others[0].clone()
    } else if others.len() == 2 {
        proof {
            assert(others.deep_view()[0] == others@[0]@);
            assert(others.deep_view()[1] == others@[1]@);
        }
        others[0].clone().concat(" and ").concat(others[1].as_str())
    } else {
        proof {
            assert(others.deep_view()[0] == others@[0]@);
        }
        others[0].clone().concat(" and Others")
    }
}

/// Decodes one joined room of a first synchronization.
pub fn decode_room(user: &str, id: &str, room: &Json) -> (r: Result<Option<Room>, Error>)
    ensures
        found(r) == room_of(user@, (id@, room@)),
{
    let events = match child(child(Some(room), "state"), "events") {
        Some(events) => match events.as_array() {
            Some(events) => events,
            None => return Err(Error::BackendError),
        },
        None => return Err(Error::BackendError),
    };
    Ok(
        Some(
            Room {
                id: String::from_str(id),
                name: calculate_room_name(events, user),
                alias: find_state_text(events, "m.room.canonical_alias", "alias"),
                topic: find_state_text(events, "m.room.topic", "topic"),
                avatar: find_state_text(events, "m.room.avatar", "url"),
                members: 0,
                world_readable: false,
                guest_can_join: false,
                notifications: integer_under(
                    child(Some(room), "unread_notifications"),
                    "notification_count",
                ),
            },
        ),
    )
}

/// Decodes the rooms that a first synchronization lists as joined.
pub fn decode_rooms(reply: &Json, user: &str) -> (r: Result<Vec<Room>, Error>)
    ensures
        listed(r) == rooms_of(reply@, user@),
{
    let rooms = match joined_rooms_of(reply) {
        Some(rooms) => rooms,
        None => return Err(Error::BackendError),
    };
    let ghost all = rooms.deep_view();
    let mut out: Vec<Room> = Vec::new();
    let n = rooms.len();
    let mut i: usize = 0;
    proof {
        assert(all.take(0) == Seq::<(Seq<char>, JsonView)>::empty());
        assert(out.deep_view() == Seq::<RoomView>::empty());
    }
    while i < n
        invariant
            n == rooms.len(),
            i <= n,
            all == rooms.deep_view(),
            joined_rooms(reply@) == Some(all),
            collect(all.take(i as int), room_decoder(user@)) == Ok::<Seq<RoomView>, Error>(
                out.deep_view(),
            ),
        decreases n - i,
    {
        proof {
            lemma_collect_step(all, room_decoder(user@), i as int);
            assert(all[i as int] == (rooms@[i as int].0@, rooms@[i as int].1@));
        }
        match decode_room(user, rooms[i].0.as_str(), &rooms[i].1) {
            Err(e) => {
                proof {
                    lemma_collect_refused(all, room_decoder(user@), i as int + 1);
                }
                return Err(e);
            },
            Ok(None) => {
                proof {
                    assert(out.deep_view() + Seq::<RoomView>::empty() == out.deep_view());
                }
            },
            Ok(Some(room)) => {
                let ghost before = out;
                out.push(room);
                proof {
                    lemma_push_view(before, out, room);
                }
            },
        }
        i += 1;
    }
    proof {
        assert(all.take(n as int) == all);
    }
    Ok(out)
}

/// Picks the room to open after a first synchronization: the first of
/// `rooms` with the id `marker`.
pub fn pick_default(rooms: &Vec<Room>, marker: &str) -> (r: Option<Room>)
    ensures
        r.deep_view() == default_room(rooms.deep_view(), marker@),
{
    if marker.is_empty() {
        return None;
    }
    let ghost all = rooms.deep_view();
    let n = rooms.len();
    let mut i: usize = 0;
    proof {
        assert(all.skip(0) == all);
    }
    while i < n
        invariant
            n == rooms.len(),
            i <= n,
            marker@.len() > 0,
            all == rooms.deep_view(),
            default_room(all, marker@) == default_room(all.skip(i as int), marker@),
        decreases n - i,
    {
        proof {
            assert(all.skip(i as int).drop_first() == all.skip(i as int + 1));
            assert(all.skip(i as int)[0] == rooms@[i as int]@);
        }
        if same(rooms[i].id.as_str(), marker) {
            return Some(rooms[i].clone());
        }
        i += 1;
    }
    None
}

} // verus!
