//! What a synchronization tells of rooms that have changed.

use crate::decode::collect::{gather, lemma_gather_step, lemma_push_view, listed};
use crate::decode::fields::{events_of, joined_rooms, joined_rooms_of, section_events, text_under};
use crate::error::Error;
use crate::json::{Json, JsonView};
use crate::protocol::{BKResponse, BKResponseView};
use crate::text::same;
use vstd::prelude::*;

verus! {

/// What an event of the room `room` changes in what the caller shows of the
/// room: its name, its topic, or its avatar; nothing for any other event.
pub open spec fn change_of(room: Seq<char>, event: JsonView) -> Seq<BKResponseView> {
    let content = event.get("content"@);
    match event.get("type"@).text() {
        None => Seq::empty(),
        Some(kind) => if kind == "m.room.name"@ {
            seq![BKResponseView::RoomName(room, content.get("name"@).text_or(Seq::empty()))]
        } else if kind == "m.room.topic"@ {
            seq![BKResponseView::RoomTopic(room, content.get("topic"@).text_or(Seq::empty()))]
        } else if kind == "m.room.avatar"@ {
            seq![BKResponseView::NewRoomAvatar(room)]
        } else {
            Seq::empty()
        },
    }
}

/// The reader of the events of the room `room`.
pub open spec fn change_reader(room: Seq<char>) -> spec_fn(JsonView) -> Seq<BKResponseView> {
    |event: JsonView| change_of(room, event)
}

/// What one room of a synchronization changes: first by the events of its
/// state, then by those of its timeline.
pub open spec fn room_changes(room: (Seq<char>, JsonView)) -> Seq<BKResponseView> {
    gather(events_of(room.1, "state"@), change_reader(room.0)) + gather(
        events_of(room.1, "timeline"@),
        change_reader(room.0),
    )
}

/// The reader of the changes of one room.
pub open spec fn room_change_reader() -> spec_fn((Seq<char>, JsonView)) -> Seq<BKResponseView> {
    |room: (Seq<char>, JsonView)| room_changes(room)
}

/// The changes of names, topics and avatars that a synchronization tells
/// of, room by room.
pub open spec fn changes_of(reply: JsonView) -> Result<Seq<BKResponseView>, Error> {
    match joined_rooms(reply) {
        None => Err(Error::BackendError),
        Some(rooms) => Ok(gather(rooms, room_change_reader())),
    }
}

/// Decodes one event of the room `room`.
pub fn decode_change(room: &str, event: &Json) -> (r: Option<BKResponse>)
    ensures
        change_of(room@, event@) == match r {
            Some(c) => seq![c@],
            None => Seq::empty(),
        },
{
    let kind = match event.str_at("type") {
        Some(kind) => kind,
        None => return None,
    };
    let content = event.get("content");
    if same(kind, "m.room.name") {
        Some(BKResponse::RoomName(String::from_str(room), text_under(content, "name")))
    } else if same(kind, "m.room.topic") {
        Some(BKResponse::RoomTopic(String::from_str(room), text_under(content, "topic")))
    } else if same(kind, "m.room.avatar") {
        Some(BKResponse::NewRoomAvatar(String::from_str(room)))
    } else {
        None
    }
}

/// Decodes the changes among `events` and appends them to `out`.
fn decode_changes_into(room: &str, events: &Vec<Json>, out: &mut Vec<BKResponse>)
    ensures
        final(out).deep_view() == old(out).deep_view() + gather(
            events.deep_view(),
            change_reader(room@),
        ),
{
    let ghost all = events.deep_view();
    let ghost start = out.deep_view();
    let ghost mut got: Seq<BKResponseView> = Seq::empty();
    let n = events.len();
    let mut i: usize = 0;
    proof {
        assert(all.take(0) == Seq::<JsonView>::empty());
        assert(start + got == start);
    }
    while i < n
        invariant
            n == events.len(),
            i <= n,
            all == events.deep_view(),
            gather(all.take(i as int), change_reader(room@)) == got,
            out.deep_view() == start + got,
        decreases n - i,
    {
        proof {
            lemma_gather_step(all, change_reader(room@), i as int);
        }
        match decode_change(room, &events[i]) {
            None => {
                proof {
                    assert(got + Seq::<BKResponseView>::empty() == got);
                }
            },
            Some(c) => {
                let ghost before = *out;
                out.push(c);
                proof {
                    lemma_push_view(before, *out, c);
                    got = got + seq![c@];
                    assert(out.deep_view() == start + got);
                }
            },
        }
        i += 1;
    }
    proof {
        assert(all.take(n as int) == all);
    }
}

/// Decodes the changes of one section of a room and appends them to `out`.
fn decode_section_changes(name: &str, room: &Json, section: &str, out: &mut Vec<BKResponse>)
    ensures
        final(out).deep_view() == old(out).deep_view() + gather(
            events_of(room@, section@),
            change_reader(name@),
        ),
{
    let ghost before = out.deep_view();
    match section_events(room, section) {
        Some(events) => {
            decode_changes_into(name, events, out);
        },
        None => {
            proof {
                assert(before + Seq::<BKResponseView>::empty() == before);
            }
        },
    }
}

/// Decodes the changes of names, topics and avatars that a synchronization
/// tells of.
pub fn decode_changes(reply: &Json) -> (r: Result<Vec<BKResponse>, Error>)
    ensures
        listed(r) == changes_of(reply@),
{
    let rooms = match joined_rooms_of(reply) {
        Some(rooms) => rooms,
        None => return Err(Error::BackendError),
    };
    let ghost all = rooms.deep_view();
    let mut out: Vec<BKResponse> = Vec::new();
    let n = rooms.len();
    let mut i: usize = 0;
    proof {
        assert(all.take(0) == Seq::<(Seq<char>, JsonView)>::empty());
        assert(out.deep_view() == Seq::<BKResponseView>::empty());
    }
    while i < n
        invariant
            n == rooms.len(),
            i <= n,
            all == rooms.deep_view(),
            gather(all.take(i as int), room_change_reader()) == out.deep_view(),
        decreases n - i,
    {
        proof {
            lemma_gather_step(all, room_change_reader(), i as int);
            assert(all[i as int] == (rooms@[i as int].0@, rooms@[i as int].1@));
        }
        let ghost before = out.deep_view();
        decode_section_changes(rooms[i].0.as_str(), &rooms[i].1, "state", &mut out);
        decode_section_changes(rooms[i].0.as_str(), &rooms[i].1, "timeline", &mut out);
        proof {
            let a = gather(events_of(all[i as int].1, "state"@), change_reader(all[i as int].0));
            let b = gather(events_of(all[i as int].1, "timeline"@), change_reader(all[i as int].0));
            assert((before + a) + b == before + (a + b));
        }
        i += 1;
    }
    proof {
        assert(all.take(n as int) == all);
    }
    Ok(out)
}

} // verus!
