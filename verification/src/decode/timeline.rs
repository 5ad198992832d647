//! The messages of rooms: those that a synchronization brings, and the
//! pages of a room's history.

use crate::decode::collect::{gather, lemma_gather_step, lemma_push_view, listed};
use crate::decode::fields::{
    events_of, integer_or_zero, integer_under, joined_rooms, joined_rooms_of, section_events,
    text_under,
};
use crate::error::Error;
use crate::json::{child, Json, JsonView};
use crate::text::same;
use crate::types::{Message, MessageView};
use vstd::prelude::*;

verus! {

/// The message that a timeline event of the room `room` stands for: none
/// where the event is no message.
pub open spec fn message_of(room: Seq<char>, event: JsonView) -> Seq<MessageView> {
    let content = event.get("content"@);
    if event.get("type"@).text() == Some("m.room.message"@) {
        seq![
            MessageView {
                sender: event.get("sender"@).text_or(Seq::empty()),
                mtype: content.get("msgtype"@).text_or(Seq::empty()),
                body: content.get("body"@).text_or(Seq::empty()),
                date: integer_or_zero(event.get("origin_server_ts"@)),
                room,
                thumb: content.get("info"@).get("thumbnail_url"@).text_or(Seq::empty()),
                url: content.get("url"@).text_or(Seq::empty()),
                id: event.get("event_id"@).text_or(Seq::empty()),
            },
        ]
    } else {
        Seq::empty()
    }
}

/// The reader of the timeline events of the room `room`.
pub open spec fn message_reader(room: Seq<char>) -> spec_fn(JsonView) -> Seq<MessageView> {
    |event: JsonView| message_of(room, event)
}

/// Decodes one timeline event of the room `room`.
pub fn decode_message(room: &str, event: &Json) -> (r: Option<Message>)
    ensures
        message_of(room@, event@) == match r {
            Some(m) => seq![m@],
            None => Seq::empty(),
        },
{
    let is_message = match event.str_at("type") {
        Some(kind) => same(kind, "m.room.message"),
        None => false,
    };
    if !is_message {
        return None;
    }
    let e = Some(event);
    let content = event.get("content");
    Some(
        Message {
            sender: text_under(e, "sender"),
            mtype: text_under(content, "msgtype"),
            body: text_under(content, "body"),
            date: integer_under(e, "origin_server_ts"),
            room: String::from_str(room),
            thumb: text_under(child(content, "info"), "thumbnail_url"),
            url: text_under(content, "url"),
            id: text_under(e, "event_id"),
        },
    )
}

/// The events in the order in which they are read: as they stand, or the
/// last one first.
pub open spec fn ordered(events: Seq<JsonView>, backwards: bool) -> Seq<JsonView> {
    if backwards {
        events.reverse()
    } else {
        events
    }
}

/// Decodes the messages among `events`, read in order or the last one
/// first, and appends them to `out`.
pub fn decode_messages(room: &str, events: &Vec<Json>, backwards: bool, out: &mut Vec<Message>)
    ensures
        final(out).deep_view() == old(out).deep_view() + gather(
            ordered(events.deep_view(), backwards),
            message_reader(room@),
        ),
{
    let ghost all = ordered(events.deep_view(), backwards);
    let ghost start = out.deep_view();
    let ghost mut got: Seq<MessageView> = Seq::empty();
    let n = events.len();
    let mut i: usize = 0;
    proof {
        assert(all.take(0) == Seq::<JsonView>::empty());
        assert(start + got == start);
    }
    while i < n
        invariant
            n == events.len(),
            i <= n,
            all == ordered(events.deep_view(), backwards),
            all.len() == n,
            gather(all.take(i as int), message_reader(room@)) == got,
            out.deep_view() == start + got,
        decreases n - i,
    {
        let event = if backwards {
            &events[n - 1 - i]
        } else {
            &events[i]
        };
        proof {
            assert(all[i as int] == event@);
            lemma_gather_step(all, message_reader(room@), i as int);
        }
        match decode_message(room, event) {
            None => {
                proof {
                    assert(got + Seq::<MessageView>::empty() == got);
                }
            },
            Some(m) => {
                let ghost before = *out;
                out.push(m);
                proof {
                    lemma_push_view(before, *out, m);
                    got = got + seq![m@];
                    assert(out.deep_view() == start + got);
                }
            },
        }
        i += 1;
    }
    proof {
        assert(all.take(n as int) == all);
    }
}

/// A page of a room's older messages: the messages, and the tokens at the
/// two edges of the page.
#[derive(Debug, PartialEq, Eq)]
pub struct Page {
    pub messages: Vec<Message>,
    /// The token at the older edge: a fetch of still older messages
    /// continues from it.
    pub start: String,
    /// The token at the newer edge.
    pub end: String,
}

/// The mathematical content of a [`Page`].
pub struct PageView {
    pub messages: Seq<MessageView>,
    pub start: Seq<char>,
    pub end: Seq<char>,
}

impl View for Page {
    type V = PageView;

    open spec fn view(&self) -> PageView {
        PageView { messages: self.messages.deep_view(), start: self.start@, end: self.end@ }
    }
}

/// The page that the answer to a fetch of the messages of `room` holds.
///
/// The home server walks back in time: its chunk begins with the newest
/// message, and what it calls the end of the chunk is the older edge. The
/// page has its messages oldest first, and its start at the older edge.
pub open spec fn page_of(reply: JsonView, room: Seq<char>) -> Result<PageView, Error> {
    match reply.get("chunk"@).items() {
        None => Err(Error::BackendError),
        Some(events) => Ok(
            PageView {
                messages: gather(events.reverse(), message_reader(room)),
                start: reply.get("end"@).text_or(Seq::empty()),
                end: reply.get("start"@).text_or(Seq::empty()),
            },
        ),
    }
}

/// The content of a decoded page.
pub open spec fn paged(r: Result<Page, Error>) -> Result<PageView, Error> {
    match r {
        Ok(p) => Ok(p@),
        Err(e) => Err(e),
    }
}

/// Decodes the answer to a fetch of the messages of `room`.
pub fn decode_page(reply: &Json, room: &str) -> (r: Result<Page, Error>)
    ensures
        paged(r) == page_of(reply@, room@),
{
    let events = match child(Some(reply), "chunk") {
        Some(c) => match c.as_array() {
            Some(events) => events,
            None => return Err(Error::BackendError),
        },
        None => return Err(Error::BackendError),
    };
    let mut messages: Vec<Message> = Vec::new();
    proof {
        assert(messages.deep_view() == Seq::<MessageView>::empty());
    }
    decode_messages(room, events, true, &mut messages);
    proof {
        let got = gather(events.deep_view().reverse(), message_reader(room@));
        assert(Seq::<MessageView>::empty() + got == got);
    }
    Ok(Page { messages, start: text_under(Some(reply), "end"), end: text_under(Some(reply), "start") })
}

/// The messages in the timeline of one room of a synchronization.
pub open spec fn room_timeline(room: (Seq<char>, JsonView)) -> Seq<MessageView> {
    gather(events_of(room.1, "timeline"@), message_reader(room.0))
}

/// The reader of the timeline of one room.
pub open spec fn timeline_reader() -> spec_fn((Seq<char>, JsonView)) -> Seq<MessageView> {
    |room: (Seq<char>, JsonView)| room_timeline(room)
}

/// The messages that a synchronization brought: those of each joined room
/// in turn, in the order of its timeline.
pub open spec fn timeline_of(reply: JsonView) -> Result<Seq<MessageView>, Error> {
    match joined_rooms(reply) {
        None => Err(Error::BackendError),
        Some(rooms) => Ok(gather(rooms, timeline_reader())),
    }
}

/// Decodes the messages that a synchronization brought.
pub fn decode_timeline(reply: &Json) -> (r: Result<Vec<Message>, Error>)
    ensures
        listed(r) == timeline_of(reply@),
{
    let rooms = match joined_rooms_of(reply) {
        Some(rooms) => rooms,
        None => return Err(Error::BackendError),
    };
    let ghost all = rooms.deep_view();
    let mut out: Vec<Message> = Vec::new();
    let n = rooms.len();
    let mut i: usize = 0;
    proof {
        assert(all.take(0) == Seq::<(Seq<char>, JsonView)>::empty());
        assert(out.deep_view() == Seq::<MessageView>::empty());
    }
    while i < n
        invariant
            n == rooms.len(),
            i <= n,
            all == rooms.deep_view(),
            gather(all.take(i as int), timeline_reader()) == out.deep_view(),
        decreases n - i,
    {
        proof {
            lemma_gather_step(all, timeline_reader(), i as int);
            assert(all[i as int] == (rooms@[i as int].0@, rooms@[i as int].1@));
        }
        let ghost before = out.deep_view();
        match section_events(&rooms[i].1, "timeline") {
            Some(events) => {
                decode_messages(rooms[i].0.as_str(), events, false, &mut out);
            },
            None => {
                proof {
                    assert(before + Seq::<MessageView>::empty() == before);
                }
            },
        }
        i += 1;
    }
    proof {
        assert(all.take(n as int) == all);
    }
    Ok(out)
}

} // verus!
