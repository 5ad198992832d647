//! The records that the engine hands to its caller.

use crate::text::{last_segment, same, tail_after};
use vstd::prelude::*;

verus! {

/// A room: one that the user has joined, or one found in the directory.
#[derive(Debug, PartialEq, Eq)]
pub struct Room {
    pub id: String,
    pub name: String,
    pub alias: String,
    pub topic: String,
    pub avatar: String,
    pub members: i64,
    pub world_readable: bool,
    pub guest_can_join: bool,
    pub notifications: i64,
}

/// The mathematical content of a [`Room`].
pub struct RoomView {
    pub id: Seq<char>,
    pub name: Seq<char>,
    pub alias: Seq<char>,
    pub topic: Seq<char>,
    pub avatar: Seq<char>,
    pub members: int,
    pub world_readable: bool,
    pub guest_can_join: bool,
    pub notifications: int,
}

impl View for Room {
    type V = RoomView;

    open spec fn view(&self) -> RoomView {
        RoomView {
            id: self.id@,
            name: self.name@,
            alias: self.alias@,
            topic: self.topic@,
            avatar: self.avatar@,
            members: self.members as int,
            world_readable: self.world_readable,
            guest_can_join: self.guest_can_join,
            notifications: self.notifications as int,
        }
    }
}

impl DeepView for Room {
    type V = RoomView;

    open spec fn deep_view(&self) -> RoomView {
        self@
    }
}

impl RoomView {
    /// A room of which only the id and the name are known.
    pub open spec fn new(id: Seq<char>, name: Seq<char>) -> RoomView {
        RoomView {
            id,
            name,
            alias: Seq::empty(),
            topic: Seq::empty(),
            avatar: Seq::empty(),
            members: 0,
            world_readable: false,
            guest_can_join: false,
            notifications: 0,
        }
    }
}

impl Clone for Room {
    fn clone(&self) -> (r: Room)
        ensures
            r@ == self@,
    {
        Room {
            id: self.id.clone(),
            name: self.name.clone(),
            alias: self.alias.clone(),
            topic: self.topic.clone(),
            avatar: self.avatar.clone(),
            members: self.members,
            world_readable: self.world_readable,
            guest_can_join: self.guest_can_join,
            notifications: self.notifications,
        }
    }
}

impl Room {
    /// A room of which only the id and the name are known.
    pub fn new(id: String, name: String) -> (r: Room)
        ensures
            r@ == RoomView::new(id@, name@),
    {
        Room {
            id,
            name,
            alias: String::new(),
            topic: String::new(),
            avatar: String::new(),
            members: 0,
            world_readable: false,
            guest_can_join: false,
            notifications: 0,
        }
    }
}

/// A message of a room's timeline.
#[derive(Debug, PartialEq, Eq)]
pub struct Message {
    pub sender: String,
    /// The kind of message: `m.text`, `m.image`, `m.file` and the like.
    pub mtype: String,
    pub body: String,
    /// When the home server received the message, in milliseconds since
    /// the epoch.
    pub date: i64,
    pub room: String,
    /// Where the thumbnail of an image is to be found.
    pub thumb: String,
    /// Where the media of an image or a file is to be found.
    pub url: String,
    /// The event id; empty for a message that the home server has not
    /// confirmed yet.
    pub id: String,
}

/// The mathematical content of a [`Message`].
pub struct MessageView {
    pub sender: Seq<char>,
    pub mtype: Seq<char>,
    pub body: Seq<char>,
    pub date: int,
    pub room: Seq<char>,
    pub thumb: Seq<char>,
    pub url: Seq<char>,
    pub id: Seq<char>,
}

impl View for Message {
    type V = MessageView;

    open spec fn view(&self) -> MessageView {
        MessageView {
            sender: self.sender@,
            mtype: self.mtype@,
            body: self.body@,
            date: self.date as int,
            room: self.room@,
            thumb: self.thumb@,
            url: self.url@,
            id: self.id@,
        }
    }
}

impl DeepView for Message {
    type V = MessageView;

    open spec fn deep_view(&self) -> MessageView {
        self@
    }
}

impl Clone for Message {
    fn clone(&self) -> (r: Message)
        ensures
            r@ == self@,
    {
        Message {
            sender: self.sender.clone(),
            mtype: self.mtype.clone(),
            body: self.body.clone(),
            date: self.date,
            room: self.room.clone(),
            thumb: self.thumb.clone(),
            url: self.url.clone(),
            id: self.id.clone(),
        }
    }
}

/// The kind of message that a file of the content type `mime` is sent as:
/// an image for the three image types that every client shows, a plain file
/// for everything else.
pub open spec fn mime_msgtype(mime: Seq<char>) -> Seq<char> {
    if mime == "image/gif"@ || mime == "image/png"@ || mime == "image/jpeg"@ {
        "m.image"@
    } else {
        "m.file"@
    }
}

/// The kind of message that a file of the content type `mime` is sent as.
/// The content type is what was found in the file itself; its name plays no
/// part.
pub fn msgtype_for(mime: &str) -> (r: &'static str)
    ensures
        r@ == mime_msgtype(mime@),
{
    if same(mime, "image/gif") || same(mime, "image/png") || same(mime, "image/jpeg") {
        "m.image"
    } else {
        "m.file"
    }
}

impl MessageView {
    /// The message that stands for the file at `path`, of the content
    /// type `mime`, once it is uploaded to `url`: it is called like the
    /// file, and the home server has not seen it yet.
    pub open spec fn attachment(
        sender: Seq<char>,
        room: Seq<char>,
        path: Seq<char>,
        mime: Seq<char>,
        url: Seq<char>,
        date: int,
    ) -> MessageView {
        MessageView {
            sender,
            mtype: mime_msgtype(mime),
            body: tail_after(path, '/'),
            date,
            room,
            thumb: Seq::empty(),
            url,
            id: Seq::empty(),
        }
    }
}

impl Message {
    /// The message to send for the file at `path`, of the content type
    /// `mime`, once it is uploaded to `url`.
    pub fn attachment(sender: String, room: String, path: &str, mime: &str, url: String, date: i64) -> (r:
        Message)
        ensures
            r@ == MessageView::attachment(sender@, room@, path@, mime@, url@, date as int),
    {
        Message {
            sender,
            mtype: String::from_str(msgtype_for(mime)),
            body: last_segment(path, '/'),
            date,
            room,
            thumb: String::new(),
            url,
            id: String::new(),
        }
    }
}

/// A participant of a room.
#[derive(Debug, PartialEq, Eq)]
pub struct Member {
    /// The display name; empty where the member has set none.
    pub alias: String,
    pub uid: String,
    pub avatar: String,
}

/// The mathematical content of a [`Member`].
pub struct MemberView {
    pub alias: Seq<char>,
    pub uid: Seq<char>,
    pub avatar: Seq<char>,
}

impl View for Member {
    type V = MemberView;

    open spec fn view(&self) -> MemberView {
        MemberView { alias: self.alias@, uid: self.uid@, avatar: self.avatar@ }
    }
}

impl DeepView for Member {
    type V = MemberView;

    open spec fn deep_view(&self) -> MemberView {
        self@
    }
}

impl MemberView {
    /// The name to show: the display name, or the user id where none is
    /// set.
    pub open spec fn shown_name(self) -> Seq<char> {
        if self.alias.len() == 0 {
            self.uid
        } else {
            self.alias
        }
    }
}

impl Clone for Member {
    fn clone(&self) -> (r: Member)
        ensures
            r@ == self@,
    {
        Member { alias: self.alias.clone(), uid: self.uid.clone(), avatar: self.avatar.clone() }
    }
}

impl Member {
    /// The name to show for this member.
    pub fn get_alias(&self) -> (r: String)
        ensures
            r@ == self@.shown_name(),
    {
        if self.alias.as_str().is_empty() {
            self.uid.clone()
        } else {
            self.alias.clone()
        }
    }
}

/// A network that the room directory can be searched for: the home server
/// itself, or one that it bridges to.
#[derive(Debug, PartialEq, Eq)]
pub struct Protocol {
    pub id: String,
    pub desc: String,
}

/// The mathematical content of a [`Protocol`].
pub struct ProtocolView {
    pub id: Seq<char>,
    pub desc: Seq<char>,
}

impl View for Protocol {
    type V = ProtocolView;

    open spec fn view(&self) -> ProtocolView {
        ProtocolView { id: self.id@, desc: self.desc@ }
    }
}

impl DeepView for Protocol {
    type V = ProtocolView;

    open spec fn deep_view(&self) -> ProtocolView {
        self@
    }
}

impl Clone for Protocol {
    fn clone(&self) -> (r: Protocol)
        ensures
            r@ == self@,
    {
        Protocol { id: self.id.clone(), desc: self.desc.clone() }
    }
}

} // verus!
