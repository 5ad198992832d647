//! What the caller of the engine decides on its own: how it keeps its
//! picture of rooms and messages in step with what the engine tells it.

use crate::error::Error;
use crate::protocol::BKCommand;
use crate::text::{decimal, decimal_text, same};
use crate::types::{Message, MessageView, Room};
use vstd::prelude::*;

verus! {

/// Where a message goes in the list of a room's messages.
#[derive(Debug, Clone, Copy, PartialEq, Eq, Structural)]
pub enum MsgPos {
    Top,
    Bottom,
}

/// What the room view shows.
#[derive(Debug, Clone, Copy, PartialEq, Eq, Structural)]
pub enum RoomPanel {
    Room,
    NoRoom,
    Loading,
}

impl RoomPanel {
    /// The name of the page that shows this panel.
    pub open spec fn page(self) -> Seq<char> {
        match self {
            RoomPanel::Loading => "loading"@,
            RoomPanel::Room => "room_view"@,
            RoomPanel::NoRoom => "noroom"@,
        }
    }

    /// The name of the page that shows this panel.
    pub fn page_name(&self) -> (r: &'static str)
        ensures
            r@ == self.page(),
    {
        match self {
            RoomPanel::Loading => "loading",
            RoomPanel::Room => "room_view",
            RoomPanel::NoRoom => "noroom",
        }
    }
}

/// Where the messages of a page go: a page of older messages above what is
/// shown, anything else below.
pub fn place_of(older: bool) -> (r: MsgPos)
    ensures
        r == (if older {
            MsgPos::Top
        } else {
            MsgPos::Bottom
        }),
{
    if older {
        MsgPos::Top
    } else {
        MsgPos::Bottom
    }
}

/// The home server to turn to: the one that was named, or the default.
pub fn server_or_default(server: Option<String>) -> (r: String)
    ensures
        r@ == match server {
            Some(s) => s@,
            None => "https://matrix.org"@,
        },
{
    match server {
        Some(s) => s,
        None => String::from_str("https://matrix.org"),
    }
}

/// The value of the first attribute called `key`.
pub open spec fn attribute(attrs: Seq<(Seq<char>, Seq<char>)>, key: Seq<char>) -> Option<Seq<char>>
    decreases attrs.len(),
{
    if attrs.len() == 0 {
        None
    } else if attrs[0].0 == key {
        Some(attrs[0].1)
    } else {
        attribute(attrs.drop_first(), key)
    }
}

/// Finds the value of the first attribute called `key`.
pub fn find_attribute(attrs: &Vec<(String, String)>, key: &str) -> (r: Option<String>)
    ensures
        r.deep_view() == attribute(attrs.deep_view(), key@),
{
    let ghost all = attrs.deep_view();
    let mut i: usize = 0;
    proof {
        assert(all.skip(0) =~= all);
    }
    while i < attrs.len()
        invariant
            i <= attrs.len(),
            all == attrs.deep_view(),
            attribute(all, key@) == attribute(all.skip(i as int), key@),
        decreases attrs.len() - i,
    {
        proof {
            assert(all.skip(i as int).drop_first() =~= all.skip(i as int + 1));
            assert(all.skip(i as int)[0] == (attrs@[i as int].0@, attrs@[i as int].1@));
        }
        if same(attrs[i].0.as_str(), key) {
            return Some(attrs[i].1.clone());
        }
        i += 1;
    }
    None
}

/// The login that an entry of the credential store holds: the user and the
/// home server from its attributes, and the password that is its secret.
pub open spec fn stored_login(attrs: Seq<(Seq<char>, Seq<char>)>, password: Seq<char>) -> Result<
    (Seq<char>, Seq<char>, Seq<char>),
    Error,
> {
    match (attribute(attrs, "username"@), attribute(attrs, "server"@)) {
        (Some(user), Some(server)) => Ok((user, password, server)),
        _ => Err(Error::SecretServiceError),
    }
}

/// Reads user, password and home server out of an entry of the credential
/// store. An entry that names no user or no home server is of no use.
pub fn read_login(attrs: &Vec<(String, String)>, password: String) -> (r: Result<
    (String, String, String),
    Error,
>)
    ensures
        match r {
            Ok(login) => stored_login(attrs.deep_view(), password@) == Ok::<
                (Seq<char>, Seq<char>, Seq<char>),
                Error,
            >((login.0@, login.1@, login.2@)),
            Err(e) => stored_login(attrs.deep_view(), password@) == Err::<
                (Seq<char>, Seq<char>, Seq<char>),
                Error,
            >(e),
        },
{
    let user = match find_attribute(attrs, "username") {
        Some(u) => u,
        None => return Err(Error::SecretServiceError),
    };
    let server = match find_attribute(attrs, "server") {
        Some(s) => s,
        None => return Err(Error::SecretServiceError),
    };
    Ok((user, password, server))
}

/// Whether a message that the home server confirmed is the one that was
/// shown provisionally: both are from the same sender, of the same kind, in
/// the same room and say the same.
pub open spec fn confirms(confirmed: MessageView, provisional: MessageView) -> bool {
    &&& provisional.sender == confirmed.sender
    &&& provisional.mtype == confirmed.mtype
    &&& provisional.room == confirmed.room
    &&& provisional.body == confirmed.body
}

/// Whether `confirmed` is the message shown provisionally as `provisional`.
pub fn is_confirmed_by(provisional: &Message, confirmed: &Message) -> (r: bool)
    ensures
        r == confirms(confirmed@, provisional@),
{
    same(provisional.sender.as_str(), confirmed.sender.as_str()) && same(
        provisional.mtype.as_str(),
        confirmed.mtype.as_str(),
    ) && same(provisional.room.as_str(), confirmed.room.as_str()) && same(
        provisional.body.as_str(),
        confirmed.body.as_str(),
    )
}

/// The provisional messages that `confirmed` does not confirm, in order.
pub open spec fn unconfirmed(provisional: Seq<MessageView>, confirmed: MessageView) -> Seq<
    MessageView,
> {
    provisional.filter(|m: MessageView| !confirms(confirmed, m))
}

/// Takes out of the provisional messages every one that `confirmed`
/// confirms, and says at which places they stood.
pub fn remove_confirmed(provisional: &mut Vec<Message>, confirmed: &Message) -> (removed: Vec<usize>)
    ensures
        final(provisional).deep_view() == unconfirmed(old(provisional).deep_view(), confirmed@),
        removed@.len() + final(provisional)@.len() == old(provisional)@.len(),
        forall|k: int|
            0 <= k < removed@.len() ==> 0 <= #[trigger] removed@[k] < old(provisional)@.len()
                && confirms(confirmed@, old(provisional)@[removed@[k] as int]@),
        forall|j: int, k: int| 0 <= j < k < removed@.len() ==> removed@[j] < removed@[k],
{
    let ghost all = provisional.deep_view();
    let ghost keep = |m: MessageView| !confirms(confirmed@, m);
    let mut kept: Vec<Message> = Vec::new();
    let mut removed: Vec<usize> = Vec::new();
    let n = provisional.len();
    let mut i: usize = 0;
    proof {
        assert(all.take(0) =~= Seq::<MessageView>::empty());
        assert(kept.deep_view() =~= Seq::<MessageView>::empty());
    }
    while i < n
        invariant
            n == provisional.len(),
            i <= n,
            all == provisional.deep_view(),
            *provisional == *old(provisional),
            keep == |m: MessageView| !confirms(confirmed@, m),
            kept.deep_view() == all.take(i as int).filter(keep),
            removed@.len() + kept@.len() == i,
            forall|k: int|
                0 <= k < removed@.len() ==> 0 <= #[trigger] removed@[k] < i && confirms(
                    confirmed@,
                    provisional@[removed@[k] as int]@,
                ),
            forall|j: int, k: int| 0 <= j < k < removed@.len() ==> removed@[j] < removed@[k],
        decreases n - i,
    {
        proof {
            assert(all.take(i as int + 1) =~= all.take(i as int).push(all[i as int]));
            Seq::filter_distributes_over_add(all.take(i as int), seq![all[i as int]], keep);
            assert(all.take(i as int).push(all[i as int]) =~= all.take(i as int) + seq![
                all[i as int],
            ]);
            reveal(Seq::filter);
            assert(seq![all[i as int]].filter(keep) =~= if keep(all[i as int]) {
                seq![all[i as int]]
            } else {
                Seq::empty()
            }) by {
                let one = seq![all[i as int]];
                assert(one.drop_last() =~= Seq::<MessageView>::empty());
                assert(Seq::<MessageView>::empty().filter(keep) =~= Seq::<MessageView>::empty());
            }
            assert(all[i as int] == provisional@[i as int]@);
        }
        if is_confirmed_by(&provisional[i], confirmed) {
            removed.push(i);
        } else {
            let m = provisional[i].clone();
            let ghost before = kept;
            kept.push(m);
            proof {
                assert(kept.deep_view() =~= before.deep_view().push(m@));
                assert(before.deep_view().push(m@) =~= before.deep_view() + seq![m@]);
            }
        }
        i += 1;
    }
    proof {
        assert(all.take(n as int) =~= all);
    }
    *provisional = kept;
    removed
}

/// How the number of unread notifications of a room is shown: not at all
/// where there is none.
pub open spec fn notification_text(n: int) -> Seq<char> {
    if n == 0 {
        Seq::empty()
    } else {
        decimal(n)
    }
}

/// How the number of unread notifications of a room is shown.
pub fn notification_label(n: i64) -> (r: String)
    ensures
        r@ == notification_text(n as int),
{
    if n == 0 {
        String::new()
    } else {
        decimal_text(n)
    }
}

/// Whether a message that came in is worth a notification: not one of the
/// messages that a room is opened with, and not one of the user's own.
pub fn should_notify(init: bool, sender: &str, uid: &str) -> (r: bool)
    ensures
        r == (!init && sender@ != uid@),
{
    !init && !same(sender, uid)
}

/// Where the last message of the room `room` stands among `messages`.
pub open spec fn last_of_room(messages: Seq<MessageView>, room: Seq<char>) -> Option<int>
    decreases messages.len(),
{
    if messages.len() == 0 {
        None
    } else if messages.last().room == room {
        Some(messages.len() - 1)
    } else {
        last_of_room(messages.drop_last(), room)
    }
}

/// Finds the last message of the room `room`: the one to set the read
/// receipt to.
pub fn last_in_room(messages: &Vec<Message>, room: &str) -> (r: Option<usize>)
    ensures
        match r {
            Some(i) => last_of_room(messages.deep_view(), room@) == Some(i as int),
            None => last_of_room(messages.deep_view(), room@) is None,
        },
{
    let ghost all = messages.deep_view();
    let mut i: usize = messages.len();
    proof {
        assert(all.take(i as int) =~= all);
    }
    while i > 0
        invariant
            i <= messages.len(),
            all == messages.deep_view(),
            last_of_room(all, room@) == last_of_room(all.take(i as int), room@),
        decreases i,
    {
        proof {
            assert(all.take(i as int).drop_last() =~= all.take(i as int - 1));
            assert(all.take(i as int).last() == messages@[i as int - 1]@);
        }
        if same(messages[i - 1].room.as_str(), room) {
            return Some(i - 1);
        }
        i -= 1;
    }
    None
}

/// The commands that bring a room in line with what its settings now say:
/// one for a new name, one for a new topic, one for a new avatar file, in
/// this order, and none for what has not changed.
pub open spec fn config_commands(
    room: Room,
    name: Option<String>,
    topic: Option<String>,
    avatar: Option<String>,
) -> Seq<(int, Seq<char>, Seq<char>)> {
    (match name {
        Some(n) => if n@ != room.name@ {
            seq![(0int, room.id@, n@)]
        } else {
            Seq::empty()
        },
        None => Seq::empty(),
    }) + (match topic {
        Some(t) => if t@ != room.topic@ {
            seq![(1int, room.id@, t@)]
        } else {
            Seq::empty()
        },
        None => Seq::empty(),
    }) + (match avatar {
        Some(f) => seq![(2int, room.id@, f@)],
        None => Seq::empty(),
    })
}

/// What a command to change a room says: which setting (0 the name, 1 the
/// topic, 2 the avatar), of which room, to what.
pub open spec fn config_of(cmd: BKCommand) -> (int, Seq<char>, Seq<char>) {
    match cmd {
        BKCommand::SetRoomName(room, name) => (0int, room@, name@),
        BKCommand::SetRoomTopic(room, topic) => (1int, room@, topic@),
        BKCommand::SetRoomAvatar(room, file) => (2int, room@, file@),
        _ => (-1int, Seq::empty(), Seq::empty()),
    }
}

/// The commands that bring `room` in line with what its settings now say.
pub fn change_room_config(
    room: &Room,
    name: Option<String>,
    topic: Option<String>,
    avatar: Option<String>,
) -> (r: Vec<BKCommand>)
    ensures
        r@.map_values(|c: BKCommand| config_of(c)) == config_commands(*room, name, topic, avatar),
{
    let mut out: Vec<BKCommand> = Vec::new();
    match name {
        Some(n) => {
            if !same(n.as_str(), room.name.as_str()) {
                out.push(BKCommand::SetRoomName(room.id.clone(), n));
            }
        },
        None => {},
    }
    match topic {
        Some(t) => {
            if !same(t.as_str(), room.topic.as_str()) {
                out.push(BKCommand::SetRoomTopic(room.id.clone(), t));
            }
        },
        None => {},
    }
    match avatar {
        Some(f) => {
            out.push(BKCommand::SetRoomAvatar(room.id.clone(), f));
        },
        None => {},
    }
    proof {
        assert(out@.map_values(|c: BKCommand| config_of(c)) =~= config_commands(
            *room,
            name,
            topic,
            avatar,
        ));
    }
    out
}

} // verus!
