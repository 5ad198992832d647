//! The state of a session with a home server.

use vstd::prelude::*;

verus! {

/// What the engine remembers between operations: who is logged in where,
/// and how far each stream of the home server has been read.
#[derive(Debug, PartialEq, Eq)]
pub struct BackendData {
    /// Who is logged in; empty until a session is open.
    pub user_id: String,
    /// The credential that every request carries; empty until a session is
    /// open.
    pub access_token: String,
    /// The name of the home server.
    pub server_url: String,
    /// The cursor of the synchronization: empty as long as none has been
    /// worked through, and then the next one asks for everything.
    pub since: String,
    /// The number of the message sent last in this session.
    pub msgid: i32,
    /// The token at the older edge of the messages loaded for the active
    /// room: older messages are fetched from here.
    pub msgs_batch_start: String,
    /// The token at the newer edge of the messages loaded for the active
    /// room.
    pub msgs_batch_end: String,
    /// The cursor of the room directory.
    pub rooms_since: String,
    /// The room joined last: the one to open after the next first
    /// synchronization.
    pub join_to_room: String,
}

/// The mathematical content of a [`BackendData`].
pub struct BackendDataView {
    pub user_id: Seq<char>,
    pub access_token: Seq<char>,
    pub server_url: Seq<char>,
    pub since: Seq<char>,
    pub msgid: int,
    pub msgs_batch_start: Seq<char>,
    pub msgs_batch_end: Seq<char>,
    pub rooms_since: Seq<char>,
    pub join_to_room: Seq<char>,
}

impl View for BackendData {
    type V = BackendDataView;

    open spec fn view(&self) -> BackendDataView {
        BackendDataView {
            user_id: self.user_id@,
            access_token: self.access_token@,
            server_url: self.server_url@,
            since: self.since@,
            msgid: self.msgid as int,
            msgs_batch_start: self.msgs_batch_start@,
            msgs_batch_end: self.msgs_batch_end@,
            rooms_since: self.rooms_since@,
            join_to_room: self.join_to_room@,
        }
    }
}

impl BackendDataView {
    /// The state before any session: nobody is logged in, nothing has been
    /// read, and the home server is the default one.
    pub open spec fn initial() -> BackendDataView {
        BackendDataView {
            user_id: Seq::empty(),
            access_token: Seq::empty(),
            server_url: "https://matrix.org"@,
            since: Seq::empty(),
            msgid: 1,
            msgs_batch_start: Seq::empty(),
            msgs_batch_end: Seq::empty(),
            rooms_since: Seq::empty(),
            join_to_room: Seq::empty(),
        }
    }

    /// The state once a session is open for `user` with the credential
    /// `token`: every cursor of the session before is forgotten.
    pub open spec fn opened(self, user: Seq<char>, token: Seq<char>) -> BackendDataView {
        BackendDataView {
            user_id: user,
            access_token: token,
            since: Seq::empty(),
            msgs_batch_start: Seq::empty(),
            msgs_batch_end: Seq::empty(),
            ..self
        }
    }
}

impl Clone for BackendData {
    fn clone(&self) -> (r: BackendData)
        ensures
            r@ == self@,
    {
        BackendData {
            user_id: self.user_id.clone(),
            access_token: self.access_token.clone(),
            server_url: self.server_url.clone(),
            since: self.since.clone(),
            msgid: self.msgid,
            msgs_batch_start: self.msgs_batch_start.clone(),
            msgs_batch_end: self.msgs_batch_end.clone(),
            rooms_since: self.rooms_since.clone(),
            join_to_room: self.join_to_room.clone(),
        }
    }
}

impl BackendData {
    /// The state before any session.
    pub fn new() -> (r: BackendData)
        ensures
            r@ == BackendDataView::initial(),
    {
        BackendData {
            user_id: String::new(),
            access_token: String::new(),
            server_url: String::from_str("https://matrix.org"),
            since: String::new(),
            msgid: 1,
            msgs_batch_start: String::new(),
            msgs_batch_end: String::new(),
            rooms_since: String::new(),
            join_to_room: String::new(),
        }
    }
}

} // verus!
