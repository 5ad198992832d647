//! The engine as a state machine: what each operation makes of the state,
//! which outside work it asks for, and what it tells the caller.
//!
//! Everything here is mathematics. The executable engine in
//! [`crate::backend`] is proved to do exactly what this module says.

use crate::decode::changes::changes_of;
use crate::decode::directory::{directory_of, protocols_of};
use crate::decode::members::members_of;
use crate::decode::rooms::{default_room, rooms_of};
use crate::decode::timeline::{page_of, timeline_of};
use crate::error::Error;
use crate::json::JsonView;
use crate::protocol::{
    BKCommand, BKResponseView, Method, Outcome, PendingView, ReplyView, TaskView, WorkView,
};
use crate::session::BackendDataView;
use crate::text::{decimal, tail_after};
use crate::transport::{address, base_of, client_address, media_address};
use crate::types::MessageView;
use vstd::prelude::*;

verus! {

/// The filter of a first synchronization: the state of the rooms and nothing
/// else; no timeline, nothing ephemeral, no presence.
pub const INITIAL_FILTER: &'static str = "{ \
    \"room\": { \
        \"state\": { \"types\": [\"m.room.*\"] }, \
        \"timeline\": { \"limit\": 0 }, \
        \"ephemeral\": { \"types\": [] } \
    }, \
    \"presence\": { \"types\": [] }, \
    \"event_format\": \"client\", \
    \"event_fields\": [\"type\", \"content\", \"sender\"] \
}";

/// How many messages a page of a room's history holds at most.
pub const PAGE_LIMIT: &'static str = "10";

/// How many rooms a page of the directory holds at most.
pub const DIRECTORY_LIMIT: i64 = 20;

/// The state of the engine: the session, and what it has asked for and said
/// but nobody has taken yet.
pub struct BackendView {
    pub data: BackendDataView,
    /// The outside work asked for, oldest first.
    pub tasks: Seq<TaskView>,
    /// The responses on the shared queue, oldest first.
    pub responses: Seq<BKResponseView>,
    /// The answers for one-shot channels, oldest first.
    pub replies: Seq<ReplyView>,
}

/// The state after an operation, and whether the operation could be begun.
pub type Step = (BackendView, Result<(), Error>);

/// The body of a login.
pub open spec fn login_body(user: Seq<char>, password: Seq<char>) -> JsonView {
    JsonView::Dict(
        seq![
            ("password"@, JsonView::Text(password)),
            ("type"@, JsonView::Text("m.login.password"@)),
            ("user"@, JsonView::Text(user)),
        ],
    )
}

/// The body of a registration.
pub open spec fn register_body(user: Seq<char>, password: Seq<char>) -> JsonView {
    JsonView::Dict(
        seq![
            ("auth"@, JsonView::Dict(seq![("type"@, JsonView::Text("m.login.password"@))])),
            ("bind_email"@, JsonView::Bool(false)),
            ("password"@, JsonView::Text(password)),
            ("username"@, JsonView::Text(user)),
        ],
    )
}

/// The body of a message to send.
pub open spec fn message_body(m: MessageView) -> JsonView {
    JsonView::Dict(seq![("body"@, JsonView::Text(m.body)), ("msgtype"@, JsonView::Text(m.mtype))])
}

/// A body with one text under one key.
pub open spec fn single_body(key: Seq<char>, value: Seq<char>) -> JsonView {
    JsonView::Dict(seq![(key, JsonView::Text(value))])
}

/// The body of a search of the room directory.
///
/// A first page states what to search for; a further page states only the
/// cursor, and the home server goes on with the search it knows.
pub open spec fn search_body(
    query: Option<Seq<char>>,
    third_party: Option<Seq<char>>,
    more: bool,
    cursor: Seq<char>,
) -> JsonView {
    let limit = seq![("limit"@, JsonView::Number(Some(DIRECTORY_LIMIT)))];
    if more {
        JsonView::Dict(limit + seq![("since"@, JsonView::Text(cursor))])
    } else {
        JsonView::Dict(
            (match query {
                Some(q) => seq![
                    ("filter"@, JsonView::Dict(seq![("generic_search_term"@, JsonView::Text(q))])),
                ],
                None => Seq::empty(),
            }) + limit + (match third_party {
                Some(tp) => seq![("third_party_instance_id"@, JsonView::Text(tp))],
                None => Seq::empty(),
            }),
        )
    }
}

/// The query of a synchronization: a first one asks for the state of all
/// rooms through a filter, a later one for what is new since the cursor.
pub open spec fn sync_params(since: Seq<char>) -> Seq<(Seq<char>, Seq<char>)> {
    seq![("full_state"@, "false"@), ("timeout"@, "30000"@)] + (if since.len() == 0 {
        seq![("filter"@, INITIAL_FILTER@)]
    } else {
        seq![("since"@, since)]
    })
}

/// The query of a fetch of a room's messages: the newest ones, or those
/// older than the token `start`.
pub open spec fn page_params(token: Seq<char>, older: bool, start: Seq<char>) -> Seq<
    (Seq<char>, Seq<char>),
> {
    seq![("dir"@, "b"@), ("limit"@, PAGE_LIMIT@), ("access_token"@, token)] + (if older {
        seq![("from"@, start)]
    } else {
        Seq::empty()
    })
}

/// The document in an outcome; any other outcome but a failure is out of
/// place.
pub open spec fn document_of(outcome: Outcome) -> Result<JsonView, Error> {
    match outcome {
        Outcome::Document(j) => Ok(j@),
        Outcome::Failed(e) => Err(e),
        _ => Err(Error::BackendError),
    }
}

/// The path of the file in an outcome.
pub open spec fn file_of(outcome: Outcome) -> Result<Seq<char>, Error> {
    match outcome {
        Outcome::File(path) => Ok(path@),
        Outcome::Failed(e) => Err(e),
        _ => Err(Error::BackendError),
    }
}

/// The name and the avatar file in an outcome.
pub open spec fn user_info_of(outcome: Outcome) -> Result<(Seq<char>, Seq<char>), Error> {
    match outcome {
        Outcome::UserInfo(name, path) => Ok((name@, path@)),
        Outcome::Failed(e) => Err(e),
        _ => Err(Error::BackendError),
    }
}

/// The text of an optional string.
pub open spec fn optional_text(s: Option<String>) -> Option<Seq<char>> {
    match s {
        Some(s) => Some(s@),
        None => None,
    }
}

/// A text as a filter of the directory: an empty one filters nothing.
pub open spec fn nonempty(s: Seq<char>) -> Option<Seq<char>> {
    if s.len() == 0 {
        None
    } else {
        Some(s)
    }
}

/// The response that tells the caller that the operation of the command
/// `cmd` could not be begun.
pub open spec fn error_response(cmd: BKCommand, e: Error) -> BKResponseView {
    match cmd {
        BKCommand::Login(..) => BKResponseView::LoginError(e),
        BKCommand::Register(..) => BKResponseView::LoginError(e),
        BKCommand::Guest(..) => BKResponseView::GuestLoginError(e),
        BKCommand::GetUsername => BKResponseView::UserNameError(e),
        BKCommand::GetAvatar => BKResponseView::AvatarError(e),
        BKCommand::Sync => BKResponseView::SyncError(e),
        BKCommand::SyncForced => BKResponseView::SyncError(e),
        BKCommand::GetRoomMessagesTo(..) => BKResponseView::RoomMessagesError(e),
        BKCommand::GetRoomAvatar(..) => BKResponseView::GetRoomAvatarError(e),
        BKCommand::GetThumbAsync(..) => BKResponseView::CommandError(e),
        BKCommand::GetMedia(..) => BKResponseView::CommandError(e),
        BKCommand::GetUserInfoAsync(..) => BKResponseView::CommandError(e),
        BKCommand::SendMsg(..) => BKResponseView::SendMsgError(e),
        BKCommand::SetRoom(..) => BKResponseView::SetRoomError(e),
        BKCommand::ShutDown => BKResponseView::CommandError(e),
        BKCommand::DirectoryProtocols => BKResponseView::DirectoryError(e),
        BKCommand::DirectorySearch(..) => BKResponseView::DirectoryError(e),
        BKCommand::JoinRoom(..) => BKResponseView::JoinRoomError(e),
        BKCommand::MarkAsRead(..) => BKResponseView::MarkAsReadError(e),
        BKCommand::LeaveRoom(..) => BKResponseView::LeaveRoomError(e),
        BKCommand::SetRoomName(..) => BKResponseView::SetRoomNameError(e),
        BKCommand::SetRoomTopic(..) => BKResponseView::SetRoomTopicError(e),
        BKCommand::SetRoomAvatar(..) => BKResponseView::SetRoomAvatarError(e),
        BKCommand::AttachFile(..) => BKResponseView::AttachFileError(e),
    }
}

impl BackendView {
    /// The state of an engine just made.
    pub open spec fn initial() -> BackendView {
        BackendView {
            data: BackendDataView::initial(),
            tasks: Seq::empty(),
            responses: Seq::empty(),
            replies: Seq::empty(),
        }
    }

    /// The same engine with another session state.
    pub open spec fn with_data(self, data: BackendDataView) -> BackendView {
        BackendView { data, ..self }
    }

    /// One more piece of outside work asked for.
    pub open spec fn queue(self, work: WorkView, purpose: PendingView) -> BackendView {
        BackendView { tasks: self.tasks.push(TaskView { work, purpose }), ..self }
    }

    /// One more response on the shared queue.
    pub open spec fn emit(self, response: BKResponseView) -> BackendView {
        BackendView { responses: self.responses.push(response), ..self }
    }

    /// Some more responses on the shared queue.
    pub open spec fn emit_all(self, responses: Seq<BKResponseView>) -> BackendView {
        BackendView { responses: self.responses + responses, ..self }
    }

    /// One more answer for a one-shot channel.
    pub open spec fn answer(self, reply: ReplyView) -> BackendView {
        BackendView { replies: self.replies.push(reply), ..self }
    }

    /// The address of the home server of the session.
    pub open spec fn base_url(self) -> Result<Seq<char>, Error> {
        base_of(self.data.server_url)
    }

    /// The address of the client API's `path` on the home server, with
    /// `params` and then the access token as its query.
    pub open spec fn url(self, path: Seq<char>, params: Seq<(Seq<char>, Seq<char>)>) -> Result<
        Seq<char>,
        Error,
    > {
        match self.base_url() {
            Ok(base) => client_address(
                base,
                path,
                params.push(("access_token"@, self.data.access_token)),
            ),
            Err(e) => Err(e),
        }
    }

    /// Asks the home server at `url`, where that address could be built.
    pub open spec fn ask(
        self,
        url: Result<Seq<char>, Error>,
        method: Method,
        body: JsonView,
        purpose: PendingView,
    ) -> Step {
        match url {
            Ok(url) => (self.queue(WorkView::Query { method, url, body }, purpose), Ok(())),
            Err(e) => (self, Err(e)),
        }
    }

    /// Asks for a piece of work that needs the address of the home server.
    pub open spec fn resolve(self, work: spec_fn(Seq<char>) -> WorkView, purpose: PendingView) -> Step {
        match self.base_url() {
            Ok(base) => (self.queue(work(base), purpose), Ok(())),
            Err(e) => (self, Err(e)),
        }
    }

    /// Opens a guest session on `server`: the name of the home server is
    /// taken over only once the address of the registration could be built.
    pub open spec fn guest(self, server: Seq<char>) -> Step {
        match base_of(server) {
            Err(e) => (self, Err(e)),
            Ok(base) => match client_address(
                base,
                "register"@,
                seq![("kind"@, "guest"@), ("access_token"@, self.data.access_token)],
            ) {
                Err(e) => (self, Err(e)),
                Ok(url) => (
                    self.with_data(BackendDataView { server_url: server, ..self.data }).queue(
                        WorkView::Query { method: Method::Post, url, body: JsonView::Null },
                        PendingView::Guest,
                    ),
                    Ok(()),
                ),
            },
        }
    }

    /// Logs `user` in on `server`.
    pub open spec fn login(self, user: Seq<char>, password: Seq<char>, server: Seq<char>) -> Step {
        let s = self.with_data(BackendDataView { server_url: server, ..self.data });
        s.ask(
            s.url("login"@, Seq::empty()),
            Method::Post,
            login_body(user, password),
            PendingView::Login,
        )
    }

    /// Registers `user` on `server`.
    pub open spec fn register(self, user: Seq<char>, password: Seq<char>, server: Seq<char>) -> Step {
        let s = self.with_data(BackendDataView { server_url: server, ..self.data });
        s.ask(
            s.url("register"@, seq![("kind"@, "user"@)]),
            Method::Post,
            register_body(user, password),
            PendingView::Login,
        )
    }

    /// Asks for the display name of the user.
    pub open spec fn get_username(self) -> Step {
        self.ask(
            self.url("profile/"@ + self.data.user_id + "/displayname"@, Seq::empty()),
            Method::Get,
            JsonView::Null,
            PendingView::Username(self.data.user_id),
        )
    }

    /// Asks for the avatar of the user.
    pub open spec fn get_avatar(self) -> Step {
        self.resolve(
            |base: Seq<char>|
                WorkView::UserAvatar {
                    base,
                    token: self.data.access_token,
                    user: self.data.user_id,
                },
            PendingView::Avatar,
        )
    }

    /// Synchronizes with the home server.
    pub open spec fn sync(self) -> Step {
        self.ask(
            self.url("sync"@, sync_params(self.data.since)),
            Method::Get,
            JsonView::Null,
            PendingView::Sync(self.data.since.len() == 0, self.data.user_id),
        )
    }

    /// Forgets the cursor, then synchronizes.
    pub open spec fn sync_forced(self) -> Step {
        self.with_data(BackendDataView { since: Seq::empty(), ..self.data }).sync()
    }

    /// Asks for the piece `key` of the state of `room`.
    pub open spec fn get_room_detail(self, room: Seq<char>, key: Seq<char>) -> Step {
        self.ask(
            self.url("rooms/"@ + room + "/state/"@ + key, Seq::empty()),
            Method::Get,
            JsonView::Null,
            PendingView::RoomDetail(key),
        )
    }

    /// Asks for the avatar of `room`.
    pub open spec fn get_room_avatar(self, room: Seq<char>) -> Step {
        match self.base_url() {
            Err(e) => (self, Err(e)),
            Ok(base) => self.ask(
                self.url("rooms/"@ + room + "/state/m.room.avatar"@, Seq::empty()),
                Method::Get,
                JsonView::Null,
                PendingView::RoomAvatar(base, self.data.access_token, self.data.user_id, room),
            ),
        }
    }

    /// The address at which messages of `room` are asked for, on the home
    /// server at `base`.
    pub open spec fn page_url(self, base: Seq<char>, room: Seq<char>, older: bool) -> Result<
        Seq<char>,
        Error,
    > {
        client_address(
            base,
            "rooms/"@ + room + "/messages"@,
            page_params(self.data.access_token, older, self.data.msgs_batch_start),
        )
    }

    /// Asks for messages of `room`: the newest ones, or, with `older`, those
    /// before the older edge of what is loaded.
    ///
    /// The fetch is begun whenever the name of the home server can be read.
    /// Where the request cannot be made all the same, the caller is told so
    /// as for a fetch that failed, and nothing is asked for.
    pub open spec fn get_room_messages(self, room: Seq<char>, older: bool) -> Step {
        match self.base_url() {
            Err(e) => (self, Err(e)),
            Ok(base) => match self.page_url(base, room, older) {
                Ok(url) => (
                    self.queue(
                        WorkView::Query { method: Method::Get, url, body: JsonView::Null },
                        PendingView::RoomMessages(room, older),
                    ),
                    Ok(()),
                ),
                Err(e) => (self.emit(BKResponseView::RoomMessagesError(e)), Ok(())),
            },
        }
    }

    /// Asks for the members of `room`.
    pub open spec fn get_room_members(self, room: Seq<char>) -> Step {
        self.ask(
            self.url("rooms/"@ + room + "/members"@, Seq::empty()),
            Method::Get,
            JsonView::Null,
            PendingView::RoomMembers,
        )
    }

    /// Asks for name and avatar of `user`, to be answered under `ticket`.
    pub open spec fn get_user_info_async(self, user: Seq<char>, ticket: u64) -> Step {
        self.resolve(
            |base: Seq<char>| WorkView::UserAvatar { base, token: self.data.access_token, user },
            PendingView::UserInfo(ticket),
        )
    }

    /// Asks for the thumbnail of `media`, to be answered under `ticket`.
    pub open spec fn get_thumb_async(self, media: Seq<char>, ticket: u64) -> Step {
        self.resolve(
            |base: Seq<char>| WorkView::Thumbnail { base, token: self.data.access_token, media },
            PendingView::Thumb(ticket),
        )
    }

    /// Asks for `media` in full.
    pub open spec fn get_media(self, media: Seq<char>) -> Step {
        self.resolve(
            |base: Seq<char>| WorkView::Media { base, token: self.data.access_token, media },
            PendingView::Media,
        )
    }

    /// Sends a message under the next number of the session.
    pub open spec fn send_msg(self, msg: MessageView) -> Step {
        let number = self.data.msgid + 1;
        let s = self.with_data(BackendDataView { msgid: number, ..self.data });
        s.ask(
            s.url(
                "rooms/"@ + msg.room + "/send/m.room.message/"@ + decimal(number),
                Seq::empty(),
            ),
            Method::Put,
            message_body(msg),
            PendingView::SendMsg,
        )
    }

    /// Asks for the networks of the room directory.
    pub open spec fn protocols(self) -> Step {
        match self.base_url() {
            Err(e) => (self, Err(e)),
            Ok(base) => self.ask(
                address(
                    base,
                    "/_matrix/client/unstable/thirdparty/protocols"@,
                    seq![("access_token"@, self.data.access_token)],
                ),
                Method::Get,
                JsonView::Null,
                PendingView::Protocols(self.data.server_url),
            ),
        }
    }

    /// Searches the room directory.
    pub open spec fn room_search(
        self,
        query: Option<Seq<char>>,
        third_party: Option<Seq<char>>,
        more: bool,
    ) -> Step {
        self.ask(
            self.url("publicRooms"@, Seq::empty()),
            Method::Post,
            search_body(query, third_party, more, self.data.rooms_since),
            PendingView::RoomSearch,
        )
    }

    /// Joins `room`.
    pub open spec fn join_room(self, room: Seq<char>) -> Step {
        self.ask(
            self.url("rooms/"@ + room + "/join"@, Seq::empty()),
            Method::Post,
            JsonView::Null,
            PendingView::JoinRoom(room),
        )
    }

    /// Leaves `room`.
    pub open spec fn leave_room(self, room: Seq<char>) -> Step {
        self.ask(
            self.url("rooms/"@ + room + "/leave"@, Seq::empty()),
            Method::Post,
            JsonView::Null,
            PendingView::LeaveRoom,
        )
    }

    /// Sets the read receipt of `room` to `event`.
    pub open spec fn mark_as_read(self, room: Seq<char>, event: Seq<char>) -> Step {
        self.ask(
            self.url("rooms/"@ + room + "/receipt/m.read/"@ + event, Seq::empty()),
            Method::Post,
            JsonView::Null,
            PendingView::MarkAsRead(room, event),
        )
    }

    /// Gives `room` the name `name`.
    pub open spec fn set_room_name(self, room: Seq<char>, name: Seq<char>) -> Step {
        self.ask(
            self.url("rooms/"@ + room + "/state/m.room.name"@, Seq::empty()),
            Method::Put,
            single_body("name"@, name),
            PendingView::SetRoomName,
        )
    }

    /// Gives `room` the topic `topic`.
    pub open spec fn set_room_topic(self, room: Seq<char>, topic: Seq<char>) -> Step {
        self.ask(
            self.url("rooms/"@ + room + "/state/m.room.topic"@, Seq::empty()),
            Method::Put,
            single_body("topic"@, topic),
            PendingView::SetRoomTopic,
        )
    }

    /// The address to which media is uploaded.
    pub open spec fn upload_url(self) -> Result<Seq<char>, Error> {
        match self.base_url() {
            Ok(base) => media_address(
                base,
                "upload"@,
                seq![("access_token"@, self.data.access_token)],
            ),
            Err(e) => Err(e),
        }
    }

    /// Gives `room` the avatar in the local file `path`: the file is
    /// uploaded first, and recorded as the avatar once that is done.
    pub open spec fn set_room_avatar(self, room: Seq<char>, path: Seq<char>) -> Step {
        match self.upload_url() {
            Err(e) => (self, Err(e)),
            Ok(media) => match self.url("rooms/"@ + room + "/state/m.room.avatar"@, Seq::empty()) {
                Err(e) => (self, Err(e)),
                Ok(record) => (
                    self.queue(
                        WorkView::Upload { url: media, path },
                        PendingView::AvatarUpload(record),
                    ),
                    Ok(()),
                ),
            },
        }
    }

    /// Uploads the local file `path`. Nothing is sent to any room.
    pub open spec fn attach_file(self, room: Seq<char>, path: Seq<char>) -> Step {
        match self.upload_url() {
            Err(e) => (self, Err(e)),
            Ok(media) => (self.queue(WorkView::Upload { url: media, path }, PendingView::Attach), Ok(())),
        }
    }

    /// Loads `room` as the active room: its topic, its avatar, its members
    /// and its newest messages, as far as each can be asked for.
    pub open spec fn set_room(self, room: Seq<char>) -> Step {
        let first = self.get_room_detail(room, "m.room.topic"@);
        if first.1 is Err {
            first
        } else {
            let second = first.0.get_room_avatar(room);
            if second.1 is Err {
                second
            } else {
                let third = second.0.get_room_members(room);
                if third.1 is Err {
                    third
                } else {
                    third.0.get_room_messages(room, false)
                }
            }
        }
    }

    /// The operation that a command names, begun.
    pub open spec fn begin(self, cmd: BKCommand) -> Step {
        match cmd {
            BKCommand::Login(user, password, server) => self.login(user@, password@, server@),
            BKCommand::Register(user, password, server) => self.register(user@, password@, server@),
            BKCommand::Guest(server) => self.guest(server@),
            BKCommand::GetUsername => self.get_username(),
            BKCommand::GetAvatar => self.get_avatar(),
            BKCommand::Sync => self.sync(),
            BKCommand::SyncForced => self.sync_forced(),
            BKCommand::GetRoomMessagesTo(room) => self.get_room_messages(room@, true),
            BKCommand::GetRoomAvatar(room) => self.get_room_avatar(room@),
            BKCommand::GetThumbAsync(media, ticket) => self.get_thumb_async(media@, ticket),
            BKCommand::GetMedia(media) => self.get_media(media@),
            BKCommand::GetUserInfoAsync(user, ticket) => self.get_user_info_async(user@, ticket),
            BKCommand::SendMsg(msg) => self.send_msg(msg@),
            BKCommand::SetRoom(room) => self.set_room(room@),
            BKCommand::ShutDown => (self, Ok(())),
            BKCommand::DirectoryProtocols => self.protocols(),
            BKCommand::DirectorySearch(query, third_party, more) => self.room_search(nonempty(query@), nonempty(third_party@), more),
            BKCommand::JoinRoom(room) => self.join_room(room@),
            BKCommand::MarkAsRead(room, event) => self.mark_as_read(room@, event@),
            BKCommand::LeaveRoom(room) => self.leave_room(room@),
            BKCommand::SetRoomName(room, name) => self.set_room_name(room@, name@),
            BKCommand::SetRoomTopic(room, topic) => self.set_room_topic(room@, topic@),
            BKCommand::SetRoomAvatar(room, path) => self.set_room_avatar(room@, path@),
            BKCommand::AttachFile(room, path) => self.attach_file(room@, path@),
        }
    }

    /// What the dispatcher makes of a command: it begins the operation,
    /// and where that cannot be done it tells the caller so with the error
    /// response of the command.
    pub open spec fn run(self, cmd: BKCommand) -> BackendView {
        match self.begin(cmd).1 {
            Ok(()) => self.begin(cmd).0,
            Err(e) => self.begin(cmd).0.emit(error_response(cmd, e)),
        }
    }

    /// What the dispatcher makes of what came off the queue of commands,
    /// and whether it goes on: it stops at the command to shut down and when
    /// the queue is closed.
    pub open spec fn command_recv(self, cmd: Result<BKCommand, std::sync::mpsc::RecvError>) -> (
        BackendView,
        bool,
    ) {
        match cmd {
            Ok(BKCommand::ShutDown) => (self, false),
            Ok(cmd) => (self.run(cmd), true),
            Err(_) => (self, false),
        }
    }

    /// The answer to a login, a registration or a guest registration: the
    /// session is open for the user and with the token that the home server
    /// names.
    pub open spec fn token_reply(
        self,
        reply: Result<JsonView, Error>,
        on_error: spec_fn(Error) -> BKResponseView,
    ) -> BackendView {
        match reply {
            Ok(r) => {
                let user = r.get("user_id"@).text_or(Seq::empty());
                let token = r.get("access_token"@).text_or(Seq::empty());
                self.with_data(self.data.opened(user, token)).emit(
                    BKResponseView::Token(user, token),
                )
            },
            Err(e) => self.emit(on_error(e)),
        }
    }

    /// The answer to a request that brings nothing back but that it was
    /// done.
    pub open spec fn plain_reply(
        self,
        reply: Result<JsonView, Error>,
        done: BKResponseView,
        on_error: spec_fn(Error) -> BKResponseView,
    ) -> BackendView {
        match reply {
            Ok(_) => self.emit(done),
            Err(e) => self.emit(on_error(e)),
        }
    }

    /// The answer to the question for the display name of `user`: the user
    /// id stands in where no name is set.
    pub open spec fn username_reply(self, user: Seq<char>, reply: Result<JsonView, Error>) -> BackendView {
        match reply {
            Ok(r) => self.emit(BKResponseView::Name(r.get("displayname"@).text_or(user))),
            Err(e) => self.emit(BKResponseView::UserNameError(e)),
        }
    }

    /// The avatar of the user, resolved or not.
    pub open spec fn avatar_reply(self, info: Result<(Seq<char>, Seq<char>), Error>) -> BackendView {
        match info {
            Ok(info) => self.emit(BKResponseView::Avatar(info.1)),
            Err(e) => self.emit(BKResponseView::AvatarError(e)),
        }
    }

    /// What a first synchronization tells: the rooms, and the room to open.
    /// Where the rooms cannot be read, the caller is told so and gets no
    /// rooms.
    pub open spec fn initial_sync(self, r: JsonView, user: Seq<char>) -> BackendView {
        match rooms_of(r, user) {
            Ok(rooms) => self.emit(
                BKResponseView::Rooms(rooms, default_room(rooms, self.data.join_to_room)),
            ),
            Err(e) => self.emit(BKResponseView::SyncError(e)).emit(
                BKResponseView::Rooms(Seq::empty(), None),
            ),
        }
    }

    /// What a later synchronization tells: the new messages of all rooms in
    /// one batch, then each change of a room's name, topic or avatar.
    pub open spec fn incremental_sync(self, r: JsonView) -> BackendView {
        let s = match timeline_of(r) {
            Ok(messages) => self.emit(BKResponseView::RoomMessages(messages)),
            Err(e) => self.emit(BKResponseView::RoomMessagesError(e)),
        };
        match changes_of(r) {
            Ok(changes) => s.emit_all(changes),
            Err(e) => s.emit(BKResponseView::SyncError(e)),
        }
    }

    /// The answer to a synchronization. Whatever can be read of the
    /// document, the cursor moves on to the one it names.
    pub open spec fn sync_reply(
        self,
        initial: bool,
        user: Seq<char>,
        reply: Result<JsonView, Error>,
    ) -> BackendView {
        match reply {
            Ok(r) => {
                let s = if initial {
                    self.initial_sync(r, user)
                } else {
                    self.incremental_sync(r)
                };
                s.with_data(
                    BackendDataView {
                        since: r.get("next_batch"@).text_or(Seq::empty()),
                        ..s.data
                    },
                ).emit(BKResponseView::Sync)
            },
            Err(e) => self.emit(BKResponseView::SyncError(e)),
        }
    }

    /// The answer to the question for the piece `key` of a room's state:
    /// the value stands under the last part of the key.
    pub open spec fn room_detail_reply(self, key: Seq<char>, reply: Result<JsonView, Error>) -> BackendView {
        match reply {
            Ok(r) => self.emit(
                BKResponseView::RoomDetail(key, r.get(tail_after(key, '.')).text_or(Seq::empty())),
            ),
            Err(e) => self.emit(BKResponseView::RoomDetailError(e)),
        }
    }

    /// The answer to the question for a room's avatar: the avatar that the
    /// room has is resolved to a file, and so is, for a room that has none,
    /// one made up for it.
    pub open spec fn room_avatar_reply(
        self,
        base: Seq<char>,
        token: Seq<char>,
        user: Seq<char>,
        room: Seq<char>,
        reply: Result<JsonView, Error>,
    ) -> BackendView {
        match reply {
            Ok(r) => match r.get("url"@).text() {
                Some(media) => self.queue(
                    WorkView::Thumbnail { base, token, media },
                    PendingView::RoomAvatarFile,
                ),
                None => self.queue(
                    WorkView::RoomAvatar { base, token, user, room },
                    PendingView::RoomAvatarFile,
                ),
            },
            Err(e) => self.emit(BKResponseView::RoomAvatarError(e)),
        }
    }

    /// The avatar of a room as a file: an empty path where it could not be
    /// had.
    pub open spec fn room_avatar_file(self, file: Result<Seq<char>, Error>) -> BackendView {
        match file {
            Ok(path) => self.emit(BKResponseView::RoomAvatar(path)),
            Err(_) => self.emit(BKResponseView::RoomAvatar(Seq::empty())),
        }
    }

    /// The answer to a fetch of the messages of `room`: the tokens at the
    /// edges of the page are kept, and the page goes to the caller, an empty
    /// one like any other.
    pub open spec fn room_messages_reply(
        self,
        room: Seq<char>,
        older: bool,
        reply: Result<JsonView, Error>,
    ) -> BackendView {
        match reply {
            Ok(r) => match page_of(r, room) {
                Ok(page) => self.with_data(
                    BackendDataView {
                        msgs_batch_start: page.start,
                        msgs_batch_end: page.end,
                        ..self.data
                    },
                ).emit(
                    if older {
                        BKResponseView::RoomMessagesTo(page.messages)
                    } else {
                        BKResponseView::RoomMessagesInit(page.messages)
                    },
                ),
                Err(e) => self.emit(BKResponseView::RoomMessagesError(e)),
            },
            Err(e) => self.emit(BKResponseView::RoomMessagesError(e)),
        }
    }

    /// The answer to the question for a room's members.
    pub open spec fn room_members_reply(self, reply: Result<JsonView, Error>) -> BackendView {
        match reply {
            Ok(r) => match members_of(r) {
                Ok(members) => self.emit(BKResponseView::RoomMembers(members)),
                Err(e) => self.emit(BKResponseView::RoomMembersError(e)),
            },
            Err(e) => self.emit(BKResponseView::RoomMembersError(e)),
        }
    }

    /// Name and avatar of a user for the channel `ticket`: both empty where
    /// they could not be had.
    pub open spec fn user_info_reply(
        self,
        ticket: u64,
        info: Result<(Seq<char>, Seq<char>), Error>,
    ) -> BackendView {
        match info {
            Ok(info) => self.answer(ReplyView::UserInfo(ticket, info.0, info.1)),
            Err(_) => self.answer(ReplyView::UserInfo(ticket, Seq::empty(), Seq::empty())),
        }
    }

    /// A thumbnail for the channel `ticket`: an empty path where it could
    /// not be had.
    pub open spec fn thumb_reply(self, ticket: u64, file: Result<Seq<char>, Error>) -> BackendView {
        match file {
            Ok(path) => self.answer(ReplyView::Thumb(ticket, path)),
            Err(_) => self.answer(ReplyView::Thumb(ticket, Seq::empty())),
        }
    }

    /// A media file, fetched or not.
    pub open spec fn media_reply(self, file: Result<Seq<char>, Error>) -> BackendView {
        match file {
            Ok(path) => self.emit(BKResponseView::Media(path)),
            Err(e) => self.emit(BKResponseView::MediaError(e)),
        }
    }

    /// The answer to the question for the networks of the directory, asked
    /// of the home server called `server`.
    pub open spec fn protocols_reply(self, server: Seq<char>, reply: Result<JsonView, Error>) -> BackendView {
        match reply {
            Ok(r) => match protocols_of(r, server) {
                Ok(protocols) => self.emit(BKResponseView::DirectoryProtocols(protocols)),
                Err(e) => self.emit(BKResponseView::DirectoryError(e)),
            },
            Err(e) => self.emit(BKResponseView::DirectoryError(e)),
        }
    }

    /// A page of the room directory: the cursor moves on to the one the
    /// page names, an empty one where it names none.
    pub open spec fn room_search_reply(self, reply: Result<JsonView, Error>) -> BackendView {
        match reply {
            Ok(r) => {
                let s = self.with_data(
                    BackendDataView {
                        rooms_since: r.get("next_batch"@).text_or(Seq::empty()),
                        ..self.data
                    },
                );
                match directory_of(r) {
                    Ok(rooms) => s.emit(BKResponseView::DirectorySearch(rooms)),
                    Err(e) => s.emit(BKResponseView::DirectoryError(e)),
                }
            },
            Err(e) => self.emit(BKResponseView::DirectoryError(e)),
        }
    }

    /// The answer to joining `room`: the room is the one to open after the
    /// next first synchronization.
    pub open spec fn join_room_reply(self, room: Seq<char>, reply: Result<JsonView, Error>) -> BackendView {
        match reply {
            Ok(_) => self.with_data(BackendDataView { join_to_room: room, ..self.data }).emit(
                BKResponseView::JoinRoom,
            ),
            Err(e) => self.emit(BKResponseView::JoinRoomError(e)),
        }
    }

    /// The upload of a room avatar is done: the content URI it got is
    /// recorded as the avatar at the address `record`.
    pub open spec fn avatar_upload_reply(self, record: Seq<char>, reply: Result<JsonView, Error>) -> BackendView {
        match reply {
            Ok(r) => self.queue(
                WorkView::Query {
                    method: Method::Put,
                    url: record,
                    body: single_body("url"@, r.get("content_uri"@).text_or(Seq::empty())),
                },
                PendingView::AvatarSet,
            ),
            Err(e) => self.emit(BKResponseView::SetRoomAvatarError(e)),
        }
    }

    /// The upload of an attachment is done: the caller learns the content
    /// URI, and nothing else happens.
    pub open spec fn attach_reply(self, reply: Result<JsonView, Error>) -> BackendView {
        match reply {
            Ok(r) => self.emit(
                BKResponseView::AttachedFile(r.get("content_uri"@).text_or(Seq::empty())),
            ),
            Err(e) => self.emit(BKResponseView::AttachFileError(e)),
        }
    }

    /// What the engine makes of the outcome of a piece of work asked for
    /// the purpose `purpose`.
    pub open spec fn finish(self, purpose: PendingView, outcome: Outcome) -> BackendView {
        let document = document_of(outcome);
        let file = file_of(outcome);
        let info = user_info_of(outcome);
        match purpose {
            PendingView::Guest => self.token_reply(
                document,
                |e: Error| BKResponseView::GuestLoginError(e),
            ),
            PendingView::Login => self.token_reply(
                document,
                |e: Error| BKResponseView::LoginError(e),
            ),
            PendingView::Username(user) => self.username_reply(user, document),
            PendingView::Avatar => self.avatar_reply(info),
            PendingView::Sync(initial, user) => self.sync_reply(initial, user, document),
            PendingView::RoomDetail(key) => self.room_detail_reply(key, document),
            PendingView::RoomAvatar(base, token, user, room) => self.room_avatar_reply(
                base,
                token,
                user,
                room,
                document,
            ),
            PendingView::RoomAvatarFile => self.room_avatar_file(file),
            PendingView::RoomMessages(room, older) => self.room_messages_reply(room, older, document),
            PendingView::RoomMembers => self.room_members_reply(document),
            PendingView::UserInfo(ticket) => self.user_info_reply(ticket, info),
            PendingView::Thumb(ticket) => self.thumb_reply(ticket, file),
            PendingView::Media => self.media_reply(file),
            PendingView::SendMsg => self.plain_reply(
                document,
                BKResponseView::SendMsg,
                |e: Error| BKResponseView::SendMsgError(e),
            ),
            PendingView::Protocols(server) => self.protocols_reply(server, document),
            PendingView::RoomSearch => self.room_search_reply(document),
            PendingView::JoinRoom(room) => self.join_room_reply(room, document),
            PendingView::LeaveRoom => self.plain_reply(
                document,
                BKResponseView::LeaveRoom,
                |e: Error| BKResponseView::LeaveRoomError(e),
            ),
            PendingView::MarkAsRead(room, event) => self.plain_reply(
                document,
                BKResponseView::MarkedAsRead(room, event),
                |e: Error| BKResponseView::MarkAsReadError(e),
            ),
            PendingView::SetRoomName => self.plain_reply(
                document,
                BKResponseView::SetRoomName,
                |e: Error| BKResponseView::SetRoomNameError(e),
            ),
            PendingView::SetRoomTopic => self.plain_reply(
                document,
                BKResponseView::SetRoomTopic,
                |e: Error| BKResponseView::SetRoomTopicError(e),
            ),
            PendingView::AvatarUpload(record) => self.avatar_upload_reply(record, document),
            PendingView::AvatarSet => self.plain_reply(
                document,
                BKResponseView::SetRoomAvatar,
                |e: Error| BKResponseView::SetRoomAvatarError(e),
            ),
            PendingView::Attach => self.attach_reply(document),
        }
    }
}

} // verus!
