//! What goes in and out of the engine: commands and responses, the outside
//! work that the engine asks for and the outcomes it is told.

use crate::error::Error;
use crate::json::{Json, JsonView};
use crate::types::{Member, MemberView, Message, MessageView, Protocol, ProtocolView, Room, RoomView};
use vstd::prelude::*;

verus! {

/// `std::sync::mpsc::RecvError`: what the receiving end of a channel
/// reports once the channel is closed. Nothing is known of such a value.
#[verifier::external_type_specification]
#[verifier::external_body]
pub struct ExRecvError(std::sync::mpsc::RecvError);

/// A command to the engine.
///
/// Where a command is answered on a one-shot channel of its own, it names
/// that channel by a ticket, and the answer is a [`Reply`] with the same
/// ticket.
#[derive(Debug, PartialEq, Eq)]
pub enum BKCommand {
    /// Open a session: user, password, home server.
    Login(String, String, String),
    /// Create an account: user, password, home server.
    Register(String, String, String),
    /// Open a guest session on this home server.
    Guest(String),
    /// Ask for the display name of the user.
    GetUsername,
    /// Ask for the avatar of the user.
    GetAvatar,
    /// Synchronize with the home server.
    Sync,
    /// Forget the cursor, then synchronize from scratch.
    SyncForced,
    /// Fetch a page of older messages of this room.
    GetRoomMessagesTo(String),
    /// Ask for the avatar of this room.
    GetRoomAvatar(String),
    /// Resolve the thumbnail of this media; the answer goes to the one-shot
    /// channel with this ticket.
    GetThumbAsync(String, u64),
    /// Fetch this media in full.
    GetMedia(String),
    /// Resolve name and avatar of this user; the answer goes to the
    /// one-shot channel with this ticket.
    GetUserInfoAsync(String, u64),
    /// Send this message.
    SendMsg(Message),
    /// Make this room the active one and load it.
    SetRoom(String),
    /// Stop taking commands.
    ShutDown,
    /// List the networks that the directory can be searched for.
    DirectoryProtocols,
    /// Search the directory: free text, network, and whether this asks for
    /// the next page.
    DirectorySearch(String, String, bool),
    /// Join this room.
    JoinRoom(String),
    /// Set the read receipt of this room to this event.
    MarkAsRead(String, String),
    /// Leave this room.
    LeaveRoom(String),
    /// Give this room this name.
    SetRoomName(String, String),
    /// Give this room this topic.
    SetRoomTopic(String, String),
    /// Give this room the avatar in this local file.
    SetRoomAvatar(String, String),
    /// Upload this local file for this room.
    AttachFile(String, String),
}

/// What the engine tells its caller on the shared queue of responses.
#[derive(Debug, PartialEq, Eq)]
pub enum BKResponse {
    /// The session is open: the user id and the access token.
    Token(String, String),
    /// The display name of the user.
    Name(String),
    /// The local file that holds the avatar of the user.
    Avatar(String),
    /// A synchronization has been worked through.
    Sync,
    /// The rooms of a first synchronization, and the room to open.
    Rooms(Vec<Room>, Option<Room>),
    /// A piece of a room's state: the key asked for and its value.
    RoomDetail(String, String),
    /// The local file that holds the avatar of the active room.
    RoomAvatar(String),
    /// The avatar of this room has changed.
    NewRoomAvatar(String),
    /// The messages that a synchronization brought.
    RoomMessages(Vec<Message>),
    /// The newest messages of the room just opened.
    RoomMessagesInit(Vec<Message>),
    /// A page of older messages.
    RoomMessagesTo(Vec<Message>),
    /// The members of the active room.
    RoomMembers(Vec<Member>),
    /// The message was sent.
    SendMsg,
    /// The networks that the directory can be searched for.
    DirectoryProtocols(Vec<Protocol>),
    /// A page of the room directory.
    DirectorySearch(Vec<Room>),
    /// The room was joined.
    JoinRoom,
    /// The room was left.
    LeaveRoom,
    /// The read receipt for this room and event was set.
    MarkedAsRead(String, String),
    /// The name of the room was set.
    SetRoomName,
    /// The topic of the room was set.
    SetRoomTopic,
    /// The avatar of the room was set.
    SetRoomAvatar,
    /// This room has a new name.
    RoomName(String, String),
    /// This room has a new topic.
    RoomTopic(String, String),
    /// The local file that holds the media asked for.
    Media(String),
    /// The file was uploaded: the content URI it can be sent under.
    AttachedFile(String),
    /// The display name of the user could not be had.
    UserNameError(Error),
    /// The avatar of the user could not be had.
    AvatarError(Error),
    /// The login or the registration failed.
    LoginError(Error),
    /// The guest registration failed.
    GuestLoginError(Error),
    /// A synchronization failed, or its answer could not be read.
    SyncError(Error),
    /// A piece of a room's state could not be had.
    RoomDetailError(Error),
    /// The avatar state of a room could not be had.
    RoomAvatarError(Error),
    /// The messages of a room could not be had or read.
    RoomMessagesError(Error),
    /// The members of a room could not be had or read.
    RoomMembersError(Error),
    /// A message could not be sent.
    SendMsgError(Error),
    /// A room could not be loaded as the active one.
    SetRoomError(Error),
    /// A lookup for the sake of the caller could not be begun.
    CommandError(Error),
    /// The room directory could not be asked or read.
    DirectoryError(Error),
    /// A room could not be joined.
    JoinRoomError(Error),
    /// A read receipt could not be set.
    MarkAsReadError(Error),
    /// A room could not be left.
    LeaveRoomError(Error),
    /// The name of a room could not be set.
    SetRoomNameError(Error),
    /// The topic of a room could not be set.
    SetRoomTopicError(Error),
    /// The avatar of a room could not be set.
    SetRoomAvatarError(Error),
    /// The avatar of a room could not be asked for.
    GetRoomAvatarError(Error),
    /// A media file could not be fetched.
    MediaError(Error),
    /// A file could not be uploaded.
    AttachFileError(Error),
}

/// The mathematical content of a [`BKResponse`].
pub enum BKResponseView {
    Token(Seq<char>, Seq<char>),
    Name(Seq<char>),
    Avatar(Seq<char>),
    Sync,
    Rooms(Seq<RoomView>, Option<RoomView>),
    RoomDetail(Seq<char>, Seq<char>),
    RoomAvatar(Seq<char>),
    NewRoomAvatar(Seq<char>),
    RoomMessages(Seq<MessageView>),
    RoomMessagesInit(Seq<MessageView>),
    RoomMessagesTo(Seq<MessageView>),
    RoomMembers(Seq<MemberView>),
    SendMsg,
    DirectoryProtocols(Seq<ProtocolView>),
    DirectorySearch(Seq<RoomView>),
    JoinRoom,
    LeaveRoom,
    MarkedAsRead(Seq<char>, Seq<char>),
    SetRoomName,
    SetRoomTopic,
    SetRoomAvatar,
    RoomName(Seq<char>, Seq<char>),
    RoomTopic(Seq<char>, Seq<char>),
    Media(Seq<char>),
    AttachedFile(Seq<char>),
    UserNameError(Error),
    AvatarError(Error),
    LoginError(Error),
    GuestLoginError(Error),
    SyncError(Error),
    RoomDetailError(Error),
    RoomAvatarError(Error),
    RoomMessagesError(Error),
    RoomMembersError(Error),
    SendMsgError(Error),
    SetRoomError(Error),
    CommandError(Error),
    DirectoryError(Error),
    JoinRoomError(Error),
    MarkAsReadError(Error),
    LeaveRoomError(Error),
    SetRoomNameError(Error),
    SetRoomTopicError(Error),
    SetRoomAvatarError(Error),
    GetRoomAvatarError(Error),
    MediaError(Error),
    AttachFileError(Error),
}

impl View for BKResponse {
    type V = BKResponseView;

    open spec fn view(&self) -> BKResponseView {
        match self {
            BKResponse::Token(a, b) => BKResponseView::Token(a@, b@),
            BKResponse::Name(a) => BKResponseView::Name(a@),
            BKResponse::Avatar(a) => BKResponseView::Avatar(a@),
            BKResponse::Sync => BKResponseView::Sync,
            BKResponse::Rooms(a, b) => BKResponseView::Rooms(a.deep_view(), b.deep_view()),
            BKResponse::RoomDetail(a, b) => BKResponseView::RoomDetail(a@, b@),
            BKResponse::RoomAvatar(a) => BKResponseView::RoomAvatar(a@),
            BKResponse::NewRoomAvatar(a) => BKResponseView::NewRoomAvatar(a@),
            BKResponse::RoomMessages(a) => BKResponseView::RoomMessages(a.deep_view()),
            BKResponse::RoomMessagesInit(a) => BKResponseView::RoomMessagesInit(a.deep_view()),
            BKResponse::RoomMessagesTo(a) => BKResponseView::RoomMessagesTo(a.deep_view()),
            BKResponse::RoomMembers(a) => BKResponseView::RoomMembers(a.deep_view()),
            BKResponse::SendMsg => BKResponseView::SendMsg,
            BKResponse::DirectoryProtocols(a) => BKResponseView::DirectoryProtocols(a.deep_view()),
            BKResponse::DirectorySearch(a) => BKResponseView::DirectorySearch(a.deep_view()),
            BKResponse::JoinRoom => BKResponseView::JoinRoom,
            BKResponse::LeaveRoom => BKResponseView::LeaveRoom,
            BKResponse::MarkedAsRead(a, b) => BKResponseView::MarkedAsRead(a@, b@),
            BKResponse::SetRoomName => BKResponseView::SetRoomName,
            BKResponse::SetRoomTopic => BKResponseView::SetRoomTopic,
            BKResponse::SetRoomAvatar => BKResponseView::SetRoomAvatar,
            BKResponse::RoomName(a, b) => BKResponseView::RoomName(a@, b@),
            BKResponse::RoomTopic(a, b) => BKResponseView::RoomTopic(a@, b@),
            BKResponse::Media(a) => BKResponseView::Media(a@),
            BKResponse::AttachedFile(a) => BKResponseView::AttachedFile(a@),
            BKResponse::UserNameError(e) => BKResponseView::UserNameError(*e),
            BKResponse::AvatarError(e) => BKResponseView::AvatarError(*e),
            BKResponse::LoginError(e) => BKResponseView::LoginError(*e),
            BKResponse::GuestLoginError(e) => BKResponseView::GuestLoginError(*e),
            BKResponse::SyncError(e) => BKResponseView::SyncError(*e),
            BKResponse::RoomDetailError(e) => BKResponseView::RoomDetailError(*e),
            BKResponse::RoomAvatarError(e) => BKResponseView::RoomAvatarError(*e),
            BKResponse::RoomMessagesError(e) => BKResponseView::RoomMessagesError(*e),
            BKResponse::RoomMembersError(e) => BKResponseView::RoomMembersError(*e),
            BKResponse::SendMsgError(e) => BKResponseView::SendMsgError(*e),
            BKResponse::SetRoomError(e) => BKResponseView::SetRoomError(*e),
            BKResponse::CommandError(e) => BKResponseView::CommandError(*e),
            BKResponse::DirectoryError(e) => BKResponseView::DirectoryError(*e),
            BKResponse::JoinRoomError(e) => BKResponseView::JoinRoomError(*e),
            BKResponse::MarkAsReadError(e) => BKResponseView::MarkAsReadError(*e),
            BKResponse::LeaveRoomError(e) => BKResponseView::LeaveRoomError(*e),
            BKResponse::SetRoomNameError(e) => BKResponseView::SetRoomNameError(*e),
            BKResponse::SetRoomTopicError(e) => BKResponseView::SetRoomTopicError(*e),
            BKResponse::SetRoomAvatarError(e) => BKResponseView::SetRoomAvatarError(*e),
            BKResponse::GetRoomAvatarError(e) => BKResponseView::GetRoomAvatarError(*e),
            BKResponse::MediaError(e) => BKResponseView::MediaError(*e),
            BKResponse::AttachFileError(e) => BKResponseView::AttachFileError(*e),
        }
    }
}

impl DeepView for BKResponse {
    type V = BKResponseView;

    open spec fn deep_view(&self) -> BKResponseView {
        self@
    }
}

/// An answer on a one-shot channel, named by its ticket.
#[derive(Debug, PartialEq, Eq)]
pub enum Reply {
    /// The local file that holds a thumbnail; empty where it could not be
    /// had.
    Thumb(u64, String),
    /// The display name of a user and the local file that holds the
    /// avatar; both empty where they could not be had.
    UserInfo(u64, String, String),
}

/// The mathematical content of a [`Reply`].
pub enum ReplyView {
    Thumb(u64, Seq<char>),
    UserInfo(u64, Seq<char>, Seq<char>),
}

impl View for Reply {
    type V = ReplyView;

    open spec fn view(&self) -> ReplyView {
        match self {
            Reply::Thumb(t, path) => ReplyView::Thumb(*t, path@),
            Reply::UserInfo(t, name, path) => ReplyView::UserInfo(*t, name@, path@),
        }
    }
}

impl DeepView for Reply {
    type V = ReplyView;

    open spec fn deep_view(&self) -> ReplyView {
        self@
    }
}

/// How a request is put to the home server.
#[derive(Debug, Clone, Copy, PartialEq, Eq, Structural)]
pub enum Method {
    Get,
    Post,
    Put,
}

/// A piece of outside work that the engine asks for. Whatever is asked of
/// the home server is asked with the access token of the session.
#[derive(Debug, PartialEq, Eq)]
pub enum Work {
    /// Put a request with a JSON body to the home server and read the JSON
    /// document that it answers.
    Query { method: Method, url: String, body: Json },
    /// Read the local file at `path` and post its bytes to `url`; read the
    /// JSON document that comes back.
    Upload { url: String, path: String },
    /// Resolve the display name of `user` and a local file with the avatar.
    UserAvatar { base: String, token: String, user: String },
    /// Resolve the avatar of `room`, which has none of its own, to a local
    /// file.
    RoomAvatar { base: String, token: String, user: String, room: String },
    /// Resolve the thumbnail of the content URI `media` to a local file.
    Thumbnail { base: String, token: String, media: String },
    /// Fetch the content URI `media` into a local file.
    Media { base: String, token: String, media: String },
}

/// The mathematical content of a [`Work`].
pub enum WorkView {
    Query { method: Method, url: Seq<char>, body: JsonView },
    Upload { url: Seq<char>, path: Seq<char> },
    UserAvatar { base: Seq<char>, token: Seq<char>, user: Seq<char> },
    RoomAvatar { base: Seq<char>, token: Seq<char>, user: Seq<char>, room: Seq<char> },
    Thumbnail { base: Seq<char>, token: Seq<char>, media: Seq<char> },
    Media { base: Seq<char>, token: Seq<char>, media: Seq<char> },
}

impl View for Work {
    type V = WorkView;

    open spec fn view(&self) -> WorkView {
        match self {
            Work::Query { method, url, body } => WorkView::Query {
                method: *method,
                url: url@,
                body: body@,
            },
            Work::Upload { url, path } => WorkView::Upload { url: url@, path: path@ },
            Work::UserAvatar { base, token, user } => WorkView::UserAvatar {
                base: base@,
                token: token@,
                user: user@,
            },
            Work::RoomAvatar { base, token, user, room } => WorkView::RoomAvatar {
                base: base@,
                token: token@,
                user: user@,
                room: room@,
            },
            Work::Thumbnail { base, token, media } => WorkView::Thumbnail {
                base: base@,
                token: token@,
                media: media@,
            },
            Work::Media { base, token, media } => WorkView::Media {
                base: base@,
                token: token@,
                media: media@,
            },
        }
    }
}

/// What the outcome of a piece of work is for.
#[derive(Debug, PartialEq, Eq)]
pub enum Pending {
    /// The answer to a guest registration.
    Guest,
    /// The answer to a login or a registration.
    Login,
    /// The answer to the question for the display name of this user.
    Username(String),
    /// The avatar of the user, resolved.
    Avatar,
    /// The answer to a synchronization: whether it is a first one, and for
    /// which user.
    Sync(bool, String),
    /// The answer to the question for this piece of room state.
    RoomDetail(String),
    /// The avatar state of a room: the server's address, the access token,
    /// the user and the room it was asked with.
    RoomAvatar(String, String, String, String),
    /// The avatar of a room, resolved to a file.
    RoomAvatarFile,
    /// A page of this room's messages; whether it is a page of older ones.
    RoomMessages(String, bool),
    /// The member events of a room.
    RoomMembers,
    /// Name and avatar of a user, for the channel with this ticket.
    UserInfo(u64),
    /// A thumbnail, for the channel with this ticket.
    Thumb(u64),
    /// A media file, fetched.
    Media,
    /// The answer to a message sent.
    SendMsg,
    /// The networks of the directory; the name of the home server asked.
    Protocols(String),
    /// A page of the room directory.
    RoomSearch,
    /// The answer to joining this room.
    JoinRoom(String),
    /// The answer to leaving a room.
    LeaveRoom,
    /// The answer to setting the read receipt of this room to this event.
    MarkAsRead(String, String),
    /// The answer to naming a room.
    SetRoomName,
    /// The answer to setting a room's topic.
    SetRoomTopic,
    /// The upload of a room avatar; the address at which to record it.
    AvatarUpload(String),
    /// The answer to recording a room's avatar.
    AvatarSet,
    /// The upload of an attachment.
    Attach,
}

/// The mathematical content of a [`Pending`].
pub enum PendingView {
    Guest,
    Login,
    Username(Seq<char>),
    Avatar,
    Sync(bool, Seq<char>),
    RoomDetail(Seq<char>),
    RoomAvatar(Seq<char>, Seq<char>, Seq<char>, Seq<char>),
    RoomAvatarFile,
    RoomMessages(Seq<char>, bool),
    RoomMembers,
    UserInfo(u64),
    Thumb(u64),
    Media,
    SendMsg,
    Protocols(Seq<char>),
    RoomSearch,
    JoinRoom(Seq<char>),
    LeaveRoom,
    MarkAsRead(Seq<char>, Seq<char>),
    SetRoomName,
    SetRoomTopic,
    AvatarUpload(Seq<char>),
    AvatarSet,
    Attach,
}

impl View for Pending {
    type V = PendingView;

    open spec fn view(&self) -> PendingView {
        match self {
            Pending::Guest => PendingView::Guest,
            Pending::Login => PendingView::Login,
            Pending::Username(a) => PendingView::Username(a@),
            Pending::Avatar => PendingView::Avatar,
            Pending::Sync(a, b) => PendingView::Sync(*a, b@),
            Pending::RoomDetail(a) => PendingView::RoomDetail(a@),
            Pending::RoomAvatar(a, b, c, d) => PendingView::RoomAvatar(a@, b@, c@, d@),
            Pending::RoomAvatarFile => PendingView::RoomAvatarFile,
            Pending::RoomMessages(a, b) => PendingView::RoomMessages(a@, *b),
            Pending::RoomMembers => PendingView::RoomMembers,
            Pending::UserInfo(a) => PendingView::UserInfo(*a),
            Pending::Thumb(a) => PendingView::Thumb(*a),
            Pending::Media => PendingView::Media,
            Pending::SendMsg => PendingView::SendMsg,
            Pending::Protocols(a) => PendingView::Protocols(a@),
            Pending::RoomSearch => PendingView::RoomSearch,
            Pending::JoinRoom(a) => PendingView::JoinRoom(a@),
            Pending::LeaveRoom => PendingView::LeaveRoom,
            Pending::MarkAsRead(a, b) => PendingView::MarkAsRead(a@, b@),
            Pending::SetRoomName => PendingView::SetRoomName,
            Pending::SetRoomTopic => PendingView::SetRoomTopic,
            Pending::AvatarUpload(a) => PendingView::AvatarUpload(a@),
            Pending::AvatarSet => PendingView::AvatarSet,
            Pending::Attach => PendingView::Attach,
        }
    }
}

impl PendingView {
    /// Whether work for this purpose is done apart from the dispatcher, so
    /// that the commands that follow need not wait for it: the resolving of
    /// avatars of users, of thumbnails and of media, the fetching of a
    /// room's messages, and every upload with what follows from it.
    pub open spec fn apart(self) -> bool {
        self is Avatar || self is UserInfo || self is Thumb || self is Media
            || self is RoomMessages || self is AvatarUpload || self is AvatarSet || self is Attach
    }
}

impl Pending {
    /// Whether work for this purpose is done apart from the dispatcher.
    pub fn runs_apart(&self) -> (r: bool)
        ensures
            r == self@.apart(),
    {
        match self {
            Pending::Avatar => true,
            Pending::UserInfo(_) => true,
            Pending::Thumb(_) => true,
            Pending::Media => true,
            Pending::RoomMessages(_, _) => true,
            Pending::AvatarUpload(_) => true,
            Pending::AvatarSet => true,
            Pending::Attach => true,
            _ => false,
        }
    }
}

/// A piece of outside work together with what its outcome is for.
#[derive(Debug, PartialEq, Eq)]
pub struct Task {
    pub work: Work,
    pub purpose: Pending,
}

/// The mathematical content of a [`Task`].
pub struct TaskView {
    pub work: WorkView,
    pub purpose: PendingView,
}

impl View for Task {
    type V = TaskView;

    open spec fn view(&self) -> TaskView {
        TaskView { work: self.work@, purpose: self.purpose@ }
    }
}

impl DeepView for Task {
    type V = TaskView;

    open spec fn deep_view(&self) -> TaskView {
        self@
    }
}

/// How a piece of outside work ended.
#[derive(Debug, PartialEq, Eq)]
pub enum Outcome {
    /// It failed.
    Failed(Error),
    /// The home server answered with this document.
    Document(Json),
    /// A local file with this path holds what was asked for.
    File(String),
    /// The display name of a user and the local file with the avatar.
    UserInfo(String, String),
}

} // verus!
