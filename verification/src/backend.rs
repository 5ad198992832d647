//! The engine itself: the session state together with what it has asked
//! for and said.
//!
//! An operation does no outside work. It queues a [`Task`] that names the
//! work, and [`Backend::finish`] is told how the work ended. Whoever runs the
//! engine takes the tasks, the responses and the answers for one-shot
//! channels out of it after each call.

use crate::decode::changes::decode_changes;
use crate::decode::collect::{lemma_empty_text, lemma_push_view};
use crate::decode::directory::{decode_directory, decode_protocols};
use crate::decode::members::decode_members;
use crate::decode::rooms::{decode_rooms, pick_default};
use crate::decode::timeline::{decode_page, decode_timeline};
use crate::error::Error;
use crate::json::{put, single, Json, JsonView};
use crate::model::{
    document_of, file_of, login_body, message_body, optional_text, page_params, register_body,
    search_body, sync_params, user_info_of, BackendView, DIRECTORY_LIMIT, INITIAL_FILTER,
    PAGE_LIMIT,
};
use crate::protocol::{
    BKCommand, BKResponse, BKResponseView, Method, Outcome, Pending, Reply, Task, Work,
};
use crate::session::BackendData;
use crate::text::{decimal_text, last_segment};
use crate::transport::{address_of, base_url, build_url, client_url, media_url};
use crate::types::{Message, Room};
use vstd::prelude::*;

verus! {

/// The engine.
pub struct Backend {
    data: BackendData,
    tasks: Vec<Task>,
    tx: Vec<BKResponse>,
    replies: Vec<Reply>,
}

impl View for Backend {
    type V = BackendView;

    closed spec fn view(&self) -> BackendView {
        BackendView {
            data: self.data@,
            tasks: self.tasks.deep_view(),
            responses: self.tx.deep_view(),
            replies: self.replies.deep_view(),
        }
    }
}

/// The document in a result, as the model reads it.
pub open spec fn document_in(r: Result<Json, Error>) -> Result<JsonView, Error> {
    match r {
        Ok(j) => Ok(j@),
        Err(e) => Err(e),
    }
}

/// The path in a result, as the model reads it.
pub open spec fn file_in(r: Result<String, Error>) -> Result<Seq<char>, Error> {
    match r {
        Ok(p) => Ok(p@),
        Err(e) => Err(e),
    }
}

/// The name and the path in a result, as the model reads them.
pub open spec fn info_in(r: Result<(String, String), Error>) -> Result<(Seq<char>, Seq<char>), Error> {
    match r {
        Ok(i) => Ok((i.0@, i.1@)),
        Err(e) => Err(e),
    }
}

/// The document that a piece of work ended with.
pub fn into_document(outcome: Outcome) -> (r: Result<Json, Error>)
    ensures
        document_in(r) == document_of(outcome),
{
    match outcome {
        Outcome::Document(j) => Ok(j),
        Outcome::Failed(e) => Err(e),
        _ => Err(Error::BackendError),
    }
}

/// The file that a piece of work ended with.
pub fn into_file(outcome: Outcome) -> (r: Result<String, Error>)
    ensures
        file_in(r) == file_of(outcome),
{
    match outcome {
        Outcome::File(path) => Ok(path),
        Outcome::Failed(e) => Err(e),
        _ => Err(Error::BackendError),
    }
}

/// The name and the avatar file that a piece of work ended with.
pub fn into_user_info(outcome: Outcome) -> (r: Result<(String, String), Error>)
    ensures
        info_in(r) == user_info_of(outcome),
{
    match outcome {
        Outcome::UserInfo(name, path) => Ok((name, path)),
        Outcome::Failed(e) => Err(e),
        _ => Err(Error::BackendError),
    }
}

/// A query with nothing in it.
fn no_params() -> (r: Vec<(&'static str, String)>)
    ensures
        r.deep_view() == Seq::<(Seq<char>, Seq<char>)>::empty(),
{
    let r: Vec<(&'static str, String)> = Vec::new();
    assert(r.deep_view() =~= Seq::empty());
    r
}

/// Appends `key=value` to a query.
fn param(params: &mut Vec<(&'static str, String)>, key: &'static str, value: String)
    ensures
        final(params).deep_view() == old(params).deep_view().push((key@, value@)),
{
    params.push((key, value));
    assert(params.deep_view() =~= old(params).deep_view().push((key@, value@)));
}

/// A list of members with nothing in it.
fn no_members() -> (r: Vec<(String, Json)>)
    ensures
        r.deep_view() == Seq::<(Seq<char>, JsonView)>::empty(),
{
    let r: Vec<(String, Json)> = Vec::new();
    assert(r.deep_view() =~= Seq::empty());
    r
}

impl Backend {
    /// An engine with no session, which has asked for nothing and said
    /// nothing.
    pub fn new() -> (r: Backend)
        ensures
            r@ == BackendView::initial(),
    {
        let r = Backend {
            data: BackendData::new(),
            tasks: Vec::new(),
            tx: Vec::new(),
            replies: Vec::new(),
        };
        proof {
            assert(r.tasks.deep_view() =~= Seq::empty());
            assert(r.tx.deep_view() =~= Seq::empty());
            assert(r.replies.deep_view() =~= Seq::empty());
        }
        r
    }

    /// The state of the session.
    pub fn data(&self) -> (r: &BackendData)
        ensures
            r@ == self@.data,
    {
        &self.data
    }

    /// Takes the outside work asked for out of the engine, oldest first.
    pub fn take_tasks(&mut self) -> (r: Vec<Task>)
        ensures
            r.deep_view() == old(self)@.tasks,
            final(self)@ == (BackendView { tasks: Seq::empty(), ..old(self)@ }),
    {
        let mut out: Vec<Task> = Vec::new();
        std::mem::swap(&mut out, &mut self.tasks);
        proof {
            assert(self.tasks.deep_view() =~= Seq::empty());
        }
        out
    }

    /// Takes the responses for the shared queue out of the engine, oldest
    /// first.
    pub fn take_responses(&mut self) -> (r: Vec<BKResponse>)
        ensures
            r.deep_view() == old(self)@.responses,
            final(self)@ == (BackendView { responses: Seq::empty(), ..old(self)@ }),
    {
        let mut out: Vec<BKResponse> = Vec::new();
        std::mem::swap(&mut out, &mut self.tx);
        proof {
            assert(self.tx.deep_view() =~= Seq::empty());
        }
        out
    }

    /// Takes the answers for one-shot channels out of the engine, oldest
    /// first.
    pub fn take_replies(&mut self) -> (r: Vec<Reply>)
        ensures
            r.deep_view() == old(self)@.replies,
            final(self)@ == (BackendView { replies: Seq::empty(), ..old(self)@ }),
    {
        let mut out: Vec<Reply> = Vec::new();
        std::mem::swap(&mut out, &mut self.replies);
        proof {
            assert(self.replies.deep_view() =~= Seq::empty());
        }
        out
    }

    /// Asks for one more piece of outside work, to the given purpose.
    pub fn queue(&mut self, work: Work, purpose: Pending)
        ensures
            final(self)@ == old(self)@.queue(work@, purpose@),
    {
        let task = Task { work, purpose };
        let ghost before = self.tasks;
        self.tasks.push(task);
        proof {
            lemma_push_view(before, self.tasks, task);
        }
    }

    fn emit(&mut self, response: BKResponse)
        ensures
            final(self)@ == old(self)@.emit(response@),
    {
        let ghost before = self.tx;
        self.tx.push(response);
        proof {
            lemma_push_view(before, self.tx, response);
        }
    }

    fn emit_all(&mut self, responses: Vec<BKResponse>)
        ensures
            final(self)@ == old(self)@.emit_all(responses.deep_view()),
    {
        let mut responses = responses;
        let ghost before = self.tx.deep_view();
        let ghost more = responses.deep_view();
        self.tx.append(&mut responses);
        proof {
            assert(self.tx.deep_view() =~= before + more);
        }
    }

    fn answer(&mut self, reply: Reply)
        ensures
            final(self)@ == old(self)@.answer(reply@),
    {
        let ghost before = self.replies;
        self.replies.push(reply);
        proof {
            lemma_push_view(before, self.replies, reply);
        }
    }

    /// The address of the home server of the session.
    pub fn get_base_url(&self) -> (r: Result<String, Error>)
        ensures
            address_of(r) == self@.base_url(),
    {
        base_url(self.data.server_url.as_str())
    }

    /// The address of the client API's `path` on the home server, with
    /// `params` and then the access token as its query.
    pub fn url(&self, path: &str, params: Vec<(&str, String)>) -> (r: Result<String, Error>)
        ensures
            address_of(r) == self@.url(path@, params.deep_view()),
    {
        let base = self.get_base_url()?;
        let mut params = params;
        let ghost before = params;
        let token = self.data.access_token.clone();
        params.push(("access_token", token));
        proof {
            lemma_push_view(before, params, ("access_token", token));
        }
        client_url(base.as_str(), path, &params)
    }

    /// Asks the home server at `url`, where that address could be built:
    /// where it could not, nothing is asked for and the error is handed
    /// back.
    pub fn ask(&mut self, url: Result<String, Error>, method: Method, body: Json, purpose: Pending) -> (r:
        Result<(), Error>)
        ensures
            (final(self)@, r) == old(self)@.ask(address_of(url), method, body@, purpose@),
    {
        match url {
            Ok(url) => {
                self.queue(Work::Query { method, url, body }, purpose);
                Ok(())
            },
            Err(e) => Err(e),
        }
    }

    /// Opens a guest session on `server`.
    ///
    /// Fails, and changes nothing, where the address of the registration
    /// cannot be built from `server`.
    pub fn guest(&mut self, server: String) -> (r: Result<(), Error>)
        ensures
            (final(self)@, r) == old(self)@.guest(server@),
    {
        let base = base_url(server.as_str())?;
        let mut params = no_params();
        param(&mut params, "kind", String::from_str("guest"));
        param(&mut params, "access_token", self.data.access_token.clone());
        proof {
            assert(params.deep_view() =~= seq![
                ("kind"@, "guest"@),
                ("access_token"@, self@.data.access_token),
            ]);
        }
        let url = client_url(base.as_str(), "register", &params)?;
        self.data.server_url = server;
        self.queue(Work::Query { method: Method::Post, url, body: Json::Null }, Pending::Guest);
        Ok(())
    }

    /// Logs `user` in on `server`, which is the home server of the session
    /// from now on.
    pub fn login(&mut self, user: String, password: String, server: String) -> (r: Result<(), Error>)
        ensures
            (final(self)@, r) == old(self)@.login(user@, password@, server@),
    {
        self.data.server_url = server;
        let url = self.url("login", no_params());
        let mut members = no_members();
        put(&mut members, "password", Json::Text(password));
        put(&mut members, "type", Json::text("m.login.password"));
        put(&mut members, "user", Json::Text(user));
        proof {
            assert(members.deep_view() =~= login_body(user@, password@)->Dict_0);
        }
        self.ask(url, Method::Post, Json::object(members), Pending::Login)
    }

    /// Registers `user` on `server`, which is the home server of the
    /// session from now on.
    pub fn register(&mut self, user: String, password: String, server: String) -> (r: Result<
        (),
        Error,
    >)
        ensures
            (final(self)@, r) == old(self)@.register(user@, password@, server@),
    {
        self.data.server_url = server;
        let mut params = no_params();
        param(&mut params, "kind", String::from_str("user"));
        let url = self.url("register", params);
        let mut members = no_members();
        put(&mut members, "auth", single("type", "m.login.password"));
        put(&mut members, "bind_email", Json::Bool(false));
        put(&mut members, "password", Json::Text(password));
        put(&mut members, "username", Json::Text(user));
        proof {
            assert(members.deep_view() =~= register_body(user@, password@)->Dict_0);
        }
        self.ask(url, Method::Post, Json::object(members), Pending::Login)
    }

    /// Asks for the display name of the user.
    pub fn get_username(&mut self) -> (r: Result<(), Error>)
        ensures
            (final(self)@, r) == old(self)@.get_username(),
    {
        let id = self.data.user_id.clone();
        let path = String::from_str("profile/").concat(id.as_str()).concat("/displayname");
        let url = self.url(path.as_str(), no_params());
        self.ask(url, Method::Get, Json::Null, Pending::Username(id))
    }

    /// Asks for the avatar of the user.
    pub fn get_avatar(&mut self) -> (r: Result<(), Error>)
        ensures
            (final(self)@, r) == old(self)@.get_avatar(),
    {
        let base = self.get_base_url()?;
        let token = self.data.access_token.clone();
        let user = self.data.user_id.clone();
        self.queue(Work::UserAvatar { base, token, user }, Pending::Avatar);
        Ok(())
    }

    /// Synchronizes with the home server: a first time for the state of all
    /// rooms, and from then on for what is new since the cursor.
    pub fn sync(&mut self) -> (r: Result<(), Error>)
        ensures
            (final(self)@, r) == old(self)@.sync(),
    {
        let since = self.data.since.clone();
        let user = self.data.user_id.clone();
        let initial = since.as_str().is_empty();
        let mut params = no_params();
        param(&mut params, "full_state", String::from_str("false"));
        param(&mut params, "timeout", String::from_str("30000"));
        if initial {
            param(&mut params, "filter", String::from_str(INITIAL_FILTER));
        } else {
            param(&mut params, "since", since);
        }
        proof {
            assert(params.deep_view() =~= sync_params(self@.data.since));
        }
        let url = self.url("sync", params);
        self.ask(url, Method::Get, Json::Null, Pending::Sync(initial, user))
    }

    /// Asks for the piece `key` of the state of the room `roomid`.
    pub fn get_room_detail(&mut self, roomid: String, key: String) -> (r: Result<(), Error>)
        ensures
            (final(self)@, r) == old(self)@.get_room_detail(roomid@, key@),
    {
        let path = String::from_str("rooms/").concat(roomid.as_str()).concat("/state/").concat(
            key.as_str(),
        );
        let url = self.url(path.as_str(), no_params());
        self.ask(url, Method::Get, Json::Null, Pending::RoomDetail(key))
    }

    /// Asks for the avatar of the room `roomid`.
    pub fn get_room_avatar(&mut self, roomid: String) -> (r: Result<(), Error>)
        ensures
            (final(self)@, r) == old(self)@.get_room_avatar(roomid@),
    {
        let user = self.data.user_id.clone();
        let base = self.get_base_url()?;
        let token = self.data.access_token.clone();
        let path = String::from_str("rooms/").concat(roomid.as_str()).concat(
            "/state/m.room.avatar",
        );
        let url = self.url(path.as_str(), no_params());
        self.ask(url, Method::Get, Json::Null, Pending::RoomAvatar(base, token, user, roomid))
    }

    /// Asks for messages of the room `roomid`: the newest ones, or, with
    /// `to`, those before the older edge of what is loaded.
    ///
    /// Fails only where the name of the home server cannot be read. Where
    /// the request cannot be made for another reason, the caller is told so
    /// on the queue of responses, as for a fetch that failed.
    pub fn get_room_messages(&mut self, roomid: String, to: bool) -> (r: Result<(), Error>)
        ensures
            (final(self)@, r) == old(self)@.get_room_messages(roomid@, to),
    {
        let base = self.get_base_url()?;
        let mut params = no_params();
        param(&mut params, "dir", String::from_str("b"));
        param(&mut params, "limit", String::from_str(PAGE_LIMIT));
        param(&mut params, "access_token", self.data.access_token.clone());
        if to {
            param(&mut params, "from", self.data.msgs_batch_start.clone());
        }
        proof {
            assert(params.deep_view() =~= page_params(
                self@.data.access_token,
                to,
                self@.data.msgs_batch_start,
            ));
        }
        let path = String::from_str("rooms/").concat(roomid.as_str()).concat("/messages");
        match client_url(base.as_str(), path.as_str(), &params) {
            Ok(url) => {
                self.queue(
                    Work::Query { method: Method::Get, url, body: Json::Null },
                    Pending::RoomMessages(roomid, to),
                );
            },
            Err(e) => {
                self.emit(BKResponse::RoomMessagesError(e));
            },
        }
        Ok(())
    }

    /// Asks for the members of the room `roomid`.
    pub fn get_room_members(&mut self, roomid: String) -> (r: Result<(), Error>)
        ensures
            (final(self)@, r) == old(self)@.get_room_members(roomid@),
    {
        let path = String::from_str("rooms/").concat(roomid.as_str()).concat("/members");
        let url = self.url(path.as_str(), no_params());
        self.ask(url, Method::Get, Json::Null, Pending::RoomMembers)
    }

    /// Asks for name and avatar of the user `uid`; the answer is a
    /// [`Reply`] with the ticket `tx`.
    pub fn get_user_info_async(&mut self, uid: &str, tx: u64) -> (r: Result<(), Error>)
        ensures
            (final(self)@, r) == old(self)@.get_user_info_async(uid@, tx),
    {
        let base = self.get_base_url()?;
        let token = self.data.access_token.clone();
        self.queue(
            Work::UserAvatar { base, token, user: String::from_str(uid) },
            Pending::UserInfo(tx),
        );
        Ok(())
    }

    /// Asks for the thumbnail of `media`; the answer is a [`Reply`] with
    /// the ticket `tx`.
    pub fn get_thumb_async(&mut self, media: String, tx: u64) -> (r: Result<(), Error>)
        ensures
            (final(self)@, r) == old(self)@.get_thumb_async(media@, tx),
    {
        let base = self.get_base_url()?;
        let token = self.data.access_token.clone();
        self.queue(Work::Thumbnail { base, token, media }, Pending::Thumb(tx));
        Ok(())
    }

    /// Asks for `media` in full.
    pub fn get_media(&mut self, media: String) -> (r: Result<(), Error>)
        ensures
            (final(self)@, r) == old(self)@.get_media(media@),
    {
        let base = self.get_base_url()?;
        let token = self.data.access_token.clone();
        self.queue(Work::Media { base, token, media }, Pending::Media);
        Ok(())
    }

    /// Sends `msg` to its room, under the next number of the session. The
    /// number is used up even where the message cannot be sent.
    pub fn send_msg(&mut self, msg: Message) -> (r: Result<(), Error>)
        requires
            old(self)@.data.msgid < i32::MAX,
        ensures
            (final(self)@, r) == old(self)@.send_msg(msg@),
    {
        self.data.msgid = self.data.msgid + 1;
        let number = decimal_text(self.data.msgid as i64);
        let path = String::from_str("rooms/").concat(msg.room.as_str()).concat(
            "/send/m.room.message/",
        ).concat(number.as_str());
        let url = self.url(path.as_str(), no_params());
        let mut members = no_members();
        put(&mut members, "body", Json::Text(msg.body));
        put(&mut members, "msgtype", Json::Text(msg.mtype));
        proof {
            assert(members.deep_view() =~= message_body(msg@)->Dict_0);
        }
        self.ask(url, Method::Put, Json::object(members), Pending::SendMsg)
    }

    /// Asks for the networks that the room directory can be searched for.
    pub fn protocols(&mut self) -> (r: Result<(), Error>)
        ensures
            (final(self)@, r) == old(self)@.protocols(),
    {
        let base = self.get_base_url()?;
        let mut params = no_params();
        param(&mut params, "access_token", self.data.access_token.clone());
        let url = build_url(
            base.as_str(),
            "/_matrix/client/unstable/thirdparty/protocols",
            &params,
        );
        let server = self.data.server_url.clone();
        self.ask(url, Method::Get, Json::Null, Pending::Protocols(server))
    }

    /// Searches the room directory: a first page for `query` on the network
    /// `third_party`, or, with `more`, the page after the one read last.
    pub fn room_search(&mut self, query: Option<String>, third_party: Option<String>, more: bool) -> (r:
        Result<(), Error>)
        ensures
            (final(self)@, r) == old(self)@.room_search(
                optional_text(query),
                optional_text(third_party),
                more,
            ),
    {
        let url = self.url("publicRooms", no_params());
        let mut members = no_members();
        if more {
            put(&mut members, "limit", Json::Number(Some(DIRECTORY_LIMIT)));
            put(&mut members, "since", Json::Text(self.data.rooms_since.clone()));
        } else {
            match query {
                Some(q) => {
                    put(&mut members, "filter", single("generic_search_term", q.as_str()));
                },
                None => {},
            }
            put(&mut members, "limit", Json::Number(Some(DIRECTORY_LIMIT)));
            match third_party {
                Some(tp) => {
                    put(&mut members, "third_party_instance_id", Json::Text(tp));
                },
                None => {},
            }
        }
        let body = Json::object(members);
        proof {
            let expected = search_body(
                optional_text(query),
                optional_text(third_party),
                more,
                self@.data.rooms_since,
            );
            assert(members.deep_view() =~= expected->Dict_0);
        }
        self.ask(url, Method::Post, body, Pending::RoomSearch)
    }

    /// Joins the room `roomid`.
    pub fn join_room(&mut self, roomid: String) -> (r: Result<(), Error>)
        ensures
            (final(self)@, r) == old(self)@.join_room(roomid@),
    {
        let path = String::from_str("rooms/").concat(roomid.as_str()).concat("/join");
        let url = self.url(path.as_str(), no_params());
        self.ask(url, Method::Post, Json::Null, Pending::JoinRoom(roomid))
    }

    /// Leaves the room `roomid`.
    pub fn leave_room(&mut self, roomid: String) -> (r: Result<(), Error>)
        ensures
            (final(self)@, r) == old(self)@.leave_room(roomid@),
    {
        let path = String::from_str("rooms/").concat(roomid.as_str()).concat("/leave");
        let url = self.url(path.as_str(), no_params());
        self.ask(url, Method::Post, Json::Null, Pending::LeaveRoom)
    }

    /// Sets the read receipt of the room `roomid` to the event `eventid`.
    pub fn mark_as_read(&mut self, roomid: String, eventid: String) -> (r: Result<(), Error>)
        ensures
            (final(self)@, r) == old(self)@.mark_as_read(roomid@, eventid@),
    {
        let path = String::from_str("rooms/").concat(roomid.as_str()).concat(
            "/receipt/m.read/",
        ).concat(eventid.as_str());
        let url = self.url(path.as_str(), no_params());
        self.ask(url, Method::Post, Json::Null, Pending::MarkAsRead(roomid, eventid))
    }

    /// Gives the room `roomid` the name `name`.
    pub fn set_room_name(&mut self, roomid: String, name: String) -> (r: Result<(), Error>)
        ensures
            (final(self)@, r) == old(self)@.set_room_name(roomid@, name@),
    {
        let path = String::from_str("rooms/").concat(roomid.as_str()).concat("/state/m.room.name");
        let url = self.url(path.as_str(), no_params());
        self.ask(url, Method::Put, single("name", name.as_str()), Pending::SetRoomName)
    }

    /// Gives the room `roomid` the topic `topic`.
    pub fn set_room_topic(&mut self, roomid: String, topic: String) -> (r: Result<(), Error>)
        ensures
            (final(self)@, r) == old(self)@.set_room_topic(roomid@, topic@),
    {
        let path = String::from_str("rooms/").concat(roomid.as_str()).concat(
            "/state/m.room.topic",
        );
        let url = self.url(path.as_str(), no_params());
        self.ask(url, Method::Put, single("topic", topic.as_str()), Pending::SetRoomTopic)
    }

    fn upload_url(&self) -> (r: Result<String, Error>)
        ensures
            address_of(r) == self@.upload_url(),
    {
        let base = self.get_base_url()?;
        let mut params = no_params();
        param(&mut params, "access_token", self.data.access_token.clone());
        media_url(base.as_str(), "upload", &params)
    }

    /// Gives the room `roomid` the avatar in the local file `avatar`.
    pub fn set_room_avatar(&mut self, roomid: String, avatar: String) -> (r: Result<(), Error>)
        ensures
            (final(self)@, r) == old(self)@.set_room_avatar(roomid@, avatar@),
    {
        let media = self.upload_url()?;
        let path = String::from_str("rooms/").concat(roomid.as_str()).concat(
            "/state/m.room.avatar",
        );
        let record = self.url(path.as_str(), no_params())?;
        self.queue(Work::Upload { url: media, path: avatar }, Pending::AvatarUpload(record));
        Ok(())
    }

    /// Uploads the local file `path` for the room `roomid`. The caller
    /// learns the content URI and sends the message itself.
    pub fn attach_file(&mut self, roomid: String, path: String) -> (r: Result<(), Error>)
        ensures
            (final(self)@, r) == old(self)@.attach_file(roomid@, path@),
    {
        let media = self.upload_url()?;
        self.queue(Work::Upload { url: media, path }, Pending::Attach);
        Ok(())
    }

    /// Loads the room `roomid` as the active room: its topic, its avatar,
    /// its members and its newest messages. What could be asked for before
    /// the first failure stays asked for.
    pub fn set_room(&mut self, roomid: String) -> (r: Result<(), Error>)
        ensures
            (final(self)@, r) == old(self)@.set_room(roomid@),
    {
        self.get_room_detail(roomid.clone(), String::from_str("m.room.topic"))?;
        self.get_room_avatar(roomid.clone())?;
        self.get_room_members(roomid.clone())?;
        self.get_room_messages(roomid.clone(), false)?;
        Ok(())
    }

    /// Forgets the cursor, then synchronizes: the home server is asked for
    /// everything again.
    pub fn sync_forced(&mut self) -> (r: Result<(), Error>)
        ensures
            (final(self)@, r) == old(self)@.sync_forced(),
    {
        self.data.since = String::new();
        self.sync()
    }

    /// Takes what came off the queue of commands and begins the operation
    /// that the command names. Where the operation cannot be begun, the
    /// caller is told so on the queue of responses, and the dispatcher goes
    /// on. Returns whether it goes on: it stops at the command to shut down
    /// and when the queue of commands is closed.
    ///
    /// The numbers of a session's messages are 32 bits wide: a message can
    /// be sent as long as they have not run out.
    pub fn command_recv(&mut self, cmd: Result<BKCommand, std::sync::mpsc::RecvError>) -> (r: bool)
        requires
            cmd matches Ok(BKCommand::SendMsg(_)) ==> old(self)@.data.msgid < i32::MAX,
        ensures
            (final(self)@, r) == old(self)@.command_recv(cmd),
    {
        match cmd {
            Ok(BKCommand::Login(user, password, server)) => {
                match self.login(user, password, server) {
                    Ok(()) => {},
                    Err(e) => self.emit(BKResponse::LoginError(e)),
                }
            },
            Ok(BKCommand::Register(user, password, server)) => {
                match self.register(user, password, server) {
                    Ok(()) => {},
                    Err(e) => self.emit(BKResponse::LoginError(e)),
                }
            },
            Ok(BKCommand::Guest(server)) => {
                match self.guest(server) {
                    Ok(()) => {},
                    Err(e) => self.emit(BKResponse::GuestLoginError(e)),
                }
            },
            Ok(BKCommand::GetUsername) => {
                match self.get_username() {
                    Ok(()) => {},
                    Err(e) => self.emit(BKResponse::UserNameError(e)),
                }
            },
            Ok(BKCommand::GetAvatar) => {
                match self.get_avatar() {
                    Ok(()) => {},
                    Err(e) => self.emit(BKResponse::AvatarError(e)),
                }
            },
            Ok(BKCommand::Sync) => {
                match self.sync() {
                    Ok(()) => {},
                    Err(e) => self.emit(BKResponse::SyncError(e)),
                }
            },
            Ok(BKCommand::SyncForced) => {
                match self.sync_forced() {
                    Ok(()) => {},
                    Err(e) => self.emit(BKResponse::SyncError(e)),
                }
            },
            Ok(BKCommand::GetRoomMessagesTo(room)) => {
                match self.get_room_messages(room, true) {
                    Ok(()) => {},
                    Err(e) => self.emit(BKResponse::RoomMessagesError(e)),
                }
            },
            Ok(BKCommand::GetUserInfoAsync(sender, ticket)) => {
                match self.get_user_info_async(sender.as_str(), ticket) {
                    Ok(()) => {},
                    Err(e) => self.emit(BKResponse::CommandError(e)),
                }
            },
            Ok(BKCommand::GetThumbAsync(media, ticket)) => {
                match self.get_thumb_async(media, ticket) {
                    Ok(()) => {},
                    Err(e) => self.emit(BKResponse::CommandError(e)),
                }
            },
            Ok(BKCommand::GetMedia(media)) => {
                match self.get_media(media) {
                    Ok(()) => {},
                    Err(e) => self.emit(BKResponse::CommandError(e)),
                }
            },
            Ok(BKCommand::SendMsg(msg)) => {
                match self.send_msg(msg) {
                    Ok(()) => {},
                    Err(e) => self.emit(BKResponse::SendMsgError(e)),
                }
            },
            Ok(BKCommand::SetRoom(room)) => {
                match self.set_room(room) {
                    Ok(()) => {},
                    Err(e) => self.emit(BKResponse::SetRoomError(e)),
                }
            },
            Ok(BKCommand::GetRoomAvatar(room)) => {
                match self.get_room_avatar(room) {
                    Ok(()) => {},
                    Err(e) => self.emit(BKResponse::GetRoomAvatarError(e)),
                }
            },
            Ok(BKCommand::DirectoryProtocols) => {
                match self.protocols() {
                    Ok(()) => {},
                    Err(e) => self.emit(BKResponse::DirectoryError(e)),
                }
            },
            Ok(BKCommand::DirectorySearch(dq, dtp, more)) => {
                let q = if dq.as_str().is_empty() {
                    None
                } else {
                    Some(dq)
                };
                let tp = if dtp.as_str().is_empty() {
                    None
                } else {
                    Some(dtp)
                };
                match self.room_search(q, tp, more) {
                    Ok(()) => {},
                    Err(e) => self.emit(BKResponse::DirectoryError(e)),
                }
            },
            Ok(BKCommand::JoinRoom(roomid)) => {
                match self.join_room(roomid) {
                    Ok(()) => {},
                    Err(e) => self.emit(BKResponse::JoinRoomError(e)),
                }
            },
            Ok(BKCommand::LeaveRoom(roomid)) => {
                match self.leave_room(roomid) {
                    Ok(()) => {},
                    Err(e) => self.emit(BKResponse::LeaveRoomError(e)),
                }
            },
            Ok(BKCommand::MarkAsRead(roomid, evid)) => {
                match self.mark_as_read(roomid, evid) {
                    Ok(()) => {},
                    Err(e) => self.emit(BKResponse::MarkAsReadError(e)),
                }
            },
            Ok(BKCommand::SetRoomName(roomid, name)) => {
                match self.set_room_name(roomid, name) {
                    Ok(()) => {},
                    Err(e) => self.emit(BKResponse::SetRoomNameError(e)),
                }
            },
            Ok(BKCommand::SetRoomTopic(roomid, topic)) => {
                match self.set_room_topic(roomid, topic) {
                    Ok(()) => {},
                    Err(e) => self.emit(BKResponse::SetRoomTopicError(e)),
                }
            },
            Ok(BKCommand::SetRoomAvatar(roomid, fname)) => {
                match self.set_room_avatar(roomid, fname) {
                    Ok(()) => {},
                    Err(e) => self.emit(BKResponse::SetRoomAvatarError(e)),
                }
            },
            Ok(BKCommand::AttachFile(roomid, fname)) => {
                match self.attach_file(roomid, fname) {
                    Ok(()) => {},
                    Err(e) => self.emit(BKResponse::AttachFileError(e)),
                }
            },
            Ok(BKCommand::ShutDown) => {
                return false;
            },
            Err(_) => {
                return false;
            },
        }
        true
    }

    fn token_reply(&mut self, reply: Result<Json, Error>, guest: bool)
        ensures
            final(self)@ == old(self)@.token_reply(
                document_in(reply),
                if guest {
                    |e: Error| BKResponseView::GuestLoginError(e)
                } else {
                    |e: Error| BKResponseView::LoginError(e)
                },
            ),
    {
        proof {
            lemma_empty_text();
        }
        match reply {
            Ok(r) => {
                let uid = r.string_at("user_id", "");
                let tk = r.string_at("access_token", "");
                self.data.user_id = uid.clone();
                self.data.access_token = tk.clone();
                self.data.since = String::new();
                self.data.msgs_batch_end = String::new();
                self.data.msgs_batch_start = String::new();
                self.emit(BKResponse::Token(uid, tk));
            },
            Err(e) => {
                if guest {
                    self.emit(BKResponse::GuestLoginError(e));
                } else {
                    self.emit(BKResponse::LoginError(e));
                }
            },
        }
    }

    fn username_reply(&mut self, user: String, reply: Result<Json, Error>)
        ensures
            final(self)@ == old(self)@.username_reply(user@, document_in(reply)),
    {
        match reply {
            Ok(r) => {
                let name = r.string_at("displayname", user.as_str());
                self.emit(BKResponse::Name(name));
            },
            Err(e) => self.emit(BKResponse::UserNameError(e)),
        }
    }

    fn avatar_reply(&mut self, info: Result<(String, String), Error>)
        ensures
            final(self)@ == old(self)@.avatar_reply(info_in(info)),
    {
        match info {
            Ok(info) => self.emit(BKResponse::Avatar(info.1)),
            Err(e) => self.emit(BKResponse::AvatarError(e)),
        }
    }

    fn initial_sync(&mut self, r: &Json, user: &str)
        ensures
            final(self)@ == old(self)@.initial_sync(r@, user@),
    {
        let rooms = match decode_rooms(r, user) {
            Ok(rooms) => rooms,
            Err(e) => {
                self.emit(BKResponse::SyncError(e));
                let none: Vec<Room> = Vec::new();
                assert(none.deep_view() =~= Seq::empty());
                none
            },
        };
        let def = pick_default(&rooms, self.data.join_to_room.as_str());
        self.emit(BKResponse::Rooms(rooms, def));
    }

    fn incremental_sync(&mut self, r: &Json)
        ensures
            final(self)@ == old(self)@.incremental_sync(r@),
    {
        match decode_timeline(r) {
            Ok(messages) => self.emit(BKResponse::RoomMessages(messages)),
            Err(e) => self.emit(BKResponse::RoomMessagesError(e)),
        }
        match decode_changes(r) {
            Ok(changes) => self.emit_all(changes),
            Err(e) => self.emit(BKResponse::SyncError(e)),
        }
    }

    fn sync_reply(&mut self, initial: bool, user: String, reply: Result<Json, Error>)
        ensures
            final(self)@ == old(self)@.sync_reply(initial, user@, document_in(reply)),
    {
        proof {
            lemma_empty_text();
        }
        match reply {
            Ok(r) => {
                let next_batch = r.string_at("next_batch", "");
                if initial {
                    self.initial_sync(&r, user.as_str());
                } else {
                    self.incremental_sync(&r);
                }
                self.data.since = next_batch;
                self.emit(BKResponse::Sync);
            },
            Err(e) => self.emit(BKResponse::SyncError(e)),
        }
    }

    fn room_detail_reply(&mut self, key: String, reply: Result<Json, Error>)
        ensures
            final(self)@ == old(self)@.room_detail_reply(key@, document_in(reply)),
    {
        proof {
            lemma_empty_text();
        }
        match reply {
            Ok(r) => {
                let k = last_segment(key.as_str(), '.');
                let value = r.string_at(k.as_str(), "");
                self.emit(BKResponse::RoomDetail(key, value));
            },
            Err(e) => self.emit(BKResponse::RoomDetailError(e)),
        }
    }

    fn room_avatar_reply(
        &mut self,
        base: String,
        token: String,
        user: String,
        room: String,
        reply: Result<Json, Error>,
    )
        ensures
            final(self)@ == old(self)@.room_avatar_reply(
                base@,
                token@,
                user@,
                room@,
                document_in(reply),
            ),
    {
        match reply {
            Ok(r) => match r.str_at("url") {
                Some(media) => {
                    let media = String::from_str(media);
                    self.queue(Work::Thumbnail { base, token, media }, Pending::RoomAvatarFile);
                },
                None => {
                    self.queue(Work::RoomAvatar { base, token, user, room }, Pending::RoomAvatarFile);
                },
            },
            Err(e) => self.emit(BKResponse::RoomAvatarError(e)),
        }
    }

    fn room_avatar_file(&mut self, file: Result<String, Error>)
        ensures
            final(self)@ == old(self)@.room_avatar_file(file_in(file)),
    {
        match file {
            Ok(path) => self.emit(BKResponse::RoomAvatar(path)),
            Err(_) => self.emit(BKResponse::RoomAvatar(String::new())),
        }
    }

    fn room_messages_reply(&mut self, room: String, to: bool, reply: Result<Json, Error>)
        ensures
            final(self)@ == old(self)@.room_messages_reply(room@, to, document_in(reply)),
    {
        match reply {
            Ok(r) => match decode_page(&r, room.as_str()) {
                Ok(page) => {
                    self.data.msgs_batch_start = page.start;
                    self.data.msgs_batch_end = page.end;
                    if to {
                        self.emit(BKResponse::RoomMessagesTo(page.messages));
                    } else {
                        self.emit(BKResponse::RoomMessagesInit(page.messages));
                    }
                },
                Err(e) => self.emit(BKResponse::RoomMessagesError(e)),
            },
            Err(e) => self.emit(BKResponse::RoomMessagesError(e)),
        }
    }

    fn room_members_reply(&mut self, reply: Result<Json, Error>)
        ensures
            final(self)@ == old(self)@.room_members_reply(document_in(reply)),
    {
        match reply {
            Ok(r) => match decode_members(&r) {
                Ok(members) => self.emit(BKResponse::RoomMembers(members)),
                Err(e) => self.emit(BKResponse::RoomMembersError(e)),
            },
            Err(e) => self.emit(BKResponse::RoomMembersError(e)),
        }
    }

    fn user_info_reply(&mut self, ticket: u64, info: Result<(String, String), Error>)
        ensures
            final(self)@ == old(self)@.user_info_reply(ticket, info_in(info)),
    {
        match info {
            Ok(info) => self.answer(Reply::UserInfo(ticket, info.0, info.1)),
            Err(_) => self.answer(Reply::UserInfo(ticket, String::new(), String::new())),
        }
    }

    fn thumb_reply(&mut self, ticket: u64, file: Result<String, Error>)
        ensures
            final(self)@ == old(self)@.thumb_reply(ticket, file_in(file)),
    {
        match file {
            Ok(path) => self.answer(Reply::Thumb(ticket, path)),
            Err(_) => self.answer(Reply::Thumb(ticket, String::new())),
        }
    }

    fn media_reply(&mut self, file: Result<String, Error>)
        ensures
            final(self)@ == old(self)@.media_reply(file_in(file)),
    {
        match file {
            Ok(path) => self.emit(BKResponse::Media(path)),
            Err(e) => self.emit(BKResponse::MediaError(e)),
        }
    }

    fn protocols_reply(&mut self, server: String, reply: Result<Json, Error>)
        ensures
            final(self)@ == old(self)@.protocols_reply(server@, document_in(reply)),
    {
        match reply {
            Ok(r) => match decode_protocols(&r, server.as_str()) {
                Ok(protocols) => self.emit(BKResponse::DirectoryProtocols(protocols)),
                Err(e) => self.emit(BKResponse::DirectoryError(e)),
            },
            Err(e) => self.emit(BKResponse::DirectoryError(e)),
        }
    }

    fn room_search_reply(&mut self, reply: Result<Json, Error>)
        ensures
            final(self)@ == old(self)@.room_search_reply(document_in(reply)),
    {
        proof {
            lemma_empty_text();
        }
        match reply {
            Ok(r) => {
                self.data.rooms_since = r.string_at("next_batch", "");
                match decode_directory(&r) {
                    Ok(rooms) => self.emit(BKResponse::DirectorySearch(rooms)),
                    Err(e) => self.emit(BKResponse::DirectoryError(e)),
                }
            },
            Err(e) => self.emit(BKResponse::DirectoryError(e)),
        }
    }

    fn join_room_reply(&mut self, room: String, reply: Result<Json, Error>)
        ensures
            final(self)@ == old(self)@.join_room_reply(room@, document_in(reply)),
    {
        match reply {
            Ok(_) => {
                self.data.join_to_room = room;
                self.emit(BKResponse::JoinRoom);
            },
            Err(e) => self.emit(BKResponse::JoinRoomError(e)),
        }
    }

    fn avatar_upload_reply(&mut self, record: String, reply: Result<Json, Error>)
        ensures
            final(self)@ == old(self)@.avatar_upload_reply(record@, document_in(reply)),
    {
        proof {
            lemma_empty_text();
        }
        match reply {
            Ok(r) => {
                let uri = r.string_at("content_uri", "");
                self.queue(
                    Work::Query { method: Method::Put, url: record, body: single("url", uri.as_str()) },
                    Pending::AvatarSet,
                );
            },
            Err(e) => self.emit(BKResponse::SetRoomAvatarError(e)),
        }
    }

    fn attach_reply(&mut self, reply: Result<Json, Error>)
        ensures
            final(self)@ == old(self)@.attach_reply(document_in(reply)),
    {
        proof {
            lemma_empty_text();
        }
        match reply {
            Ok(r) => self.emit(BKResponse::AttachedFile(r.string_at("content_uri", ""))),
            Err(e) => self.emit(BKResponse::AttachFileError(e)),
        }
    }

    /// Takes the outcome of a piece of work that was asked for the purpose
    /// `purpose`: the session moves on, the caller is told, and further
    /// work may be asked for. An outcome of a kind that the purpose has no
    /// use for counts as a failure with [`Error::BackendError`].
    pub fn finish(&mut self, purpose: Pending, outcome: Outcome)
        ensures
            final(self)@ == old(self)@.finish(purpose@, outcome),
    {
        match purpose {
            Pending::Guest => self.token_reply(into_document(outcome), true),
            Pending::Login => self.token_reply(into_document(outcome), false),
            Pending::Username(user) => self.username_reply(user, into_document(outcome)),
            Pending::Avatar => self.avatar_reply(into_user_info(outcome)),
            Pending::Sync(initial, user) => self.sync_reply(initial, user, into_document(outcome)),
            Pending::RoomDetail(key) => self.room_detail_reply(key, into_document(outcome)),
            Pending::RoomAvatar(base, token, user, room) => self.room_avatar_reply(
                base,
                token,
                user,
                room,
                into_document(outcome),
            ),
            Pending::RoomAvatarFile => self.room_avatar_file(into_file(outcome)),
            Pending::RoomMessages(room, to) => self.room_messages_reply(
                room,
                to,
                into_document(outcome),
            ),
            Pending::RoomMembers => self.room_members_reply(into_document(outcome)),
            Pending::UserInfo(ticket) => self.user_info_reply(ticket, into_user_info(outcome)),
            Pending::Thumb(ticket) => self.thumb_reply(ticket, into_file(outcome)),
            Pending::Media => self.media_reply(into_file(outcome)),
            Pending::SendMsg => match into_document(outcome) {
                Ok(_) => self.emit(BKResponse::SendMsg),
                Err(e) => self.emit(BKResponse::SendMsgError(e)),
            },
            Pending::Protocols(server) => self.protocols_reply(server, into_document(outcome)),
            Pending::RoomSearch => self.room_search_reply(into_document(outcome)),
            Pending::JoinRoom(room) => self.join_room_reply(room, into_document(outcome)),
            Pending::LeaveRoom => match into_document(outcome) {
                Ok(_) => self.emit(BKResponse::LeaveRoom),
                Err(e) => self.emit(BKResponse::LeaveRoomError(e)),
            },
            Pending::MarkAsRead(room, event) => match into_document(outcome) {
                Ok(_) => self.emit(BKResponse::MarkedAsRead(room, event)),
                Err(e) => self.emit(BKResponse::MarkAsReadError(e)),
            },
            Pending::SetRoomName => match into_document(outcome) {
                Ok(_) => self.emit(BKResponse::SetRoomName),
                Err(e) => self.emit(BKResponse::SetRoomNameError(e)),
            },
            Pending::SetRoomTopic => match into_document(outcome) {
                Ok(_) => self.emit(BKResponse::SetRoomTopic),
                Err(e) => self.emit(BKResponse::SetRoomTopicError(e)),
            },
            Pending::AvatarUpload(record) => self.avatar_upload_reply(record, into_document(outcome)),
            Pending::AvatarSet => match into_document(outcome) {
                Ok(_) => self.emit(BKResponse::SetRoomAvatar),
                Err(e) => self.emit(BKResponse::SetRoomAvatarError(e)),
            },
            Pending::Attach => self.attach_reply(into_document(outcome)),
        }
    }
}

} // verus!
