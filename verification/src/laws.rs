//! What holds of the engine as a whole, whatever the home server answers.

use crate::decode::rooms::default_room;
use crate::decode::timeline::page_of;
use crate::error::Error;
use crate::json::{Json, JsonView};
use crate::model::{
    error_response, nonempty, page_params, sync_params, BackendView, Step, INITIAL_FILTER,
    PAGE_LIMIT,
};
use crate::session::BackendDataView;
use crate::transport::client_address;
use crate::protocol::{
    BKCommand, BKResponseView, Method, Outcome, PendingView, TaskView, WorkView,
};
use crate::types::{mime_msgtype, MessageView, RoomView};
use vstd::prelude::*;

verus! {

/// One synchronization that the home server answers with the document
/// `doc`: the request is made of the state as it stands, and the answer is
/// worked through.
pub open spec fn sync_round(s: BackendView, doc: Json) -> BackendView {
    s.sync().0.finish(
        PendingView::Sync(s.data.since.len() == 0, s.data.user_id),
        Outcome::Document(doc),
    )
}

/// A run of synchronizations, answered with `docs` in turn.
pub open spec fn sync_rounds(s: BackendView, docs: Seq<Json>) -> BackendView
    decreases docs.len(),
{
    if docs.len() == 0 {
        s
    } else {
        sync_round(sync_rounds(s, docs.drop_last()), docs.last())
    }
}

/// The cursor that a document names: the empty one where it names none.
pub open spec fn cursor_of(doc: JsonView) -> Seq<char> {
    doc.get("next_batch"@).text_or(Seq::empty())
}

/// A synchronization that can be begun asks for exactly one piece of work,
/// whose outcome it marks as that of a synchronization of the kind that
/// the cursor calls for.
pub proof fn lemma_sync_asks_once(s: BackendView)
    requires
        s.sync().1 is Ok,
    ensures
        s.sync().0.tasks == s.tasks.push(
            TaskView {
                work: WorkView::Query {
                    method: Method::Get,
                    url: s.url("sync"@, sync_params(s.data.since))->Ok_0,
                    body: JsonView::Null,
                },
                purpose: PendingView::Sync(s.data.since.len() == 0, s.data.user_id),
            },
        ),
        s.sync().0.data == s.data,
        s.sync().0.responses == s.responses,
{
}

/// After any run of synchronizations the cursor is the one that the home
/// server named in its last answer, whether or not the rest of that answer
/// could be read.
pub proof fn lemma_cursor_follows_server(s: BackendView, docs: Seq<Json>)
    requires
        docs.len() > 0,
    ensures
        sync_rounds(s, docs).data.since == cursor_of(docs.last()@),
{
    let before = sync_rounds(s, docs.drop_last());
    assert(sync_rounds(s, docs) == sync_round(before, docs.last()));
}

/// After every single synchronization of a run the cursor is the one that
/// the home server named in the answer to that synchronization.
pub proof fn lemma_cursor_follows_every_answer(s: BackendView, docs: Seq<Json>, n: int)
    requires
        0 < n <= docs.len(),
    ensures
        sync_rounds(s, docs.take(n)).data.since == cursor_of(docs[n - 1]@),
{
    lemma_cursor_follows_server(s, docs.take(n));
}

/// A synchronization that fails leaves the cursor where it was, so the
/// next one asks for the same again.
pub proof fn lemma_failed_sync_keeps_cursor(s: BackendView, initial: bool, user: Seq<char>, e: Error)
    ensures
        s.finish(PendingView::Sync(initial, user), Outcome::Failed(e)).data == s.data,
        s.finish(PendingView::Sync(initial, user), Outcome::Failed(e)).responses
            == s.responses.push(BKResponseView::SyncError(e)),
{
}

/// Whether a query holds a parameter called `key`.
pub open spec fn has_param(params: Seq<(Seq<char>, Seq<char>)>, key: Seq<char>) -> bool {
    exists|i: int| 0 <= i < params.len() && (#[trigger] params[i]).0 == key
}

/// A synchronization with no cursor asks through the filter of a first
/// synchronization and names no cursor; one with a cursor names that cursor
/// and no filter.
pub proof fn lemma_sync_by_cursor(since: Seq<char>)
    ensures
        since.len() == 0 ==> sync_params(since) == seq![
            ("full_state"@, "false"@),
            ("timeout"@, "30000"@),
            ("filter"@, INITIAL_FILTER@),
        ] && !has_param(sync_params(since), "since"@),
        since.len() > 0 ==> sync_params(since) == seq![
            ("full_state"@, "false"@),
            ("timeout"@, "30000"@),
            ("since"@, since),
        ] && !has_param(sync_params(since), "filter"@),
{
    reveal_strlit("full_state");
    reveal_strlit("timeout");
    reveal_strlit("filter");
    reveal_strlit("since");
    let params = sync_params(since);
    if since.len() == 0 {
        assert(params =~= seq![
            ("full_state"@, "false"@),
            ("timeout"@, "30000"@),
            ("filter"@, INITIAL_FILTER@),
        ]);
        assert forall|i: int| 0 <= i < params.len() implies (#[trigger] params[i]).0 != "since"@ by {
            assert("full_state"@.len() != "since"@.len());
            assert("timeout"@.len() != "since"@.len());
            assert("filter"@.len() != "since"@.len());
        }
    } else {
        assert(params =~= seq![
            ("full_state"@, "false"@),
            ("timeout"@, "30000"@),
            ("since"@, since),
        ]);
        assert forall|i: int| 0 <= i < params.len() implies (#[trigger] params[i]).0 != "filter"@ by {
            assert("full_state"@.len() != "filter"@.len());
            assert("timeout"@.len() != "filter"@.len());
            assert("since"@.len() != "filter"@.len());
        }
    }
}

/// The room to open after a first synchronization is one of the rooms, and
/// the one with the id of the marker; there is none where the marker is
/// empty or no room has its id.
pub proof fn lemma_default_room(rooms: Seq<RoomView>, marker: Seq<char>)
    ensures
        match default_room(rooms, marker) {
            Some(room) => marker.len() > 0 && room.id == marker && rooms.contains(room),
            None => marker.len() == 0 || forall|i: int|
                0 <= i < rooms.len() ==> (#[trigger] rooms[i]).id != marker,
        },
    decreases rooms.len(),
{
    if marker.len() == 0 || rooms.len() == 0 {
    } else if rooms[0].id == marker {
        assert(rooms.contains(rooms[0]));
    } else {
        let rest = rooms.drop_first();
        lemma_default_room(rest, marker);
        match default_room(rest, marker) {
            Some(room) => {
                let i = choose|i: int| 0 <= i < rest.len() && rest[i] == room;
                assert(rooms[i + 1] == room);
            },
            None => {
                assert forall|i: int| 0 <= i < rooms.len() implies (#[trigger] rooms[i]).id
                    != marker by {
                    if i > 0 {
                        assert(rest[i - 1] == rooms[i]);
                    }
                }
            },
        }
    }
}

/// A fetch of older messages names the token to go on from last in its
/// query; a fetch of the newest messages names none.
pub proof fn lemma_page_by_token(token: Seq<char>, older: bool, start: Seq<char>)
    ensures
        older ==> page_params(token, older, start) == seq![
            ("dir"@, "b"@),
            ("limit"@, PAGE_LIMIT@),
            ("access_token"@, token),
            ("from"@, start),
        ],
        !older ==> !has_param(page_params(token, older, start), "from"@),
{
    reveal_strlit("dir");
    reveal_strlit("limit");
    reveal_strlit("access_token");
    reveal_strlit("from");
    let params = page_params(token, older, start);
    if older {
        assert(params =~= seq![
            ("dir"@, "b"@),
            ("limit"@, PAGE_LIMIT@),
            ("access_token"@, token),
            ("from"@, start),
        ]);
    } else {
        assert forall|i: int| 0 <= i < params.len() implies (#[trigger] params[i]).0 != "from"@ by {
            assert("dir"@.len() != "from"@.len());
            assert("limit"@.len() != "from"@.len());
            assert("access_token"@.len() != "from"@.len());
        }
    }
}

/// A page of messages moves the edges of what is loaded to the edges of
/// the page, and goes to the caller in one response; an empty page is a
/// page like any other, and no error. The next fetch of older messages goes
/// on from exactly where the page starts.
pub proof fn lemma_fetch_older_continues(
    s: BackendView,
    room: Seq<char>,
    older: bool,
    doc: Json,
    next_room: Seq<char>,
)
    requires
        page_of(doc@, room) is Ok,
    ensures
        ({
            let page = page_of(doc@, room)->Ok_0;
            let after = s.finish(PendingView::RoomMessages(room, older), Outcome::Document(doc));
            &&& after.data == (BackendDataView {
                msgs_batch_start: page.start,
                msgs_batch_end: page.end,
                ..s.data
            })
            &&& after.tasks == s.tasks
            &&& after.responses == s.responses.push(
                if older {
                    BKResponseView::RoomMessagesTo(page.messages)
                } else {
                    BKResponseView::RoomMessagesInit(page.messages)
                },
            )
            &&& after.base_url() matches Ok(base) ==> after.page_url(base, next_room, true)
                == client_address(
                base,
                "rooms/"@ + next_room + "/messages"@,
                page_params(s.data.access_token, true, page.start),
            )
            &&& after.base_url() matches Ok(base) ==> (after.page_url(base, next_room, true)
                matches Ok(url) ==> after.get_room_messages(next_room, true) == (
                after.queue(
                    WorkView::Query { method: Method::Get, url, body: JsonView::Null },
                    PendingView::RoomMessages(next_room, true),
                ),
                Ok::<(), Error>(()),
            ))
        }),
{
}

/// A fetch of a room's messages is begun whenever the name of the home
/// server can be read, and only then. Begun, it either asks the home server
/// once or, where the request cannot be made, tells the caller so once; it
/// changes nothing of the session.
pub proof fn lemma_page_fetch_begins(s: BackendView, room: Seq<char>, older: bool)
    ensures
        ({
            let step = s.get_room_messages(room, older);
            &&& step.1 is Ok <==> s.base_url() is Ok
            &&& step.0.data == s.data
            &&& step.0.replies == s.replies
            &&& step.1 is Err ==> step.0 == s
            &&& step.1 is Ok ==> (s.page_url(s.base_url()->Ok_0, room, older) matches Ok(url)
                && step.0 == s.queue(
                WorkView::Query { method: Method::Get, url, body: JsonView::Null },
                PendingView::RoomMessages(room, older),
            )) || (s.page_url(s.base_url()->Ok_0, room, older) matches Err(e) && step.0 == s.emit(
                BKResponseView::RoomMessagesError(e),
            ))
        }),
{
}

/// When the home server answers a fetch of older messages with a page that
/// starts where the fetch began, the engine is where it was: the same fetch
/// again asks for the same again.
pub proof fn lemma_exhausted_history_repeats(s: BackendView, room: Seq<char>, doc: Json)
    requires
        page_of(doc@, room) is Ok,
        page_of(doc@, room)->Ok_0.start == s.data.msgs_batch_start,
        page_of(doc@, room)->Ok_0.end == s.data.msgs_batch_end,
    ensures
        ({
            let after = s.finish(PendingView::RoomMessages(room, true), Outcome::Document(doc));
            &&& after.data == s.data
            &&& after.get_room_messages(room, true).1 == s.get_room_messages(room, true).1
            &&& s.get_room_messages(room, true).1 is Ok ==> after.get_room_messages(
                room,
                true,
            ).0.tasks.last() == s.get_room_messages(room, true).0.tasks.last()
        }),
{
}

/// The dispatcher goes on after every command but the one to shut down,
/// whether or not the command could be begun.
pub proof fn lemma_dispatcher_goes_on(s: BackendView, cmd: BKCommand)
    ensures
        s.command_recv(Ok(cmd)).1 == !(cmd is ShutDown),
{
}

/// Whether `after` holds all that `before` held, in place and in order:
/// the work asked for before is the start of the work asked for now, what
/// was said before is the start of what is said now, with at most one
/// response more, and the answers for one-shot channels are the same.
pub open spec fn extends(after: BackendView, before: BackendView) -> bool {
    &&& before.tasks.is_prefix_of(after.tasks)
    &&& before.responses.is_prefix_of(after.responses)
    &&& after.responses.len() <= before.responses.len() + 1
    &&& after.replies == before.replies
}

/// An operation begun leaves in place what was asked for and said before.
/// It tells the caller nothing where it cannot be begun (the dispatcher
/// does that), and nothing where it asks for exactly one piece of work;
/// such work is of a kind whose failure is told as an error, unless it is
/// done apart from the dispatcher. Who is logged in stays who it was.
pub proof fn lemma_begin_extends(s: BackendView, cmd: BKCommand)
    ensures
        extends(s.begin(cmd).0, s),
        s.begin(cmd).1 is Err ==> s.begin(cmd).0.responses == s.responses,
        s.begin(cmd).0.tasks.len() == s.tasks.len() + 1 ==> s.begin(cmd).0.responses
            == s.responses,
        s.begin(cmd).0.tasks.len() == s.tasks.len() + 1 ==> tells_error(
            s.begin(cmd).0.tasks.last().purpose,
        ) || s.begin(cmd).0.tasks.last().purpose.apart(),
        s.begin(cmd).0.data.user_id == s.data.user_id,
        s.begin(cmd).0.data.access_token == s.data.access_token,
{
    match cmd {
        BKCommand::Login(user, password, server) => {
            let step: Step = s.login(user@, password@, server@);
            assert(step.0.tasks.subrange(0, s.tasks.len() as int) =~= s.tasks);
            assert(step.0.responses.subrange(0, s.responses.len() as int) =~= s.responses);
        },
        BKCommand::Register(user, password, server) => {
            let step: Step = s.register(user@, password@, server@);
            assert(step.0.tasks.subrange(0, s.tasks.len() as int) =~= s.tasks);
            assert(step.0.responses.subrange(0, s.responses.len() as int) =~= s.responses);
        },
        BKCommand::Guest(server) => {
            let step: Step = s.guest(server@);
            assert(step.0.tasks.subrange(0, s.tasks.len() as int) =~= s.tasks);
            assert(step.0.responses.subrange(0, s.responses.len() as int) =~= s.responses);
        },
        BKCommand::GetUsername => {
            let step: Step = s.get_username();
            assert(step.0.tasks.subrange(0, s.tasks.len() as int) =~= s.tasks);
            assert(step.0.responses.subrange(0, s.responses.len() as int) =~= s.responses);
        },
        BKCommand::GetAvatar => {
            let step: Step = s.get_avatar();
            assert(step.0.tasks.subrange(0, s.tasks.len() as int) =~= s.tasks);
            assert(step.0.responses.subrange(0, s.responses.len() as int) =~= s.responses);
        },
        BKCommand::Sync => {
            let step: Step = s.sync();
            assert(step.0.tasks.subrange(0, s.tasks.len() as int) =~= s.tasks);
            assert(step.0.responses.subrange(0, s.responses.len() as int) =~= s.responses);
        },
        BKCommand::SyncForced => {
            let step: Step = s.sync_forced();
            assert(step.0.tasks.subrange(0, s.tasks.len() as int) =~= s.tasks);
            assert(step.0.responses.subrange(0, s.responses.len() as int) =~= s.responses);
        },
        BKCommand::GetRoomMessagesTo(room) => {
            let step: Step = s.get_room_messages(room@, true);
            assert(step.0.tasks.subrange(0, s.tasks.len() as int) =~= s.tasks);
            assert(step.0.responses.subrange(0, s.responses.len() as int) =~= s.responses);
        },
        BKCommand::GetRoomAvatar(room) => {
            let step: Step = s.get_room_avatar(room@);
            assert(step.0.tasks.subrange(0, s.tasks.len() as int) =~= s.tasks);
            assert(step.0.responses.subrange(0, s.responses.len() as int) =~= s.responses);
        },
        BKCommand::GetThumbAsync(media, ticket) => {
            let step: Step = s.get_thumb_async(media@, ticket);
            assert(step.0.tasks.subrange(0, s.tasks.len() as int) =~= s.tasks);
            assert(step.0.responses.subrange(0, s.responses.len() as int) =~= s.responses);
        },
        BKCommand::GetMedia(media) => {
            let step: Step = s.get_media(media@);
            assert(step.0.tasks.subrange(0, s.tasks.len() as int) =~= s.tasks);
            assert(step.0.responses.subrange(0, s.responses.len() as int) =~= s.responses);
        },
        BKCommand::GetUserInfoAsync(user, ticket) => {
            let step: Step = s.get_user_info_async(user@, ticket);
            assert(step.0.tasks.subrange(0, s.tasks.len() as int) =~= s.tasks);
            assert(step.0.responses.subrange(0, s.responses.len() as int) =~= s.responses);
        },
        BKCommand::SendMsg(msg) => {
            let step: Step = s.send_msg(msg@);
            assert(step.0.tasks.subrange(0, s.tasks.len() as int) =~= s.tasks);
            assert(step.0.responses.subrange(0, s.responses.len() as int) =~= s.responses);
        },
        BKCommand::SetRoom(room) => {
            let step: Step = s.set_room(room@);
            assert(step.0.tasks.subrange(0, s.tasks.len() as int) =~= s.tasks);
            assert(step.0.responses.subrange(0, s.responses.len() as int) =~= s.responses);
        },
        BKCommand::ShutDown => {
            let step: Step = (s, Ok(()));
            assert(step.0.tasks.subrange(0, s.tasks.len() as int) =~= s.tasks);
            assert(step.0.responses.subrange(0, s.responses.len() as int) =~= s.responses);
        },
        BKCommand::DirectoryProtocols => {
            let step: Step = s.protocols();
            assert(step.0.tasks.subrange(0, s.tasks.len() as int) =~= s.tasks);
            assert(step.0.responses.subrange(0, s.responses.len() as int) =~= s.responses);
        },
        BKCommand::DirectorySearch(query, third_party, more) => {
            let step: Step = s.room_search(nonempty(query@), nonempty(third_party@), more);
            assert(step.0.tasks.subrange(0, s.tasks.len() as int) =~= s.tasks);
            assert(step.0.responses.subrange(0, s.responses.len() as int) =~= s.responses);
        },
        BKCommand::JoinRoom(room) => {
            let step: Step = s.join_room(room@);
            assert(step.0.tasks.subrange(0, s.tasks.len() as int) =~= s.tasks);
            assert(step.0.responses.subrange(0, s.responses.len() as int) =~= s.responses);
        },
        BKCommand::MarkAsRead(room, event) => {
            let step: Step = s.mark_as_read(room@, event@);
            assert(step.0.tasks.subrange(0, s.tasks.len() as int) =~= s.tasks);
            assert(step.0.responses.subrange(0, s.responses.len() as int) =~= s.responses);
        },
        BKCommand::LeaveRoom(room) => {
            let step: Step = s.leave_room(room@);
            assert(step.0.tasks.subrange(0, s.tasks.len() as int) =~= s.tasks);
            assert(step.0.responses.subrange(0, s.responses.len() as int) =~= s.responses);
        },
        BKCommand::SetRoomName(room, name) => {
            let step: Step = s.set_room_name(room@, name@);
            assert(step.0.tasks.subrange(0, s.tasks.len() as int) =~= s.tasks);
            assert(step.0.responses.subrange(0, s.responses.len() as int) =~= s.responses);
        },
        BKCommand::SetRoomTopic(room, topic) => {
            let step: Step = s.set_room_topic(room@, topic@);
            assert(step.0.tasks.subrange(0, s.tasks.len() as int) =~= s.tasks);
            assert(step.0.responses.subrange(0, s.responses.len() as int) =~= s.responses);
        },
        BKCommand::SetRoomAvatar(room, path) => {
            let step: Step = s.set_room_avatar(room@, path@);
            assert(step.0.tasks.subrange(0, s.tasks.len() as int) =~= s.tasks);
            assert(step.0.responses.subrange(0, s.responses.len() as int) =~= s.responses);
        },
        BKCommand::AttachFile(room, path) => {
            let step: Step = s.attach_file(room@, path@);
            assert(step.0.tasks.subrange(0, s.tasks.len() as int) =~= s.tasks);
            assert(step.0.responses.subrange(0, s.responses.len() as int) =~= s.responses);
        },
    }
}

/// The dispatcher tells the caller at most one thing at a command, and
/// where the operation could not be begun it is the error response of the
/// command. Whatever it does, the work asked for before stays asked for,
/// what was said before stays said, and nothing goes to a one-shot channel.
pub proof fn lemma_command_tells_at_most_once(s: BackendView, cmd: BKCommand)
    ensures
        ({
            let after = s.run(cmd);
            &&& extends(after, s)
            &&& s.begin(cmd).1 matches Err(e) ==> after.responses == s.responses.push(
                error_response(cmd, e),
            )
            &&& after.tasks == s.begin(cmd).0.tasks
        }),
{
    lemma_begin_extends(s, cmd);
    let after = s.run(cmd);
    assert(after.responses.subrange(0, s.responses.len() as int) =~= s.responses);
}

/// Whatever the outcome of a piece of work, what the engine had said and
/// asked for before stays in place and in order: the engine only ever adds
/// at the end of its queues. Who is logged in stays who it was, unless the
/// work was a login.
pub proof fn lemma_finish_only_appends(s: BackendView, purpose: PendingView, outcome: Outcome)
    ensures
        ({
            let after = s.finish(purpose, outcome);
            &&& after.responses.len() >= s.responses.len()
            &&& after.responses.take(s.responses.len() as int) == s.responses
            &&& after.tasks.len() >= s.tasks.len()
            &&& after.tasks.take(s.tasks.len() as int) == s.tasks
            &&& after.replies.len() >= s.replies.len()
            &&& after.replies.take(s.replies.len() as int) == s.replies
            &&& !(purpose is Guest || purpose is Login) ==> after.data.user_id == s.data.user_id
                && after.data.access_token == s.data.access_token
        }),
{
    let after = s.finish(purpose, outcome);
    match purpose {
        PendingView::Guest => {
            assert(after.responses.take(s.responses.len() as int) =~= s.responses);
            assert(after.tasks.take(s.tasks.len() as int) =~= s.tasks);
            assert(after.replies.take(s.replies.len() as int) =~= s.replies);
        },
        PendingView::Login => {
            assert(after.responses.take(s.responses.len() as int) =~= s.responses);
            assert(after.tasks.take(s.tasks.len() as int) =~= s.tasks);
            assert(after.replies.take(s.replies.len() as int) =~= s.replies);
        },
        PendingView::Username(..) => {
            assert(after.responses.take(s.responses.len() as int) =~= s.responses);
            assert(after.tasks.take(s.tasks.len() as int) =~= s.tasks);
            assert(after.replies.take(s.replies.len() as int) =~= s.replies);
        },
        PendingView::Avatar => {
            assert(after.responses.take(s.responses.len() as int) =~= s.responses);
            assert(after.tasks.take(s.tasks.len() as int) =~= s.tasks);
            assert(after.replies.take(s.replies.len() as int) =~= s.replies);
        },
        PendingView::Sync(..) => {
            assert(after.responses.take(s.responses.len() as int) =~= s.responses);
            assert(after.tasks.take(s.tasks.len() as int) =~= s.tasks);
            assert(after.replies.take(s.replies.len() as int) =~= s.replies);
        },
        PendingView::RoomDetail(..) => {
            assert(after.responses.take(s.responses.len() as int) =~= s.responses);
            assert(after.tasks.take(s.tasks.len() as int) =~= s.tasks);
            assert(after.replies.take(s.replies.len() as int) =~= s.replies);
        },
        PendingView::RoomAvatar(..) => {
            assert(after.responses.take(s.responses.len() as int) =~= s.responses);
            assert(after.tasks.take(s.tasks.len() as int) =~= s.tasks);
            assert(after.replies.take(s.replies.len() as int) =~= s.replies);
        },
        PendingView::RoomAvatarFile => {
            assert(after.responses.take(s.responses.len() as int) =~= s.responses);
            assert(after.tasks.take(s.tasks.len() as int) =~= s.tasks);
            assert(after.replies.take(s.replies.len() as int) =~= s.replies);
        },
        PendingView::RoomMessages(..) => {
            assert(after.responses.take(s.responses.len() as int) =~= s.responses);
            assert(after.tasks.take(s.tasks.len() as int) =~= s.tasks);
            assert(after.replies.take(s.replies.len() as int) =~= s.replies);
        },
        PendingView::RoomMembers => {
            assert(after.responses.take(s.responses.len() as int) =~= s.responses);
            assert(after.tasks.take(s.tasks.len() as int) =~= s.tasks);
            assert(after.replies.take(s.replies.len() as int) =~= s.replies);
        },
        PendingView::UserInfo(..) => {
            assert(after.responses.take(s.responses.len() as int) =~= s.responses);
            assert(after.tasks.take(s.tasks.len() as int) =~= s.tasks);
            assert(after.replies.take(s.replies.len() as int) =~= s.replies);
        },
        PendingView::Thumb(..) => {
            assert(after.responses.take(s.responses.len() as int) =~= s.responses);
            assert(after.tasks.take(s.tasks.len() as int) =~= s.tasks);
            assert(after.replies.take(s.replies.len() as int) =~= s.replies);
        },
        PendingView::Media => {
            assert(after.responses.take(s.responses.len() as int) =~= s.responses);
            assert(after.tasks.take(s.tasks.len() as int) =~= s.tasks);
            assert(after.replies.take(s.replies.len() as int) =~= s.replies);
        },
        PendingView::SendMsg => {
            assert(after.responses.take(s.responses.len() as int) =~= s.responses);
            assert(after.tasks.take(s.tasks.len() as int) =~= s.tasks);
            assert(after.replies.take(s.replies.len() as int) =~= s.replies);
        },
        PendingView::Protocols(..) => {
            assert(after.responses.take(s.responses.len() as int) =~= s.responses);
            assert(after.tasks.take(s.tasks.len() as int) =~= s.tasks);
            assert(after.replies.take(s.replies.len() as int) =~= s.replies);
        },
        PendingView::RoomSearch => {
            assert(after.responses.take(s.responses.len() as int) =~= s.responses);
            assert(after.tasks.take(s.tasks.len() as int) =~= s.tasks);
            assert(after.replies.take(s.replies.len() as int) =~= s.replies);
        },
        PendingView::JoinRoom(..) => {
            assert(after.responses.take(s.responses.len() as int) =~= s.responses);
            assert(after.tasks.take(s.tasks.len() as int) =~= s.tasks);
            assert(after.replies.take(s.replies.len() as int) =~= s.replies);
        },
        PendingView::LeaveRoom => {
            assert(after.responses.take(s.responses.len() as int) =~= s.responses);
            assert(after.tasks.take(s.tasks.len() as int) =~= s.tasks);
            assert(after.replies.take(s.replies.len() as int) =~= s.replies);
        },
        PendingView::MarkAsRead(..) => {
            assert(after.responses.take(s.responses.len() as int) =~= s.responses);
            assert(after.tasks.take(s.tasks.len() as int) =~= s.tasks);
            assert(after.replies.take(s.replies.len() as int) =~= s.replies);
        },
        PendingView::SetRoomName => {
            assert(after.responses.take(s.responses.len() as int) =~= s.responses);
            assert(after.tasks.take(s.tasks.len() as int) =~= s.tasks);
            assert(after.replies.take(s.replies.len() as int) =~= s.replies);
        },
        PendingView::SetRoomTopic => {
            assert(after.responses.take(s.responses.len() as int) =~= s.responses);
            assert(after.tasks.take(s.tasks.len() as int) =~= s.tasks);
            assert(after.replies.take(s.replies.len() as int) =~= s.replies);
        },
        PendingView::AvatarUpload(..) => {
            assert(after.responses.take(s.responses.len() as int) =~= s.responses);
            assert(after.tasks.take(s.tasks.len() as int) =~= s.tasks);
            assert(after.replies.take(s.replies.len() as int) =~= s.replies);
        },
        PendingView::AvatarSet => {
            assert(after.responses.take(s.responses.len() as int) =~= s.responses);
            assert(after.tasks.take(s.tasks.len() as int) =~= s.tasks);
            assert(after.replies.take(s.replies.len() as int) =~= s.replies);
        },
        PendingView::Attach => {
            assert(after.responses.take(s.responses.len() as int) =~= s.responses);
            assert(after.tasks.take(s.tasks.len() as int) =~= s.tasks);
            assert(after.replies.take(s.replies.len() as int) =~= s.replies);
        },
    }
}

/// Whether work to this purpose, where it fails, is told to the caller as
/// an error on the shared queue. The exceptions are the lookups that
/// degrade to an empty answer: those for a one-shot channel, and the file
/// of a room's avatar.
pub open spec fn tells_error(purpose: PendingView) -> bool {
    !(purpose is UserInfo || purpose is Thumb || purpose is RoomAvatarFile)
}

/// The response that tells the caller that work to this purpose failed.
pub open spec fn failure_response(purpose: PendingView, e: Error) -> BKResponseView {
    match purpose {
        PendingView::Guest => BKResponseView::GuestLoginError(e),
        PendingView::Login => BKResponseView::LoginError(e),
        PendingView::Username(..) => BKResponseView::UserNameError(e),
        PendingView::Avatar => BKResponseView::AvatarError(e),
        PendingView::Sync(..) => BKResponseView::SyncError(e),
        PendingView::RoomDetail(..) => BKResponseView::RoomDetailError(e),
        PendingView::RoomAvatar(..) => BKResponseView::RoomAvatarError(e),
        PendingView::RoomAvatarFile => BKResponseView::RoomAvatar(Seq::empty()),
        PendingView::RoomMessages(..) => BKResponseView::RoomMessagesError(e),
        PendingView::RoomMembers => BKResponseView::RoomMembersError(e),
        PendingView::UserInfo(..) => BKResponseView::CommandError(e),
        PendingView::Thumb(..) => BKResponseView::CommandError(e),
        PendingView::Media => BKResponseView::MediaError(e),
        PendingView::SendMsg => BKResponseView::SendMsgError(e),
        PendingView::Protocols(..) => BKResponseView::DirectoryError(e),
        PendingView::RoomSearch => BKResponseView::DirectoryError(e),
        PendingView::JoinRoom(..) => BKResponseView::JoinRoomError(e),
        PendingView::LeaveRoom => BKResponseView::LeaveRoomError(e),
        PendingView::MarkAsRead(..) => BKResponseView::MarkAsReadError(e),
        PendingView::SetRoomName => BKResponseView::SetRoomNameError(e),
        PendingView::SetRoomTopic => BKResponseView::SetRoomTopicError(e),
        PendingView::AvatarUpload(..) => BKResponseView::SetRoomAvatarError(e),
        PendingView::AvatarSet => BKResponseView::SetRoomAvatarError(e),
        PendingView::Attach => BKResponseView::AttachFileError(e),
    }
}

/// Work that failed, and that is not of the kind that degrades to an empty
/// answer, is told to the caller as the error of its purpose, and that is
/// all that happens.
pub proof fn lemma_failure_is_an_error(s: BackendView, purpose: PendingView, e: Error)
    requires
        tells_error(purpose),
    ensures
        s.finish(purpose, Outcome::Failed(e)) == s.emit(failure_response(purpose, e)),
{
}

/// A command that asks for exactly one piece of work asks for work whose
/// failure is told as an error, unless the work is done apart from the
/// dispatcher.
pub proof fn lemma_single_work_tells_errors(s: BackendView, cmd: BKCommand)
    ensures
        s.begin(cmd).0.tasks.len() == s.tasks.len() + 1 ==> tells_error(
            s.begin(cmd).0.tasks.last().purpose,
        ) || s.begin(cmd).0.tasks.last().purpose.apart(),
{
    lemma_begin_extends(s, cmd);
}

/// A command worked through by the dispatcher: the operation is begun, and
/// the piece of work that it asked for last ends with `outcome`.
pub open spec fn round(s: BackendView, cmd: BKCommand, outcome: Outcome) -> BackendView {
    s.run(cmd).finish(s.run(cmd).tasks.last().purpose, outcome)
}

/// A command that fails at the home server and a command that succeeds with
/// one response right after it make exactly two responses, in the order of
/// the commands: the error of the first, then the response of the second.
/// The dispatcher goes on after both.
///
/// The first command is any that the dispatcher waits for and that asks for
/// one piece of work; the second is any that asks for one piece of work
/// whose outcome is told in one response.
pub proof fn lemma_commands_are_isolated(
    s: BackendView,
    first: BKCommand,
    e: Error,
    second: BKCommand,
    outcome: Outcome,
)
    requires
        !(first is ShutDown),
        !(second is ShutDown),
        s.begin(first).1 is Ok,
        s.begin(first).0.tasks.len() == s.tasks.len() + 1,
        !s.begin(first).0.tasks.last().purpose.apart(),
        ({
            let failed = round(s, first, Outcome::Failed(e));
            &&& failed.begin(second).1 is Ok
            &&& failed.begin(second).0.tasks.len() == failed.tasks.len() + 1
            &&& round(failed, second, outcome).responses.len() == failed.responses.len() + 1
        }),
    ensures
        ({
            let failed = round(s, first, Outcome::Failed(e));
            let done = round(failed, second, outcome);
            &&& s.command_recv(Ok(first)).1
            &&& failed.command_recv(Ok(second)).1
            &&& failed.responses == s.responses.push(
                failure_response(s.begin(first).0.tasks.last().purpose, e),
            )
            &&& done.responses == s.responses.push(
                failure_response(s.begin(first).0.tasks.last().purpose, e),
            ).push(done.responses.last())
        }),
{
    let purpose = s.begin(first).0.tasks.last().purpose;
    lemma_begin_extends(s, first);
    lemma_single_work_tells_errors(s, first);
    lemma_failure_is_an_error(s.run(first), purpose, e);
    let failed = round(s, first, Outcome::Failed(e));
    assert(failed.responses == s.responses.push(failure_response(purpose, e)));
    lemma_begin_extends(failed, second);
    let begun = failed.run(second);
    assert(begun.responses == failed.responses);
    lemma_finish_only_appends(begun, begun.tasks.last().purpose, outcome);
    let done = round(failed, second, outcome);
    assert(done.responses =~= failed.responses.push(done.responses.last()));
}

/// A command that cannot be begun and a command that succeeds with one
/// response right after it make exactly two responses, in the order of the
/// commands: the error response of the first, then the response of the
/// second. The dispatcher goes on after both.
pub proof fn lemma_refused_command_is_isolated(
    s: BackendView,
    first: BKCommand,
    second: BKCommand,
    outcome: Outcome,
)
    requires
        !(first is ShutDown),
        !(second is ShutDown),
        s.begin(first).1 is Err,
        ({
            let refused = s.run(first);
            &&& refused.begin(second).1 is Ok
            &&& refused.begin(second).0.tasks.len() == refused.tasks.len() + 1
            &&& round(refused, second, outcome).responses.len() == refused.responses.len() + 1
        }),
    ensures
        ({
            let refused = s.run(first);
            let done = round(refused, second, outcome);
            &&& s.command_recv(Ok(first)).1
            &&& refused.command_recv(Ok(second)).1
            &&& done.responses == s.responses.push(
                error_response(first, s.begin(first).1->Err_0),
            ).push(done.responses.last())
        }),
{
    lemma_command_tells_at_most_once(s, first);
    let refused = s.run(first);
    lemma_begin_extends(refused, second);
    let begun = refused.run(second);
    assert(begun.responses == refused.responses);
    lemma_finish_only_appends(begun, begun.tasks.last().purpose, outcome);
    let done = round(refused, second, outcome);
    assert(done.responses =~= refused.responses.push(done.responses.last()));
}

/// Work that failed is told to the caller in exactly one message, on the
/// shared queue or on a one-shot channel, and leaves no other trace: the
/// session is as it was and no further work is asked for. What came before
/// on either queue stays.
pub proof fn lemma_failure_tells_once(s: BackendView, purpose: PendingView, e: Error)
    ensures
        ({
            let after = s.finish(purpose, Outcome::Failed(e));
            &&& after.data == s.data
            &&& after.tasks == s.tasks
            &&& after.responses.len() + after.replies.len() == s.responses.len() + s.replies.len()
                + 1
            &&& after.responses.take(s.responses.len() as int) == s.responses
            &&& after.replies.take(s.replies.len() as int) == s.replies
        }),
{
    let after = s.finish(purpose, Outcome::Failed(e));
    assert(after.responses.take(s.responses.len() as int) =~= s.responses);
    assert(after.replies.take(s.replies.len() as int) =~= s.replies);
}

/// A command that fails at the home server and a command that succeeds
/// right after it make two responses, in the order of the commands: the
/// error of the first, then the success of the second.
pub proof fn lemma_command_isolation(
    s: BackendView,
    bad_room: Seq<char>,
    good_room: Seq<char>,
    e: Error,
    doc: Json,
)
    requires
        s.join_room(bad_room).1 is Ok,
        s.leave_room(good_room).1 is Ok,
    ensures
        ({
            let first = s.join_room(bad_room).0.finish(
                PendingView::JoinRoom(bad_room),
                Outcome::Failed(e),
            );
            let second = first.leave_room(good_room).0.finish(
                PendingView::LeaveRoom,
                Outcome::Document(doc),
            );
            &&& first.leave_room(good_room).1 is Ok
            &&& second.responses == s.responses.push(BKResponseView::JoinRoomError(e)).push(
                BKResponseView::LeaveRoom,
            )
            &&& second.data == s.data
        }),
{
}

/// Attaching a file asks for one upload and for nothing else; when the
/// upload is done the caller is told the content URI in one response, and
/// no work follows: no message is sent.
pub proof fn lemma_attach_sends_nothing(s: BackendView, room: Seq<char>, path: Seq<char>, doc: Json)
    requires
        s.attach_file(room, path).1 is Ok,
    ensures
        ({
            let asked = s.attach_file(room, path).0;
            let told = asked.finish(PendingView::Attach, Outcome::Document(doc));
            &&& asked.tasks == s.tasks.push(
                TaskView {
                    work: WorkView::Upload { url: s.upload_url()->Ok_0, path },
                    purpose: PendingView::Attach,
                },
            )
            &&& asked.responses == s.responses
            &&& asked.data == s.data
            &&& told.tasks == asked.tasks
            &&& told.data == s.data
            &&& told.responses == s.responses.push(
                BKResponseView::AttachedFile(doc@.get("content_uri"@).text_or(Seq::empty())),
            )
        }),
{
}

/// A file is sent as an image exactly when what was found in it is one of
/// the three image types, and as a plain file otherwise; the two kinds are
/// not the same.
pub proof fn lemma_mime_classes(mime: Seq<char>)
    ensures
        mime_msgtype(mime) == "m.image"@ <==> (mime == "image/gif"@ || mime == "image/png"@ || mime
            == "image/jpeg"@),
        mime_msgtype(mime) == "m.file"@ <==> !(mime == "image/gif"@ || mime == "image/png"@ || mime
            == "image/jpeg"@),
        "m.image"@ != "m.file"@,
{
    reveal_strlit("m.image");
    reveal_strlit("m.file");
    assert("m.image"@.len() != "m.file"@.len());
}

/// The kind of the message that stands for a file goes by what was found
/// in the file: two files of the same content type are sent as the same
/// kind, whatever they are called.
pub proof fn lemma_attachment_kind_ignores_name(
    sender: Seq<char>,
    room: Seq<char>,
    path: Seq<char>,
    other_path: Seq<char>,
    mime: Seq<char>,
    url: Seq<char>,
    date: int,
)
    ensures
        MessageView::attachment(sender, room, path, mime, url, date).mtype
            == MessageView::attachment(sender, room, other_path, mime, url, date).mtype,
        MessageView::attachment(sender, room, path, mime, url, date).mtype == mime_msgtype(mime),
{
}

/// No command changes who is logged in, or with which credential.
pub proof fn lemma_commands_keep_identity(s: BackendView, cmd: BKCommand)
    ensures
        s.run(cmd).data.user_id == s.data.user_id,
        s.run(cmd).data.access_token == s.data.access_token,
{
    lemma_begin_extends(s, cmd);
}

/// Who is logged in, and with which credential, changes only when a login,
/// a registration or a guest registration is answered: no other outcome
/// changes it, and a login that failed does not either.
pub proof fn lemma_identity_changes_only_at_login(
    s: BackendView,
    purpose: PendingView,
    outcome: Outcome,
)
    ensures
        !(purpose is Guest || purpose is Login) ==> s.finish(purpose, outcome).data.user_id
            == s.data.user_id && s.finish(purpose, outcome).data.access_token
            == s.data.access_token,
        (purpose is Guest || purpose is Login) && outcome is Failed ==> s.finish(
            purpose,
            outcome,
        ).data == s.data,
{
    lemma_finish_only_appends(s, purpose, outcome);
}

/// An engine just made has nobody logged in and no credential.
pub proof fn lemma_nobody_is_logged_in_at_first()
    ensures
        BackendView::initial().data.user_id.len() == 0,
        BackendView::initial().data.access_token.len() == 0,
        BackendView::initial().data.since.len() == 0,
{
}

/// Every cursor has one owner. The answer to a synchronization moves the
/// cursor of the synchronization and nothing else; a page of messages moves
/// the edges of the loaded messages and nothing else; a page of the
/// directory moves the cursor of the directory and nothing else.
pub proof fn lemma_cursors_have_owners(
    s: BackendView,
    initial: bool,
    user: Seq<char>,
    room: Seq<char>,
    older: bool,
    outcome: Outcome,
)
    ensures
        s.finish(PendingView::Sync(initial, user), outcome).data == (BackendDataView {
            since: s.finish(PendingView::Sync(initial, user), outcome).data.since,
            ..s.data
        }),
        s.finish(PendingView::RoomMessages(room, older), outcome).data == (BackendDataView {
            msgs_batch_start: s.finish(
                PendingView::RoomMessages(room, older),
                outcome,
            ).data.msgs_batch_start,
            msgs_batch_end: s.finish(
                PendingView::RoomMessages(room, older),
                outcome,
            ).data.msgs_batch_end,
            ..s.data
        }),
        s.finish(PendingView::RoomSearch, outcome).data == (BackendDataView {
            rooms_since: s.finish(PendingView::RoomSearch, outcome).data.rooms_since,
            ..s.data
        }),
{
}

/// A synchronization and a fetch of messages that are under way at the
/// same time leave the same session behind in whichever order they end.
pub proof fn lemma_sync_and_page_commute(
    s: BackendView,
    initial: bool,
    user: Seq<char>,
    synced: Outcome,
    room: Seq<char>,
    older: bool,
    paged: Outcome,
)
    ensures
        s.finish(PendingView::Sync(initial, user), synced).finish(
            PendingView::RoomMessages(room, older),
            paged,
        ).data == s.finish(PendingView::RoomMessages(room, older), paged).finish(
            PendingView::Sync(initial, user),
            synced,
        ).data,
{
}

} // verus!
