use guillotine::backend::{into_document, into_file, into_user_info, Backend};
use guillotine::error::Error;
use guillotine::json::Json;
use guillotine::protocol::{BKResponse, Method, Outcome, Pending, Reply, Task, Work};
use guillotine::types::{Member, Message, Protocol, Room};

fn text(s: &str) -> Json {
    Json::Text(s.to_string())
}

fn dict(members: Vec<(&str, Json)>) -> Json {
    Json::Dict(members.into_iter().map(|(k, v)| (k.to_string(), v)).collect())
}

fn ok(members: Vec<(&str, Json)>) -> Outcome {
    Outcome::Document(dict(members))
}

fn told(purpose: Pending, outcome: Outcome) -> Vec<BKResponse> {
    let mut b = Backend::new();
    b.finish(purpose, outcome);
    assert!(b.take_replies().is_empty());
    b.take_responses()
}

#[test]
fn outcomes_are_read_as_what_they_are() {
    assert_eq!(into_document(Outcome::Document(Json::Null)), Ok(Json::Null));
    assert_eq!(into_document(Outcome::Failed(Error::NetworkError)), Err(Error::NetworkError));
    assert_eq!(into_document(Outcome::File("f".to_string())), Err(Error::BackendError));
    assert_eq!(into_file(Outcome::File("f".to_string())), Ok("f".to_string()));
    assert_eq!(into_file(Outcome::Failed(Error::CacheError)), Err(Error::CacheError));
    assert_eq!(into_file(Outcome::Document(Json::Null)), Err(Error::BackendError));
    assert_eq!(
        into_user_info(Outcome::UserInfo("n".to_string(), "f".to_string())),
        Ok(("n".to_string(), "f".to_string()))
    );
    assert_eq!(into_user_info(Outcome::Failed(Error::IoError)), Err(Error::IoError));
    assert_eq!(into_user_info(Outcome::File("f".to_string())), Err(Error::BackendError));
}

#[test]
fn a_login_opens_the_session_and_forgets_the_cursors() {
    let mut b = Backend::new();
    b.finish(
        Pending::Sync(true, String::new()),
        ok(vec![("next_batch", text("s1"))]),
    );
    b.finish(
        Pending::RoomMessages("!r:m.org".to_string(), false),
        ok(vec![("start", text("t2")), ("end", text("t1")), ("chunk", Json::List(vec![]))]),
    );
    b.take_responses();
    assert_eq!(b.data().since, "s1");
    assert_eq!(b.data().msgs_batch_start, "t1");
    b.finish(Pending::Login, ok(vec![("user_id", text("@me:m.org")), ("access_token", text("tk"))]));
    assert_eq!(b.take_responses(), vec![BKResponse::Token("@me:m.org".to_string(), "tk".to_string())]);
    assert_eq!(b.data().user_id, "@me:m.org");
    assert_eq!(b.data().access_token, "tk");
    assert_eq!(b.data().since, "");
    assert_eq!(b.data().msgs_batch_start, "");
    assert_eq!(b.data().msgs_batch_end, "");
}

#[test]
fn a_login_answer_without_ids_opens_an_empty_session() {
    let mut b = Backend::new();
    b.finish(Pending::Guest, ok(vec![]));
    assert_eq!(b.take_responses(), vec![BKResponse::Token(String::new(), String::new())]);
    assert_eq!(b.data().user_id, "");
}

#[test]
fn a_failed_login_tells_the_error_of_its_kind() {
    assert_eq!(
        told(Pending::Login, Outcome::Failed(Error::AuthError)),
        vec![BKResponse::LoginError(Error::AuthError)]
    );
    assert_eq!(
        told(Pending::Guest, Outcome::Failed(Error::NetworkError)),
        vec![BKResponse::GuestLoginError(Error::NetworkError)]
    );
}

#[test]
fn the_user_id_stands_in_for_a_missing_display_name() {
    assert_eq!(
        told(Pending::Username("@me:m.org".to_string()), ok(vec![("displayname", text("Me"))])),
        vec![BKResponse::Name("Me".to_string())]
    );
    assert_eq!(
        told(Pending::Username("@me:m.org".to_string()), ok(vec![])),
        vec![BKResponse::Name("@me:m.org".to_string())]
    );
    assert_eq!(
        told(Pending::Username("@me:m.org".to_string()), Outcome::Failed(Error::NetworkError)),
        vec![BKResponse::UserNameError(Error::NetworkError)]
    );
}

#[test]
fn the_avatar_of_the_user_is_the_file() {
    assert_eq!(
        told(Pending::Avatar, Outcome::UserInfo("Me".to_string(), "/cache/me".to_string())),
        vec![BKResponse::Avatar("/cache/me".to_string())]
    );
    assert_eq!(
        told(Pending::Avatar, Outcome::Failed(Error::CacheError)),
        vec![BKResponse::AvatarError(Error::CacheError)]
    );
}

#[test]
fn an_outcome_of_the_wrong_kind_counts_as_a_failure() {
    assert_eq!(
        told(Pending::Avatar, Outcome::Document(Json::Null)),
        vec![BKResponse::AvatarError(Error::BackendError)]
    );
    assert_eq!(
        told(Pending::SendMsg, Outcome::File("f".to_string())),
        vec![BKResponse::SendMsgError(Error::BackendError)]
    );
}

#[test]
fn a_piece_of_room_state_stands_under_the_last_part_of_its_key() {
    assert_eq!(
        told(Pending::RoomDetail("m.room.topic".to_string()), ok(vec![("topic", text("Talk"))])),
        vec![BKResponse::RoomDetail("m.room.topic".to_string(), "Talk".to_string())]
    );
    assert_eq!(
        told(Pending::RoomDetail("m.room.topic".to_string()), ok(vec![("name", text("x"))])),
        vec![BKResponse::RoomDetail("m.room.topic".to_string(), String::new())]
    );
    assert_eq!(
        told(Pending::RoomDetail("k".to_string()), Outcome::Failed(Error::NetworkError)),
        vec![BKResponse::RoomDetailError(Error::NetworkError)]
    );
}

fn avatar_purpose() -> Pending {
    Pending::RoomAvatar(
        "https://m.org/".to_string(),
        "tk".to_string(),
        "@me:m.org".to_string(),
        "!r:m.org".to_string(),
    )
}

#[test]
fn a_room_with_an_avatar_has_it_resolved() {
    let mut b = Backend::new();
    b.finish(avatar_purpose(), ok(vec![("url", text("mxc://m.org/a"))]));
    assert!(b.take_responses().is_empty());
    assert_eq!(
        b.take_tasks(),
        vec![Task {
            work: Work::Thumbnail {
                base: "https://m.org/".to_string(),
                token: "tk".to_string(),
                media: "mxc://m.org/a".to_string(),
            },
            purpose: Pending::RoomAvatarFile,
        }]
    );
}

#[test]
fn a_room_without_an_avatar_gets_one_made_up() {
    let mut b = Backend::new();
    b.finish(avatar_purpose(), ok(vec![]));
    assert!(b.take_responses().is_empty());
    assert_eq!(
        b.take_tasks(),
        vec![Task {
            work: Work::RoomAvatar {
                base: "https://m.org/".to_string(),
                token: "tk".to_string(),
                user: "@me:m.org".to_string(),
                room: "!r:m.org".to_string(),
            },
            purpose: Pending::RoomAvatarFile,
        }]
    );
}

#[test]
fn a_room_avatar_that_cannot_be_asked_for_is_an_error() {
    assert_eq!(
        told(avatar_purpose(), Outcome::Failed(Error::NetworkError)),
        vec![BKResponse::RoomAvatarError(Error::NetworkError)]
    );
}

#[test]
fn a_room_avatar_that_cannot_be_fetched_is_an_empty_path() {
    assert_eq!(
        told(Pending::RoomAvatarFile, Outcome::File("/cache/r".to_string())),
        vec![BKResponse::RoomAvatar("/cache/r".to_string())]
    );
    assert_eq!(
        told(Pending::RoomAvatarFile, Outcome::Failed(Error::NetworkError)),
        vec![BKResponse::RoomAvatar(String::new())]
    );
}

fn message_event(body: &str) -> Json {
    dict(vec![
        ("type", text("m.room.message")),
        ("sender", text("@a:m.org")),
        ("content", dict(vec![("msgtype", text("m.text")), ("body", text(body))])),
    ])
}

fn message(body: &str, room: &str) -> Message {
    Message {
        sender: "@a:m.org".to_string(),
        mtype: "m.text".to_string(),
        body: body.to_string(),
        date: 0,
        room: room.to_string(),
        thumb: String::new(),
        url: String::new(),
        id: String::new(),
    }
}

#[test]
fn a_page_of_messages_keeps_its_edges() {
    let mut b = Backend::new();
    let page = || {
        vec![
            ("start", text("t9")),
            ("end", text("t5")),
            ("chunk", Json::List(vec![message_event("new"), message_event("old")])),
        ]
    };
    b.finish(Pending::RoomMessages("!r:m.org".to_string(), false), ok(page()));
    assert_eq!(
        b.take_responses(),
        vec![BKResponse::RoomMessagesInit(vec![message("old", "!r:m.org"), message("new", "!r:m.org")])]
    );
    assert_eq!(b.data().msgs_batch_start, "t5");
    assert_eq!(b.data().msgs_batch_end, "t9");
    b.finish(Pending::RoomMessages("!r:m.org".to_string(), true), ok(page()));
    assert_eq!(
        b.take_responses(),
        vec![BKResponse::RoomMessagesTo(vec![message("old", "!r:m.org"), message("new", "!r:m.org")])]
    );
}

#[test]
fn a_page_that_cannot_be_read_is_an_error_and_moves_nothing() {
    let mut b = Backend::new();
    b.finish(
        Pending::RoomMessages("!r:m.org".to_string(), false),
        ok(vec![("start", text("t9")), ("end", text("t5"))]),
    );
    assert_eq!(b.take_responses(), vec![BKResponse::RoomMessagesError(Error::BackendError)]);
    assert_eq!(b.data().msgs_batch_start, "");
    assert_eq!(
        told(Pending::RoomMessages("!r:m.org".to_string(), true), Outcome::Failed(Error::NetworkError)),
        vec![BKResponse::RoomMessagesError(Error::NetworkError)]
    );
}

#[test]
fn the_members_of_a_room_are_listed() {
    let join = dict(vec![
        ("type", text("m.room.member")),
        ("sender", text("@a:m.org")),
        ("content", dict(vec![("membership", text("join")), ("displayname", text("Ann"))])),
    ]);
    assert_eq!(
        told(Pending::RoomMembers, ok(vec![("chunk", Json::List(vec![join]))])),
        vec![BKResponse::RoomMembers(vec![Member {
            alias: "Ann".to_string(),
            uid: "@a:m.org".to_string(),
            avatar: String::new(),
        }])]
    );
    assert_eq!(
        told(Pending::RoomMembers, ok(vec![])),
        vec![BKResponse::RoomMembersError(Error::BackendError)]
    );
    assert_eq!(
        told(Pending::RoomMembers, Outcome::Failed(Error::AuthError)),
        vec![BKResponse::RoomMembersError(Error::AuthError)]
    );
}

#[test]
fn one_shot_answers_carry_the_ticket_and_degrade_to_empty() {
    let mut b = Backend::new();
    b.finish(Pending::UserInfo(3), Outcome::UserInfo("Ann".to_string(), "/cache/a".to_string()));
    b.finish(Pending::UserInfo(4), Outcome::Failed(Error::NetworkError));
    b.finish(Pending::Thumb(5), Outcome::File("/cache/t".to_string()));
    b.finish(Pending::Thumb(6), Outcome::Failed(Error::CacheError));
    assert!(b.take_responses().is_empty());
    assert_eq!(
        b.take_replies(),
        vec![
            Reply::UserInfo(3, "Ann".to_string(), "/cache/a".to_string()),
            Reply::UserInfo(4, String::new(), String::new()),
            Reply::Thumb(5, "/cache/t".to_string()),
            Reply::Thumb(6, String::new()),
        ]
    );
}

#[test]
fn media_that_cannot_be_fetched_is_an_error() {
    assert_eq!(
        told(Pending::Media, Outcome::File("/cache/m".to_string())),
        vec![BKResponse::Media("/cache/m".to_string())]
    );
    assert_eq!(
        told(Pending::Media, Outcome::Failed(Error::IoError)),
        vec![BKResponse::MediaError(Error::IoError)]
    );
}

#[test]
fn plain_answers_tell_that_it_was_done() {
    assert_eq!(told(Pending::SendMsg, ok(vec![])), vec![BKResponse::SendMsg]);
    assert_eq!(told(Pending::LeaveRoom, ok(vec![])), vec![BKResponse::LeaveRoom]);
    assert_eq!(told(Pending::SetRoomName, ok(vec![])), vec![BKResponse::SetRoomName]);
    assert_eq!(told(Pending::SetRoomTopic, ok(vec![])), vec![BKResponse::SetRoomTopic]);
    assert_eq!(told(Pending::AvatarSet, ok(vec![])), vec![BKResponse::SetRoomAvatar]);
    assert_eq!(
        told(Pending::MarkAsRead("!r:m.org".to_string(), "$e".to_string()), ok(vec![])),
        vec![BKResponse::MarkedAsRead("!r:m.org".to_string(), "$e".to_string())]
    );
}

#[test]
fn plain_failures_tell_the_error_of_their_kind() {
    let e = Error::NetworkError;
    let f = || Outcome::Failed(Error::NetworkError);
    assert_eq!(told(Pending::SendMsg, f()), vec![BKResponse::SendMsgError(e)]);
    assert_eq!(told(Pending::LeaveRoom, f()), vec![BKResponse::LeaveRoomError(e)]);
    assert_eq!(told(Pending::SetRoomName, f()), vec![BKResponse::SetRoomNameError(e)]);
    assert_eq!(told(Pending::SetRoomTopic, f()), vec![BKResponse::SetRoomTopicError(e)]);
    assert_eq!(told(Pending::AvatarSet, f()), vec![BKResponse::SetRoomAvatarError(e)]);
    assert_eq!(
        told(Pending::MarkAsRead("r".to_string(), "e".to_string()), f()),
        vec![BKResponse::MarkAsReadError(e)]
    );
    assert_eq!(told(Pending::JoinRoom("r".to_string()), f()), vec![BKResponse::JoinRoomError(e)]);
    assert_eq!(told(Pending::Protocols("s".to_string()), f()), vec![BKResponse::DirectoryError(e)]);
    assert_eq!(told(Pending::RoomSearch, f()), vec![BKResponse::DirectoryError(e)]);
    assert_eq!(told(Pending::AvatarUpload("u".to_string()), f()), vec![BKResponse::SetRoomAvatarError(e)]);
    assert_eq!(told(Pending::Attach, f()), vec![BKResponse::AttachFileError(e)]);
    assert_eq!(told(Pending::Sync(false, "u".to_string()), f()), vec![BKResponse::SyncError(e)]);
}

#[test]
fn the_networks_of_the_directory_are_listed() {
    assert_eq!(
        told(Pending::Protocols("https://m.org".to_string()), ok(vec![])),
        vec![BKResponse::DirectoryProtocols(vec![Protocol {
            id: String::new(),
            desc: "m.org".to_string(),
        }])]
    );
    assert_eq!(
        told(Pending::Protocols("https://m.org".to_string()), Outcome::Document(Json::Null)),
        vec![BKResponse::DirectoryError(Error::BackendError)]
    );
}

#[test]
fn a_page_of_the_directory_moves_the_cursor() {
    let mut b = Backend::new();
    b.finish(
        Pending::RoomSearch,
        ok(vec![
            ("next_batch", text("next-page")),
            ("chunk", Json::List(vec![dict(vec![("room_id", text("!r:m.org")), ("name", text("Lobby"))])])),
        ]),
    );
    assert_eq!(
        b.take_responses(),
        vec![BKResponse::DirectorySearch(vec![Room::new("!r:m.org".to_string(), "Lobby".to_string())])]
    );
    assert_eq!(b.data().rooms_since, "next-page");
}

#[test]
fn the_last_page_of_the_directory_leaves_an_empty_cursor() {
    let mut b = Backend::new();
    b.finish(Pending::RoomSearch, ok(vec![("next_batch", text("next-page")), ("chunk", Json::List(vec![]))]));
    b.finish(Pending::RoomSearch, ok(vec![("chunk", Json::List(vec![]))]));
    assert_eq!(
        b.take_responses(),
        vec![BKResponse::DirectorySearch(vec![]), BKResponse::DirectorySearch(vec![])]
    );
    assert_eq!(b.data().rooms_since, "");
}

#[test]
fn a_page_of_the_directory_that_cannot_be_read_still_moves_the_cursor() {
    let mut b = Backend::new();
    b.finish(Pending::RoomSearch, ok(vec![("next_batch", text("next-page"))]));
    assert_eq!(b.take_responses(), vec![BKResponse::DirectoryError(Error::BackendError)]);
    assert_eq!(b.data().rooms_since, "next-page");
}

#[test]
fn a_room_joined_is_the_room_to_open() {
    let mut b = Backend::new();
    b.finish(Pending::JoinRoom("!r:m.org".to_string()), ok(vec![]));
    assert_eq!(b.take_responses(), vec![BKResponse::JoinRoom]);
    assert_eq!(b.data().join_to_room, "!r:m.org");
    b.finish(Pending::JoinRoom("!s:m.org".to_string()), Outcome::Failed(Error::NetworkError));
    assert_eq!(b.data().join_to_room, "!r:m.org");
}

#[test]
fn an_uploaded_avatar_is_recorded_next() {
    let mut b = Backend::new();
    b.finish(
        Pending::AvatarUpload("https://m.org/record".to_string()),
        ok(vec![("content_uri", text("mxc://m.org/new"))]),
    );
    assert!(b.take_responses().is_empty());
    assert_eq!(
        b.take_tasks(),
        vec![Task {
            work: Work::Query {
                method: Method::Put,
                url: "https://m.org/record".to_string(),
                body: dict(vec![("url", text("mxc://m.org/new"))]),
            },
            purpose: Pending::AvatarSet,
        }]
    );
}

#[test]
fn an_uploaded_attachment_is_told_with_its_uri() {
    assert_eq!(
        told(Pending::Attach, ok(vec![("content_uri", text("mxc://m.org/file"))])),
        vec![BKResponse::AttachedFile("mxc://m.org/file".to_string())]
    );
    assert_eq!(told(Pending::Attach, ok(vec![])), vec![BKResponse::AttachedFile(String::new())]);
}
