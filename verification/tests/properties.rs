use guillotine::backend::Backend;
use guillotine::error::Error;
use guillotine::json::Json;
use guillotine::model::INITIAL_FILTER;
use guillotine::protocol::{BKCommand, BKResponse, Outcome, Pending, Task, Work};

fn text(s: &str) -> Json {
    Json::Text(s.to_string())
}

fn dict(members: Vec<(&str, Json)>) -> Json {
    Json::Dict(members.into_iter().map(|(k, v)| (k.to_string(), v)).collect())
}

fn s(x: &str) -> String {
    x.to_string()
}

fn logged_in() -> Backend {
    let mut b = Backend::new();
    b.login(s("me"), s("pw"), s("https://example.org")).unwrap();
    let task = b.take_tasks().pop().unwrap();
    b.finish(
        task.purpose,
        Outcome::Document(dict(vec![("user_id", text("@me:example.org")), ("access_token", text("tk"))])),
    );
    b.take_responses();
    b
}

fn query_of(task: &Task) -> Vec<(String, String)> {
    match &task.work {
        Work::Query { url, .. } => url::Url::parse(url)
            .unwrap()
            .query_pairs()
            .map(|(k, v)| (k.into_owned(), v.into_owned()))
            .collect(),
        other => panic!("not a query: {:?}", other),
    }
}

fn value_of(query: &[(String, String)], key: &str) -> Option<String> {
    query.iter().find(|(k, _)| k == key).map(|(_, v)| v.clone())
}

/// One synchronization, answered with `answer`.
fn sync_round(b: &mut Backend, answer: Outcome) -> Vec<(String, String)> {
    b.sync().unwrap();
    let task = b.take_tasks().pop().unwrap();
    let query = query_of(&task);
    b.finish(task.purpose, answer);
    query
}

#[test]
fn the_cursor_is_always_the_one_the_server_named_last() {
    let mut b = logged_in();
    let good = |cursor: &str| {
        Outcome::Document(dict(vec![
            ("next_batch", text(cursor)),
            ("rooms", dict(vec![("join", dict(vec![]))])),
        ]))
    };
    let unreadable = |cursor: &str| Outcome::Document(dict(vec![("next_batch", text(cursor))]));
    sync_round(&mut b, good("s1"));
    assert_eq!(b.data().since, "s1");
    sync_round(&mut b, unreadable("s2"));
    assert_eq!(b.data().since, "s2");
    sync_round(&mut b, good("s3"));
    assert_eq!(b.data().since, "s3");
    sync_round(&mut b, good("s3"));
    assert_eq!(b.data().since, "s3");
    sync_round(&mut b, unreadable("s1"));
    assert_eq!(b.data().since, "s1");
}

#[test]
fn each_sync_asks_from_where_the_last_one_ended() {
    let mut b = logged_in();
    let answer = |cursor: &str| Outcome::Document(dict(vec![("next_batch", text(cursor))]));
    let q1 = sync_round(&mut b, answer("s1"));
    let q2 = sync_round(&mut b, answer("s2"));
    let q3 = sync_round(&mut b, Outcome::Failed(Error::NetworkError));
    let q4 = sync_round(&mut b, answer("s4"));
    assert_eq!(value_of(&q1, "since"), None);
    assert_eq!(value_of(&q2, "since"), Some(s("s1")));
    assert_eq!(value_of(&q3, "since"), Some(s("s2")));
    assert_eq!(value_of(&q4, "since"), Some(s("s2")));
}

#[test]
fn a_sync_without_a_cursor_asks_through_the_filter_and_one_with_a_cursor_does_not() {
    let mut b = logged_in();
    let first = sync_round(&mut b, Outcome::Document(dict(vec![("next_batch", text("s1"))])));
    assert_eq!(value_of(&first, "filter"), Some(s(INITIAL_FILTER)));
    assert_eq!(value_of(&first, "since"), None);
    let second = sync_round(&mut b, Outcome::Document(dict(vec![("next_batch", text("s2"))])));
    assert_eq!(value_of(&second, "filter"), None);
    assert_eq!(value_of(&second, "since"), Some(s("s1")));
    assert_eq!(value_of(&second, "timeout"), Some(s("30000")));
    assert_eq!(value_of(&first, "timeout"), Some(s("30000")));
}

#[test]
fn the_filter_of_a_first_sync_asks_for_state_and_nothing_else() {
    let filter: serde_json::Value = serde_json::from_str(INITIAL_FILTER).unwrap();
    assert_eq!(filter["room"]["timeline"]["limit"].as_i64(), Some(0));
    assert_eq!(filter["room"]["state"]["types"][0].as_str(), Some("m.room.*"));
    assert_eq!(filter["room"]["state"]["types"].as_array().map(|a| a.len()), Some(1));
    assert_eq!(filter["room"]["ephemeral"]["types"].as_array().map(|a| a.len()), Some(0));
    assert_eq!(filter["presence"]["types"].as_array().map(|a| a.len()), Some(0));
}

#[test]
fn the_room_to_open_is_the_one_with_the_id_of_the_marker() {
    let room = || {
        dict(vec![("state", dict(vec![("events", Json::List(vec![]))]))])
    };
    let answer = || {
        Outcome::Document(dict(vec![(
            "rooms",
            dict(vec![("join", dict(vec![("A", room()), ("B", room()), ("C", room())]))]),
        )]))
    };
    let default_of = |marker: Option<&str>| {
        let mut b = logged_in();
        if let Some(m) = marker {
            b.finish(Pending::JoinRoom(s(m)), Outcome::Document(dict(vec![])));
            b.take_responses();
        }
        sync_round(&mut b, answer());
        match b.take_responses().remove(0) {
            BKResponse::Rooms(rooms, def) => {
                assert_eq!(rooms.iter().map(|r| r.id.clone()).collect::<Vec<_>>(), vec!["A", "B", "C"]);
                def.map(|r| r.id)
            }
            other => panic!("not the rooms: {:?}", other),
        }
    };
    assert_eq!(default_of(Some("B")), Some(s("B")));
    assert_eq!(default_of(None), None);
    assert_eq!(default_of(Some("D")), None);
    assert_eq!(default_of(Some("")), None);
}

fn page(start: &str, end: &str, bodies: Vec<&str>) -> Outcome {
    let events = bodies
        .into_iter()
        .map(|b| {
            dict(vec![
                ("type", text("m.room.message")),
                ("content", dict(vec![("msgtype", text("m.text")), ("body", text(b))])),
            ])
        })
        .collect();
    Outcome::Document(dict(vec![
        ("start", text(start)),
        ("end", text(end)),
        ("chunk", Json::List(events)),
    ]))
}

/// One fetch of older messages, answered with `answer`: the token asked
/// with and how many messages went to the caller.
fn fetch_older(b: &mut Backend, answer: Outcome) -> (Option<String>, usize) {
    assert!(b.command_recv(Ok(BKCommand::GetRoomMessagesTo(s("!r:example.org")))));
    let task = b.take_tasks().pop().unwrap();
    let from = value_of(&query_of(&task), "from");
    b.finish(task.purpose, answer);
    match b.take_responses().remove(0) {
        BKResponse::RoomMessagesTo(ms) => (from, ms.len()),
        other => panic!("not a page: {:?}", other),
    }
}

#[test]
fn each_fetch_of_older_messages_goes_on_from_the_start_of_the_page_before() {
    let mut b = logged_in();
    b.get_room_messages(s("!r:example.org"), false).unwrap();
    let first = b.take_tasks().pop().unwrap();
    assert_eq!(value_of(&query_of(&first), "from"), None);
    b.finish(first.purpose, page("t100", "t90", vec!["j", "i"]));
    b.take_responses();
    assert_eq!(fetch_older(&mut b, page("t90", "t80", vec!["h", "g"])), (Some(s("t90")), 2));
    assert_eq!(fetch_older(&mut b, page("t80", "t70", vec!["f"])), (Some(s("t80")), 1));
    assert_eq!(fetch_older(&mut b, page("t70", "t70", vec![])), (Some(s("t70")), 0));
    assert_eq!(fetch_older(&mut b, page("t70", "t70", vec![])), (Some(s("t70")), 0));
    assert_eq!(fetch_older(&mut b, page("t70", "t70", vec![])), (Some(s("t70")), 0));
    assert_eq!(b.data().msgs_batch_start, "t70");
}

#[test]
fn an_exhausted_history_is_an_empty_page_and_no_error() {
    let mut b = logged_in();
    b.finish(Pending::RoomMessages(s("!r:example.org"), true), page("t5", "t5", vec![]));
    assert_eq!(b.take_responses(), vec![BKResponse::RoomMessagesTo(vec![])]);
}

#[test]
fn a_failing_command_and_a_good_one_make_two_responses_in_order() {
    let mut b = logged_in();
    assert!(b.command_recv(Ok(BKCommand::SetRoomName(s("###"), s("x")))));
    let bad = b.take_tasks().pop().unwrap();
    b.finish(bad.purpose, Outcome::Failed(Error::BackendError));
    assert!(b.command_recv(Ok(BKCommand::SetRoomTopic(s("!r:example.org"), s("Talk")))));
    let good = b.take_tasks().pop().unwrap();
    b.finish(good.purpose, Outcome::Document(dict(vec![("event_id", text("$1"))])));
    assert_eq!(
        b.take_responses(),
        vec![BKResponse::SetRoomNameError(Error::BackendError), BKResponse::SetRoomTopic]
    );
    assert!(b.take_tasks().is_empty());
}

#[test]
fn attaching_a_file_sends_no_message() {
    let mut b = logged_in();
    assert!(b.command_recv(Ok(BKCommand::AttachFile(s("!r:example.org"), s("/tmp/cat.png")))));
    assert!(b.take_responses().is_empty());
    let mut tasks = b.take_tasks();
    assert_eq!(tasks.len(), 1);
    let upload = tasks.pop().unwrap();
    assert!(matches!(upload.work, Work::Upload { .. }));
    let number = b.data().msgid;
    b.finish(
        upload.purpose,
        Outcome::Document(dict(vec![("content_uri", text("mxc://example.org/cat"))])),
    );
    assert_eq!(b.take_responses(), vec![BKResponse::AttachedFile(s("mxc://example.org/cat"))]);
    assert!(b.take_tasks().is_empty());
    assert!(b.take_replies().is_empty());
    assert_eq!(b.data().msgid, number);
}

#[test]
fn work_that_failed_is_told_once_and_leaves_no_trace() {
    let purposes = vec![
        Pending::Guest,
        Pending::Login,
        Pending::Username(s("u")),
        Pending::Avatar,
        Pending::Sync(true, s("u")),
        Pending::Sync(false, s("u")),
        Pending::RoomDetail(s("k")),
        Pending::RoomAvatar(s("b"), s("t"), s("u"), s("r")),
        Pending::RoomAvatarFile,
        Pending::RoomMessages(s("r"), true),
        Pending::RoomMembers,
        Pending::UserInfo(1),
        Pending::Thumb(2),
        Pending::Media,
        Pending::SendMsg,
        Pending::Protocols(s("s")),
        Pending::RoomSearch,
        Pending::JoinRoom(s("r")),
        Pending::LeaveRoom,
        Pending::MarkAsRead(s("r"), s("e")),
        Pending::SetRoomName,
        Pending::SetRoomTopic,
        Pending::AvatarUpload(s("u")),
        Pending::AvatarSet,
        Pending::Attach,
    ];
    for purpose in purposes {
        let mut b = logged_in();
        let before = b.data().clone();
        b.finish(purpose, Outcome::Failed(Error::NetworkError));
        assert_eq!(b.take_responses().len() + b.take_replies().len(), 1);
        assert!(b.take_tasks().is_empty());
        assert_eq!(*b.data(), before);
    }
}
