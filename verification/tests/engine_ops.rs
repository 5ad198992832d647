use guillotine::backend::Backend;
use guillotine::error::Error;
use guillotine::json::Json;
use guillotine::model::INITIAL_FILTER;
use guillotine::protocol::{BKResponse, Method, Outcome, Pending, Task, Work};
use guillotine::types::Message;

fn text(s: &str) -> Json {
    Json::Text(s.to_string())
}

fn dict(members: Vec<(&str, Json)>) -> Json {
    Json::Dict(members.into_iter().map(|(k, v)| (k.to_string(), v)).collect())
}

fn query(method: Method, url: &str, body: Json, purpose: Pending) -> Task {
    Task { work: Work::Query { method, url: url.to_string(), body }, purpose }
}

/// An engine with an open session: user `@me:example.org`, token `tk`.
fn logged_in() -> Backend {
    let mut b = Backend::new();
    b.login("me".to_string(), "pw".to_string(), "https://example.org".to_string()).unwrap();
    b.take_tasks();
    b.finish(
        Pending::Login,
        Outcome::Document(dict(vec![
            ("user_id", text("@me:example.org")),
            ("access_token", text("tk")),
        ])),
    );
    b.take_responses();
    b
}

const CLIENT: &str = "https://example.org/_matrix/client/r0/";

#[test]
fn a_new_engine_has_no_session_and_nothing_queued() {
    let mut b = Backend::new();
    assert_eq!(b.data().user_id, "");
    assert_eq!(b.data().access_token, "");
    assert_eq!(b.data().server_url, "https://matrix.org");
    assert_eq!(b.data().since, "");
    assert_eq!(b.data().msgid, 1);
    assert_eq!(b.data().msgs_batch_start, "");
    assert_eq!(b.data().msgs_batch_end, "");
    assert_eq!(b.data().rooms_since, "");
    assert_eq!(b.data().join_to_room, "");
    assert!(b.take_tasks().is_empty());
    assert!(b.take_responses().is_empty());
    assert!(b.take_replies().is_empty());
}

#[test]
fn get_base_url_parses_the_server_of_the_session() {
    let b = Backend::new();
    assert_eq!(b.get_base_url(), Ok("https://matrix.org/".to_string()));
}

#[test]
fn url_appends_the_access_token_last() {
    let b = logged_in();
    assert_eq!(
        b.url("sync", vec![("timeout", "30000".to_string())]),
        Ok(format!("{}sync?timeout=30000&access_token=tk", CLIENT))
    );
    assert_eq!(b.url("login", vec![]), Ok(format!("{}login?access_token=tk", CLIENT)));
}

#[test]
fn url_fails_on_a_server_that_is_no_url() {
    let mut b = Backend::new();
    assert_eq!(
        b.login("me".to_string(), "pw".to_string(), "not a url".to_string()),
        Err(Error::BackendError)
    );
    assert_eq!(b.url("sync", vec![]), Err(Error::BackendError));
    assert_eq!(b.get_base_url(), Err(Error::BackendError));
}

#[test]
fn login_takes_the_server_over_and_posts_the_credentials() {
    let mut b = Backend::new();
    assert_eq!(
        b.login("me".to_string(), "pw".to_string(), "https://example.org".to_string()),
        Ok(())
    );
    assert_eq!(b.data().server_url, "https://example.org");
    assert_eq!(
        b.take_tasks(),
        vec![query(
            Method::Post,
            "https://example.org/_matrix/client/r0/login?access_token=",
            dict(vec![
                ("password", text("pw")),
                ("type", text("m.login.password")),
                ("user", text("me")),
            ]),
            Pending::Login,
        )]
    );
    assert!(b.take_responses().is_empty());
}

#[test]
fn login_on_a_bad_server_keeps_the_bad_server_and_asks_nothing() {
    let mut b = Backend::new();
    assert_eq!(b.login("me".to_string(), "pw".to_string(), "nowhere".to_string()), Err(Error::BackendError));
    assert_eq!(b.data().server_url, "nowhere");
    assert!(b.take_tasks().is_empty());
}

#[test]
fn register_posts_the_new_account() {
    let mut b = Backend::new();
    assert_eq!(
        b.register("me".to_string(), "pw".to_string(), "https://example.org".to_string()),
        Ok(())
    );
    assert_eq!(
        b.take_tasks(),
        vec![query(
            Method::Post,
            "https://example.org/_matrix/client/r0/register?kind=user&access_token=",
            dict(vec![
                ("auth", dict(vec![("type", text("m.login.password"))])),
                ("bind_email", Json::Bool(false)),
                ("password", text("pw")),
                ("username", text("me")),
            ]),
            Pending::Login,
        )]
    );
}

#[test]
fn guest_registers_without_a_token() {
    let mut b = Backend::new();
    assert_eq!(b.guest("https://example.org".to_string()), Ok(()));
    assert_eq!(b.data().server_url, "https://example.org");
    assert_eq!(
        b.take_tasks(),
        vec![query(
            Method::Post,
            "https://example.org/_matrix/client/r0/register?kind=guest&access_token=",
            Json::Null,
            Pending::Guest,
        )]
    );
}

#[test]
fn guest_on_a_bad_server_changes_nothing() {
    let mut b = Backend::new();
    assert_eq!(b.guest("nowhere".to_string()), Err(Error::BackendError));
    assert_eq!(b.data().server_url, "https://matrix.org");
    assert!(b.take_tasks().is_empty());
}

#[test]
fn get_username_asks_for_the_profile_of_the_user() {
    let mut b = logged_in();
    assert_eq!(b.get_username(), Ok(()));
    assert_eq!(
        b.take_tasks(),
        vec![query(
            Method::Get,
            &format!("{}profile/@me:example.org/displayname?access_token=tk", CLIENT),
            Json::Null,
            Pending::Username("@me:example.org".to_string()),
        )]
    );
}

#[test]
fn get_avatar_asks_for_the_avatar_of_the_user() {
    let mut b = logged_in();
    assert_eq!(b.get_avatar(), Ok(()));
    assert_eq!(
        b.take_tasks(),
        vec![Task {
            work: Work::UserAvatar {
                base: "https://example.org/".to_string(),
                token: "tk".to_string(),
                user: "@me:example.org".to_string(),
            },
            purpose: Pending::Avatar,
        }]
    );
}

#[test]
fn a_first_sync_asks_through_the_filter() {
    let mut b = logged_in();
    assert_eq!(b.sync(), Ok(()));
    let tasks = b.take_tasks();
    assert_eq!(tasks.len(), 1);
    assert_eq!(tasks[0].purpose, Pending::Sync(true, "@me:example.org".to_string()));
    match &tasks[0].work {
        Work::Query { method, url, body } => {
            assert_eq!(*method, Method::Get);
            assert_eq!(*body, Json::Null);
            let parsed = url::Url::parse(url).unwrap();
            assert_eq!(parsed.path(), "/_matrix/client/r0/sync");
            let pairs: Vec<(String, String)> = parsed
                .query_pairs()
                .map(|(k, v)| (k.into_owned(), v.into_owned()))
                .collect();
            assert_eq!(
                pairs,
                vec![
                    ("full_state".to_string(), "false".to_string()),
                    ("timeout".to_string(), "30000".to_string()),
                    ("filter".to_string(), INITIAL_FILTER.to_string()),
                    ("access_token".to_string(), "tk".to_string()),
                ]
            );
        }
        other => panic!("not a query: {:?}", other),
    }
}

#[test]
fn a_later_sync_asks_since_the_cursor() {
    let mut b = logged_in();
    b.finish(
        Pending::Sync(true, "@me:example.org".to_string()),
        Outcome::Document(dict(vec![("next_batch", text("s72"))])),
    );
    assert_eq!(b.sync(), Ok(()));
    assert_eq!(
        b.take_tasks(),
        vec![query(
            Method::Get,
            &format!("{}sync?full_state=false&timeout=30000&since=s72&access_token=tk", CLIENT),
            Json::Null,
            Pending::Sync(false, "@me:example.org".to_string()),
        )]
    );
}

#[test]
fn sync_forced_forgets_the_cursor() {
    let mut b = logged_in();
    b.finish(
        Pending::Sync(true, "@me:example.org".to_string()),
        Outcome::Document(dict(vec![("next_batch", text("s72"))])),
    );
    assert_eq!(b.data().since, "s72");
    assert_eq!(b.sync_forced(), Ok(()));
    assert_eq!(b.data().since, "");
    let tasks = b.take_tasks();
    assert_eq!(tasks[0].purpose, Pending::Sync(true, "@me:example.org".to_string()));
}

#[test]
fn get_room_detail_asks_for_one_piece_of_state() {
    let mut b = logged_in();
    assert_eq!(b.get_room_detail("!r:example.org".to_string(), "m.room.topic".to_string()), Ok(()));
    assert_eq!(
        b.take_tasks(),
        vec![query(
            Method::Get,
            &format!("{}rooms/!r:example.org/state/m.room.topic?access_token=tk", CLIENT),
            Json::Null,
            Pending::RoomDetail("m.room.topic".to_string()),
        )]
    );
}

#[test]
fn get_room_avatar_remembers_with_what_it_asked() {
    let mut b = logged_in();
    assert_eq!(b.get_room_avatar("!r:example.org".to_string()), Ok(()));
    assert_eq!(
        b.take_tasks(),
        vec![query(
            Method::Get,
            &format!("{}rooms/!r:example.org/state/m.room.avatar?access_token=tk", CLIENT),
            Json::Null,
            Pending::RoomAvatar(
                "https://example.org/".to_string(),
                "tk".to_string(),
                "@me:example.org".to_string(),
                "!r:example.org".to_string(),
            ),
        )]
    );
}

#[test]
fn get_room_messages_asks_for_the_newest_page() {
    let mut b = logged_in();
    assert_eq!(b.get_room_messages("!r:example.org".to_string(), false), Ok(()));
    assert_eq!(
        b.take_tasks(),
        vec![query(
            Method::Get,
            &format!("{}rooms/!r:example.org/messages?dir=b&limit=10&access_token=tk", CLIENT),
            Json::Null,
            Pending::RoomMessages("!r:example.org".to_string(), false),
        )]
    );
}

#[test]
fn get_room_members_asks_for_the_member_events() {
    let mut b = logged_in();
    assert_eq!(b.get_room_members("!r:example.org".to_string()), Ok(()));
    assert_eq!(
        b.take_tasks(),
        vec![query(
            Method::Get,
            &format!("{}rooms/!r:example.org/members?access_token=tk", CLIENT),
            Json::Null,
            Pending::RoomMembers,
        )]
    );
}

#[test]
fn one_shot_lookups_carry_their_ticket() {
    let mut b = logged_in();
    assert_eq!(b.get_user_info_async("@a:example.org", 7), Ok(()));
    assert_eq!(b.get_thumb_async("mxc://example.org/m".to_string(), 8), Ok(()));
    assert_eq!(b.get_media("mxc://example.org/n".to_string()), Ok(()));
    let base = "https://example.org/".to_string();
    assert_eq!(
        b.take_tasks(),
        vec![
            Task {
                work: Work::UserAvatar {
                    base: base.clone(),
                    token: "tk".to_string(),
                    user: "@a:example.org".to_string(),
                },
                purpose: Pending::UserInfo(7),
            },
            Task {
                work: Work::Thumbnail {
                    base: base.clone(),
                    token: "tk".to_string(),
                    media: "mxc://example.org/m".to_string(),
                },
                purpose: Pending::Thumb(8),
            },
            Task {
                work: Work::Media {
                    base,
                    token: "tk".to_string(),
                    media: "mxc://example.org/n".to_string(),
                },
                purpose: Pending::Media,
            },
        ]
    );
}

fn outgoing(room: &str, body: &str) -> Message {
    Message {
        sender: "@me:example.org".to_string(),
        mtype: "m.text".to_string(),
        body: body.to_string(),
        date: 0,
        room: room.to_string(),
        thumb: String::new(),
        url: String::new(),
        id: String::new(),
    }
}

#[test]
fn send_msg_numbers_the_messages_of_a_session() {
    let mut b = logged_in();
    assert_eq!(b.send_msg(outgoing("!r:example.org", "hello")), Ok(()));
    assert_eq!(b.data().msgid, 2);
    assert_eq!(b.send_msg(outgoing("!r:example.org", "again")), Ok(()));
    assert_eq!(b.data().msgid, 3);
    let body = |s: &str| dict(vec![("body", text(s)), ("msgtype", text("m.text"))]);
    assert_eq!(
        b.take_tasks(),
        vec![
            query(
                Method::Put,
                &format!("{}rooms/!r:example.org/send/m.room.message/2?access_token=tk", CLIENT),
                body("hello"),
                Pending::SendMsg,
            ),
            query(
                Method::Put,
                &format!("{}rooms/!r:example.org/send/m.room.message/3?access_token=tk", CLIENT),
                body("again"),
                Pending::SendMsg,
            ),
        ]
    );
}

#[test]
fn send_msg_uses_the_number_up_even_when_it_fails() {
    let mut b = Backend::new();
    let _ = b.login("me".to_string(), "pw".to_string(), "nowhere".to_string());
    assert_eq!(b.send_msg(outgoing("!r:example.org", "hello")), Err(Error::BackendError));
    assert_eq!(b.data().msgid, 2);
    assert!(b.take_tasks().is_empty());
}

#[test]
fn protocols_asks_the_unstable_endpoint() {
    let mut b = logged_in();
    assert_eq!(b.protocols(), Ok(()));
    assert_eq!(
        b.take_tasks(),
        vec![query(
            Method::Get,
            "https://example.org/_matrix/client/unstable/thirdparty/protocols?access_token=tk",
            Json::Null,
            Pending::Protocols("https://example.org".to_string()),
        )]
    );
}

#[test]
fn room_search_states_what_to_search_for_on_the_first_page() {
    let mut b = logged_in();
    assert_eq!(b.room_search(Some("rust".to_string()), Some("irc".to_string()), false), Ok(()));
    assert_eq!(b.room_search(None, None, false), Ok(()));
    assert_eq!(b.room_search(Some("rust".to_string()), None, false), Ok(()));
    assert_eq!(b.room_search(None, Some("irc".to_string()), false), Ok(()));
    let url = format!("{}publicRooms?access_token=tk", CLIENT);
    let limit = || ("limit", Json::Number(Some(20)));
    let filter = || ("filter", dict(vec![("generic_search_term", text("rust"))]));
    let network = || ("third_party_instance_id", text("irc"));
    assert_eq!(
        b.take_tasks(),
        vec![
            query(
                Method::Post,
                &url,
                dict(vec![filter(), limit(), network()]),
                Pending::RoomSearch,
            ),
            query(Method::Post, &url, dict(vec![limit()]), Pending::RoomSearch),
            query(Method::Post, &url, dict(vec![filter(), limit()]), Pending::RoomSearch),
            query(Method::Post, &url, dict(vec![limit(), network()]), Pending::RoomSearch),
        ]
    );
}

#[test]
fn room_search_for_more_states_only_the_cursor() {
    let mut b = logged_in();
    b.finish(
        Pending::RoomSearch,
        Outcome::Document(dict(vec![("next_batch", text("next-page")), ("chunk", Json::List(vec![]))])),
    );
    assert_eq!(b.data().rooms_since, "next-page");
    assert_eq!(b.room_search(Some("rust".to_string()), Some("irc".to_string()), true), Ok(()));
    assert_eq!(
        b.take_tasks(),
        vec![query(
            Method::Post,
            &format!("{}publicRooms?access_token=tk", CLIENT),
            dict(vec![("limit", Json::Number(Some(20))), ("since", text("next-page"))]),
            Pending::RoomSearch,
        )]
    );
}

#[test]
fn join_leave_and_read_receipts_post_without_a_body() {
    let mut b = logged_in();
    assert_eq!(b.join_room("!r:example.org".to_string()), Ok(()));
    assert_eq!(b.leave_room("!r:example.org".to_string()), Ok(()));
    assert_eq!(b.mark_as_read("!r:example.org".to_string(), "$ev".to_string()), Ok(()));
    assert_eq!(
        b.take_tasks(),
        vec![
            query(
                Method::Post,
                &format!("{}rooms/!r:example.org/join?access_token=tk", CLIENT),
                Json::Null,
                Pending::JoinRoom("!r:example.org".to_string()),
            ),
            query(
                Method::Post,
                &format!("{}rooms/!r:example.org/leave?access_token=tk", CLIENT),
                Json::Null,
                Pending::LeaveRoom,
            ),
            query(
                Method::Post,
                &format!("{}rooms/!r:example.org/receipt/m.read/$ev?access_token=tk", CLIENT),
                Json::Null,
                Pending::MarkAsRead("!r:example.org".to_string(), "$ev".to_string()),
            ),
        ]
    );
}

#[test]
fn room_name_and_topic_are_put_as_state() {
    let mut b = logged_in();
    assert_eq!(b.set_room_name("!r:example.org".to_string(), "Lobby".to_string()), Ok(()));
    assert_eq!(b.set_room_topic("!r:example.org".to_string(), "Talk".to_string()), Ok(()));
    assert_eq!(
        b.take_tasks(),
        vec![
            query(
                Method::Put,
                &format!("{}rooms/!r:example.org/state/m.room.name?access_token=tk", CLIENT),
                dict(vec![("name", text("Lobby"))]),
                Pending::SetRoomName,
            ),
            query(
                Method::Put,
                &format!("{}rooms/!r:example.org/state/m.room.topic?access_token=tk", CLIENT),
                dict(vec![("topic", text("Talk"))]),
                Pending::SetRoomTopic,
            ),
        ]
    );
}

#[test]
fn set_room_avatar_uploads_first() {
    let mut b = logged_in();
    assert_eq!(b.set_room_avatar("!r:example.org".to_string(), "/tmp/a.png".to_string()), Ok(()));
    assert_eq!(
        b.take_tasks(),
        vec![Task {
            work: Work::Upload {
                url: "https://example.org/_matrix/media/r0/upload?access_token=tk".to_string(),
                path: "/tmp/a.png".to_string(),
            },
            purpose: Pending::AvatarUpload(format!(
                "{}rooms/!r:example.org/state/m.room.avatar?access_token=tk",
                CLIENT
            )),
        }]
    );
}

#[test]
fn attach_file_asks_for_one_upload() {
    let mut b = logged_in();
    assert_eq!(b.attach_file("!r:example.org".to_string(), "/tmp/cat.png".to_string()), Ok(()));
    assert_eq!(
        b.take_tasks(),
        vec![Task {
            work: Work::Upload {
                url: "https://example.org/_matrix/media/r0/upload?access_token=tk".to_string(),
                path: "/tmp/cat.png".to_string(),
            },
            purpose: Pending::Attach,
        }]
    );
    assert!(b.take_responses().is_empty());
}

#[test]
fn set_room_loads_topic_avatar_members_and_messages() {
    let mut b = logged_in();
    assert_eq!(b.set_room("!r:example.org".to_string()), Ok(()));
    let purposes: Vec<Pending> = b.take_tasks().into_iter().map(|t| t.purpose).collect();
    assert_eq!(
        purposes,
        vec![
            Pending::RoomDetail("m.room.topic".to_string()),
            Pending::RoomAvatar(
                "https://example.org/".to_string(),
                "tk".to_string(),
                "@me:example.org".to_string(),
                "!r:example.org".to_string(),
            ),
            Pending::RoomMembers,
            Pending::RoomMessages("!r:example.org".to_string(), false),
        ]
    );
}

#[test]
fn set_room_on_a_bad_server_asks_nothing() {
    let mut b = Backend::new();
    let _ = b.login("me".to_string(), "pw".to_string(), "nowhere".to_string());
    assert_eq!(b.set_room("!r:example.org".to_string()), Err(Error::BackendError));
    assert!(b.take_tasks().is_empty());
}

#[test]
fn every_operation_fails_alike_on_a_bad_server() {
    let mut b = Backend::new();
    let _ = b.register("me".to_string(), "pw".to_string(), "nowhere".to_string());
    let e = Err(Error::BackendError);
    assert_eq!(b.get_username(), e);
    assert_eq!(b.get_avatar(), e);
    assert_eq!(b.sync(), e);
    assert_eq!(b.sync_forced(), e);
    assert_eq!(b.get_room_detail("r".to_string(), "k".to_string()), e);
    assert_eq!(b.get_room_avatar("r".to_string()), e);
    assert_eq!(b.get_room_messages("r".to_string(), true), e);
    assert_eq!(b.get_room_members("r".to_string()), e);
    assert_eq!(b.get_user_info_async("u", 1), e);
    assert_eq!(b.get_thumb_async("m".to_string(), 1), e);
    assert_eq!(b.get_media("m".to_string()), e);
    assert_eq!(b.protocols(), e);
    assert_eq!(b.room_search(None, None, false), e);
    assert_eq!(b.join_room("r".to_string()), e);
    assert_eq!(b.leave_room("r".to_string()), e);
    assert_eq!(b.mark_as_read("r".to_string(), "e".to_string()), e);
    assert_eq!(b.set_room_name("r".to_string(), "n".to_string()), e);
    assert_eq!(b.set_room_topic("r".to_string(), "t".to_string()), e);
    assert_eq!(b.set_room_avatar("r".to_string(), "f".to_string()), e);
    assert_eq!(b.attach_file("r".to_string(), "f".to_string()), e);
    assert!(b.take_tasks().is_empty());
    assert_eq!(b.take_responses(), Vec::<BKResponse>::new());
}

#[test]
fn ask_queues_a_query_for_an_address_and_nothing_for_an_error() {
    let mut b = Backend::new();
    assert_eq!(
        b.ask(Ok("https://example.org/x".to_string()), Method::Put, Json::Bool(true), Pending::SendMsg),
        Ok(())
    );
    assert_eq!(
        b.ask(Err(Error::BackendError), Method::Get, Json::Null, Pending::SendMsg),
        Err(Error::BackendError)
    );
    assert_eq!(
        b.take_tasks(),
        vec![query(Method::Put, "https://example.org/x", Json::Bool(true), Pending::SendMsg)]
    );
    assert!(b.take_responses().is_empty());
}

#[test]
fn queue_keeps_the_order_of_what_is_asked_for() {
    let mut b = Backend::new();
    let media = |m: &str| Work::Media {
        base: "https://example.org/".to_string(),
        token: String::new(),
        media: m.to_string(),
    };
    b.queue(media("mxc://a/1"), Pending::Media);
    b.queue(media("mxc://a/2"), Pending::Thumb(4));
    assert_eq!(
        b.take_tasks(),
        vec![
            Task { work: media("mxc://a/1"), purpose: Pending::Media },
            Task { work: media("mxc://a/2"), purpose: Pending::Thumb(4) },
        ]
    );
    assert!(b.take_tasks().is_empty());
}

/// An engine whose home server is one that parses but has no place for the
/// API.
fn on_a_server_without_paths() -> Backend {
    let mut b = Backend::new();
    assert_eq!(b.login("me".to_string(), "pw".to_string(), "mailto:x".to_string()), Err(Error::BackendError));
    assert_eq!(b.get_base_url(), Ok("mailto:x".to_string()));
    b
}

#[test]
fn a_fetch_of_messages_is_begun_whenever_the_server_name_parses() {
    let mut b = on_a_server_without_paths();
    let before = b.data().clone();
    assert_eq!(b.get_room_messages("!r:example.org".to_string(), false), Ok(()));
    assert!(b.take_tasks().is_empty());
    assert_eq!(b.take_responses(), vec![BKResponse::RoomMessagesError(Error::BackendError)]);
    assert_eq!(b.get_room_messages("!r:example.org".to_string(), true), Ok(()));
    assert!(b.take_tasks().is_empty());
    assert_eq!(b.take_responses(), vec![BKResponse::RoomMessagesError(Error::BackendError)]);
    assert_eq!(*b.data(), before);
}

#[test]
fn a_fetch_of_messages_fails_only_on_a_server_name_that_does_not_parse() {
    let mut b = Backend::new();
    let _ = b.login("me".to_string(), "pw".to_string(), "nowhere".to_string());
    assert_eq!(b.get_room_messages("!r:example.org".to_string(), false), Err(Error::BackendError));
    assert!(b.take_tasks().is_empty());
    assert!(b.take_responses().is_empty());
}

#[test]
fn a_room_with_a_long_name_is_asked_for_like_any_other() {
    let mut b = logged_in();
    let room = format!("!{}:example.org", "é".repeat(4000));
    assert_eq!(b.get_room_messages(room.clone(), false), Ok(()));
    assert_eq!(
        b.take_tasks(),
        vec![query(
            Method::Get,
            &format!(
                "{}rooms/!{}:example.org/messages?dir=b&limit=10&access_token=tk",
                CLIENT,
                "%C3%A9".repeat(4000)
            ),
            Json::Null,
            Pending::RoomMessages(room, false),
        )]
    );
    assert!(b.take_responses().is_empty());
}

#[test]
fn other_operations_fail_on_a_server_without_paths() {
    let mut b = on_a_server_without_paths();
    assert_eq!(b.sync(), Err(Error::BackendError));
    assert_eq!(b.join_room("!r:example.org".to_string()), Err(Error::BackendError));
    assert_eq!(b.attach_file("!r:example.org".to_string(), "/tmp/a".to_string()), Err(Error::BackendError));
    assert_eq!(b.get_media("mxc://a/b".to_string()), Ok(()));
    assert_eq!(b.take_tasks().len(), 1);
    assert!(b.take_responses().is_empty());
}

#[test]
fn a_server_name_too_heavy_for_the_parser_fails_the_login() {
    let mut b = Backend::new();
    let name = format!("https://{}\u{d7a3}", "a".repeat(77_982));
    assert_eq!(b.login("me".to_string(), "pw".to_string(), name), Err(Error::BackendError));
    assert_eq!(b.guest(format!("https://{}", "a".repeat(4000))), Err(Error::BackendError));
    assert!(b.take_tasks().is_empty());
}
