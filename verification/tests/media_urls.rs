use guillotine::error::Error;
use guillotine::media::{download_url, parse_mxc, thumbnail_url};
use guillotine::protocol::Pending;

#[test]
fn a_content_uri_names_server_and_media() {
    assert_eq!(
        parse_mxc("mxc://matrix.org/AbCdEf"),
        Some(("matrix.org".to_string(), "AbCdEf".to_string()))
    );
    assert_eq!(parse_mxc("mxc://s/a/b/c"), Some(("s".to_string(), "a/b/c".to_string())));
    assert_eq!(parse_mxc("mxc://sérver/médîa"), Some(("sérver".to_string(), "médîa".to_string())));
}

#[test]
fn what_is_no_content_uri_names_nothing() {
    assert_eq!(parse_mxc(""), None);
    assert_eq!(parse_mxc("mxc:"), None);
    assert_eq!(parse_mxc("mxc://"), None);
    assert_eq!(parse_mxc("mxc://server"), None);
    assert_eq!(parse_mxc("mxc://server/"), None);
    assert_eq!(parse_mxc("mxc:///media"), None);
    assert_eq!(parse_mxc("http://server/media"), None);
    assert_eq!(parse_mxc("MXC://server/media"), None);
    assert_eq!(parse_mxc(" mxc://server/media"), None);
}

#[test]
fn a_thumbnail_is_asked_for_by_size() {
    assert_eq!(
        thumbnail_url("https://matrix.org/", "tk", "mxc://example.org/AbC", 64, 48),
        Ok("https://matrix.org/_matrix/media/r0/thumbnail/example.org/AbC?width=64&height=48&method=scale&access_token=tk"
            .to_string())
    );
}

#[test]
fn media_in_full_is_asked_for_without_a_size() {
    assert_eq!(
        download_url("https://matrix.org/", "tk", "mxc://example.org/AbC"),
        Ok("https://matrix.org/_matrix/media/r0/download/example.org/AbC?access_token=tk".to_string())
    );
}

#[test]
fn media_addresses_fail_on_bad_uris_and_bad_servers() {
    assert_eq!(thumbnail_url("https://matrix.org/", "tk", "AbC", 64, 64), Err(Error::BackendError));
    assert_eq!(download_url("https://matrix.org/", "tk", "mxc://x"), Err(Error::BackendError));
    assert_eq!(
        thumbnail_url("nowhere", "tk", "mxc://example.org/AbC", 64, 64),
        Err(Error::BackendError)
    );
    assert_eq!(download_url("nowhere", "tk", "mxc://example.org/AbC"), Err(Error::BackendError));
}

#[test]
fn slow_work_runs_apart_from_the_dispatcher() {
    let s = |x: &str| x.to_string();
    let apart = vec![
        Pending::Avatar,
        Pending::UserInfo(1),
        Pending::Thumb(1),
        Pending::Media,
        Pending::RoomMessages(s("r"), false),
        Pending::AvatarUpload(s("u")),
        Pending::AvatarSet,
        Pending::Attach,
    ];
    let inline = vec![
        Pending::Guest,
        Pending::Login,
        Pending::Username(s("u")),
        Pending::Sync(true, s("u")),
        Pending::RoomDetail(s("k")),
        Pending::RoomAvatar(s("b"), s("t"), s("u"), s("r")),
        Pending::RoomAvatarFile,
        Pending::RoomMembers,
        Pending::SendMsg,
        Pending::Protocols(s("s")),
        Pending::RoomSearch,
        Pending::JoinRoom(s("r")),
        Pending::LeaveRoom,
        Pending::MarkAsRead(s("r"), s("e")),
        Pending::SetRoomName,
        Pending::SetRoomTopic,
    ];
    assert!(apart.iter().all(|p| p.runs_apart()));
    assert!(inline.iter().all(|p| !p.runs_apart()));
}
