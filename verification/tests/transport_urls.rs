use guillotine::error::Error;
use guillotine::transport::{
    base_url, build_url, client_url, is_light, is_rooted, media_url,
};

#[test]
fn base_url_normalises_the_server_name() {
    assert_eq!(base_url("https://matrix.org"), Ok("https://matrix.org/".to_string()));
    assert_eq!(base_url("HTTPS://Matrix.ORG/"), Ok("https://matrix.org/".to_string()));
}

#[test]
fn base_url_rejects_a_relative_name() {
    assert_eq!(base_url("matrix.org"), Err(Error::BackendError));
    assert_eq!(base_url(""), Err(Error::BackendError));
}

#[test]
fn build_url_resolves_an_absolute_path_against_the_server() {
    let params = vec![("kind", "guest".to_string())];
    assert_eq!(
        build_url("https://matrix.org/some/where", "/_matrix/client/r0/register", &params),
        Ok("https://matrix.org/_matrix/client/r0/register?kind=guest".to_string())
    );
}

#[test]
fn build_url_takes_no_path_that_does_not_begin_with_a_slash() {
    let params: Vec<(&str, String)> = vec![];
    assert_eq!(build_url("https://matrix.org/a/b.html", "c.png", &params), Err(Error::BackendError));
    assert_eq!(build_url("https://matrix.org/", "", &params), Err(Error::BackendError));
    assert_eq!(build_url("https://matrix.org/", "?a=b", &params), Err(Error::BackendError));
    assert_eq!(build_url("file:///C:", "x", &params), Err(Error::BackendError));
    assert_eq!(
        build_url("https://matrix.org/", "https://example.org/x", &params),
        Err(Error::BackendError)
    );
}

#[test]
fn build_url_resolves_a_path_against_a_file_and_its_drive() {
    let params: Vec<(&str, String)> = vec![];
    assert_eq!(build_url("file:///C:", "/x", &params), Ok("file:///C:/x?".to_string()));
    assert_eq!(build_url("file:///C:/a/b", "/..", &params), Ok("file:///C:/?".to_string()));
    assert_eq!(build_url("file:///a/b", "/x/../y", &params), Ok("file:///y?".to_string()));
}

#[test]
fn build_url_takes_a_path_that_names_another_host() {
    let params: Vec<(&str, String)> = vec![];
    assert_eq!(
        build_url("https://matrix.org/a", "//example.org/x", &params),
        Ok("https://example.org/x?".to_string())
    );
}

#[test]
fn build_url_fails_on_a_base_that_is_no_url() {
    let params: Vec<(&str, String)> = vec![];
    assert_eq!(build_url("nowhere", "/x", &params), Err(Error::BackendError));
}

#[test]
fn build_url_replaces_the_query() {
    let params = vec![("a", "1".to_string()), ("b", "x y&z".to_string())];
    assert_eq!(
        build_url("https://matrix.org/", "/p?old=1", &params),
        Ok("https://matrix.org/p?a=1&b=x+y%26z".to_string())
    );
}

#[test]
fn build_url_with_no_params_leaves_an_empty_query() {
    let params: Vec<(&str, String)> = vec![];
    assert_eq!(build_url("https://matrix.org/", "/p", &params), Ok("https://matrix.org/p?".to_string()));
}

#[test]
fn client_url_lives_under_the_client_prefix() {
    let params = vec![("access_token", "tk".to_string())];
    assert_eq!(
        client_url("https://matrix.org/", "login", &params),
        Ok("https://matrix.org/_matrix/client/r0/login?access_token=tk".to_string())
    );
}

#[test]
fn media_url_lives_under_the_media_prefix() {
    let params = vec![("access_token", "tk".to_string())];
    assert_eq!(
        media_url("https://matrix.org/", "upload", &params),
        Ok("https://matrix.org/_matrix/media/r0/upload?access_token=tk".to_string())
    );
}

#[test]
fn a_text_is_light_up_to_the_limit() {
    assert!(is_light(""));
    assert!(is_light("https://matrix.org"));
    assert!(is_light(&"a".repeat(3855)));
    assert!(!is_light(&"a".repeat(3856)));
}

#[test]
fn escapes_and_characters_beyond_ascii_weigh_more() {
    assert!(is_light(&"%".repeat(58)));
    assert!(!is_light(&"%".repeat(59)));
    assert!(is_light(&format!("{}{}", "%".repeat(58), "a".repeat(27))));
    assert!(!is_light(&format!("{}{}", "%".repeat(58), "a".repeat(28))));
    assert!(is_light(&"é".repeat(29)));
    assert!(!is_light(&"é".repeat(30)));
    assert!(is_light(&format!("{}{}", "\u{d7a3}".repeat(29), "a".repeat(27))));
    assert!(!is_light(&format!("{}{}", "\u{d7a3}".repeat(29), "a".repeat(28))));
}

#[test]
fn a_server_name_too_heavy_for_the_parser_is_refused() {
    let long_label = format!("https://{}\u{d7a3}", "a".repeat(77_982));
    assert_eq!(base_url(&long_label), Err(Error::BackendError));
    let heavy = format!("https://{}.org", "é".repeat(30));
    assert_eq!(base_url(&heavy), Err(Error::BackendError));
    let at_home = format!("https://{}.org", "é".repeat(25));
    assert!(base_url(&at_home).is_ok());
}

#[test]
fn a_long_plain_server_name_is_parsed() {
    let name = format!("https://{}.org/", "a".repeat(3000));
    assert_eq!(base_url(&name), Ok(name.clone()));
}

#[test]
fn the_front_of_a_text_ends_where_the_authority_ends() {
    assert!(is_light(&format!("https://matrix.org/{}", "é".repeat(5000))));
    assert!(is_light(&format!("https://matrix.org?{}", "é".repeat(5000))));
    assert!(is_light(&format!("https://matrix.org#{}", "%".repeat(5000))));
    assert!(is_light(&format!("https://{}", "é".repeat(29))));
    assert!(!is_light(&format!("https://{}", "é".repeat(30))));
    assert!(!is_light(&format!("https:////\\//{}/x", "é".repeat(30))));
    assert!(!is_light(&format!("https://user@{}:80/x", "é".repeat(30))));
    assert!(!is_light(&format!("{}://x", "a".repeat(3856))));
}

#[test]
fn a_reference_begins_with_a_slash() {
    assert!(is_rooted("/"));
    assert!(is_rooted("/_matrix/client/r0/sync"));
    assert!(!is_rooted(""));
    assert!(!is_rooted("x"));
    assert!(!is_rooted("?x"));
    assert!(!is_rooted("\\x"));
    assert!(!is_rooted(" /x"));
}

#[test]
fn a_reference_that_is_a_path_is_as_heavy_as_it_likes() {
    assert!(is_rooted(&format!("/{}", "é".repeat(5000))));
    assert!(is_rooted(&format!("/a/{}", "%".repeat(5000))));
}

#[test]
fn a_reference_that_may_name_a_host_is_weighed() {
    assert!(is_rooted(&format!("//{}/x", "é".repeat(28))));
    assert!(!is_rooted(&format!("//{}/x", "é".repeat(30))));
    assert!(!is_rooted(&format!("/\\{}/x", "é".repeat(30))));
    assert!(!is_rooted(&format!("/\t/{}/x", "é".repeat(30))));
    assert!(is_rooted(&format!("//example.org/{}", "é".repeat(5000))));
}

#[test]
fn an_address_with_a_host_too_heavy_for_the_parser_is_refused() {
    let params: Vec<(&str, String)> = vec![];
    let heavy = "a".repeat(3856);
    assert_eq!(build_url(&format!("https://{}/", heavy), "/x", &params), Err(Error::BackendError));
    assert_eq!(
        build_url("https://matrix.org/", &format!("//{}/x", heavy), &params),
        Err(Error::BackendError)
    );
    assert_eq!(
        build_url("https://matrix.org/", &format!("//{}/x", "é".repeat(30)), &params),
        Err(Error::BackendError)
    );
}

#[test]
fn a_path_may_be_long_and_need_not_be_ascii() {
    let params: Vec<(&str, String)> = vec![];
    let path = format!("/{}", "é".repeat(29));
    assert_eq!(
        build_url("https://matrix.org/", &path, &params),
        Ok(format!("https://matrix.org/{}?", "%C3%A9".repeat(29)))
    );
    let long = format!("/rooms/{}/messages", "a".repeat(5000));
    assert_eq!(
        build_url("https://matrix.org/", &long, &params),
        Ok(format!("https://matrix.org{}?", long))
    );
    let exotic = format!("/{}", "\u{d7a3}".repeat(2000));
    assert_eq!(
        build_url("https://matrix.org/", &exotic, &params),
        Ok(format!("https://matrix.org/{}?", "%ED%9E%A3".repeat(2000)))
    );
}

#[test]
fn a_heavy_query_is_no_matter_for_the_parser() {
    let params = vec![("filter", "é%".repeat(5000))];
    assert!(build_url("https://matrix.org/", "/sync", &params).is_ok());
}
