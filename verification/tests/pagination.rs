use spoti_dump::error::{Error, HttpFailure};
use spoti_dump::http::{bearer, is_success, HttpReply, ReplyFault};
use spoti_dump::utils::{
    delete_spotify, get_all_items, get_user_id, library_tracks_url, playlist_tracks_url,
    read_reply, Page, WalkStep, PLAYLISTS_URL, PROFILE_URL, SAVED_TRACKS_URL,
};
use spoti_dump::http::{Body, Method};

fn refused(status: u16) -> HttpFailure {
    HttpFailure::Status { status, response: "refused".to_string() }
}

fn page(items: Vec<u32>, next: Option<&str>) -> HttpReply<Page<u32>> {
    HttpReply::Response {
        status: 200,
        body: Some(Page { items, next: next.map(|s| s.to_string()) }),
        text: String::new(),
    }
}

/// Runs a walk against recorded replies; returns the outcome and the URLs asked for.
fn run(start: &str, replies: Vec<HttpReply<Page<u32>>>) -> (Option<Result<Vec<u32>, Error>>, Vec<String>) {
    let mut walk = get_all_items::<u32>("tok", start).unwrap();
    let mut urls = Vec::new();
    for reply in replies {
        urls.push(walk.request.url.clone());
        assert_eq!(walk.request.authorization, "Bearer tok");
        match walk.step(reply) {
            WalkStep::Fetch(next) => walk = next,
            WalkStep::Done(items) => return (Some(Ok(items)), urls),
            WalkStep::Failed(error) => return (Some(Err(error)), urls),
        }
    }
    (None, urls)
}

#[test]
fn success_range_is_200_to_299() {
    assert!(!is_success(199));
    assert!(is_success(200));
    assert!(is_success(204));
    assert!(is_success(299));
    assert!(!is_success(300));
    assert!(!is_success(404));
    assert!(!is_success(0));
    assert!(!is_success(u16::MAX));
}

#[test]
fn bearer_header_value() {
    assert_eq!(bearer("abc"), Ok("Bearer abc".to_string()));
    assert_eq!(bearer(""), Ok("Bearer ".to_string()));
    assert_eq!(bearer("a b\tc~"), Ok("Bearer a b\tc~".to_string()));
    assert_eq!(bearer("t\u{f6}k\u{20ac}"), Ok("Bearer t\u{f6}k\u{20ac}".to_string()));
}

#[test]
fn token_with_a_control_character_is_refused() {
    for token in ["a\nb", "a\rb", "\u{0}", "a\u{7f}", "a\u{1b}b", "line\r\nX-Extra: 1"] {
        assert_eq!(bearer(token), Err(Error::InvalidAccessToken));
        assert_eq!(
            get_all_items::<u32>(token, "https://api.example/items").err(),
            Some(Error::InvalidAccessToken)
        );
        assert_eq!(get_user_id(token).err(), Some(Error::InvalidAccessToken));
        assert_eq!(
            delete_spotify(token, "https://api.example/x").err(),
            Some(Error::InvalidAccessToken)
        );
    }
}

#[test]
fn refused_page_keeps_the_response_text() {
    let reply: HttpReply<Page<u32>> =
        HttpReply::Response { status: 403, body: None, text: "{\"error\":\"nope\"}".to_string() };
    match get_all_items::<u32>("tok", "u0").unwrap().step(reply) {
        WalkStep::Failed(error) => {
            assert_eq!(
                error,
                Error::PaginationHttpError(HttpFailure::Status {
                    status: 403,
                    response: "{\"error\":\"nope\"}".to_string(),
                })
            );
            assert!(error.message().ends_with("{\"error\":\"nope\"}"));
        },
        _ => panic!("a refused page abandons the walk"),
    }
}

#[test]
fn walk_starts_empty_at_the_given_url() {
    let walk = get_all_items::<u32>("tok", "https://api.example/items").unwrap();
    assert!(walk.items.is_empty());
    assert_eq!(walk.request.url, "https://api.example/items");
    assert_eq!(walk.request.authorization, "Bearer tok");
}

#[test]
fn walk_concatenates_pages_in_order() {
    let (outcome, urls) = run(
        "u0",
        vec![
            page(vec![1, 2], Some("u1")),
            page(vec![], Some("u2")),
            page(vec![3], Some("u3")),
            page(vec![4, 5, 6], None),
        ],
    );
    assert_eq!(outcome, Some(Ok(vec![1, 2, 3, 4, 5, 6])));
    assert_eq!(urls, vec!["u0", "u1", "u2", "u3"]);
}

#[test]
fn single_empty_page_gives_an_empty_sequence() {
    let (outcome, urls) = run("u0", vec![page(vec![], None)]);
    assert_eq!(outcome, Some(Ok(vec![])));
    assert_eq!(urls, vec!["u0"]);
}

#[test]
fn walk_stops_at_the_first_page_without_next() {
    let (outcome, urls) = run(
        "u0",
        vec![page(vec![1], None), page(vec![2], Some("never")), page(vec![3], None)],
    );
    assert_eq!(outcome, Some(Ok(vec![1])));
    assert_eq!(urls, vec!["u0"]);
}

#[test]
fn non_success_status_aborts_without_partial_items() {
    for failing in 0..3 {
        let mut replies = vec![
            page(vec![1], Some("u1")),
            page(vec![2], Some("u2")),
            page(vec![3], None),
        ];
        replies[failing] =
            HttpReply::Response { status: 429, body: None, text: "refused".to_string() };
        let (outcome, urls) = run("u0", replies);
        assert_eq!(outcome, Some(Err(Error::PaginationHttpError(refused(429)))));
        assert_eq!(urls.len(), failing + 1);
    }
}

#[test]
fn refused_page_is_an_http_error_even_with_a_body() {
    let reply = HttpReply::Response {
        status: 500,
        body: Some(Page { items: vec![9], next: None }),
        text: "refused".to_string(),
    };
    let (outcome, _) = run("u0", vec![page(vec![1], Some("u1")), reply]);
    assert_eq!(outcome, Some(Err(Error::PaginationHttpError(refused(500)))));
}

#[test]
fn transport_failure_aborts_the_walk() {
    let (outcome, _) = run("u0", vec![page(vec![1], Some("u1")), HttpReply::Unreachable]);
    assert_eq!(outcome, Some(Err(Error::PaginationHttpError(HttpFailure::Transport))));
}

#[test]
fn undecodable_page_is_a_decode_error() {
    let (outcome, _) = run(
        "u0",
        vec![page(vec![1], Some("u1")), HttpReply::Response { status: 200, body: None, text: String::new() }],
    );
    assert_eq!(outcome, Some(Err(Error::PaginationDecodeError)));
}

#[test]
fn walk_is_unfinished_while_pages_follow() {
    let (outcome, urls) = run("u0", vec![page(vec![1], Some("u1"))]);
    assert_eq!(outcome, None);
    assert_eq!(urls, vec!["u0"]);
}

#[test]
fn payload_judges_status_before_body() {
    let reply: HttpReply<u8> =
        HttpReply::Response { status: 301, body: Some(1), text: "refused".to_string() };
    assert_eq!(reply.payload(), Err(ReplyFault::Http(refused(301))));
    let reply: HttpReply<u8> = HttpReply::Response { status: 200, body: Some(1), text: String::new() };
    assert_eq!(reply.payload(), Ok(1));
    let reply: HttpReply<u8> = HttpReply::Response { status: 200, body: None, text: String::new() };
    assert_eq!(reply.payload(), Err(ReplyFault::Decode));
    let reply: HttpReply<u8> = HttpReply::Unreachable;
    assert_eq!(reply.payload(), Err(ReplyFault::Http(HttpFailure::Transport)));
}

#[test]
fn profile_request_and_its_answers() {
    let request = get_user_id("tok").unwrap();
    assert_eq!(request.url, "https://api.spotify.com/v1/me");
    assert_eq!(request.url, PROFILE_URL);
    assert_eq!(request.authorization, "Bearer tok");
    let found: HttpReply<String> =
        HttpReply::Response { status: 200, body: Some("user1".to_string()), text: String::new() };
    assert_eq!(read_reply(found), Ok("user1".to_string()));
    let missing: HttpReply<String> = HttpReply::Response { status: 200, body: None, text: String::new() };
    assert_eq!(read_reply(missing), Err(Error::PaginationDecodeError));
    let denied: HttpReply<String> =
        HttpReply::Response { status: 401, body: None, text: "refused".to_string() };
    assert_eq!(read_reply(denied), Err(Error::PaginationHttpError(refused(401))));
    let down: HttpReply<String> = HttpReply::Unreachable;
    assert_eq!(read_reply(down), Err(Error::PaginationHttpError(HttpFailure::Transport)));
}

#[test]
fn delete_request_has_no_body() {
    let request = delete_spotify("tok", "https://api.spotify.com/v1/x").unwrap();
    assert_eq!(request.method, Method::Delete);
    assert_eq!(request.url, "https://api.spotify.com/v1/x");
    assert_eq!(request.authorization, "Bearer tok");
    assert!(matches!(request.body, Body::Empty));
}

#[test]
fn collection_urls() {
    assert_eq!(SAVED_TRACKS_URL, "https://api.spotify.com/v1/me/tracks");
    assert_eq!(PLAYLISTS_URL, "https://api.spotify.com/v1/me/playlists");
    assert_eq!(playlist_tracks_url("p9"), "https://api.spotify.com/v1/playlists/p9/tracks");
    assert_eq!(
        library_tracks_url(&vec!["a".to_string(), "b".to_string(), "c".to_string()]),
        "https://api.spotify.com/v1/me/tracks?ids=a,b,c"
    );
    assert_eq!(library_tracks_url(&vec!["a".to_string()]), "https://api.spotify.com/v1/me/tracks?ids=a");
    assert_eq!(library_tracks_url(&Vec::new()), "https://api.spotify.com/v1/me/tracks?ids=");
}
