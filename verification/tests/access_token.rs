use spoti_dump::access_token::{
    authorize_with_state, exchange_code_form, exchange_refresh_token_form, get_access_token,
    get_access_token_from_refresh_token, token_from_reply, AuthAction, AuthEvent, Authenticator,
    Credentials, TokenSet, TOKEN_ENDPOINT,
};
use spoti_dump::error::{Error, HttpFailure};
use spoti_dump::http::HttpReply;
use spoti_dump::listener::{ListenerAction, ListenerEvent};
use spoti_dump::{Commands, SCOPE_EXPORT, SCOPE_IMPORT, SCOPE_PURGE};

fn refused(status: u16) -> HttpFailure {
    HttpFailure::Status { status, response: "refused".to_string() }
}

fn pairs(items: &[(&str, &str)]) -> Vec<(String, String)> {
    items.iter().map(|(k, v)| (k.to_string(), v.to_string())).collect()
}

fn credentials(refresh_token: Option<&str>) -> Credentials {
    Credentials::new(
        Some("client".to_string()),
        Some("secret".to_string()),
        refresh_token.map(|s| s.to_string()),
    )
    .unwrap()
}

fn tokens(access: &str, refresh: Option<&str>) -> HttpReply<TokenSet> {
    HttpReply::Response {
        status: 200,
        body: Some(TokenSet {
            access_token: access.to_string(),
            refresh_token: refresh.map(|s| s.to_string()),
        }),
        text: String::new(),
    }
}

fn query_value(url: &str, name: &str) -> Option<String> {
    let query = url.split('?').nth(1)?;
    query.split('&').find_map(|pair| {
        let (key, value) = pair.split_once('=')?;
        if key == name {
            Some(value.to_string())
        } else {
            None
        }
    })
}

/// Drives the interactive path up to the point where the listener waits.
fn waiting(state: &str) -> Authenticator {
    let (auth, _) = authorize_with_state(&credentials(None), SCOPE_EXPORT, 120, state.to_string());
    let (auth, _) = auth.step(AuthEvent::Listener(ListenerEvent::BrowserLaunched { opened: true }));
    let (auth, _) = auth.step(AuthEvent::Listener(ListenerEvent::BindFinished { bound: true }));
    auth
}

#[test]
fn token_endpoint() {
    assert_eq!(TOKEN_ENDPOINT, "https://accounts.spotify.com/api/token");
}

#[test]
fn credentials_need_id_and_secret() {
    let full = Credentials::new(Some("id".into()), Some("secret".into()), Some("r".into())).unwrap();
    assert_eq!(full.client_id, "id");
    assert_eq!(full.client_secret, "secret");
    assert_eq!(full.refresh_token, Some("r".to_string()));
    let bare = Credentials::new(Some("id".into()), Some("secret".into()), None).unwrap();
    assert_eq!(bare.refresh_token, None);
    assert_eq!(
        Credentials::new(None, Some("secret".into()), None).err(),
        Some(Error::ConfigurationError)
    );
    assert_eq!(
        Credentials::new(Some("id".into()), None, None).err(),
        Some(Error::ConfigurationError)
    );
    assert_eq!(Credentials::new(None, None, None).err(), Some(Error::ConfigurationError));
    assert_eq!(
        Credentials::new(None, Some("secret".into()), Some("r".into())).err(),
        Some(Error::ConfigurationError)
    );
}

#[test]
fn code_exchange_form() {
    assert_eq!(
        exchange_code_form("the-code", "http://127.0.0.1:8000/callback", "client", "secret"),
        pairs(&[
            ("grant_type", "authorization_code"),
            ("code", "the-code"),
            ("redirect_uri", "http://127.0.0.1:8000/callback"),
            ("client_id", "client"),
            ("client_secret", "secret"),
        ])
    );
}

#[test]
fn refresh_exchange_form() {
    assert_eq!(
        exchange_refresh_token_form("the-refresh", "client", "secret"),
        pairs(&[
            ("grant_type", "refresh_token"),
            ("refresh_token", "the-refresh"),
            ("client_id", "client"),
            ("client_secret", "secret"),
        ])
    );
}

#[test]
fn token_reply_with_tokens() {
    let set = token_from_reply(tokens("access", Some("refresh"))).unwrap();
    assert_eq!(set.access_token, "access");
    assert_eq!(set.refresh_token, Some("refresh".to_string()));
    let set = token_from_reply(tokens("access", None)).unwrap();
    assert_eq!(set.refresh_token, None);
}

#[test]
fn token_reply_failures() {
    assert_eq!(
        token_from_reply(HttpReply::Unreachable).err(),
        Some(Error::TokenExchangeHttpError(HttpFailure::Transport))
    );
    assert_eq!(
        token_from_reply(HttpReply::Response { status: 400, body: None, text: "refused".to_string() }).err(),
        Some(Error::TokenExchangeHttpError(refused(400)))
    );
    assert_eq!(
        token_from_reply(HttpReply::Response { status: 200, body: None, text: String::new() }).err(),
        Some(Error::TokenDecodeError)
    );
    let refused_with_body = HttpReply::Response {
        status: 503,
        body: Some(TokenSet { access_token: "x".to_string(), refresh_token: None }),
        text: "refused".to_string(),
    };
    assert_eq!(
        token_from_reply(refused_with_body).err(),
        Some(Error::TokenExchangeHttpError(refused(503)))
    );
}

#[test]
fn refresh_token_skips_the_listener() {
    for command in [
        Commands::Export { force: false },
        Commands::Import { force: true },
        Commands::Purge { force: false },
    ] {
        let (auth, action) = get_access_token(&credentials(Some("the-refresh")), command, 120);
        assert!(matches!(auth, Authenticator::Refreshing));
        match action {
            AuthAction::RequestToken { form } => {
                assert_eq!(form, exchange_refresh_token_form("the-refresh", "client", "secret"))
            },
            _ => panic!("with a refresh token the first action goes to the token endpoint"),
        }
    }
}

#[test]
fn refresh_path_never_asks_the_listener_whatever_is_reported() {
    let events = || {
        vec![
            AuthEvent::Listener(ListenerEvent::BrowserLaunched { opened: true }),
            AuthEvent::Listener(ListenerEvent::BindFinished { bound: true }),
            AuthEvent::Listener(ListenerEvent::RequestReceived {
                target: "/callback?code=abc&state=xyz".to_string(),
            }),
            AuthEvent::Listener(ListenerEvent::WaitExpired),
            AuthEvent::TokenReply(tokens("access", Some("rotated"))),
            AuthEvent::Listener(ListenerEvent::BindFinished { bound: true }),
            AuthEvent::TokenReply(tokens("again", None)),
        ]
    };
    let (mut auth, _) = get_access_token(&credentials(Some("r")), Commands::Export { force: true }, 120);
    let mut finished = 0;
    for event in events() {
        let (next, action) = auth.step(event);
        assert!(!matches!(action, Some(AuthAction::Listener(_))));
        if let Some(AuthAction::Finish(outcome)) = action {
            let set = outcome.unwrap();
            assert_eq!(set.access_token, "access");
            assert_eq!(set.refresh_token, None);
            finished += 1;
        }
        auth = next;
    }
    assert_eq!(finished, 1);
    assert!(matches!(auth, Authenticator::Finished));
}

#[test]
fn refresh_path_from_an_explicit_token() {
    let (auth, action) = get_access_token_from_refresh_token("other", &credentials(None));
    assert!(matches!(auth, Authenticator::Refreshing));
    match action {
        AuthAction::RequestToken { form } => {
            assert_eq!(form, exchange_refresh_token_form("other", "client", "secret"))
        },
        _ => panic!("the refresh path starts at the token endpoint"),
    }
    let (auth, action) = auth.step(AuthEvent::TokenReply(HttpReply::Response {
        status: 401,
        body: None,
        text: "refused".to_string(),
    }));
    assert!(matches!(auth, Authenticator::Finished));
    assert!(matches!(
        action,
        Some(AuthAction::Finish(Err(Error::TokenExchangeHttpError(HttpFailure::Status {
            status: 401,
            ..
        }))))
    ));
}

#[test]
fn interactive_path_opens_the_browser_with_a_fresh_state() {
    let mut states = Vec::new();
    for (command, scope) in [
        (Commands::Export { force: false }, "user-library-read+playlist-read-private"),
        (
            Commands::Import { force: false },
            "user-library-modify+playlist-modify-public+playlist-modify-private",
        ),
        (
            Commands::Purge { force: false },
            "user-library-read+user-library-modify+playlist-read-private+playlist-modify-public+playlist-modify-private",
        ),
    ] {
        let (auth, action) = get_access_token(&credentials(None), command, 120);
        let listener = match auth {
            Authenticator::Authorizing { listener, client_id, client_secret } => {
                assert_eq!(client_id, "client");
                assert_eq!(client_secret, "secret");
                listener
            },
            _ => panic!("without a refresh token the listener is set up"),
        };
        let url = match action {
            AuthAction::Listener(ListenerAction::OpenBrowser { url }) => url,
            _ => panic!("the interactive path starts by opening the browser"),
        };
        assert!(url.starts_with("https://accounts.spotify.com/authorize?client_id=client&response_type=code&redirect_uri=http%3A%2F%2F127.0.0.1%3A8000%2Fcallback&state="));
        assert_eq!(query_value(&url, "scope").as_deref(), Some(scope));
        let state = query_value(&url, "state").unwrap();
        assert_eq!(state, listener.expected_state);
        assert_eq!(state.len(), 22);
        assert!(state.chars().all(|c| c.is_ascii_alphanumeric() || c == '-' || c == '_'));
        assert_eq!(listener.address.host, "127.0.0.1");
        assert_eq!(listener.address.port, 8000);
        assert_eq!(listener.timeout_secs, 120);
        states.push(state);
    }
    assert_ne!(states[0], states[1]);
    assert_ne!(states[1], states[2]);
    assert_ne!(states[0], states[2]);
}

#[test]
fn interactive_path_end_to_end() {
    let auth = waiting("xyz");
    let (auth, action) = auth.step(AuthEvent::Listener(ListenerEvent::RequestReceived {
        target: "/callback?code=the-code&state=xyz".to_string(),
    }));
    assert!(matches!(action, Some(AuthAction::Listener(ListenerAction::Respond { .. }))));
    let (auth, action) = auth.step(AuthEvent::Listener(ListenerEvent::ResponseFinished { sent: true }));
    assert!(matches!(auth, Authenticator::Exchanging));
    match action {
        Some(AuthAction::RequestToken { form }) => assert_eq!(
            form,
            exchange_code_form("the-code", "http://127.0.0.1:8000/callback", "client", "secret")
        ),
        _ => panic!("an accepted callback leads to the code exchange"),
    }
    let (auth, action) = auth.step(AuthEvent::TokenReply(tokens("access", Some("keep-me"))));
    assert!(matches!(auth, Authenticator::Finished));
    match action {
        Some(AuthAction::Finish(Ok(set))) => {
            assert_eq!(set.access_token, "access");
            assert_eq!(set.refresh_token, Some("keep-me".to_string()));
        },
        _ => panic!("the exchange ends the operation"),
    }
}

#[test]
fn listener_requests_are_passed_on() {
    let (auth, _) = authorize_with_state(&credentials(None), SCOPE_IMPORT, 30, "xyz".to_string());
    let (auth, action) = auth.step(AuthEvent::Listener(ListenerEvent::BrowserLaunched { opened: false }));
    match action {
        Some(AuthAction::Listener(ListenerAction::Bind { host, port, manual_url })) => {
            assert_eq!(host, "127.0.0.1");
            assert_eq!(port, 8000);
            assert!(manual_url.unwrap().contains("state=xyz"));
        },
        _ => panic!("the bind request is passed on"),
    }
    let (_, action) = auth.step(AuthEvent::Listener(ListenerEvent::BindFinished { bound: true }));
    assert!(matches!(action, Some(AuthAction::Listener(ListenerAction::Accept { timeout_secs: 30 }))));
}

#[test]
fn csrf_mismatch_aborts_before_any_exchange() {
    let (auth, action) = waiting("xyz").step(AuthEvent::Listener(ListenerEvent::RequestReceived {
        target: "/callback?code=the-code&state=forged".to_string(),
    }));
    assert!(matches!(auth, Authenticator::Finished));
    assert!(matches!(action, Some(AuthAction::Finish(Err(Error::CsrfMismatch)))));
    let (auth, action) = auth.step(AuthEvent::Listener(ListenerEvent::ResponseFinished { sent: true }));
    assert!(action.is_none());
    let (auth, action) = auth.step(AuthEvent::TokenReply(tokens("access", None)));
    assert!(action.is_none());
    assert!(matches!(auth, Authenticator::Finished));
}

#[test]
fn listener_errors_end_the_operation() {
    let (auth, action) = waiting("xyz").step(AuthEvent::Listener(ListenerEvent::WaitExpired));
    assert!(matches!(auth, Authenticator::Finished));
    assert!(matches!(action, Some(AuthAction::Finish(Err(Error::AuthorizationTimeout)))));

    let (auth, action) = waiting("xyz").step(AuthEvent::Listener(ListenerEvent::RequestReceived {
        target: "/callback?state=xyz".to_string(),
    }));
    assert!(matches!(auth, Authenticator::Finished));
    assert!(matches!(action, Some(AuthAction::Finish(Err(Error::MalformedCallback)))));

    let (auth, _) = authorize_with_state(&credentials(None), SCOPE_PURGE, 120, "xyz".to_string());
    let (auth, _) = auth.step(AuthEvent::Listener(ListenerEvent::BrowserLaunched { opened: true }));
    let (auth, action) = auth.step(AuthEvent::Listener(ListenerEvent::BindFinished { bound: false }));
    assert!(matches!(auth, Authenticator::Finished));
    assert!(matches!(action, Some(AuthAction::Finish(Err(Error::ListenerBindError)))));
}

#[test]
fn token_reply_out_of_turn_is_ignored() {
    let (auth, action) = waiting("xyz").step(AuthEvent::TokenReply(tokens("access", None)));
    assert!(action.is_none());
    assert!(matches!(auth, Authenticator::Authorizing { .. }));
}

#[test]
fn exchange_failure_after_authorization() {
    let auth = waiting("xyz");
    let (auth, _) = auth.step(AuthEvent::Listener(ListenerEvent::RequestReceived {
        target: "/callback?code=the-code&state=xyz".to_string(),
    }));
    let (auth, _) = auth.step(AuthEvent::Listener(ListenerEvent::ResponseFinished { sent: true }));
    let (auth, action) = auth.step(AuthEvent::TokenReply(HttpReply::Response {
        status: 200,
        body: None,
        text: String::new(),
    }));
    assert!(matches!(auth, Authenticator::Finished));
    assert!(matches!(action, Some(AuthAction::Finish(Err(Error::TokenDecodeError)))));
}
