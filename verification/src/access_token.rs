use vstd::prelude::*;
use vstd::string::*;
use crate::error::{Error, ErrorView};
use crate::http::{spec_payload, HttpReply, HttpReplyView, ReplyFault, ReplyFaultView};
use crate::listener::{
    generate_state, is_lost_in_encoding, is_state_value, resolve_redirect, spec_open,
    spec_resolve_redirect, spec_step, AuthorizationRequest, AuthorizationRequestView, Listener,
    ListenerAction, ListenerActionView, ListenerEvent, ListenerEventView, ListenerView,
    REDIRECT_URI, STATE_ENTROPY_BYTES,
};
use crate::model::result_view;
use crate::text::pair;
use crate::Commands;

verus! {

/// The provider's token endpoint.
pub const TOKEN_ENDPOINT: &'static str = "https://accounts.spotify.com/api/token";

/// What the application is known by at the provider, and the refresh token
/// of an earlier run if the operator kept one. Made once per run.
pub struct Credentials {
    pub client_id: String,
    pub client_secret: String,
    pub refresh_token: Option<String>,
}

/// What a token exchange yields. The access token is short-lived; a refresh
/// token, if the provider sent one, is for the operator to keep.
pub struct TokenSet {
    pub access_token: String,
    pub refresh_token: Option<String>,
}

/// The model of [`Credentials`].
pub struct CredentialsView {
    pub client_id: Seq<char>,
    pub client_secret: Seq<char>,
    pub refresh_token: Option<Seq<char>>,
}

/// The model of a [`TokenSet`].
pub struct TokenSetView {
    pub access_token: Seq<char>,
    pub refresh_token: Option<Seq<char>>,
}

impl DeepView for Credentials {
    type V = CredentialsView;

    open spec fn deep_view(&self) -> CredentialsView {
        CredentialsView {
            client_id: self.client_id@,
            client_secret: self.client_secret@,
            refresh_token: self.refresh_token.deep_view(),
        }
    }
}

impl DeepView for TokenSet {
    type V = TokenSetView;

    open spec fn deep_view(&self) -> TokenSetView {
        TokenSetView {
            access_token: self.access_token@,
            refresh_token: self.refresh_token.deep_view(),
        }
    }
}

/// The credentials that the three settings make. The client identifier and
/// the client secret are both required, with or without a refresh token.
pub open spec fn spec_credentials(
    client_id: Option<Seq<char>>,
    client_secret: Option<Seq<char>>,
    refresh_token: Option<Seq<char>>,
) -> Result<CredentialsView, ErrorView> {
    match (client_id, client_secret) {
        (Some(client_id), Some(client_secret)) => Ok(
            CredentialsView { client_id, client_secret, refresh_token },
        ),
        _ => Err(ErrorView::ConfigurationError),
    }
}

impl Credentials {
    /// Makes the credentials of a run from the three settings as they were
    /// found, each `None` if it was not set. Fails with `ConfigurationError`
    /// exactly if the client identifier or the client secret is missing.
    pub fn new(
        client_id: Option<String>,
        client_secret: Option<String>,
        refresh_token: Option<String>,
    ) -> (out: Result<Credentials, Error>)
        ensures
            result_view(out) == spec_credentials(
                client_id.deep_view(),
                client_secret.deep_view(),
                refresh_token.deep_view(),
            ),
            out is Ok <==> client_id is Some && client_secret is Some,
    {
        match (client_id, client_secret) {
            (Some(client_id), Some(client_secret)) => Ok(
                Credentials { client_id, client_secret, refresh_token },
            ),
            _ => Err(Error::ConfigurationError),
        }
    }
}

/// The form that trades an authorization code for tokens.
pub open spec fn spec_exchange_code_form(
    code: Seq<char>,
    redirect_uri: Seq<char>,
    client_id: Seq<char>,
    client_secret: Seq<char>,
) -> Seq<(Seq<char>, Seq<char>)> {
    seq![
        ("grant_type"@, "authorization_code"@),
        ("code"@, code),
        ("redirect_uri"@, redirect_uri),
        ("client_id"@, client_id),
        ("client_secret"@, client_secret),
    ]
}

/// The form that trades a refresh token for a new access token.
pub open spec fn spec_exchange_refresh_token_form(
    refresh_token: Seq<char>,
    client_id: Seq<char>,
    client_secret: Seq<char>,
) -> Seq<(Seq<char>, Seq<char>)> {
    seq![
        ("grant_type"@, "refresh_token"@),
        ("refresh_token"@, refresh_token),
        ("client_id"@, client_id),
        ("client_secret"@, client_secret),
    ]
}

/// The fields to post, form-encoded, to the token endpoint in order to trade
/// an authorization code for tokens.
pub fn exchange_code_form(
    code: &str,
    redirect_uri: &str,
    client_id: &str,
    client_secret: &str,
) -> (form: Vec<(String, String)>)
    ensures
        form.deep_view() == spec_exchange_code_form(
            code@,
            redirect_uri@,
            client_id@,
            client_secret@,
        ),
{
    let mut form: Vec<(String, String)> = Vec::new();
    form.push(pair("grant_type", "authorization_code"));
    form.push(pair("code", code));
    form.push(pair("redirect_uri", redirect_uri));
    form.push(pair("client_id", client_id));
    form.push(pair("client_secret", client_secret));
    assert(form.deep_view() =~= spec_exchange_code_form(
        code@,
        redirect_uri@,
        client_id@,
        client_secret@,
    ));
    form
}

/// The fields to post, form-encoded, to the token endpoint in order to trade
/// a refresh token for a new access token.
pub fn exchange_refresh_token_form(
    refresh_token: &str,
    client_id: &str,
    client_secret: &str,
) -> (form: Vec<(String, String)>)
    ensures
        form.deep_view() == spec_exchange_refresh_token_form(
            refresh_token@,
            client_id@,
            client_secret@,
        ),
{
    let mut form: Vec<(String, String)> = Vec::new();
    form.push(pair("grant_type", "refresh_token"));
    form.push(pair("refresh_token", refresh_token));
    form.push(pair("client_id", client_id));
    form.push(pair("client_secret", client_secret));
    assert(form.deep_view() =~= spec_exchange_refresh_token_form(
        refresh_token@,
        client_id@,
        client_secret@,
    ));
    form
}

/// What the token endpoint's reply amounts to. Any failure to reach the
/// endpoint and any status outside the success range is a hard failure; a
/// successful reply without a usable access token is a decode error.
pub open spec fn spec_token_from_reply(reply: HttpReplyView<TokenSetView>) -> Result<
    TokenSetView,
    ErrorView,
> {
    match spec_payload(reply) {
        Ok(tokens) => Ok(tokens),
        Err(ReplyFaultView::Http(failure)) => Err(ErrorView::TokenExchangeHttpError(failure)),
        Err(ReplyFaultView::Decode) => Err(ErrorView::TokenDecodeError),
    }
}

/// Judges the token endpoint's reply.
pub fn token_from_reply(reply: HttpReply<TokenSet>) -> (out: Result<TokenSet, Error>)
    ensures
        result_view(out) == spec_token_from_reply(reply.deep_view()),
{
    match reply.payload() {
        Ok(tokens) => Ok(tokens),
        Err(ReplyFault::Http(failure)) => Err(Error::TokenExchangeHttpError(failure)),
        Err(ReplyFault::Decode) => Err(Error::TokenDecodeError),
    }
}

/// What the refresh path hands on of the token endpoint's reply: the access
/// token alone. The operator holds the refresh token already, so none is
/// shown again.
pub open spec fn spec_refreshed(outcome: Result<TokenSetView, ErrorView>) -> Result<
    TokenSetView,
    ErrorView,
> {
    match outcome {
        Ok(tokens) => Ok(TokenSetView { access_token: tokens.access_token, refresh_token: None }),
        Err(error) => Err(error),
    }
}

fn refreshed(outcome: Result<TokenSet, Error>) -> (out: Result<TokenSet, Error>)
    ensures
        result_view(out) == spec_refreshed(result_view(outcome)),
{
    match outcome {
        Ok(tokens) => Ok(TokenSet { access_token: tokens.access_token, refresh_token: None }),
        Err(error) => Err(error),
    }
}

/// The authenticator: the one operation that ends in a usable access token.
///
/// With a refresh token at hand it goes straight to the token endpoint.
/// Without one it runs the authorization listener first and trades the code
/// it yields. The authenticator performs no I/O: it says what is to be done
/// next and is told what came of it. Nothing is ever retried.
pub enum Authenticator {
    /// The refresh token has been sent to the token endpoint.
    Refreshing,
    /// The listener is at work; the credentials wait for the code.
    Authorizing { listener: Listener, client_id: String, client_secret: String },
    /// The authorization code has been sent to the token endpoint.
    Exchanging,
    /// The operation is over.
    Finished,
}

/// What the caller reports back to the authenticator.
pub enum AuthEvent {
    /// Something the listener asked for has ended.
    Listener(ListenerEvent),
    /// The token endpoint has replied, or could not be reached.
    TokenReply(HttpReply<TokenSet>),
}

/// What the authenticator asks the caller to do next. The listener is at
/// work only while the actions are addressed to it: with any other action
/// its socket, if one was bound, is to be released first.
pub enum AuthAction {
    /// Do what the listener asks for.
    Listener(ListenerAction),
    /// Post `form`, form-encoded, to [`TOKEN_ENDPOINT`].
    RequestToken { form: Vec<(String, String)> },
    /// Stop: the operation ended as given. A refresh token in the token set
    /// is new, and is to be shown to the operator for safekeeping.
    Finish(Result<TokenSet, Error>),
}

/// The model of an [`Authenticator`].
pub enum AuthenticatorView {
    Refreshing,
    Authorizing { listener: ListenerView, client_id: Seq<char>, client_secret: Seq<char> },
    Exchanging,
    Finished,
}

/// The model of an [`AuthEvent`].
pub enum AuthEventView {
    Listener(ListenerEventView),
    TokenReply(HttpReplyView<TokenSetView>),
}

/// The model of an [`AuthAction`].
pub enum AuthActionView {
    Listener(ListenerActionView),
    RequestToken { form: Seq<(Seq<char>, Seq<char>)> },
    Finish(Result<TokenSetView, ErrorView>),
}

impl DeepView for Authenticator {
    type V = AuthenticatorView;

    open spec fn deep_view(&self) -> AuthenticatorView {
        match *self {
            Authenticator::Refreshing => AuthenticatorView::Refreshing,
            Authenticator::Authorizing {
                listener,
                client_id,
                client_secret,
            } => AuthenticatorView::Authorizing {
                listener: listener.deep_view(),
                client_id: client_id@,
                client_secret: client_secret@,
            },
            Authenticator::Exchanging => AuthenticatorView::Exchanging,
            Authenticator::Finished => AuthenticatorView::Finished,
        }
    }
}

impl DeepView for AuthEvent {
    type V = AuthEventView;

    open spec fn deep_view(&self) -> AuthEventView {
        match *self {
            AuthEvent::Listener(event) => AuthEventView::Listener(event.deep_view()),
            AuthEvent::TokenReply(reply) => AuthEventView::TokenReply(reply.deep_view()),
        }
    }
}

impl DeepView for AuthAction {
    type V = AuthActionView;

    open spec fn deep_view(&self) -> AuthActionView {
        match *self {
            AuthAction::Listener(action) => AuthActionView::Listener(action.deep_view()),
            AuthAction::RequestToken { form } => AuthActionView::RequestToken {
                form: form.deep_view(),
            },
            AuthAction::Finish(outcome) => AuthActionView::Finish(result_view(outcome)),
        }
    }
}

/// The start of the refresh path: the refresh form goes to the token
/// endpoint, and no listener exists.
pub open spec fn spec_start_refresh(refresh_token: Seq<char>, credentials: CredentialsView) -> (
    AuthenticatorView,
    AuthActionView,
) {
    (
        AuthenticatorView::Refreshing,
        AuthActionView::RequestToken {
            form: spec_exchange_refresh_token_form(
                refresh_token,
                credentials.client_id,
                credentials.client_secret,
            ),
        },
    )
}

/// The start of the interactive path with a given `state`: a listener is set
/// up for the fixed redirect URI and asks for the browser. If the redirect
/// URI or the consent-page URL cannot be made, the operation ends at once.
pub open spec fn spec_start_interactive(
    credentials: CredentialsView,
    scope: Seq<char>,
    timeout_secs: u64,
    state: Seq<char>,
) -> (AuthenticatorView, AuthActionView) {
    match spec_resolve_redirect(REDIRECT_URI@) {
        Ok(redirect) => {
            let request = AuthorizationRequestView { state, scope, redirect_uri: redirect.uri };
            match spec_open(credentials.client_id, request, redirect.address, timeout_secs) {
                Ok((listener, action)) => (
                    AuthenticatorView::Authorizing {
                        listener,
                        client_id: credentials.client_id,
                        client_secret: credentials.client_secret,
                    },
                    AuthActionView::Listener(action),
                ),
                Err(error) => (AuthenticatorView::Finished, AuthActionView::Finish(Err(error))),
            }
        },
        Err(error) => (AuthenticatorView::Finished, AuthActionView::Finish(Err(error))),
    }
}

/// The authenticator's transition. An event that the current state is not
/// waiting for changes nothing and asks for nothing.
///
/// On either token path the endpoint's reply ends the operation; the refresh
/// path hands on the access token alone. While the listener is at work its
/// requests are passed on; its failure ends the operation with that failure
/// and without any exchange; its success sends the code, and only then, to
/// the token endpoint.
pub open spec fn spec_auth_step(auth: AuthenticatorView, event: AuthEventView) -> (
    AuthenticatorView,
    Option<AuthActionView>,
) {
    match (auth, event) {
        (AuthenticatorView::Refreshing, AuthEventView::TokenReply(reply)) => (
            AuthenticatorView::Finished,
            Some(AuthActionView::Finish(spec_refreshed(spec_token_from_reply(reply)))),
        ),
        (AuthenticatorView::Exchanging, AuthEventView::TokenReply(reply)) => (
            AuthenticatorView::Finished,
            Some(AuthActionView::Finish(spec_token_from_reply(reply))),
        ),
        (
            AuthenticatorView::Authorizing { listener, client_id, client_secret },
            AuthEventView::Listener(event),
        ) => {
            let (next, action) = spec_step(listener, event);
            match action {
                None => (auth, None),
                Some(ListenerActionView::Finish(Ok(result))) => (
                    AuthenticatorView::Exchanging,
                    Some(
                        AuthActionView::RequestToken {
                            form: spec_exchange_code_form(
                                result.code,
                                REDIRECT_URI@,
                                client_id,
                                client_secret,
                            ),
                        },
                    ),
                ),
                Some(ListenerActionView::Finish(Err(error))) => (
                    AuthenticatorView::Finished,
                    Some(AuthActionView::Finish(Err(error))),
                ),
                Some(request) => (
                    AuthenticatorView::Authorizing { listener: next, client_id, client_secret },
                    Some(AuthActionView::Listener(request)),
                ),
            }
        },
        _ => (auth, None),
    }
}

/// Starts the refresh path: trades `refresh_token` for an access token,
/// with no browser and no listener involved.
pub fn get_access_token_from_refresh_token(
    refresh_token: &str,
    credentials: &Credentials,
) -> (out: (Authenticator, AuthAction))
    ensures
        (out.0.deep_view(), out.1.deep_view()) == spec_start_refresh(
            refresh_token@,
            credentials.deep_view(),
        ),
{
    let form = exchange_refresh_token_form(
        refresh_token,
        credentials.client_id.as_str(),
        credentials.client_secret.as_str(),
    );
    (Authenticator::Refreshing, AuthAction::RequestToken { form })
}

/// Starts the interactive path with the given `state` value: sets up the
/// listener and asks for the browser to be opened.
pub fn authorize_with_state(
    credentials: &Credentials,
    scope: &str,
    timeout_secs: u64,
    state: String,
) -> (out: (Authenticator, AuthAction))
    ensures
        (out.0.deep_view(), out.1.deep_view()) == spec_start_interactive(
            credentials.deep_view(),
            scope@,
            timeout_secs,
            state@,
        ),
{
    match resolve_redirect(REDIRECT_URI) {
        Ok(redirect) => {
            let request = AuthorizationRequest {
                state,
                scope: String::from_str(scope),
                redirect_uri: redirect.uri,
            };
            match Listener::open(
                credentials.client_id.as_str(),
                &request,
                redirect.address,
                timeout_secs,
            ) {
                Ok((listener, action)) => (
                    Authenticator::Authorizing {
                        listener,
                        client_id: credentials.client_id.clone(),
                        client_secret: credentials.client_secret.clone(),
                    },
                    AuthAction::Listener(action),
                ),
                Err(error) => (Authenticator::Finished, AuthAction::Finish(Err(error))),
            }
        },
        Err(error) => (Authenticator::Finished, AuthAction::Finish(Err(error))),
    }
}

/// Starts the operation that ends in an access token for `command`.
///
/// If the credentials hold a refresh token, the refresh path is taken and the
/// listener is never set up. Otherwise a fresh `state` is generated and the
/// interactive path starts with the scope that `command` needs. The
/// operation ends at once, without a state, only if the bytes drawn for it
/// are lost in encoding.
pub fn get_access_token(
    credentials: &Credentials,
    command: Commands,
    timeout_secs: u64,
) -> (out: (Authenticator, AuthAction))
    ensures
        credentials.refresh_token is Some ==> (out.0.deep_view(), out.1.deep_view())
            == spec_start_refresh(credentials.refresh_token->0@, credentials.deep_view()),
        credentials.refresh_token is Some ==> out.0 is Refreshing && out.1 is RequestToken,
        credentials.refresh_token is None ==> {
            ||| exists|state: Seq<char>|
                is_state_value(state) && (out.0.deep_view(), out.1.deep_view())
                    == #[trigger] spec_start_interactive(
                    credentials.deep_view(),
                    command.spec_scope(),
                    timeout_secs,
                    state,
                )
            ||| {
                &&& (out.0.deep_view(), out.1.deep_view()) == (
                    AuthenticatorView::Finished,
                    AuthActionView::Finish(Err(ErrorView::StateGenerationError)),
                )
                &&& exists|bytes: Seq<u8>|
                    bytes.len() == STATE_ENTROPY_BYTES && #[trigger] is_lost_in_encoding(bytes)
            }
        },
{
    match &credentials.refresh_token {
        Some(refresh_token) => get_access_token_from_refresh_token(
            refresh_token.as_str(),
            credentials,
        ),
        None => match generate_state() {
            Some(state) => authorize_with_state(credentials, command.scope(), timeout_secs, state),
            None => (
                Authenticator::Finished,
                AuthAction::Finish(Err(Error::StateGenerationError)),
            ),
        },
    }
}

impl Authenticator {
    /// Takes the authenticator one step: consumes what the caller reports and
    /// says what to do next, or `None` if the report is not one the
    /// authenticator is waiting for.
    pub fn step(self, event: AuthEvent) -> (out: (Authenticator, Option<AuthAction>))
        ensures
            (out.0.deep_view(), out.1.deep_view()) == spec_auth_step(
                self.deep_view(),
                event.deep_view(),
            ),
    {
        match (self, event) {
            (Authenticator::Refreshing, AuthEvent::TokenReply(reply)) => (
                Authenticator::Finished,
                Some(AuthAction::Finish(refreshed(token_from_reply(reply)))),
            ),
            (Authenticator::Exchanging, AuthEvent::TokenReply(reply)) => (
                Authenticator::Finished,
                Some(AuthAction::Finish(token_from_reply(reply))),
            ),
            (
                Authenticator::Authorizing { listener, client_id, client_secret },
                AuthEvent::Listener(event),
            ) => {
                let (next, action) = listener.step(event);
                match action {
                    None => (
                        Authenticator::Authorizing { listener: next, client_id, client_secret },
                        None,
                    ),
                    Some(ListenerAction::Finish(Ok(result))) => {
                        let form = exchange_code_form(
                            result.code.as_str(),
                            REDIRECT_URI,
                            client_id.as_str(),
                            client_secret.as_str(),
                        );
                        (Authenticator::Exchanging, Some(AuthAction::RequestToken { form }))
                    },
                    Some(ListenerAction::Finish(Err(error))) => (
                        Authenticator::Finished,
                        Some(AuthAction::Finish(Err(error))),
                    ),
                    Some(request) => (
                        Authenticator::Authorizing { listener: next, client_id, client_secret },
                        Some(AuthAction::Listener(request)),
                    ),
                }
            },
            (auth, _) => (auth, None),
        }
    }
}

/// What the authenticator asks for, event by event, when it starts in `auth`
/// and is told `events` in turn.
pub open spec fn spec_actions(auth: AuthenticatorView, events: Seq<AuthEventView>) -> Seq<
    Option<AuthActionView>,
>
    decreases events.len(),
{
    if events.len() == 0 {
        Seq::empty()
    } else {
        let (next, action) = spec_auth_step(auth, events[0]);
        seq![action] + spec_actions(next, events.drop_first())
    }
}

/// Whether an action, if any, is addressed to the listener.
pub open spec fn asks_listener(action: Option<AuthActionView>) -> bool {
    action matches Some(AuthActionView::Listener(_))
}

/// Whether an action, if any, sends something to the token endpoint.
pub open spec fn asks_token(action: Option<AuthActionView>) -> bool {
    action matches Some(AuthActionView::RequestToken { .. })
}

proof fn lemma_token_paths_never_listen(auth: AuthenticatorView, events: Seq<AuthEventView>)
    requires
        !(auth is Authorizing),
    ensures
        spec_actions(auth, events).len() == events.len(),
        forall|i: int|
            0 <= i < events.len() ==> !asks_listener(#[trigger] spec_actions(auth, events)[i]),
        forall|i: int|
            0 <= i < events.len() ==> !asks_token(#[trigger] spec_actions(auth, events)[i]),
    decreases events.len(),
{
    if events.len() > 0 {
        let (next, action) = spec_auth_step(auth, events[0]);
        lemma_token_paths_never_listen(next, events.drop_first());
    }
}

/// With a refresh token in the credentials the listener is never invoked:
/// the first action goes to the token endpoint, and whatever is reported
/// afterwards, in whatever order, no action is ever addressed to the
/// listener.
pub proof fn lemma_refresh_path_never_listens(
    refresh_token: Seq<char>,
    credentials: CredentialsView,
    events: Seq<AuthEventView>,
)
    ensures
        spec_start_refresh(refresh_token, credentials).1 is RequestToken,
        spec_actions(spec_start_refresh(refresh_token, credentials).0, events).len()
            == events.len(),
        forall|i: int|
            0 <= i < events.len() ==> !asks_listener(
                #[trigger] spec_actions(
                    spec_start_refresh(refresh_token, credentials).0,
                    events,
                )[i],
            ),
{
    lemma_token_paths_never_listen(spec_start_refresh(refresh_token, credentials).0, events);
}

/// Once the listener has failed, nothing is exchanged: if a listener event
/// ends the authorization with an error, the operation finishes with that
/// error, and no later report makes the authenticator send anything to the
/// token endpoint. A malformed callback or one with a foreign `state` is
/// such a failure, so its code is never traded.
pub proof fn lemma_listener_failure_exchanges_nothing(
    listener: ListenerView,
    client_id: Seq<char>,
    client_secret: Seq<char>,
    event: ListenerEventView,
    error: ErrorView,
    later: Seq<AuthEventView>,
)
    requires
        spec_step(listener, event).1 == Some(ListenerActionView::Finish(Err(error))),
    ensures
        ({
            let auth = AuthenticatorView::Authorizing { listener, client_id, client_secret };
            let (next, action) = spec_auth_step(auth, AuthEventView::Listener(event));
            &&& action == Some(AuthActionView::Finish(Err(error)))
            &&& next is Finished
            &&& forall|i: int|
                0 <= i < later.len() ==> !asks_token(#[trigger] spec_actions(next, later)[i])
        }),
{
    let auth = AuthenticatorView::Authorizing { listener, client_id, client_secret };
    let (next, action) = spec_auth_step(auth, AuthEventView::Listener(event));
    lemma_token_paths_never_listen(next, later);
}

} // verus!
