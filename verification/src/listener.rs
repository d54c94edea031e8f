use vstd::prelude::*;
use vstd::string::*;
use crate::error::{Error, ErrorView};
use crate::model::result_view;
use crate::text::{decimal, pair, same_text, spec_decimal};

verus! {

/// The provider's consent page.
pub const AUTHORIZE_ENDPOINT: &'static str = "https://accounts.spotify.com/authorize";

/// The loopback address the provider redirects the browser to.
pub const REDIRECT_URI: &'static str = "http://127.0.0.1:8000/callback";

/// How long the listener waits for the callback unless told otherwise.
pub const CALLBACK_TIMEOUT_SECS: u64 = 120;

/// How many random bytes go into a `state` value.
pub const STATE_ENTROPY_BYTES: usize = 16;

/// What the browser is shown once the callback has been accepted.
pub const CONFIRMATION_PAGE: &'static str =
    "Authorization successful! You can close this window now.";

/// What one authorization attempt asks of the provider. `state` ties the
/// callback to this attempt and is used once.
pub struct AuthorizationRequest {
    pub state: String,
    pub scope: String,
    pub redirect_uri: String,
}

/// What an accepted callback carried.
pub struct AuthorizationResult {
    pub code: String,
    pub state: String,
}

/// The model of an [`AuthorizationRequest`].
pub struct AuthorizationRequestView {
    pub state: Seq<char>,
    pub scope: Seq<char>,
    pub redirect_uri: Seq<char>,
}

/// The model of an [`AuthorizationResult`].
pub struct AuthorizationResultView {
    pub code: Seq<char>,
    pub state: Seq<char>,
}

impl DeepView for AuthorizationRequest {
    type V = AuthorizationRequestView;

    open spec fn deep_view(&self) -> AuthorizationRequestView {
        AuthorizationRequestView {
            state: self.state@,
            scope: self.scope@,
            redirect_uri: self.redirect_uri@,
        }
    }
}

impl DeepView for AuthorizationResult {
    type V = AuthorizationResultView;

    open spec fn deep_view(&self) -> AuthorizationResultView {
        AuthorizationResultView { code: self.code@, state: self.state@ }
    }
}

/// The text that base64's URL-safe engine without padding produces for
/// `bytes`.
pub uninterp spec fn base64_url_no_pad(bytes: Seq<u8>) -> Seq<char>;

/// The bytes that base64's URL-safe engine without padding decodes `text`
/// to, or `None` where it reports a decode error.
pub uninterp spec fn base64_url_no_pad_decoded(text: Seq<char>) -> Option<Seq<u8>>;

/// Whether `c` may stand in a URL without escaping, as far as the URL-safe
/// base64 alphabet goes: an ASCII letter, a digit, `-` or `_`.
pub open spec fn is_url_safe_char(c: char) -> bool {
    ||| ('A' <= c && c <= 'Z')
    ||| ('a' <= c && c <= 'z')
    ||| ('0' <= c && c <= '9')
    ||| c == '-'
    ||| c == '_'
}

/// Whether every character of `text` is URL-safe.
pub open spec fn is_url_safe(text: Seq<char>) -> bool {
    forall|i: int| 0 <= i < text.len() ==> is_url_safe_char(#[trigger] text[i])
}

/// How many characters the unpadded base64 text of `n` bytes has: four for
/// every three bytes, and two or three for a remainder of one or two.
pub open spec fn base64_no_pad_len(n: nat) -> nat {
    4 * (n / 3) + if n % 3 == 0 {
        0nat
    } else if n % 3 == 1 {
        2nat
    } else {
        3nat
    }
}

/// Whether `state` stands for the entropy `bytes`: it is their URL-safe
/// encoding, and decoding it gives exactly those bytes back.
pub open spec fn is_state_of(state: Seq<char>, bytes: Seq<u8>) -> bool {
    &&& state == base64_url_no_pad(bytes)
    &&& base64_url_no_pad_decoded(state) == Some(bytes)
}

/// Whether `state` could have been generated for an attempt: it stands for
/// [`STATE_ENTROPY_BYTES`] bytes and is URL-safe.
pub open spec fn is_state_value(state: Seq<char>) -> bool {
    &&& exists|bytes: Seq<u8>|
        bytes.len() == STATE_ENTROPY_BYTES && #[trigger] is_state_of(state, bytes)
    &&& is_url_safe(state)
    &&& state.len() == base64_no_pad_len(STATE_ENTROPY_BYTES as nat)
}

/// A state stands for one entropy only: whatever the bytes, two that differ
/// never have the same state.
pub proof fn lemma_state_tells_entropy_apart(
    state: Seq<char>,
    bytes: Seq<u8>,
    other_state: Seq<char>,
    other_bytes: Seq<u8>,
)
    ensures
        is_state_of(state, bytes) && is_state_of(other_state, other_bytes) && bytes
            != other_bytes ==> state != other_state,
{
}

/// Draws one byte at random.
///
/// Wraps `rand::random::<u8>()`, which samples the standard distribution on
/// the thread-local generator. Any byte may come back, so nothing is claimed.
#[verifier::external_body]
fn random_byte() -> u8 {
    rand::random::<u8>()
}

/// Encodes bytes in base64 with the URL-safe alphabet and no padding.
///
/// Wraps `Engine::encode` on `base64::engine::general_purpose::URL_SAFE_NO_PAD`.
/// The contract names the result and states two facts the crate's source
/// shows: every output character comes from the alphabet `A-Z a-z 0-9 - _`,
/// and the length is the one `encoded_len` computes without padding. The
/// call panics when that length overflows `usize`; the bound on the input
/// rules that out.
#[verifier::external_body]
fn encode_url_safe(bytes: &Vec<u8>) -> (text: String)
    requires
        bytes.len() <= usize::MAX / 2,
    ensures
        text@ == base64_url_no_pad(bytes@),
        is_url_safe(text@),
        text@.len() == base64_no_pad_len(bytes@.len()),
{
    base64::Engine::encode(&base64::engine::general_purpose::URL_SAFE_NO_PAD, bytes)
}

/// Decodes base64 text in the URL-safe alphabet without padding.
///
/// Wraps `Engine::decode` on `base64::engine::general_purpose::URL_SAFE_NO_PAD`.
/// The contract only names the result: the decoded bytes, or nothing where
/// the crate reports a decode error.
#[verifier::external_body]
fn decode_url_safe(text: &str) -> (bytes: Option<Vec<u8>>)
    ensures
        bytes is Some <==> base64_url_no_pad_decoded(text@) is Some,
        bytes is Some ==> bytes->0@ == base64_url_no_pad_decoded(text@)->0,
{
    base64::Engine::decode(&base64::engine::general_purpose::URL_SAFE_NO_PAD, text).ok()
}

/// `count` bytes, each drawn at random.
pub fn random_bytes(count: usize) -> (bytes: Vec<u8>)
    ensures
        bytes.len() == count,
{
    let mut bytes: Vec<u8> = Vec::new();
    let mut i: usize = 0;
    while i < count
        invariant
            i <= count,
            bytes.len() == i,
        decreases count - i,
    {
        bytes.push(random_byte());
        i += 1;
    }
    bytes
}

fn same_bytes(a: &Vec<u8>, b: &Vec<u8>) -> (same: bool)
    ensures
        same == (a@ == b@),
{
    if a.len() != b.len() {
        return false;
    }
    let mut i: usize = 0;
    while i < a.len()
        invariant
            i <= a.len(),
            a.len() == b.len(),
            forall|k: int| 0 <= k < i ==> a@[k] == b@[k],
        decreases a.len() - i,
    {
        if a[i] != b[i] {
            return false;
        }
        i += 1;
    }
    assert(a@ =~= b@);
    true
}

/// Whether the encoding of `bytes` fails to decode to `bytes` again, so that
/// it cannot stand for them.
pub open spec fn is_lost_in_encoding(bytes: Seq<u8>) -> bool {
    base64_url_no_pad_decoded(base64_url_no_pad(bytes)) != Some(bytes)
}

/// The `state` value that stands for the given entropy: its URL-safe
/// encoding, handed out only after decoding it has given the same bytes
/// back. So no other entropy can ever have the same state. There is no
/// state where the encoding does not decode to the bytes it was made from,
/// nor for more bytes than the encoder can take.
pub fn state_from_bytes(bytes: &Vec<u8>) -> (state: Option<String>)
    ensures
        state is Some <==> bytes@.len() <= usize::MAX / 2 && !is_lost_in_encoding(bytes@),
        state is Some ==> is_state_of(state->0@, bytes@),
        state is Some ==> is_url_safe(state->0@),
        state is Some ==> state->0@.len() == base64_no_pad_len(bytes@.len()),
        state is Some ==> forall|other_state: Seq<char>, other_bytes: Seq<u8>|
            #[trigger] is_state_of(other_state, other_bytes) && other_bytes != bytes@
                ==> other_state != state->0@,
{
    if bytes.len() > usize::MAX / 2 {
        return None;
    }
    let text = encode_url_safe(bytes);
    match decode_url_safe(text.as_str()) {
        Some(back) => {
            if same_bytes(&back, bytes) {
                Some(text)
            } else {
                None
            }
        },
        None => None,
    }
}

/// A fresh `state` value: [`STATE_ENTROPY_BYTES`] random bytes, URL-safe
/// encoded. There is none only if the bytes drawn are lost in encoding.
pub fn generate_state() -> (state: Option<String>)
    ensures
        state is Some ==> is_state_value(state->0@),
        state is None ==> exists|bytes: Seq<u8>|
            bytes.len() == STATE_ENTROPY_BYTES && #[trigger] is_lost_in_encoding(bytes),
{
    let bytes = random_bytes(STATE_ENTROPY_BYTES);
    state_from_bytes(&bytes)
}

/// Where the listener binds.
pub struct ListenerAddress {
    pub host: String,
    pub port: u16,
}

/// The model of a [`ListenerAddress`].
pub struct ListenerAddressView {
    pub host: Seq<char>,
    pub port: u16,
}

impl DeepView for ListenerAddress {
    type V = ListenerAddressView;

    open spec fn deep_view(&self) -> ListenerAddressView {
        ListenerAddressView { host: self.host@, port: self.port }
    }
}

/// The error type of the `url` crate's parser.
#[verifier::external_type_specification]
#[verifier::external_body]
pub struct ExParseError(url::ParseError);

/// The longest base URL that is handed to the URL parser.
pub const MAX_BASE_URL_LEN: usize = 4096;

/// The text of the URL that `Url::parse_with_params` builds from `base` and
/// `params`, or `None` where it reports a parse error.
pub uninterp spec fn url_with_params(
    base: Seq<char>,
    params: Seq<(Seq<char>, Seq<char>)>,
) -> Option<Seq<char>>;

/// The normalized text of the URL that `Url::parse` reads from `text`, as
/// `Url::as_str` gives it, or `None` where `Url::parse` reports a parse
/// error.
pub uninterp spec fn url_parsed(text: Seq<char>) -> Option<Seq<char>>;

/// What `Url::host_str` gives for the URL that `Url::parse` reads from
/// `text`: its host, if it has one.
pub uninterp spec fn url_host(text: Seq<char>) -> Option<Seq<char>>;

/// What `Url::port_or_known_default` gives for the URL that `Url::parse`
/// reads from `text`: its port, or the default port of its scheme, if either
/// is known.
pub uninterp spec fn url_port(text: Seq<char>) -> Option<u16>;

/// The name/value pairs that `Url::query_pairs` yields, in order, for the
/// URL that `Url::parse` reads from `text`.
pub uninterp spec fn url_query_pairs(text: Seq<char>) -> Seq<(Seq<char>, Seq<char>)>;

/// Whether `text` is free of `#`, the character that starts a URL fragment.
pub open spec fn has_no_fragment(text: Seq<char>) -> bool {
    forall|i: int| 0 <= i < text.len() ==> #[trigger] text[i] != '#'
}

/// Parses `base` and appends `params` to its query.
///
/// Wraps `url::Url::parse_with_params` and hands back the text of the URL it
/// built. The contract names that text; it claims nothing about what it
/// looks like. The crate appends to the query behind a `u32` offset and
/// re-attaches a fragment with an unchecked conversion, which can panic for a
/// base that has a fragment or is gigabytes long: both are ruled out.
#[verifier::external_body]
fn parse_with_params(base: &str, params: &Vec<(String, String)>) -> (out: Result<
    String,
    url::ParseError,
>)
    requires
        base@.len() <= MAX_BASE_URL_LEN,
        has_no_fragment(base@),
    ensures
        out is Ok <==> url_with_params(base@, params.deep_view()) is Some,
        out is Ok ==> out->Ok_0@ == url_with_params(base@, params.deep_view())->0,
{
    url::Url::parse_with_params(base, params).map(String::from)
}

/// Parses a URL and reads off its text, host and port.
///
/// Wraps `url::Url::parse`, followed by `Url::as_str`, `Url::host_str` and
/// `Url::port_or_known_default` on the parsed value. The contract gives each
/// of the three results its name and claims nothing more of them.
#[verifier::external_body]
fn parse_origin(text: &str) -> (out: Result<(String, Option<String>, Option<u16>), url::ParseError>)
    ensures
        out is Ok <==> url_parsed(text@) is Some,
        out is Ok ==> out->Ok_0.0@ == url_parsed(text@)->0,
        out is Ok ==> out->Ok_0.1.deep_view() == url_host(text@),
        out is Ok ==> out->Ok_0.2 == url_port(text@),
{
    url::Url::parse(text).map(
        |u| (u.as_str().to_string(), u.host_str().map(String::from), u.port_or_known_default()),
    )
}

/// Parses a URL and decodes its query into name/value pairs.
///
/// Wraps `url::Url::parse`, followed by `Url::query_pairs` on the parsed
/// value, each pair copied into owned strings. The contract names the list of
/// pairs and claims nothing more of it.
#[verifier::external_body]
fn parse_query_pairs(text: &str) -> (out: Result<Vec<(String, String)>, url::ParseError>)
    ensures
        out is Ok <==> url_parsed(text@) is Some,
        out is Ok ==> out->Ok_0.deep_view() == url_query_pairs(text@),
{
    url::Url::parse(text).map(|u| u.query_pairs().into_owned().collect())
}

/// The query parameters of the consent page, in the order they are sent.
pub open spec fn spec_authorization_params(
    client_id: Seq<char>,
    request: AuthorizationRequestView,
) -> Seq<(Seq<char>, Seq<char>)> {
    seq![
        ("client_id"@, client_id),
        ("response_type"@, "code"@),
        ("redirect_uri"@, request.redirect_uri),
        ("state"@, request.state),
        ("scope"@, request.scope),
    ]
}

/// The consent-page URL of an attempt, or `InvalidUrl` if none can be built.
pub open spec fn spec_authorization_url(
    client_id: Seq<char>,
    request: AuthorizationRequestView,
) -> Result<Seq<char>, ErrorView> {
    match url_with_params(AUTHORIZE_ENDPOINT@, spec_authorization_params(client_id, request)) {
        Some(url) => Ok(url),
        None => Err(ErrorView::InvalidUrl),
    }
}

/// The query parameters of the consent page for an attempt.
pub fn authorization_params(client_id: &str, request: &AuthorizationRequest) -> (params: Vec<
    (String, String),
>)
    ensures
        params.deep_view() == spec_authorization_params(client_id@, request.deep_view()),
{
    let mut params: Vec<(String, String)> = Vec::new();
    params.push(pair("client_id", client_id));
    params.push(pair("response_type", "code"));
    params.push(pair("redirect_uri", request.redirect_uri.as_str()));
    params.push(pair("state", request.state.as_str()));
    params.push(pair("scope", request.scope.as_str()));
    assert(params.deep_view() =~= spec_authorization_params(client_id@, request.deep_view()));
    params
}

/// Builds the URL of the consent page for an attempt.
pub fn authorization_url(client_id: &str, request: &AuthorizationRequest) -> (url: Result<
    String,
    Error,
>)
    ensures
        result_view(url) == spec_authorization_url(client_id@, request.deep_view()),
{
    let params = authorization_params(client_id, request);
    proof {
        reveal_strlit("https://accounts.spotify.com/authorize");
    }
    match parse_with_params(AUTHORIZE_ENDPOINT, &params) {
        Ok(url) => Ok(url),
        Err(_) => Err(Error::InvalidUrl),
    }
}

/// A redirect URI as the flow uses it: its normalized text, which is sent to
/// the provider, and the address the listener binds to.
pub struct Redirect {
    pub uri: String,
    pub address: ListenerAddress,
}

/// The model of a [`Redirect`].
pub struct RedirectView {
    pub uri: Seq<char>,
    pub address: ListenerAddressView,
}

impl DeepView for Redirect {
    type V = RedirectView;

    open spec fn deep_view(&self) -> RedirectView {
        RedirectView { uri: self.uri@, address: self.address.deep_view() }
    }
}

/// What a redirect URI resolves to: it has to parse and to name both a host
/// and a port, or a port-bearing scheme.
pub open spec fn spec_resolve_redirect(text: Seq<char>) -> Result<RedirectView, ErrorView> {
    match (url_parsed(text), url_host(text), url_port(text)) {
        (Some(uri), Some(host), Some(port)) => Ok(
            RedirectView { uri, address: ListenerAddressView { host, port } },
        ),
        _ => Err(ErrorView::InvalidUrl),
    }
}

/// Resolves a redirect URI into its normalized text and the listener address.
pub fn resolve_redirect(text: &str) -> (out: Result<Redirect, Error>)
    ensures
        result_view(out) == spec_resolve_redirect(text@),
{
    match parse_origin(text) {
        Ok((uri, Some(host), Some(port))) => Ok(
            Redirect { uri, address: ListenerAddress { host, port } },
        ),
        _ => Err(Error::InvalidUrl),
    }
}

/// The absolute URL of a callback request: the listener's own address in
/// front of the request target.
pub open spec fn spec_callback_url(address: ListenerAddressView, target: Seq<char>) -> Seq<char> {
    "http://"@ + address.host + ":"@ + spec_decimal(address.port as nat) + target
}

/// Builds the absolute URL of a callback request from its target.
pub fn callback_url(address: &ListenerAddress, target: &str) -> (url: String)
    ensures
        url@ == spec_callback_url(address.deep_view(), target@),
{
    let mut url = String::from_str("http://");
    url.append(address.host.as_str());
    url.append(":");
    let port = decimal(address.port);
    url.append(port.as_str());
    url.append(target);
    url
}

/// The value of the first pair called `name`, if there is one.
pub open spec fn spec_find_param(pairs: Seq<(Seq<char>, Seq<char>)>, name: Seq<char>) -> Option<
    Seq<char>,
>
    decreases pairs.len(),
{
    if pairs.len() == 0 {
        None
    } else if pairs[0].0 == name {
        Some(pairs[0].1)
    } else {
        spec_find_param(pairs.drop_first(), name)
    }
}

proof fn lemma_find_param_skips(pairs: Seq<(Seq<char>, Seq<char>)>, name: Seq<char>, n: int)
    requires
        0 <= n <= pairs.len(),
        forall|j: int| 0 <= j < n ==> (#[trigger] pairs[j]).0 != name,
    ensures
        spec_find_param(pairs, name) == spec_find_param(pairs.skip(n), name),
    decreases n,
{
    if n == 0 {
        assert(pairs.skip(0) =~= pairs);
    } else {
        let rest = pairs.drop_first();
        assert forall|j: int| 0 <= j < n - 1 implies (#[trigger] rest[j]).0 != name by {
            assert(rest[j] == pairs[j + 1]);
        }
        lemma_find_param_skips(rest, name, n - 1);
        assert(rest.skip(n - 1) =~= pairs.skip(n));
    }
}

/// Looks up the first query parameter called `name`.
pub fn find_param(pairs: &Vec<(String, String)>, name: &str) -> (value: Option<String>)
    ensures
        value.deep_view() == spec_find_param(pairs.deep_view(), name@),
{
    let mut i: usize = 0;
    while i < pairs.len()
        invariant
            i <= pairs.len(),
            forall|j: int| 0 <= j < i ==> (#[trigger] pairs.deep_view()[j]).0 != name@,
        decreases pairs.len() - i,
    {
        if same_text(pairs[i].0.as_str(), name) {
            proof {
                lemma_find_param_skips(pairs.deep_view(), name@, i as int);
            }
            return Some(pairs[i].1.clone());
        }
        i += 1;
    }
    proof {
        lemma_find_param_skips(pairs.deep_view(), name@, pairs.len() as int);
    }
    None
}

/// The verdict on a callback's parameters. Both `code` and `state` have to be
/// there, and `state` has to be the one this attempt sent out; only then is
/// the code handed on.
pub open spec fn spec_check_callback(
    pairs: Seq<(Seq<char>, Seq<char>)>,
    expected_state: Seq<char>,
) -> Result<AuthorizationResultView, ErrorView> {
    match (spec_find_param(pairs, "code"@), spec_find_param(pairs, "state"@)) {
        (Some(code), Some(state)) => {
            if state == expected_state {
                Ok(AuthorizationResultView { code, state })
            } else {
                Err(ErrorView::CsrfMismatch)
            }
        },
        _ => Err(ErrorView::MalformedCallback),
    }
}

/// Judges the parameters of a callback against the `state` of the attempt.
///
/// A callback without `code` or without `state` is malformed. One whose
/// `state` differs from `expected_state` is never accepted, whatever its
/// `code`; if it does carry a code, the failure is a CSRF mismatch. An
/// accepted callback carries exactly the expected `state`.
pub fn check_callback(pairs: &Vec<(String, String)>, expected_state: &str) -> (out: Result<
    AuthorizationResult,
    Error,
>)
    ensures
        result_view(out) == spec_check_callback(pairs.deep_view(), expected_state@),
        ({
            let code = spec_find_param(pairs.deep_view(), "code"@);
            let state = spec_find_param(pairs.deep_view(), "state"@);
            &&& code is None || state is None ==> out is Err && out->Err_0
                == Error::MalformedCallback
            &&& state is Some && state->0 != expected_state@ ==> out is Err
            &&& code is Some && state is Some && state->0 != expected_state@ ==> out is Err
                && out->Err_0 == Error::CsrfMismatch
        }),
        out is Ok ==> out->Ok_0.state@ == expected_state@,
{
    let code = find_param(pairs, "code");
    let state = find_param(pairs, "state");
    match (code, state) {
        (Some(code), Some(state)) => {
            if same_text(state.as_str(), expected_state) {
                Ok(AuthorizationResult { code, state })
            } else {
                Err(Error::CsrfMismatch)
            }
        },
        _ => Err(Error::MalformedCallback),
    }
}

/// The verdict on a callback request, given its target. A target that does
/// not make a URL carries no parameters and is malformed.
pub open spec fn spec_read_callback(
    address: ListenerAddressView,
    target: Seq<char>,
    expected_state: Seq<char>,
) -> Result<AuthorizationResultView, ErrorView> {
    let url = spec_callback_url(address, target);
    match url_parsed(url) {
        Some(_) => spec_check_callback(url_query_pairs(url), expected_state),
        None => Err(ErrorView::MalformedCallback),
    }
}

/// Reads the callback request with the given target and judges it.
pub fn read_callback(address: &ListenerAddress, target: &str, expected_state: &str) -> (out: Result<
    AuthorizationResult,
    Error,
>)
    ensures
        result_view(out) == spec_read_callback(address.deep_view(), target@, expected_state@),
        out is Ok ==> out->Ok_0.state@ == expected_state@,
{
    let url = callback_url(address, target);
    match parse_query_pairs(url.as_str()) {
        Ok(pairs) => check_callback(&pairs, expected_state),
        Err(_) => Err(Error::MalformedCallback),
    }
}

/// Where a listener stands in its single attempt.
pub enum ListenerPhase {
    /// The browser has been asked to open the consent page.
    LaunchingBrowser,
    /// The loopback socket is being bound.
    Binding,
    /// The socket is bound and the one request is awaited.
    Waiting,
    /// A callback was accepted and the confirmation page is on its way.
    Responding(AuthorizationResult),
    /// The attempt is over; the socket is to be released.
    Closed,
}

/// The authorization listener: one attempt to obtain the operator's consent
/// through the browser and a one-shot loopback HTTP endpoint.
///
/// The listener itself touches neither browser nor socket. It says what is to
/// be done next, and is told what came of it.
pub struct Listener {
    pub phase: ListenerPhase,
    pub authorize_url: String,
    pub expected_state: String,
    pub address: ListenerAddress,
    pub timeout_secs: u64,
}

/// What the caller reports back to the listener.
pub enum ListenerEvent {
    /// The attempt to open the browser ended; `opened` tells how.
    BrowserLaunched { opened: bool },
    /// The attempt to bind the socket ended; `bound` tells how.
    BindFinished { bound: bool },
    /// A request arrived; `target` is its request target, path and query.
    RequestReceived { target: String },
    /// The wait ended without a request.
    WaitExpired,
    /// The attempt to send the confirmation page ended; `sent` tells how.
    ResponseFinished { sent: bool },
}

/// What the listener asks the caller to do next.
pub enum ListenerAction {
    /// Open the operator's browser at `url`.
    OpenBrowser { url: String },
    /// Bind the loopback socket. If `manual_url` is there, the browser did
    /// not open: show the URL so that the operator can open it by hand.
    Bind { host: String, port: u16, manual_url: Option<String> },
    /// Accept one request, waiting no longer than `timeout_secs`.
    Accept { timeout_secs: u64 },
    /// Answer the request with status 200 and `body` as plain text.
    Respond { body: String },
    /// Release the socket; the attempt ended as given.
    Finish(Result<AuthorizationResult, Error>),
}

/// The model of a [`ListenerPhase`].
pub enum ListenerPhaseView {
    LaunchingBrowser,
    Binding,
    Waiting,
    Responding(AuthorizationResultView),
    Closed,
}

/// The model of a [`Listener`].
pub struct ListenerView {
    pub phase: ListenerPhaseView,
    pub authorize_url: Seq<char>,
    pub expected_state: Seq<char>,
    pub address: ListenerAddressView,
    pub timeout_secs: u64,
}

/// The model of a [`ListenerEvent`].
pub enum ListenerEventView {
    BrowserLaunched { opened: bool },
    BindFinished { bound: bool },
    RequestReceived { target: Seq<char> },
    WaitExpired,
    ResponseFinished { sent: bool },
}

/// The model of a [`ListenerAction`].
pub enum ListenerActionView {
    OpenBrowser { url: Seq<char> },
    Bind { host: Seq<char>, port: u16, manual_url: Option<Seq<char>> },
    Accept { timeout_secs: u64 },
    Respond { body: Seq<char> },
    Finish(Result<AuthorizationResultView, ErrorView>),
}

impl DeepView for ListenerPhase {
    type V = ListenerPhaseView;

    open spec fn deep_view(&self) -> ListenerPhaseView {
        match *self {
            ListenerPhase::LaunchingBrowser => ListenerPhaseView::LaunchingBrowser,
            ListenerPhase::Binding => ListenerPhaseView::Binding,
            ListenerPhase::Waiting => ListenerPhaseView::Waiting,
            ListenerPhase::Responding(result) => ListenerPhaseView::Responding(result.deep_view()),
            ListenerPhase::Closed => ListenerPhaseView::Closed,
        }
    }
}

impl DeepView for Listener {
    type V = ListenerView;

    open spec fn deep_view(&self) -> ListenerView {
        ListenerView {
            phase: self.phase.deep_view(),
            authorize_url: self.authorize_url@,
            expected_state: self.expected_state@,
            address: self.address.deep_view(),
            timeout_secs: self.timeout_secs,
        }
    }
}

impl DeepView for ListenerEvent {
    type V = ListenerEventView;

    open spec fn deep_view(&self) -> ListenerEventView {
        match *self {
            ListenerEvent::BrowserLaunched { opened } => ListenerEventView::BrowserLaunched {
                opened,
            },
            ListenerEvent::BindFinished { bound } => ListenerEventView::BindFinished { bound },
            ListenerEvent::RequestReceived { target } => ListenerEventView::RequestReceived {
                target: target@,
            },
            ListenerEvent::WaitExpired => ListenerEventView::WaitExpired,
            ListenerEvent::ResponseFinished { sent } => ListenerEventView::ResponseFinished {
                sent,
            },
        }
    }
}

impl DeepView for ListenerAction {
    type V = ListenerActionView;

    open spec fn deep_view(&self) -> ListenerActionView {
        match *self {
            ListenerAction::OpenBrowser { url } => ListenerActionView::OpenBrowser { url: url@ },
            ListenerAction::Bind { host, port, manual_url } => ListenerActionView::Bind {
                host: host@,
                port,
                manual_url: manual_url.deep_view(),
            },
            ListenerAction::Accept { timeout_secs } => ListenerActionView::Accept { timeout_secs },
            ListenerAction::Respond { body } => ListenerActionView::Respond { body: body@ },
            ListenerAction::Finish(outcome) => ListenerActionView::Finish(result_view(outcome)),
        }
    }
}

/// A listener at the start of its attempt, with the action that starts it.
pub open spec fn spec_open(
    client_id: Seq<char>,
    request: AuthorizationRequestView,
    address: ListenerAddressView,
    timeout_secs: u64,
) -> Result<(ListenerView, ListenerActionView), ErrorView> {
    match spec_authorization_url(client_id, request) {
        Ok(url) => Ok(
            (
                ListenerView {
                    phase: ListenerPhaseView::LaunchingBrowser,
                    authorize_url: url,
                    expected_state: request.state,
                    address,
                    timeout_secs,
                },
                ListenerActionView::OpenBrowser { url },
            ),
        ),
        Err(error) => Err(error),
    }
}

/// The listener's transition: where it goes on an event, and what it asks
/// for. An event that the current phase is not waiting for changes nothing
/// and asks for nothing.
///
/// A browser that did not open only adds the URL to the next action. A
/// socket that did not bind, a wait that expired, a callback that is
/// malformed or carries another `state`, all end the attempt at once. The
/// confirmation page is asked for only after a callback has been accepted,
/// and success is reported only once that page has been sent.
pub open spec fn spec_step(listener: ListenerView, event: ListenerEventView) -> (
    ListenerView,
    Option<ListenerActionView>,
) {
    let (phase, action) = match (listener.phase, event) {
        (ListenerPhaseView::LaunchingBrowser, ListenerEventView::BrowserLaunched { opened }) => (
            ListenerPhaseView::Binding,
            Some(
                ListenerActionView::Bind {
                    host: listener.address.host,
                    port: listener.address.port,
                    manual_url: if opened {
                        None
                    } else {
                        Some(listener.authorize_url)
                    },
                },
            ),
        ),
        (ListenerPhaseView::Binding, ListenerEventView::BindFinished { bound }) => {
            if bound {
                (
                    ListenerPhaseView::Waiting,
                    Some(ListenerActionView::Accept { timeout_secs: listener.timeout_secs }),
                )
            } else {
                (
                    ListenerPhaseView::Closed,
                    Some(ListenerActionView::Finish(Err(ErrorView::ListenerBindError))),
                )
            }
        },
        (ListenerPhaseView::Waiting, ListenerEventView::RequestReceived { target }) => {
            match spec_read_callback(listener.address, target, listener.expected_state) {
                Ok(result) => (
                    ListenerPhaseView::Responding(result),
                    Some(ListenerActionView::Respond { body: CONFIRMATION_PAGE@ }),
                ),
                Err(error) => (
                    ListenerPhaseView::Closed,
                    Some(ListenerActionView::Finish(Err(error))),
                ),
            }
        },
        (ListenerPhaseView::Waiting, ListenerEventView::WaitExpired) => (
            ListenerPhaseView::Closed,
            Some(ListenerActionView::Finish(Err(ErrorView::AuthorizationTimeout))),
        ),
        (ListenerPhaseView::Responding(result), ListenerEventView::ResponseFinished { sent }) => (
            ListenerPhaseView::Closed,
            Some(
                ListenerActionView::Finish(
                    if sent {
                        Ok(result)
                    } else {
                        Err(ErrorView::CallbackResponseError)
                    },
                ),
            ),
        ),
        (phase, _) => (phase, None),
    };
    (ListenerView { phase, ..listener }, action)
}

impl Listener {
    /// Sets up a listener for one attempt and asks for the browser to be
    /// opened at the consent page. Fails with `InvalidUrl` if no consent-page
    /// URL can be built.
    pub fn open(
        client_id: &str,
        request: &AuthorizationRequest,
        address: ListenerAddress,
        timeout_secs: u64,
    ) -> (out: Result<(Listener, ListenerAction), Error>)
        ensures
            result_view(out) == spec_open(
                client_id@,
                request.deep_view(),
                address.deep_view(),
                timeout_secs,
            ),
    {
        match authorization_url(client_id, request) {
            Ok(url) => {
                let listener = Listener {
                    phase: ListenerPhase::LaunchingBrowser,
                    authorize_url: url.clone(),
                    expected_state: request.state.clone(),
                    address,
                    timeout_secs,
                };
                Ok((listener, ListenerAction::OpenBrowser { url }))
            },
            Err(error) => Err(error),
        }
    }

    /// Takes the listener one step: consumes what the caller reports and
    /// says what to do next, or `None` if the report is not one the listener
    /// is waiting for.
    pub fn step(self, event: ListenerEvent) -> (out: (Listener, Option<ListenerAction>))
        ensures
            (out.0.deep_view(), out.1.deep_view()) == spec_step(
                self.deep_view(),
                event.deep_view(),
            ),
            self.phase is Waiting && event is WaitExpired ==> out.0.phase is Closed && out.1
                == Some(ListenerAction::Finish(Err(Error::AuthorizationTimeout))),
    {
        let Listener { phase, authorize_url, expected_state, address, timeout_secs } = self;
        let (phase, action) = match (phase, event) {
            (ListenerPhase::LaunchingBrowser, ListenerEvent::BrowserLaunched { opened }) => {
                let manual_url = if opened {
                    None
                } else {
                    Some(authorize_url.clone())
                };
                (
                    ListenerPhase::Binding,
                    Some(
                        ListenerAction::Bind {
                            host: address.host.clone(),
                            port: address.port,
                            manual_url,
                        },
                    ),
                )
            },
            (ListenerPhase::Binding, ListenerEvent::BindFinished { bound }) => {
                if bound {
                    (ListenerPhase::Waiting, Some(ListenerAction::Accept { timeout_secs }))
                } else {
                    (
                        ListenerPhase::Closed,
                        Some(ListenerAction::Finish(Err(Error::ListenerBindError))),
                    )
                }
            },
            (ListenerPhase::Waiting, ListenerEvent::RequestReceived { target }) => {
                match read_callback(&address, target.as_str(), expected_state.as_str()) {
                    Ok(result) => (
                        ListenerPhase::Responding(result),
                        Some(ListenerAction::Respond { body: String::from_str(CONFIRMATION_PAGE) }),
                    ),
                    Err(error) => (ListenerPhase::Closed, Some(ListenerAction::Finish(Err(error)))),
                }
            },
            (ListenerPhase::Waiting, ListenerEvent::WaitExpired) => (
                ListenerPhase::Closed,
                Some(ListenerAction::Finish(Err(Error::AuthorizationTimeout))),
            ),
            (ListenerPhase::Responding(result), ListenerEvent::ResponseFinished { sent }) => {
                let outcome = if sent {
                    Ok(result)
                } else {
                    Err(Error::CallbackResponseError)
                };
                (ListenerPhase::Closed, Some(ListenerAction::Finish(outcome)))
            },
            (phase, _) => (phase, None),
        };
        (Listener { phase, authorize_url, expected_state, address, timeout_secs }, action)
    }
}

/// What the listener asks for, event by event, when it starts as `listener`
/// and is told `events` in turn.
pub open spec fn spec_actions(listener: ListenerView, events: Seq<ListenerEventView>) -> Seq<
    Option<ListenerActionView>,
>
    decreases events.len(),
{
    if events.len() == 0 {
        Seq::empty()
    } else {
        let (next, action) = spec_step(listener, events[0]);
        seq![action] + spec_actions(next, events.drop_first())
    }
}

/// How many of the actions ask for a request to be accepted.
pub open spec fn spec_accepts(actions: Seq<Option<ListenerActionView>>) -> nat
    decreases actions.len(),
{
    if actions.len() == 0 {
        0
    } else {
        let rest = spec_accepts(actions.drop_first());
        if actions[0] matches Some(ListenerActionView::Accept { .. }) {
            rest + 1
        } else {
            rest
        }
    }
}

proof fn lemma_accepts_bounded(listener: ListenerView, events: Seq<ListenerEventView>)
    ensures
        spec_accepts(spec_actions(listener, events)) <= 1,
        !(listener.phase is LaunchingBrowser || listener.phase is Binding) ==> spec_accepts(
            spec_actions(listener, events),
        ) == 0,
    decreases events.len(),
{
    if events.len() > 0 {
        let (next, action) = spec_step(listener, events[0]);
        lemma_accepts_bounded(next, events.drop_first());
        let actions = spec_actions(listener, events);
        assert(actions.drop_first() =~= spec_actions(next, events.drop_first()));
        assert(actions[0] == action);
    }
}

/// A listener accepts at most one request in its life, whatever is reported
/// to it and in whatever order.
pub proof fn lemma_at_most_one_request(listener: ListenerView, events: Seq<ListenerEventView>)
    ensures
        spec_accepts(spec_actions(listener, events)) <= 1,
{
    lemma_accepts_bounded(listener, events);
}

/// A waiting listener turns away every callback that lacks `code` or `state`
/// as malformed, and never accepts one whose `state` is not its own: in both
/// cases the attempt ends with an error and no confirmation page is asked
/// for. Where the foreign `state` comes with a code, the error is the CSRF
/// mismatch.
pub proof fn lemma_bad_callback_is_rejected(
    listener: ListenerView,
    target: Seq<char>,
    pairs: Seq<(Seq<char>, Seq<char>)>,
)
    requires
        listener.phase is Waiting,
        url_parsed(spec_callback_url(listener.address, target)) is Some,
        url_query_pairs(spec_callback_url(listener.address, target)) == pairs,
    ensures
        ({
            let code = spec_find_param(pairs, "code"@);
            let state = spec_find_param(pairs, "state"@);
            let (next, action) = spec_step(
                listener,
                ListenerEventView::RequestReceived { target },
            );
            &&& code is None || state is None ==> next.phase is Closed && action == Some(
                ListenerActionView::Finish(Err(ErrorView::MalformedCallback)),
            )
            &&& state is Some && state->0 != listener.expected_state ==> next.phase is Closed
                && action is Some && action->0 is Finish && action->0->Finish_0 is Err
            &&& code is Some && state is Some && state->0 != listener.expected_state ==> action
                == Some(ListenerActionView::Finish(Err(ErrorView::CsrfMismatch)))
        }),
{
}

/// Whether an action, if any, reports that the attempt succeeded.
pub open spec fn reports_success(action: Option<ListenerActionView>) -> bool {
    action matches Some(ListenerActionView::Finish(Ok(_)))
}

/// Whether an action, if any, asks for the confirmation page to be sent.
pub open spec fn asks_response(action: Option<ListenerActionView>) -> bool {
    action matches Some(ListenerActionView::Respond { .. })
}

proof fn lemma_success_needs_response(listener: ListenerView, events: Seq<ListenerEventView>)
    ensures
        spec_actions(listener, events).len() == events.len(),
        forall|i: int|
            0 <= i < events.len() && reports_success(#[trigger] spec_actions(listener, events)[i])
                ==> listener.phase is Responding || exists|j: int|
                0 <= j < i && asks_response(#[trigger] spec_actions(listener, events)[j]),
    decreases events.len(),
{
    if events.len() > 0 {
        let (next, first) = spec_step(listener, events[0]);
        let rest = events.drop_first();
        let actions = spec_actions(listener, events);
        let later = spec_actions(next, rest);
        lemma_success_needs_response(next, rest);
        assert(actions =~= seq![first] + later);
        assert forall|i: int| 0 <= i < events.len() && reports_success(#[trigger] actions[i])
            && !(listener.phase is Responding) implies exists|j: int|
            0 <= j < i && asks_response(#[trigger] actions[j]) by {
            if i > 0 {
                assert(actions[i] == later[i - 1]);
                if next.phase is Responding {
                    assert(asks_response(actions[0]));
                } else {
                    let j = choose|j: int| 0 <= j < i - 1 && asks_response(#[trigger] later[j]);
                    assert(actions[j + 1] == later[j]);
                    assert(asks_response(actions[j + 1]));
                }
            }
        }
    }
}

/// Success is never reported before the browser has been answered: in the
/// life of a listener that starts by opening the browser, every report of
/// success comes after a request to send the confirmation page.
pub proof fn lemma_success_only_after_response(
    listener: ListenerView,
    events: Seq<ListenerEventView>,
    i: int,
)
    requires
        listener.phase is LaunchingBrowser,
        0 <= i < events.len(),
        reports_success(spec_actions(listener, events)[i]),
    ensures
        exists|j: int| 0 <= j < i && asks_response(#[trigger] spec_actions(listener, events)[j]),
{
    lemma_success_needs_response(listener, events);
}

} // verus!
