use vstd::prelude::*;
use vstd::string::*;
use crate::error::{Error, ErrorView, HttpFailure, HttpFailureView};
use crate::model::{error_view, result_view};

verus! {

/// What came back from one HTTP request, as the caller observed it.
pub enum HttpReply<T> {
    /// The request failed before any response arrived.
    Unreachable,
    /// A response arrived. `text` is its body as it was received. `body` is
    /// what that text decodes to, or `None` when it could not be decoded
    /// into `T`.
    Response { status: u16, body: Option<T>, text: String },
}

/// The model of an [`HttpReply`].
pub enum HttpReplyView<T> {
    Unreachable,
    Response { status: u16, body: Option<T>, text: Seq<char> },
}

impl<T> HttpReply<T> {
    /// The reply with its text modelled and its payload as it is.
    pub open spec fn shallow_view(self) -> HttpReplyView<T> {
        match self {
            HttpReply::Unreachable => HttpReplyView::Unreachable,
            HttpReply::Response { status, body, text } => HttpReplyView::Response {
                status,
                body,
                text: text@,
            },
        }
    }
}

impl<T: DeepView> DeepView for HttpReply<T> {
    type V = HttpReplyView<T::V>;

    open spec fn deep_view(&self) -> HttpReplyView<T::V> {
        match *self {
            HttpReply::Unreachable => HttpReplyView::Unreachable,
            HttpReply::Response { status, body, text } => HttpReplyView::Response {
                status,
                body: body.deep_view(),
                text: text@,
            },
        }
    }
}

/// Why a reply carries no usable payload.
#[derive(Debug, PartialEq, Eq)]
pub enum ReplyFault {
    /// Transport failure or a status outside the success range.
    Http(HttpFailure),
    /// A successful status whose payload could not be decoded.
    Decode,
}

/// The model of a [`ReplyFault`].
pub enum ReplyFaultView {
    Http(HttpFailureView),
    Decode,
}

impl DeepView for ReplyFault {
    type V = ReplyFaultView;

    open spec fn deep_view(&self) -> ReplyFaultView {
        match *self {
            ReplyFault::Http(failure) => ReplyFaultView::Http(failure.deep_view()),
            ReplyFault::Decode => ReplyFaultView::Decode,
        }
    }
}

/// The success range of HTTP status codes: 200 to 299.
pub open spec fn spec_is_success(status: u16) -> bool {
    200 <= status < 300
}

/// Whether `status` lies in the success range.
#[verifier::when_used_as_spec(spec_is_success)]
pub fn is_success(status: u16) -> (ok: bool)
    ensures
        ok == spec_is_success(status),
{
    200 <= status && status < 300
}

/// Why a request counts as failed, if it does: it could not be sent, or its
/// status is outside the success range. A refused request keeps the text of
/// the answer; what the text decodes to plays no part.
pub open spec fn spec_failure<T>(reply: HttpReplyView<T>) -> Option<HttpFailureView> {
    match reply {
        HttpReplyView::Unreachable => Some(HttpFailureView::Transport),
        HttpReplyView::Response { status, body, text } => {
            if spec_is_success(status) {
                None
            } else {
                Some(HttpFailureView::Status { status, response: text })
            }
        },
    }
}

/// The payload of a reply, or the reason there is none. The status is judged
/// before the payload: a refused request is an HTTP fault even if its body
/// happened to decode.
pub open spec fn spec_payload<T>(reply: HttpReplyView<T>) -> Result<T, ReplyFaultView> {
    match spec_failure(reply) {
        Some(failure) => Err(ReplyFaultView::Http(failure)),
        None => match reply {
            HttpReplyView::Response { body: Some(value), .. } => Ok(value),
            _ => Err(ReplyFaultView::Decode),
        },
    }
}

impl<T> HttpReply<T> {
    /// Extracts the payload of a successful, decoded reply.
    pub fn payload(self) -> (out: Result<T, ReplyFault>)
        ensures
            error_view(out) == spec_payload(self.shallow_view()),
    {
        match self {
            HttpReply::Unreachable => Err(ReplyFault::Http(HttpFailure::Transport)),
            HttpReply::Response { status, body, text } => {
                if !is_success(status) {
                    Err(ReplyFault::Http(HttpFailure::Status { status, response: text }))
                } else {
                    match body {
                        Some(value) => Ok(value),
                        None => Err(ReplyFault::Decode),
                    }
                }
            },
        }
    }
}

/// Whether `c` may stand in an HTTP header value: a tab, or any character
/// from the space on other than DEL. Line breaks and the other control
/// characters may not.
pub open spec fn is_header_char(c: char) -> bool {
    c == '\t' || (' ' <= c && c != '\u{7f}')
}

/// Whether every character of `text` may stand in an HTTP header value.
pub open spec fn is_header_text(text: Seq<char>) -> bool {
    forall|i: int| 0 <= i < text.len() ==> is_header_char(#[trigger] text[i])
}

/// Whether a text is accepted as an HTTP header value.
///
/// Wraps `reqwest::header::HeaderValue::from_str`, which the `http` crate
/// defines. It accepts the text exactly if every byte is a tab or is at
/// least 32 and not 127. The bytes of a character beyond ASCII are all 128
/// or more, so the same test on the characters says the same.
#[verifier::external_body]
fn is_header_value(text: &str) -> (ok: bool)
    ensures
        ok == is_header_text(text@),
{
    reqwest::header::HeaderValue::from_str(text).is_ok()
}

/// The text that presents `access_token` as bearer.
pub open spec fn spec_bearer(access_token: Seq<char>) -> Seq<char> {
    "Bearer "@ + access_token
}

/// The `Authorization` header value for `access_token`, or
/// `InvalidAccessToken` if the token cannot stand in a header.
pub open spec fn spec_authorization(access_token: Seq<char>) -> Result<Seq<char>, ErrorView> {
    if is_header_text(spec_bearer(access_token)) {
        Ok(spec_bearer(access_token))
    } else {
        Err(ErrorView::InvalidAccessToken)
    }
}

/// The `Authorization` header value that presents `access_token` as bearer.
/// A token that cannot stand in a header is refused here, before any
/// request is made with it.
pub fn bearer(access_token: &str) -> (value: Result<String, Error>)
    ensures
        result_view(value) == spec_authorization(access_token@),
{
    let mut value = String::from_str("Bearer ");
    value.append(access_token);
    if is_header_value(value.as_str()) {
        Ok(value)
    } else {
        Err(Error::InvalidAccessToken)
    }
}

/// The HTTP method of a request that changes something at the provider.
#[derive(Clone, Copy, Debug, PartialEq, Eq, Structural)]
pub enum Method {
    Post,
    Put,
    Delete,
}

/// What a mutation request carries as its JSON body.
pub enum Body {
    /// No body.
    Empty,
    /// An object with the member `ids`, an array of track identifiers.
    Ids(Vec<String>),
    /// An object with the member `uris`, an array of track URIs.
    Uris(Vec<String>),
    /// An object describing a playlist to create.
    NewPlaylist { name: String, description: String, public: bool },
}

/// A bearer-authenticated request that changes something at the provider.
pub struct MutationRequest {
    pub method: Method,
    pub url: String,
    /// The value of the `Authorization` header.
    pub authorization: String,
    pub body: Body,
}

/// The model of a [`Body`].
pub enum BodyView {
    Empty,
    Ids(Seq<Seq<char>>),
    Uris(Seq<Seq<char>>),
    NewPlaylist { name: Seq<char>, description: Seq<char>, public: bool },
}

/// The model of a [`MutationRequest`].
pub struct MutationRequestView {
    pub method: Method,
    pub url: Seq<char>,
    pub authorization: Seq<char>,
    pub body: BodyView,
}

impl DeepView for Body {
    type V = BodyView;

    open spec fn deep_view(&self) -> BodyView {
        match *self {
            Body::Empty => BodyView::Empty,
            Body::Ids(ids) => BodyView::Ids(ids.deep_view()),
            Body::Uris(uris) => BodyView::Uris(uris.deep_view()),
            Body::NewPlaylist { name, description, public } => BodyView::NewPlaylist {
                name: name@,
                description: description@,
                public,
            },
        }
    }
}

impl DeepView for MutationRequest {
    type V = MutationRequestView;

    open spec fn deep_view(&self) -> MutationRequestView {
        MutationRequestView {
            method: self.method,
            url: self.url@,
            authorization: self.authorization@,
            body: self.body.deep_view(),
        }
    }
}

/// The mutation request for the given parts, or `InvalidAccessToken` if
/// the token cannot stand in a header.
pub open spec fn spec_mutation_request(
    access_token: Seq<char>,
    method: Method,
    url: Seq<char>,
    body: BodyView,
) -> Result<MutationRequestView, ErrorView> {
    match spec_authorization(access_token) {
        Ok(authorization) => Ok(MutationRequestView { method, url, authorization, body }),
        Err(error) => Err(error),
    }
}

/// Puts a mutation request together. A token that cannot stand in a header
/// is refused, and no request is made.
pub fn mutation_request(
    access_token: &str,
    method: Method,
    url: String,
    body: Body,
) -> (out: Result<MutationRequest, Error>)
    ensures
        result_view(out) == spec_mutation_request(access_token@, method, url@, body.deep_view()),
{
    match bearer(access_token) {
        Ok(authorization) => Ok(MutationRequest { method, url, authorization, body }),
        Err(error) => Err(error),
    }
}

} // verus!
