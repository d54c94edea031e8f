use vstd::prelude::*;
use vstd::string::*;
use crate::text::{append, decimal, spec_decimal};

verus! {

/// Why an HTTP exchange did not produce a usable response.
#[derive(Debug, PartialEq, Eq)]
pub enum HttpFailure {
    /// No response arrived at all (connection or transport failure).
    Transport,
    /// The provider answered with a status outside the success range;
    /// `response` is the text of its answer.
    Status { status: u16, response: String },
}

/// Every way an operation of this crate can fail. All of them are terminal
/// for the operation in progress; nothing is retried.
#[derive(Debug, PartialEq, Eq)]
pub enum Error {
    /// The client identifier or the client secret is missing.
    ConfigurationError,
    /// A URL the flow depends on could not be parsed, or names no host or port.
    InvalidUrl,
    /// The access token cannot stand in an HTTP header.
    InvalidAccessToken,
    /// No `state` value could be made for the authorization attempt.
    StateGenerationError,
    /// The loopback listener could not be bound.
    ListenerBindError,
    /// No callback arrived within the configured wait.
    AuthorizationTimeout,
    /// The callback carried no `code` or no `state` parameter.
    MalformedCallback,
    /// The callback's `state` is not the one generated for this attempt.
    CsrfMismatch,
    /// The confirmation page could not be delivered to the browser.
    CallbackResponseError,
    /// The token endpoint could not be reached or refused the exchange.
    TokenExchangeHttpError(HttpFailure),
    /// The token endpoint's answer held no access token.
    TokenDecodeError,
    /// A page request could not be sent or was refused.
    PaginationHttpError(HttpFailure),
    /// A page could not be decoded.
    PaginationDecodeError,
    /// A batch request could not be sent or was refused.
    BulkMutationHttpError(HttpFailure),
    /// The answer to an accepted change lacks what was to be read from it.
    BulkMutationDecodeError,
}

/// The model of an [`HttpFailure`].
pub enum HttpFailureView {
    Transport,
    Status { status: u16, response: Seq<char> },
}

/// The model of an [`Error`].
pub enum ErrorView {
    ConfigurationError,
    InvalidUrl,
    InvalidAccessToken,
    StateGenerationError,
    ListenerBindError,
    AuthorizationTimeout,
    MalformedCallback,
    CsrfMismatch,
    CallbackResponseError,
    TokenExchangeHttpError(HttpFailureView),
    TokenDecodeError,
    PaginationHttpError(HttpFailureView),
    PaginationDecodeError,
    BulkMutationHttpError(HttpFailureView),
    BulkMutationDecodeError,
}

impl DeepView for HttpFailure {
    type V = HttpFailureView;

    open spec fn deep_view(&self) -> HttpFailureView {
        match *self {
            HttpFailure::Transport => HttpFailureView::Transport,
            HttpFailure::Status { status, response } => HttpFailureView::Status {
                status,
                response: response@,
            },
        }
    }
}

impl DeepView for Error {
    type V = ErrorView;

    open spec fn deep_view(&self) -> ErrorView {
        match *self {
            Error::ConfigurationError => ErrorView::ConfigurationError,
            Error::InvalidUrl => ErrorView::InvalidUrl,
            Error::InvalidAccessToken => ErrorView::InvalidAccessToken,
            Error::StateGenerationError => ErrorView::StateGenerationError,
            Error::ListenerBindError => ErrorView::ListenerBindError,
            Error::AuthorizationTimeout => ErrorView::AuthorizationTimeout,
            Error::MalformedCallback => ErrorView::MalformedCallback,
            Error::CsrfMismatch => ErrorView::CsrfMismatch,
            Error::CallbackResponseError => ErrorView::CallbackResponseError,
            Error::TokenExchangeHttpError(failure) => ErrorView::TokenExchangeHttpError(
                failure.deep_view(),
            ),
            Error::TokenDecodeError => ErrorView::TokenDecodeError,
            Error::PaginationHttpError(failure) => ErrorView::PaginationHttpError(
                failure.deep_view(),
            ),
            Error::PaginationDecodeError => ErrorView::PaginationDecodeError,
            Error::BulkMutationHttpError(failure) => ErrorView::BulkMutationHttpError(
                failure.deep_view(),
            ),
            Error::BulkMutationDecodeError => ErrorView::BulkMutationDecodeError,
        }
    }
}

/// Whether `whole` ends with the characters of `tail`.
pub open spec fn spec_ends_with(whole: Seq<char>, tail: Seq<char>) -> bool {
    &&& tail.len() <= whole.len()
    &&& whole.subrange(whole.len() - tail.len(), whole.len() as int) == tail
}

impl HttpFailureView {
    /// How the failure reads in a message: `no response`, or the status
    /// code followed by the text of the refused response.
    pub open spec fn spec_message(self) -> Seq<char> {
        match self {
            HttpFailureView::Transport => "no response"@,
            HttpFailureView::Status { status, response } => "status "@ + spec_decimal(
                status as nat,
            ) + ": "@ + response,
        }
    }
}

impl ErrorView {
    /// The cause of the failure, as it is told to the operator.
    pub open spec fn spec_message(self) -> Seq<char> {
        match self {
            ErrorView::ConfigurationError => "SPOTIFY_CLIENT_ID or SPOTIFY_CLIENT_SECRET not set"@,
            ErrorView::InvalidUrl => "Authorization or redirect URL is not valid"@,
            ErrorView::InvalidAccessToken => "Access token is not a valid header value"@,
            ErrorView::StateGenerationError => "Failed to generate the authorization state"@,
            ErrorView::ListenerBindError => "Failed to start local callback server"@,
            ErrorView::AuthorizationTimeout => "Authorization timed out. Please try again."@,
            ErrorView::MalformedCallback => "No code or state found in callback URL"@,
            ErrorView::CsrfMismatch => "State mismatch: CSRF check failed."@,
            ErrorView::CallbackResponseError => "Failed to answer the authorization callback"@,
            ErrorView::TokenExchangeHttpError(failure) => "Token request failed: "@
                + failure.spec_message(),
            ErrorView::TokenDecodeError => "Failed to parse token response"@,
            ErrorView::PaginationHttpError(failure) => "Failed to get items from Spotify: "@
                + failure.spec_message(),
            ErrorView::PaginationDecodeError => "Failed to parse items from Spotify"@,
            ErrorView::BulkMutationHttpError(failure) => "Failed to change items at Spotify: "@
                + failure.spec_message(),
            ErrorView::BulkMutationDecodeError => "Failed to parse the answer from Spotify"@,
        }
    }

    /// The text of the provider's answer that the failure carries, if it
    /// was caused by a refused request.
    pub open spec fn spec_response(self) -> Option<Seq<char>> {
        match self {
            ErrorView::TokenExchangeHttpError(HttpFailureView::Status { response, .. }) => Some(
                response,
            ),
            ErrorView::PaginationHttpError(HttpFailureView::Status { response, .. }) => Some(
                response,
            ),
            ErrorView::BulkMutationHttpError(HttpFailureView::Status { response, .. }) => Some(
                response,
            ),
            _ => None,
        }
    }
}

/// The message of a failure caused by a refused request ends with the text
/// of the provider's answer, whole and unchanged.
pub proof fn lemma_message_holds_response(error: ErrorView)
    requires
        error.spec_response() is Some,
    ensures
        spec_ends_with(error.spec_message(), error.spec_response()->0),
{
    let whole = error.spec_message();
    let tail = error.spec_response()->0;
    assert(whole.subrange(whole.len() - tail.len(), whole.len() as int) =~= tail);
}

impl HttpFailure {
    /// How the failure reads in a message: `no response`, or the status
    /// code followed by the text of the refused response.
    pub fn message(&self) -> (text: String)
        ensures
            text@ == self.deep_view().spec_message(),
    {
        match self {
            HttpFailure::Transport => String::from_str("no response"),
            HttpFailure::Status { status, response } => {
                let mut text = String::from_str("status ");
                let code = decimal(*status);
                text.append(code.as_str());
                text.append(": ");
                text.append(response.as_str());
                text
            },
        }
    }
}

impl Error {
    /// The cause of the failure, as it is told to the operator. A failure
    /// caused by a refused request names the status and ends with the text
    /// of the provider's answer.
    pub fn message(&self) -> (text: String)
        ensures
            text@ == self.deep_view().spec_message(),
            self.deep_view().spec_response() is Some ==> spec_ends_with(
                text@,
                self.deep_view().spec_response()->0,
            ),
    {
        proof {
            if self.deep_view().spec_response() is Some {
                lemma_message_holds_response(self.deep_view());
            }
        }
        match self {
            Error::ConfigurationError => String::from_str(
                "SPOTIFY_CLIENT_ID or SPOTIFY_CLIENT_SECRET not set",
            ),
            Error::InvalidUrl => String::from_str("Authorization or redirect URL is not valid"),
            Error::InvalidAccessToken => String::from_str(
                "Access token is not a valid header value",
            ),
            Error::StateGenerationError => String::from_str(
                "Failed to generate the authorization state",
            ),
            Error::ListenerBindError => String::from_str("Failed to start local callback server"),
            Error::AuthorizationTimeout => String::from_str(
                "Authorization timed out. Please try again.",
            ),
            Error::MalformedCallback => String::from_str("No code or state found in callback URL"),
            Error::CsrfMismatch => String::from_str("State mismatch: CSRF check failed."),
            Error::CallbackResponseError => String::from_str(
                "Failed to answer the authorization callback",
            ),
            Error::TokenExchangeHttpError(failure) => {
                let cause = failure.message();
                append("Token request failed: ", cause.as_str())
            },
            Error::TokenDecodeError => String::from_str("Failed to parse token response"),
            Error::PaginationHttpError(failure) => {
                let cause = failure.message();
                append("Failed to get items from Spotify: ", cause.as_str())
            },
            Error::PaginationDecodeError => String::from_str("Failed to parse items from Spotify"),
            Error::BulkMutationHttpError(failure) => {
                let cause = failure.message();
                append("Failed to change items at Spotify: ", cause.as_str())
            },
            Error::BulkMutationDecodeError => String::from_str(
                "Failed to parse the answer from Spotify",
            ),
        }
    }
}

} // verus!
