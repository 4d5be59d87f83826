//! The error taxonomy and the rejection chain.
//!
//! Every failure a handler can raise is one `Error`; every failure the
//! router can see, including the transport-level ones, is one `Rejection`.
//! `handle_rejection` is the single exhaustive classifier that turns any of
//! them into the final client-visible response: known application errors
//! first, then the challenge, size, body-shape and method failures, then
//! the generic not-found, and a logged catch-all for everything else.

use vstd::prelude::*;
use vstd::string::StringExecFns;
use crate::response::BodyV;
use crate::response::HttpResponse;
use crate::response::RespV;
use crate::response::ResponseBody;
use crate::response::STATUS_BAD_REQUEST;
use crate::response::STATUS_CONFLICT;
use crate::response::STATUS_INTERNAL_SERVER_ERROR;
use crate::response::STATUS_METHOD_NOT_ALLOWED;
use crate::response::STATUS_NOT_FOUND;
use crate::response::STATUS_PAYLOAD_TOO_LARGE;
use crate::response::STATUS_UNAUTHORIZED;
use crate::database::StoreError;

verus! {

/// Mathematical view of an error's kind.
#[verifier::ext_equal]
pub ghost enum ErrorKindV {
    NotFound,
    Database,
    UniqueViolation,
    InvalidLink,
    Authentication { realm: Seq<char> },
    Custom { message: Seq<char> },
}

/// Mathematical view of an error.
#[verifier::ext_equal]
pub ghost struct ErrorV {
    pub kind: ErrorKindV,
    pub status: int,
    pub log: Option<Seq<char>>,
}

enum ErrorKind {
    NotFound,
    Database,
    UniqueViolation,
    InvalidLink,
    Authentication { realm: String },
    Custom { message: String },
}

/// A typed application failure, carried through the pipeline until the
/// rejection chain converts it into a response.
pub struct Error {
    kind: ErrorKind,
    status_code: u16,
    log_message: Option<String>,
}

impl View for Error {
    type V = ErrorV;

    closed spec fn view(&self) -> ErrorV {
        ErrorV {
            kind: match self.kind {
                ErrorKind::NotFound => ErrorKindV::NotFound,
                ErrorKind::Database => ErrorKindV::Database,
                ErrorKind::UniqueViolation => ErrorKindV::UniqueViolation,
                ErrorKind::InvalidLink => ErrorKindV::InvalidLink,
                ErrorKind::Authentication { realm } => ErrorKindV::Authentication {
                    realm: realm@,
                },
                ErrorKind::Custom { message } => ErrorKindV::Custom { message: message@ },
            },
            status: self.status_code as int,
            log: match self.log_message {
                Some(l) => Some(l@),
                None => None,
            },
        }
    }
}

/// The value of the challenge header for a given realm.
pub open spec fn basic_challenge_header(realm: Seq<char>) -> Seq<char> {
    "Basic realm=\""@ + realm + "\", charset=\"UTF-8\""@
}

/// The small HTML page sent alongside a challenge.
pub open spec fn challenge_page(realm: Seq<char>) -> Seq<char> {
    "401 Unauthorized: "@ + realm
}

/// The response each error kind maps to: its own status code and JSON
/// body, except the credential challenge, which carries the
/// `WWW-Authenticate` header and an HTML body. Constraint details and log
/// text never reach the client body.
pub open spec fn response_of_error(e: ErrorV) -> RespV {
    RespV {
        status: e.status,
        body: match e.kind {
            ErrorKindV::NotFound => BodyV::Message { success: false, message: "not found"@ },
            ErrorKindV::Database => BodyV::Message {
                success: false,
                message: "a database error occurred"@,
            },
            ErrorKindV::UniqueViolation => BodyV::Message {
                success: false,
                message: "a field was not unique"@,
            },
            ErrorKindV::InvalidLink => BodyV::Message {
                success: false,
                message: "the provided link was invalid"@,
            },
            ErrorKindV::Authentication { realm } => BodyV::Html {
                content: challenge_page(realm),
            },
            ErrorKindV::Custom { message } => BodyV::Message {
                success: false,
                message: message,
            },
        },
        www_authenticate: match e.kind {
            ErrorKindV::Authentication { realm } => Some(basic_challenge_header(realm)),
            _ => None,
        },
        location: None,
        content_type: None,
        log: e.log,
    }
}

/// The view of the error a missing row raises.
pub open spec fn not_found_error() -> ErrorV {
    ErrorV { kind: ErrorKindV::NotFound, status: STATUS_NOT_FOUND as int, log: None }
}

/// The view of the error a uniqueness conflict raises.
pub open spec fn unique_violation_error() -> ErrorV {
    ErrorV { kind: ErrorKindV::UniqueViolation, status: STATUS_CONFLICT as int, log: None }
}

/// The view of the error a failing store operation raises.
pub open spec fn storage_error() -> ErrorV {
    ErrorV {
        kind: ErrorKindV::Database,
        status: STATUS_INTERNAL_SERVER_ERROR as int,
        log: Some("the store could not complete a row operation"@),
    }
}

impl Error {
    /// An authentication failure that prompts the user for credentials
    /// naming the given realm.
    pub fn authentication(realm: String) -> (r: Error)
        ensures
            r@ == (ErrorV {
                kind: ErrorKindV::Authentication { realm: realm@ },
                status: STATUS_UNAUTHORIZED as int,
                log: None,
            }),
    {
        Error {
            kind: ErrorKind::Authentication { realm },
            status_code: STATUS_UNAUTHORIZED,
            log_message: None,
        }
    }

    /// A store failure whose detail goes only to the log.
    pub fn database(message: String) -> (r: Error)
        ensures
            r@ == (ErrorV {
                kind: ErrorKindV::Database,
                status: STATUS_INTERNAL_SERVER_ERROR as int,
                log: Some(message@),
            }),
    {
        Error {
            kind: ErrorKind::Database,
            status_code: STATUS_INTERNAL_SERVER_ERROR,
            log_message: Some(message),
        }
    }

    /// A uniqueness conflict: some field was not unique.
    pub fn unique_violation() -> (r: Error)
        ensures
            r@ == (ErrorV {
                kind: ErrorKindV::UniqueViolation,
                status: STATUS_CONFLICT as int,
                log: None,
            }),
    {
        Error {
            kind: ErrorKind::UniqueViolation,
            status_code: STATUS_CONFLICT,
            log_message: None,
        }
    }

    /// The submitted destination did not parse as an absolute URI.
    pub fn invalid_link() -> (r: Error)
        ensures
            r@ == (ErrorV {
                kind: ErrorKindV::InvalidLink,
                status: STATUS_BAD_REQUEST as int,
                log: None,
            }),
    {
        Error {
            kind: ErrorKind::InvalidLink,
            status_code: STATUS_BAD_REQUEST,
            log_message: None,
        }
    }

    /// Nothing was found to serve the request.
    pub fn not_found() -> (r: Error)
        ensures
            r@ == (ErrorV {
                kind: ErrorKindV::NotFound,
                status: STATUS_NOT_FOUND as int,
                log: None,
            }),
    {
        Error { kind: ErrorKind::NotFound, status_code: STATUS_NOT_FOUND, log_message: None }
    }

    /// An arbitrary failure with its own message and status.
    pub fn custom(message: String, status_code: u16) -> (r: Error)
        ensures
            r@ == (ErrorV {
                kind: ErrorKindV::Custom { message: message@ },
                status: status_code as int,
                log: None,
            }),
    {
        Error { kind: ErrorKind::Custom { message }, status_code, log_message: None }
    }

    /// An arbitrary failure whose full detail is kept for the operational
    /// log, never for the client.
    pub fn custom_with_log(message: String, status_code: u16, log_message: String) -> (r: Error)
        ensures
            r@ == (ErrorV {
                kind: ErrorKindV::Custom { message: message@ },
                status: status_code as int,
                log: Some(log_message@),
            }),
    {
        Error {
            kind: ErrorKind::Custom { message },
            status_code,
            log_message: Some(log_message),
        }
    }

    /// Wrap a store failure into the taxonomy at the repository boundary:
    /// a uniqueness conflict surfaces as such, a missing row as not-found,
    /// anything else as a generic database error.
    pub fn from_store(e: StoreError) -> (r: Error)
        ensures
            r@ == (match e {
                StoreError::NotFound => ErrorV {
                    kind: ErrorKindV::NotFound,
                    status: STATUS_NOT_FOUND as int,
                    log: None,
                },
                StoreError::UniqueViolation => ErrorV {
                    kind: ErrorKindV::UniqueViolation,
                    status: STATUS_CONFLICT as int,
                    log: None,
                },
                StoreError::Storage => ErrorV {
                    kind: ErrorKindV::Database,
                    status: STATUS_INTERNAL_SERVER_ERROR as int,
                    log: Some("the store could not complete a row operation"@),
                },
            }),
    {
        match e {
            StoreError::NotFound => Error::not_found(),
            StoreError::UniqueViolation => Error::unique_violation(),
            StoreError::Storage => Error::database(
                String::from_str("the store could not complete a row operation"),
            ),
        }
    }

    /// Convert the error to the response the client sees.
    pub fn to_http(&self) -> (r: HttpResponse)
        ensures
            r@ == response_of_error(self@),
    {
        let status = self.status_code;
        let log_message = match &self.log_message {
            Some(l) => Some(l.clone()),
            None => None,
        };
        match &self.kind {
            ErrorKind::NotFound => HttpResponse {
                status,
                body: ResponseBody::Message {
                    success: false,
                    message: String::from_str("not found"),
                },
                www_authenticate: None,
                location: None,
                content_type: None,
                log_message,
            },
            ErrorKind::Database => HttpResponse {
                status,
                body: ResponseBody::Message {
                    success: false,
                    message: String::from_str("a database error occurred"),
                },
                www_authenticate: None,
                location: None,
                content_type: None,
                log_message,
            },
            ErrorKind::UniqueViolation => HttpResponse {
                status,
                body: ResponseBody::Message {
                    success: false,
                    message: String::from_str("a field was not unique"),
                },
                www_authenticate: None,
                location: None,
                content_type: None,
                log_message,
            },
            ErrorKind::InvalidLink => HttpResponse {
                status,
                body: ResponseBody::Message {
                    success: false,
                    message: String::from_str("the provided link was invalid"),
                },
                www_authenticate: None,
                location: None,
                content_type: None,
                log_message,
            },
            ErrorKind::Authentication { realm } => HttpResponse {
                status,
                body: ResponseBody::Html {
                    content: String::from_str("401 Unauthorized: ").concat(realm.as_str()),
                },
                www_authenticate: Some(
                    String::from_str("Basic realm=\"").concat(realm.as_str()).concat(
                        "\", charset=\"UTF-8\"",
                    ),
                ),
                location: None,
                content_type: None,
                log_message,
            },
            ErrorKind::Custom { message } => HttpResponse {
                status,
                body: ResponseBody::Message { success: false, message: message.clone() },
                www_authenticate: None,
                location: None,
                content_type: None,
                log_message,
            },
        }
    }
}

/// Mathematical view of a rejection.
#[verifier::ext_equal]
pub ghost enum RejectionV {
    App { error: ErrorV },
    PayloadTooLarge,
    BodyDeserialize { message: Seq<char> },
    MethodNotAllowed,
    NotFound,
    Unclassified { detail: Seq<char> },
}

/// A failure carried to the rejection chain: either a typed application
/// error or one of the transport-level failures the router can observe.
pub enum Rejection {
    /// A known application error.
    App { error: Error },
    /// The request body exceeded the configured size limit.
    PayloadTooLarge,
    /// The request body did not deserialize into the expected shape; the
    /// underlying parse failure is kept as the message.
    BodyDeserialize { message: String },
    /// The path matched a route but the method is not permitted on it.
    MethodNotAllowed,
    /// No route matched at all.
    NotFound,
    /// Anything unclassified; the detail goes to the log, never to the
    /// client.
    Unclassified { detail: String },
}

impl View for Rejection {
    type V = RejectionV;

    open spec fn view(&self) -> RejectionV {
        match self {
            Rejection::App { error } => RejectionV::App { error: error@ },
            Rejection::PayloadTooLarge => RejectionV::PayloadTooLarge,
            Rejection::BodyDeserialize { message } => RejectionV::BodyDeserialize {
                message: message@,
            },
            Rejection::MethodNotAllowed => RejectionV::MethodNotAllowed,
            Rejection::NotFound => RejectionV::NotFound,
            Rejection::Unclassified { detail } => RejectionV::Unclassified { detail: detail@ },
        }
    }
}

/// Reject with an application error.
pub fn to_rejection(e: Error) -> (r: Rejection)
    ensures
        r@ == (RejectionV::App { error: e@ }),
{
    Rejection::App { error: e }
}

/// The response each rejection resolves to, in the chain's priority
/// order: a known application error keeps its own mapping; then the size,
/// body-shape and method failures; then the generic not-found; and
/// anything unclassified becomes a logged 500.
pub open spec fn response_of_rejection(r: RejectionV) -> RespV {
    match r {
        RejectionV::App { error } => response_of_error(error),
        RejectionV::PayloadTooLarge => response_of_error(
            ErrorV {
                kind: ErrorKindV::Custom { message: "payload too large"@ },
                status: STATUS_PAYLOAD_TOO_LARGE as int,
                log: None,
            },
        ),
        RejectionV::BodyDeserialize { message } => response_of_error(
            ErrorV {
                kind: ErrorKindV::Custom { message: message },
                status: STATUS_BAD_REQUEST as int,
                log: None,
            },
        ),
        RejectionV::MethodNotAllowed => response_of_error(
            ErrorV {
                kind: ErrorKindV::Custom { message: "method not allowed"@ },
                status: STATUS_METHOD_NOT_ALLOWED as int,
                log: None,
            },
        ),
        RejectionV::NotFound => response_of_error(
            ErrorV {
                kind: ErrorKindV::NotFound,
                status: STATUS_NOT_FOUND as int,
                log: None,
            },
        ),
        RejectionV::Unclassified { detail } => response_of_error(
            ErrorV {
                kind: ErrorKindV::Custom { message: "internal server error"@ },
                status: STATUS_INTERNAL_SERVER_ERROR as int,
                log: Some("unhandled error: "@ + detail),
            },
        ),
    }
}

/// Return responses for failures nothing else handled: the prioritized
/// chain that ends every failed request.
pub fn handle_rejection(err: Rejection) -> (r: HttpResponse)
    ensures
        r@ == response_of_rejection(err@),
{
    match err {
        Rejection::App { error } => error.to_http(),
        Rejection::PayloadTooLarge => Error::custom(
            String::from_str("payload too large"),
            STATUS_PAYLOAD_TOO_LARGE,
        ).to_http(),
        Rejection::BodyDeserialize { message } => Error::custom(
            message,
            STATUS_BAD_REQUEST,
        ).to_http(),
        Rejection::MethodNotAllowed => Error::custom(
            String::from_str("method not allowed"),
            STATUS_METHOD_NOT_ALLOWED,
        ).to_http(),
        Rejection::NotFound => Error::not_found().to_http(),
        Rejection::Unclassified { detail } => Error::custom_with_log(
            String::from_str("internal server error"),
            STATUS_INTERNAL_SERVER_ERROR,
            String::from_str("unhandled error: ").concat(detail.as_str()),
        ).to_http(),
    }
}

} // verus!
