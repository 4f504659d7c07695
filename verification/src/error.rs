//! The closed error taxonomy of the client, the classifier that maps an HTTP
//! failure to one member of it, and the per-kind retry hints that the request
//! executor consumes.

use vstd::prelude::*;

verus! {

/// Fallback retry delay for a rate-limit response whose body carries no
/// explicit `retryAfter` field, in milliseconds.
pub const RATE_LIMIT_FALLBACK_MILLIS: u64 = 60000;

/// Fixed retry delay suggested after a server-side (5xx) failure, in
/// milliseconds.
pub const SERVER_ERROR_FALLBACK_MILLIS: u64 = 5000;

/// One failure of a call, drawn from a closed taxonomy. Each variant carries
/// exactly the data needed to decide retryability and a suggested delay.
#[derive(Debug, Clone, PartialEq)]
pub enum Error {
    /// The request never completed: connection, DNS, TLS or I/O failure.
    Transport,
    /// The service throttled the call (HTTP 429), possibly suggesting when to
    /// retry (in milliseconds).
    RateLimited {
        /// Suggested wait before the next attempt, if the response named one.
        retry_after_millis: Option<u64>,
    },
    /// The service failed on its side (HTTP 500-599); presumed transient.
    ServerError {
        /// The HTTP status code, in 500..=599.
        status: u16,
    },
    /// The request itself was rejected (any other non-success status); not
    /// retried, since resending the same request would fail the same way.
    ClientError {
        /// The HTTP status code.
        status: u16,
        /// The error message extracted from the response body.
        message: String,
    },
    /// A response body did not match the expected shape; never retried.
    Decode,
    /// The transport stream errored mid-read during a streaming call.
    StreamingFailure,
    /// A caller-imposed or internal deadline was exceeded.
    Timeout,
    /// The client was configured in a way that makes the call impossible.
    Config {
        /// What is wrong with the configuration.
        message: String,
    },
}

/// Mathematical model of an [`Error`]: the same taxonomy with each carried
/// string abstracted to its sequence of characters.
pub ghost enum ErrorModel {
    /// Model of [`Error::Transport`].
    Transport,
    /// Model of [`Error::RateLimited`].
    RateLimited { retry_after_millis: Option<u64> },
    /// Model of [`Error::ServerError`].
    ServerError { status: u16 },
    /// Model of [`Error::ClientError`].
    ClientError { status: u16, message: Seq<char> },
    /// Model of [`Error::Decode`].
    Decode,
    /// Model of [`Error::StreamingFailure`].
    StreamingFailure,
    /// Model of [`Error::Timeout`].
    Timeout,
    /// Model of [`Error::Config`].
    Config { message: Seq<char> },
}

impl View for Error {
    type V = ErrorModel;

    open spec fn view(&self) -> ErrorModel {
        match self {
            Error::Transport => ErrorModel::Transport,
            Error::RateLimited { retry_after_millis } => ErrorModel::RateLimited {
                retry_after_millis: *retry_after_millis,
            },
            Error::ServerError { status } => ErrorModel::ServerError { status: *status },
            Error::ClientError { status, message } => ErrorModel::ClientError {
                status: *status,
                message: message@,
            },
            Error::Decode => ErrorModel::Decode,
            Error::StreamingFailure => ErrorModel::StreamingFailure,
            Error::Timeout => ErrorModel::Timeout,
            Error::Config { message } => ErrorModel::Config { message: message@ },
        }
    }
}

/// Which members of the taxonomy may be retried: transport failures,
/// throttling, timeouts and server-side failures. Client defects, decode
/// failures, streaming failures and configuration errors are final.
pub open spec fn is_retryable_model(e: ErrorModel) -> bool {
    match e {
        ErrorModel::Transport => true,
        ErrorModel::RateLimited { .. } => true,
        ErrorModel::ServerError { .. } => true,
        ErrorModel::Timeout => true,
        _ => false,
    }
}

/// The delay (in milliseconds) that the classified error itself suggests, if
/// any: a rate limit's carried hint (or a fixed fallback when it carried
/// none), a short fixed fallback for server-side failures, nothing otherwise.
pub open spec fn retry_delay_model(e: ErrorModel) -> Option<u64> {
    match e {
        ErrorModel::RateLimited { retry_after_millis } => match retry_after_millis {
            Some(ms) => Some(ms),
            None => Some(RATE_LIMIT_FALLBACK_MILLIS),
        },
        ErrorModel::ServerError { .. } => Some(SERVER_ERROR_FALLBACK_MILLIS),
        _ => None,
    }
}

impl Error {
    /// Whether resending the same request after this failure may succeed.
    pub fn is_retryable(&self) -> (r: bool)
        ensures
            r == is_retryable_model(self@),
    {
        match self {
            Error::Transport => true,
            Error::RateLimited { .. } => true,
            Error::ServerError { .. } => true,
            Error::Timeout => true,
            _ => false,
        }
    }

    /// The retry delay this error itself suggests, in milliseconds, if any.
    /// When it suggests none, the executor falls back to the backoff
    /// scheduler's computed delay.
    pub fn retry_delay(&self) -> (r: Option<u64>)
        ensures
            r == retry_delay_model(self@),
    {
        match self {
            Error::RateLimited { retry_after_millis } => match retry_after_millis {
                Some(ms) => Some(*ms),
                None => Some(RATE_LIMIT_FALLBACK_MILLIS),
            },
            Error::ServerError { .. } => Some(SERVER_ERROR_FALLBACK_MILLIS),
            _ => None,
        }
    }

    /// A short human-readable account of the error.
    pub fn describe(&self) -> String {
        match self {
            Error::Transport => String::from_str("HTTP request failed"),
            Error::RateLimited { .. } => String::from_str("rate limit exceeded"),
            Error::ServerError { .. } => String::from_str("server error"),
            Error::ClientError { message, .. } => message.clone(),
            Error::Decode => String::from_str("response body did not match the expected shape"),
            Error::StreamingFailure => String::from_str("streaming error"),
            Error::Timeout => String::from_str("operation timed out"),
            Error::Config { message } => message.clone(),
        }
    }
}

/// What the best-effort JSON probe of an error body yields: the numeric
/// top-level `retryAfter` field (in seconds) and the nested `error.message`
/// string, each absent when the body does not parse or lacks the field.
/// The result depends on the body text alone.
pub uninterp spec fn error_body_fields(body: Seq<char>) -> (Option<u64>, Option<Seq<char>>);

/// Relies on `serde_json::from_str::<serde_json::Value>` and on
/// `serde_json::Value`'s `get`, `as_u64` and `as_str` accessors: best-effort
/// parse of an error body, extracting the top-level `retryAfter` number and
/// the nested `error.message` string. A body that does not parse yields both
/// fields absent.
#[verifier::external_body]
fn probe_error_body(body: &str) -> (r: (Option<u64>, Option<String>))
    ensures
        r.0 == error_body_fields(body@).0,
        r.1 is Some <==> error_body_fields(body@).1 is Some,
        r.1 matches Some(m) ==> error_body_fields(body@).1 == Some(m@),
{
    let details: Option<serde_json::Value> = serde_json::from_str(body).ok();
    let retry_after = details.as_ref().and_then(|d| d.get("retryAfter")).and_then(|v| v.as_u64());
    let message = details
        .as_ref()
        .and_then(|d| d.get("error"))
        .and_then(|e| e.get("message"))
        .and_then(|m| m.as_str())
        .map(|s| s.to_string());
    (retry_after, message)
}

/// The number of milliseconds in `secs` seconds, saturating at `u64::MAX`.
pub open spec fn secs_to_millis(secs: u64) -> u64 {
    if secs * 1000 <= u64::MAX {
        (secs * 1000) as u64
    } else {
        u64::MAX
    }
}

/// Classify a completed non-success HTTP response, given the status code and
/// the fields the JSON probe found in its body, together with the raw body
/// text as the message of last resort.
///
/// Status 429 becomes [`Error::RateLimited`] with the carried `retryAfter`
/// hint (converted to milliseconds); 500-599 becomes [`Error::ServerError`];
/// every other status becomes [`Error::ClientError`] whose message is the
/// extracted `error.message` field, or the raw body when there is none.
pub fn classify_response(
    status: u16,
    retry_after_secs: Option<u64>,
    message: Option<String>,
    body: String,
) -> (r: Error)
    requires
        !(200 <= status < 300),
    ensures
        status == 429 ==> r@ == (ErrorModel::RateLimited {
            retry_after_millis: match retry_after_secs {
                Some(s) => Some(secs_to_millis(s)),
                None => None,
            },
        }),
        status != 429 && 500 <= status <= 599 ==> r@ == (ErrorModel::ServerError { status }),
        status != 429 && !(500 <= status <= 599) ==> r@ == (ErrorModel::ClientError {
            status,
            message: match message {
                Some(m) => m@,
                None => body@,
            },
        }),
{
    if status == 429 {
        let retry_after_millis = match retry_after_secs {
            Some(s) => Some(
                match s.checked_mul(1000) {
                    Some(ms) => ms,
                    None => u64::MAX,
                },
            ),
            None => None,
        };
        Error::RateLimited { retry_after_millis }
    } else if 500 <= status && status <= 599 {
        Error::ServerError { status }
    } else {
        let message = match message {
            Some(m) => m,
            None => body,
        };
        Error::ClientError { status, message }
    }
}

/// The member of the taxonomy owed for a completed non-success HTTP response
/// with the given status and body text.
pub open spec fn classified_error(status: u16, body: Seq<char>) -> ErrorModel {
    if status == 429 {
        ErrorModel::RateLimited {
            retry_after_millis: match error_body_fields(body).0 {
                Some(s) => Some(secs_to_millis(s)),
                None => None,
            },
        }
    } else if 500 <= status <= 599 {
        ErrorModel::ServerError { status }
    } else {
        ErrorModel::ClientError {
            status,
            message: match error_body_fields(body).1 {
                Some(m) => m,
                None => body,
            },
        }
    }
}

/// Map a completed non-success HTTP response to one member of the taxonomy.
/// The body is probed as JSON on a best-effort basis; a body that does not
/// parse is tolerated and treated as empty.
pub fn handle_api_error(status: u16, body: String) -> (r: Error)
    requires
        !(200 <= status < 300),
    ensures
        r@ == classified_error(status, body@),
{
    let (retry_after_secs, message) = probe_error_body(body.as_str());
    classify_response(status, retry_after_secs, message, body)
}

} // verus!
