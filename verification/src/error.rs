//! What can go wrong with a compression job, and how a status code is read.

use vstd::prelude::*;
use vstd::string::to_string_from_display_ensures;

verus! {

/// `reqwest::Error`, the error of the HTTP layer: a connection, timeout,
/// DNS or TLS failure. Nothing is known of what it holds.
#[verifier::external_type_specification]
#[verifier::external_body]
pub struct ExReqwestError(reqwest::Error);

/// `reqwest::header::ToStrError`, the error of reading a header value that
/// is not visible ASCII as text. Nothing is known of what it holds.
#[verifier::external_type_specification]
#[verifier::external_body]
pub struct ExToStrError(reqwest::header::ToStrError);

/// `url::ParseError`, the error of parsing or joining a URL. Nothing is
/// known of what it holds.
#[verifier::external_type_specification]
#[verifier::external_body]
pub struct ExUrlParseError(url::ParseError);

/// `serde_json::Error`, the error of writing or reading JSON. Nothing is
/// known of what it holds.
#[verifier::external_type_specification]
#[verifier::external_body]
pub struct ExJsonError(serde_json::Error);

/// `std::io::Error`, the error of reading or writing a local file. Nothing
/// is known of what it holds.
#[verifier::external_type_specification]
#[verifier::external_body]
pub struct ExIoError(std::io::Error);

/// `tokio::task::JoinError`, the error of a task that was cancelled or
/// panicked. Nothing is known of what it holds.
#[verifier::external_type_specification]
#[verifier::external_body]
pub struct ExJoinError(tokio::task::JoinError);

/// The service's own account of a failure, kept as it was received.
#[derive(Clone, Debug, PartialEq, Eq)]
pub struct Upstream {
    pub error: String,
    pub message: String,
}

/// An upstream account as a mathematical value.
pub struct UpstreamView {
    pub error: Seq<char>,
    pub message: Seq<char>,
}

impl View for Upstream {
    type V = UpstreamView;

    open spec fn view(&self) -> UpstreamView {
        UpstreamView { error: self.error@, message: self.message@ }
    }
}

impl Upstream {
    /// An account with the given code and message.
    pub fn new(error: &str, message: &str) -> (r: Upstream)
        ensures
            r@ == (UpstreamView { error: error@, message: message@ }),
    {
        Upstream { error: String::from_str(error), message: String::from_str(message) }
    }
}

/// A failure of a compression job.
#[derive(Debug)]
pub enum TinifyError {
    /// The caller can mend it: bad credentials, unsupported input,
    /// malformed operation parameters.
    ClientError { upstream: Upstream },
    /// The service is in trouble; a later attempt may succeed.
    ServerError { upstream: Upstream },
    /// The HTTP layer failed.
    ReqwestError(reqwest::Error),
    /// A header of a response could not be read as text.
    ReqwestConvertError(reqwest::header::ToStrError),
    /// An address could not be put together.
    UrlParseError(url::ParseError),
    /// JSON could not be written or read.
    JsonParseError(serde_json::Error),
    /// A local file could not be read or written.
    IOError(std::io::Error),
    /// A blocking task did not finish.
    TokioError(tokio::task::JoinError),
}

/// A failure as a mathematical value.
pub enum TinifyErrorView {
    ClientError { upstream: UpstreamView },
    ServerError { upstream: UpstreamView },
    ReqwestError(reqwest::Error),
    ReqwestConvertError(reqwest::header::ToStrError),
    UrlParseError(url::ParseError),
    JsonParseError(serde_json::Error),
    IOError(std::io::Error),
    TokioError(tokio::task::JoinError),
}

impl View for TinifyError {
    type V = TinifyErrorView;

    open spec fn view(&self) -> TinifyErrorView {
        match *self {
            TinifyError::ClientError { upstream } => TinifyErrorView::ClientError {
                upstream: upstream@,
            },
            TinifyError::ServerError { upstream } => TinifyErrorView::ServerError {
                upstream: upstream@,
            },
            TinifyError::ReqwestError(e) => TinifyErrorView::ReqwestError(e),
            TinifyError::ReqwestConvertError(e) => TinifyErrorView::ReqwestConvertError(e),
            TinifyError::UrlParseError(e) => TinifyErrorView::UrlParseError(e),
            TinifyError::JsonParseError(e) => TinifyErrorView::JsonParseError(e),
            TinifyError::IOError(e) => TinifyErrorView::IOError(e),
            TinifyError::TokioError(e) => TinifyErrorView::TokioError(e),
        }
    }
}

/// A client error that was found locally, before anything was sent.
pub open spec fn local_error(error: Seq<char>, message: Seq<char>) -> TinifyErrorView {
    TinifyErrorView::ClientError { upstream: UpstreamView { error, message } }
}

impl TinifyError {
    /// A client error that was found locally, before anything was sent.
    pub fn local(error: &str, message: &str) -> (r: TinifyError)
        ensures
            r@ == local_error(error@, message@),
    {
        TinifyError::ClientError { upstream: Upstream::new(error, message) }
    }

    /// The upstream account, for the two kinds of failure that carry one.
    pub fn upstream(&self) -> (r: Option<&Upstream>)
        ensures
            match self@ {
                TinifyErrorView::ClientError { upstream } => r matches Some(u) && u@ == upstream,
                TinifyErrorView::ServerError { upstream } => r matches Some(u) && u@ == upstream,
                _ => r is None,
            },
    {
        match self {
            TinifyError::ClientError { upstream } => Some(upstream),
            TinifyError::ServerError { upstream } => Some(upstream),
            _ => None,
        }
    }

    /// The failure in words. An upstream failure is given by its kind and
    /// the service's message; any other failure is given as its cause
    /// displays itself.
    pub fn message(&self) -> (r: String)
        ensures
            match self@ {
                TinifyErrorView::ClientError { upstream } => r@ == "Tinify Client Error: "@
                    + upstream.message,
                TinifyErrorView::ServerError { upstream } => r@ == "Tinify Server Error: "@
                    + upstream.message,
                TinifyErrorView::ReqwestError(e) => to_string_from_display_ensures(&e, r),
                TinifyErrorView::ReqwestConvertError(e) => to_string_from_display_ensures(&e, r),
                TinifyErrorView::UrlParseError(e) => to_string_from_display_ensures(&e, r),
                TinifyErrorView::JsonParseError(e) => to_string_from_display_ensures(&e, r),
                TinifyErrorView::IOError(e) => to_string_from_display_ensures(&e, r),
                TinifyErrorView::TokioError(e) => to_string_from_display_ensures(&e, r),
            },
    {
        match self {
            TinifyError::ClientError { upstream } => {
                String::from_str("Tinify Client Error: ").concat(upstream.message.as_str())
            },
            TinifyError::ServerError { upstream } => {
                String::from_str("Tinify Server Error: ").concat(upstream.message.as_str())
            },
            TinifyError::ReqwestError(e) => e.to_string(),
            TinifyError::ReqwestConvertError(e) => e.to_string(),
            TinifyError::UrlParseError(e) => e.to_string(),
            TinifyError::JsonParseError(e) => e.to_string(),
            TinifyError::IOError(e) => e.to_string(),
            TinifyError::TokioError(e) => e.to_string(),
        }
    }
}

/// The request that a response answers.
#[derive(Clone, Copy, Debug, PartialEq, Eq, Structural)]
pub enum Exchange {
    /// The download of an image from an address that the caller gave.
    Fetch,
    /// The upload of an image for compression.
    Shrink,
    /// The request that carries the pending operations.
    Operate,
    /// The download of a result from the address that the service named.
    Download,
}

/// What a status code says of a response.
#[derive(Clone, Copy, Debug, PartialEq, Eq, Structural)]
pub enum Verdict {
    Success,
    ClientError,
    ServerError,
}

/// How a status code is read. 401 and 415 are the caller's fault: a bad
/// key, an unsupported image. On a request that carries operations every
/// status from 400 to 499 is the caller's fault. Any other status from 200
/// to 299 is a success. Everything else, 503 among it, is the service's
/// fault.
pub open spec fn verdict(exchange: Exchange, status: u16) -> Verdict {
    if status == 401 || status == 415 {
        Verdict::ClientError
    } else if exchange == Exchange::Operate && 400 <= status <= 499 {
        Verdict::ClientError
    } else if 200 <= status <= 299 {
        Verdict::Success
    } else {
        Verdict::ServerError
    }
}

/// Reads the status code of the response to a request.
pub fn classify(exchange: Exchange, status: u16) -> (r: Verdict)
    ensures
        r == verdict(exchange, status),
{
    let operate = match exchange {
        Exchange::Operate => true,
        _ => false,
    };
    if status == 401 || status == 415 {
        Verdict::ClientError
    } else if operate && 400 <= status && status <= 499 {
        Verdict::ClientError
    } else if 200 <= status && status <= 299 {
        Verdict::Success
    } else {
        Verdict::ServerError
    }
}

} // verus!
