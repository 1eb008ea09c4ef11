//! Requests and responses as plain values. The library decides what is
//! sent and reads what came back; it never touches the network itself.

use vstd::prelude::*;

verus! {

/// The user name of every authenticated request; the key is the password.
pub const API_USER: &'static str = "api";

/// The deadline of every request, in seconds.
pub const TIMEOUT_SECS: u64 = 300;

/// The content type of a request that carries JSON.
pub const JSON_CONTENT_TYPE: &'static str = "application/json";

/// The two kinds of request that a job makes.
#[derive(Clone, Copy, Debug, PartialEq, Eq, Structural)]
pub enum Verb {
    Get,
    Post,
}

/// What a request carries.
#[derive(Clone, Debug, PartialEq, Eq)]
pub enum Payload {
    Empty,
    /// The raw bytes of an image.
    Bytes(Vec<u8>),
    /// JSON text, sent with the JSON content type.
    Json(String),
}

/// A payload as a mathematical value.
pub enum PayloadView {
    Empty,
    Bytes(Seq<u8>),
    Json(Seq<char>),
}

impl View for Payload {
    type V = PayloadView;

    open spec fn view(&self) -> PayloadView {
        match *self {
            Payload::Empty => PayloadView::Empty,
            Payload::Bytes(bytes) => PayloadView::Bytes(bytes@),
            Payload::Json(text) => PayloadView::Json(text@),
        }
    }
}

/// The credentials of basic authentication.
#[derive(Clone, Debug, PartialEq, Eq)]
pub struct Auth {
    pub user: String,
    pub password: Option<String>,
}

/// Credentials as a mathematical value.
pub struct AuthView {
    pub user: Seq<char>,
    pub password: Option<Seq<char>>,
}

/// An optional string as a mathematical value.
pub open spec fn text_of(s: Option<String>) -> Option<Seq<char>> {
    match s {
        Some(text) => Some(text@),
        None => None,
    }
}

/// An optional byte buffer as a mathematical value.
pub open spec fn bytes_of(b: Option<Vec<u8>>) -> Option<Seq<u8>> {
    match b {
        Some(bytes) => Some(bytes@),
        None => None,
    }
}

impl View for Auth {
    type V = AuthView;

    open spec fn view(&self) -> AuthView {
        AuthView { user: self.user@, password: text_of(self.password) }
    }
}

/// One request, for the caller to send.
#[derive(Clone, Debug, PartialEq, Eq)]
pub struct Request {
    pub verb: Verb,
    pub url: String,
    pub payload: Payload,
    /// Credentials of basic authentication, where the request is
    /// authenticated.
    pub auth: Option<Auth>,
    /// The deadline in seconds. A request that takes longer has failed in
    /// the HTTP layer.
    pub timeout_secs: u64,
}

/// A request as a mathematical value.
pub struct RequestView {
    pub verb: Verb,
    pub url: Seq<char>,
    pub payload: PayloadView,
    pub auth: Option<AuthView>,
    pub timeout_secs: u64,
}

impl View for Request {
    type V = RequestView;

    open spec fn view(&self) -> RequestView {
        RequestView {
            verb: self.verb,
            url: self.url@,
            payload: self.payload@,
            auth: match self.auth {
                Some(auth) => Some(auth@),
                None => None,
            },
            timeout_secs: self.timeout_secs,
        }
    }
}

/// The credentials that go with a key: the fixed user name, and the key as
/// the password.
pub open spec fn api_auth(key: Option<Seq<char>>) -> AuthView {
    AuthView { user: API_USER@, password: key }
}

/// A download: a plain GET, without credentials.
pub open spec fn get_request(url: Seq<char>) -> RequestView {
    RequestView {
        verb: Verb::Get,
        url,
        payload: PayloadView::Empty,
        auth: None,
        timeout_secs: TIMEOUT_SECS,
    }
}

/// An authenticated POST with the given payload.
pub open spec fn post_request(url: Seq<char>, payload: PayloadView, key: Option<Seq<char>>) -> RequestView {
    RequestView {
        verb: Verb::Post,
        url,
        payload,
        auth: Some(api_auth(key)),
        timeout_secs: TIMEOUT_SECS,
    }
}

/// A copy of an optional string.
pub(crate) fn copy_text(s: &Option<String>) -> (r: Option<String>)
    ensures
        text_of(r) == text_of(*s),
{
    match s {
        Some(text) => Some(text.clone()),
        None => None,
    }
}

impl Request {
    /// A download: a plain GET, without credentials.
    pub fn get(url: String) -> (r: Request)
        ensures
            r@ == get_request(url@),
    {
        Request {
            verb: Verb::Get,
            url,
            payload: Payload::Empty,
            auth: None,
            timeout_secs: TIMEOUT_SECS,
        }
    }

    /// An authenticated POST with the given payload.
    pub fn post(url: String, payload: Payload, key: Option<String>) -> (r: Request)
        ensures
            r@ == post_request(url@, payload@, text_of(key)),
    {
        Request {
            verb: Verb::Post,
            url,
            payload,
            auth: Some(Auth { user: String::from_str(API_USER), password: key }),
            timeout_secs: TIMEOUT_SECS,
        }
    }

    /// The content type that the request declares: that of JSON where it
    /// carries JSON, none otherwise.
    pub fn content_type(&self) -> (r: Option<&'static str>)
        ensures
            match self@.payload {
                PayloadView::Json(_) => r matches Some(t) && t@ == JSON_CONTENT_TYPE@,
                _ => r is None,
            },
    {
        match self.payload {
            Payload::Json(_) => Some(JSON_CONTENT_TYPE),
            _ => None,
        }
    }
}

/// What came back for a request.
#[derive(Debug)]
pub struct Response {
    pub status: u16,
    /// The `Location` header, where the response has one: its text, or the
    /// error of reading it as text.
    pub location: Option<Result<String, reqwest::header::ToStrError>>,
    pub body: Vec<u8>,
}

/// A response as a mathematical value.
pub struct ResponseView {
    pub status: u16,
    pub location: Option<Result<Seq<char>, reqwest::header::ToStrError>>,
    pub body: Seq<u8>,
}

/// A `Location` header as a mathematical value.
pub open spec fn location_of(location: Option<Result<String, reqwest::header::ToStrError>>) -> Option<
    Result<Seq<char>, reqwest::header::ToStrError>,
> {
    match location {
        Some(Ok(text)) => Some(Ok(text@)),
        Some(Err(e)) => Some(Err(e)),
        None => None,
    }
}

impl View for Response {
    type V = ResponseView;

    open spec fn view(&self) -> ResponseView {
        ResponseView {
            status: self.status,
            location: location_of(self.location),
            body: self.body@,
        }
    }
}

/// What the HTTP layer reports for a request: a response, or its own
/// failure.
pub open spec fn event_of(event: Result<Response, reqwest::Error>) -> Result<
    ResponseView,
    reqwest::Error,
> {
    match event {
        Ok(response) => Ok(response@),
        Err(e) => Err(e),
    }
}

} // verus!
