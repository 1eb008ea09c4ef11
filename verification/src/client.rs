//! The client: one key, bound to a job that has yet to begin.

use vstd::prelude::*;
use crate::address::shrink_address;
use crate::error::TinifyError;
use crate::error::TinifyErrorView;
use crate::http::Request;
use crate::source::fetching;
use crate::source::shrinking;
use crate::source::LoneTransform;
use crate::source::Pending;
use crate::source::Source;
use crate::source::SourceView;

verus! {

/// The client of the compression service.
#[derive(Debug, PartialEq, Eq)]
pub struct Client {
    source: Source,
}

impl View for Client {
    type V = SourceView;

    /// The job that the client begins.
    closed spec fn view(&self) -> SourceView {
        self.source@
    }
}

impl Client {
    /// A client with the given key, set to reject a lone transform.
    pub fn new(key: &str) -> (r: Client)
        ensures
            r@ == SourceView::fresh(Some(key@), LoneTransform::Reject),
    {
        Client { source: Source::new(Some(key)) }
    }

    /// A client with the given key.
    pub fn configured(key: &str, lone_transform: LoneTransform) -> (r: Client)
        ensures
            r@ == SourceView::fresh(Some(key@), lone_transform),
    {
        Client { source: Source::configured(Some(key), lone_transform) }
    }

    /// The job that the client begins.
    pub fn source(&self) -> (r: &Source)
        ensures
            r@ == self@,
    {
        &self.source
    }

    /// Chooses a file to compress, given what reading the file gave: begins
    /// the upload of its contents. A file that could not be read fails the
    /// job.
    pub fn from_file(self, contents: Result<Vec<u8>, std::io::Error>) -> (r: Result<
        (Pending, Request),
        TinifyError,
    >)
        ensures
            match contents {
                Ok(image) => match r {
                    Ok(begun) => shrink_address() matches Some(target) && (begun.0@, begun.1@)
                        == shrinking(self@, target, image@),
                    Err(e) => shrink_address() is None && e@ is UrlParseError,
                },
                Err(cause) => r matches Err(e) && e@ == TinifyErrorView::IOError(cause),
            },
    {
        self.source.from_file(contents)
    }

    /// Chooses a buffer to compress: begins its upload.
    pub fn from_buffer(self, buffer: &[u8]) -> (r: Result<(Pending, Request), TinifyError>)
        ensures
            match r {
                Ok(begun) => shrink_address() matches Some(target) && (begun.0@, begun.1@)
                    == shrinking(self@, target, buffer@),
                Err(e) => shrink_address() is None && e@ is UrlParseError,
            },
    {
        self.source.from_buffer(buffer)
    }

    /// Chooses an image on the web to compress: begins its download, after
    /// which it is uploaded.
    pub fn from_url(self, url: &str) -> (r: Result<(Pending, Request), TinifyError>)
        ensures
            match r {
                Ok(begun) => shrink_address() matches Some(target) && (begun.0@, begun.1@)
                    == fetching(self@, target, url@),
                Err(e) => shrink_address() is None && e@ is UrlParseError,
            },
    {
        self.source.from_url(url)
    }
}

} // verus!
