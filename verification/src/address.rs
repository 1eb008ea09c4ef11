//! The addresses of the service.

use vstd::prelude::*;

verus! {

/// Base address of the compression service.
pub const API_ENDPOINT: &'static str = "https://api.tinify.com";

/// The path, below the base address, that takes uploads.
pub const SHRINK_PATH: &'static str = "/shrink";

/// The address that a reference resolves to against a base address, as the
/// `url` crate resolves it; none where either of the two cannot be parsed.
pub uninterp spec fn url_joined(base: Seq<char>, reference: Seq<char>) -> Option<Seq<char>>;

/// `Url::parse` on the base address, then `Url::join` with the reference.
/// The result is the serialization of the address that the reference
/// resolves to against the base; the error is that of parsing either of the
/// two. What the address is, is left to the `url` crate: the contract only
/// gives it its name.
#[verifier::external_body]
pub(crate) fn join_url(base: &str, reference: &str) -> (r: Result<String, url::ParseError>)
    ensures
        match r {
            Ok(text) => url_joined(base@, reference@) == Some(text@),
            Err(_) => url_joined(base@, reference@) is None,
        },
{
    url::Url::parse(base)?.join(reference).map(String::from)
}

/// The address that takes uploads.
pub open spec fn shrink_address() -> Option<Seq<char>> {
    url_joined(API_ENDPOINT@, SHRINK_PATH@)
}

/// Puts the address that takes uploads together.
pub(crate) fn shrink_url() -> (r: Result<String, url::ParseError>)
    ensures
        match r {
            Ok(text) => shrink_address() == Some(text@),
            Err(_) => shrink_address() is None,
        },
{
    join_url(API_ENDPOINT, SHRINK_PATH)
}

} // verus!
