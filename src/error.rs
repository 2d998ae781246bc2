use vstd::prelude::*;

verus! {

/// A URL that the `url` crate has parsed; opaque here, it is carried to the transport.
#[verifier::external_type_specification]
#[verifier::external_body]
pub struct ExUrl(url::Url);

/// Why the `url` crate refused to parse or join a URL.
#[verifier::external_type_specification]
#[verifier::external_body]
pub struct ExParseError(url::ParseError);

/// What can go wrong in a request, before and after the transport.
#[derive(Debug)]
pub enum Error {
    /// The server answered with this status, neither a success nor "not found".
    ApiError(u16),
    /// The request's URL could not be built.
    UrlError(url::ParseError),
}

pub type Result<T> = core::result::Result<T, Error>;

} // verus!
