//! The proxy through which clients load images from other servers.

use crate::error::Error;
use vstd::prelude::*;

verus! {

/// The path under which the proxy is served.
pub fn image_proxy_path() -> (path: &'static str)
    ensures
        path@ == "/api/v3/image_proxy"@,
{
    "/api/v3/image_proxy"
}

/// What a request to the proxy carries: the address of the image,
/// percent-encoded.
#[derive(Debug, Clone, PartialEq, Eq)]
pub struct ImageProxyParams {
    pub url: String,
}

/// `std::string::FromUtf8Error`: the bytes were not text.
#[verifier::external_type_specification]
#[verifier::external_body]
pub struct ExFromUtf8Error(std::string::FromUtf8Error);

/// The text that `urlencoding::decode` makes of `data`, or `None` where it
/// fails because the decoded bytes are not UTF-8.
pub uninterp spec fn percent_decoded(data: Seq<char>) -> Option<Seq<char>>;

/// `urlencoding::decode`. The result depends on the text alone. A text
/// without a percent sign comes back as it is.
#[verifier::external_body]
fn decode(data: &str) -> (decoded: Result<String, std::string::FromUtf8Error>)
    ensures
        match decoded {
            Ok(text) => percent_decoded(data@) == Some(text@),
            Err(_) => percent_decoded(data@) is None,
        },
        !data@.contains('%') ==> decoded is Ok && decoded->Ok_0@ == data@,
{
    urlencoding::decode(data).map(|text| text.into_owned())
}

/// The address to load, given what decoding the request's address gave:
/// the decoded text, or [`Error::Unknown`] where there is none.
pub fn proxy_target(decoded: Option<String>) -> (target: Result<String, Error>)
    ensures
        match decoded {
            Some(text) => target == Ok::<String, Error>(text),
            None => target == Err::<String, Error>(Error::Unknown),
        },
{
    match decoded {
        Some(text) => Ok(text),
        None => Err(Error::Unknown),
    }
}

impl ImageProxyParams {
    /// The address of the image that the request asks for: the request's
    /// address with its percent-encoding undone. Fails with
    /// [`Error::Unknown`] exactly when the decoded bytes are not text. An
    /// address without a percent sign is taken as it is.
    pub fn target(&self) -> (target: Result<String, Error>)
        ensures
            match percent_decoded(self.url@) {
                Some(text) => target is Ok && target->Ok_0@ == text,
                None => target == Err::<String, Error>(Error::Unknown),
            },
            !self.url@.contains('%') ==> target is Ok && target->Ok_0@ == self.url@,
    {
        match decode(self.url.as_str()) {
            Ok(text) => proxy_target(Some(text)),
            Err(_) => proxy_target(None),
        }
    }
}

} // verus!
