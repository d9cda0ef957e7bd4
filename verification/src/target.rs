//! Target validation: a target is accepted when it parses as an absolute URL,
//! and is kept in the parser's normalised serialization.

use vstd::prelude::*;

verus! {

/// Why a target was refused as a URL.
#[derive(Clone, Copy, Debug, PartialEq, Eq, Structural)]
pub enum UrlError {
    EmptyHost,
    IdnaError,
    InvalidPort,
    InvalidIpv4Address,
    InvalidIpv6Address,
    InvalidDomainCharacter,
    RelativeUrlWithoutBase,
    RelativeUrlWithCannotBeABaseBase,
    SetHostOnCannotBeABaseUrl,
    Overflow,
    Other,
}

#[verifier::external_type_specification]
#[verifier::external_body]
pub struct ExParseError(url::ParseError);

/// The serialization that `url::Url::parse` gives an input, or `None` where
/// it refuses the input.
pub uninterp spec fn url_serialization(input: Seq<char>) -> Option<Seq<char>>;

/// `url::Url::parse` followed by the conversion of the parsed URL into its
/// serialization. The outcome depends on the input text alone, so it is named
/// by `url_serialization`.
#[verifier::external_body]
fn parse_url(input: &str) -> (r: Result<String, url::ParseError>)
    ensures
        match r {
            Ok(text) => url_serialization(input@) == Some(text@),
            Err(_) => url_serialization(input@) is None,
        },
{
    url::Url::parse(input).map(String::from)
}

/// Tells the variants of `url::ParseError` apart. Nothing is claimed about
/// which variant the parser picks for an input.
#[verifier::external_body]
fn error_kind(e: url::ParseError) -> UrlError {
    match e {
        url::ParseError::EmptyHost => UrlError::EmptyHost,
        url::ParseError::IdnaError => UrlError::IdnaError,
        url::ParseError::InvalidPort => UrlError::InvalidPort,
        url::ParseError::InvalidIpv4Address => UrlError::InvalidIpv4Address,
        url::ParseError::InvalidIpv6Address => UrlError::InvalidIpv6Address,
        url::ParseError::InvalidDomainCharacter => UrlError::InvalidDomainCharacter,
        url::ParseError::RelativeUrlWithoutBase => UrlError::RelativeUrlWithoutBase,
        url::ParseError::RelativeUrlWithCannotBeABaseBase => UrlError::RelativeUrlWithCannotBeABaseBase,
        url::ParseError::SetHostOnCannotBeABaseUrl => UrlError::SetHostOnCannotBeABaseUrl,
        url::ParseError::Overflow => UrlError::Overflow,
        _ => UrlError::Other,
    }
}

/// Validates a target. An input that parses as an absolute URL is returned in
/// its serialization; any other input is refused with the parser's reason.
pub fn parse_target(input: &str) -> (r: Result<String, UrlError>)
    ensures
        r is Ok <==> url_serialization(input@) is Some,
        r matches Ok(target) ==> url_serialization(input@) == Some(target@),
{
    match parse_url(input) {
        Ok(target) => Ok(target),
        Err(e) => Err(error_kind(e)),
    }
}

} // verus!
