//! Absolute URLs, parsed and normalized by the `url` crate.

use url::ParseError;
use vstd::prelude::*;

use crate::utils::from_env::{
    parse_env_if_present, present_or_fails, Env, FromEnvErr, FromEnvVar, VarError,
};

verus! {

/// Why a text is no absolute URL.
#[derive(Debug, Clone, Copy, PartialEq, Eq, Structural)]
pub enum UrlParseError {
    /// The host is empty.
    EmptyHost,
    /// The international domain name is invalid.
    IdnaError,
    /// The port number is invalid.
    InvalidPort,
    /// The IPv4 address is invalid.
    InvalidIpv4Address,
    /// The IPv6 address is invalid.
    InvalidIpv6Address,
    /// The domain holds a character that no domain may hold.
    InvalidDomainCharacter,
    /// The text is a relative URL, and there is no base to resolve it against.
    RelativeUrlWithoutBase,
    /// The text is a relative URL, and the base cannot be a base.
    RelativeUrlWithCannotBeABaseBase,
    /// A URL that cannot be a base has no host to set.
    SetHostOnCannotBeABaseUrl,
    /// The URL is longer than four gigabytes.
    Overflow,
    /// A failure that the parser reports and this list does not know.
    Other,
}

impl UrlParseError {
    /// What the failure says of the text.
    pub open spec fn text(self) -> Seq<char> {
        match self {
            UrlParseError::EmptyHost => "empty host"@,
            UrlParseError::IdnaError => "invalid international domain name"@,
            UrlParseError::InvalidPort => "invalid port number"@,
            UrlParseError::InvalidIpv4Address => "invalid IPv4 address"@,
            UrlParseError::InvalidIpv6Address => "invalid IPv6 address"@,
            UrlParseError::InvalidDomainCharacter => "invalid domain character"@,
            UrlParseError::RelativeUrlWithoutBase => "relative URL without a base"@,
            UrlParseError::RelativeUrlWithCannotBeABaseBase => "relative URL with a cannot-be-a-base base"@,
            UrlParseError::SetHostOnCannotBeABaseUrl => "a cannot-be-a-base URL has no host to set"@,
            UrlParseError::Overflow => "URLs more than 4 GB are not supported"@,
            UrlParseError::Other => "invalid URL"@,
        }
    }

    /// What the failure says of the text.
    pub fn message(&self) -> (text: &'static str)
        ensures
            text@ == self.text(),
    {
        match self {
            UrlParseError::EmptyHost => "empty host",
            UrlParseError::IdnaError => "invalid international domain name",
            UrlParseError::InvalidPort => "invalid port number",
            UrlParseError::InvalidIpv4Address => "invalid IPv4 address",
            UrlParseError::InvalidIpv6Address => "invalid IPv6 address",
            UrlParseError::InvalidDomainCharacter => "invalid domain character",
            UrlParseError::RelativeUrlWithoutBase => "relative URL without a base",
            UrlParseError::RelativeUrlWithCannotBeABaseBase => "relative URL with a cannot-be-a-base base",
            UrlParseError::SetHostOnCannotBeABaseUrl => "a cannot-be-a-base URL has no host to set",
            UrlParseError::Overflow => "URLs more than 4 GB are not supported",
            UrlParseError::Other => "invalid URL",
        }
    }
}

/// What `url::Url::parse` makes of a text: the normalized text of the URL,
/// or why the text is none.
pub uninterp spec fn url_parse(input: Seq<char>) -> Result<Seq<char>, UrlParseError>;

/// Calls `url::Url::parse` and hands back the parsed URL as its normalized
/// text, or the parser's error under its own name. The contract only names
/// that result; it claims nothing about which texts are URLs.
#[verifier::external_body]
fn parse_absolute(input: &str) -> (r: Result<String, UrlParseError>)
    ensures
        match r {
            Ok(text) => url_parse(input@) == Ok::<Seq<char>, UrlParseError>(text@),
            Err(e) => url_parse(input@) == Err::<Seq<char>, UrlParseError>(e),
        },
{
    match url::Url::parse(input) {
        Ok(parsed) => Ok(parsed.into()),
        Err(ParseError::EmptyHost) => Err(UrlParseError::EmptyHost),
        Err(ParseError::IdnaError) => Err(UrlParseError::IdnaError),
        Err(ParseError::InvalidPort) => Err(UrlParseError::InvalidPort),
        Err(ParseError::InvalidIpv4Address) => Err(UrlParseError::InvalidIpv4Address),
        Err(ParseError::InvalidIpv6Address) => Err(UrlParseError::InvalidIpv6Address),
        Err(ParseError::InvalidDomainCharacter) => Err(UrlParseError::InvalidDomainCharacter),
        Err(ParseError::RelativeUrlWithoutBase) => Err(UrlParseError::RelativeUrlWithoutBase),
        Err(ParseError::RelativeUrlWithCannotBeABaseBase) => Err(UrlParseError::RelativeUrlWithCannotBeABaseBase),
        Err(ParseError::SetHostOnCannotBeABaseUrl) => Err(UrlParseError::SetHostOnCannotBeABaseUrl),
        Err(ParseError::Overflow) => Err(UrlParseError::Overflow),
        Err(_) => Err(UrlParseError::Other),
    }
}

/// An absolute URL, held as its normalized text.
#[derive(Debug, PartialEq, Eq)]
pub struct Url {
    text: String,
}

impl View for Url {
    type V = Seq<char>;

    closed spec fn view(&self) -> Seq<char> {
        self.text@
    }
}

impl Clone for Url {
    fn clone(&self) -> (copy: Self)
        ensures
            copy@ == self@,
    {
        proof {
            use_type_invariant(self);
        }
        Url { text: self.text.clone() }
    }
}

/// Whether a text is the normalized text of an absolute URL: what parsing
/// some text gave.
pub open spec fn is_normalized(text: Seq<char>) -> bool {
    exists|input: Seq<char>| #[trigger] url_parse(input) == Ok::<Seq<char>, UrlParseError>(text)
}

impl Url {
    /// Every URL is what parsing some text gave.
    #[verifier::type_invariant]
    spec fn parsed(self) -> bool {
        is_normalized(self.text@)
    }

    /// Parses an absolute URL.
    pub fn parse(input: &str) -> (r: Result<Url, UrlParseError>)
        ensures
            parses_to(input@, r),
    {
        match parse_absolute(input) {
            Ok(text) => {
                assert(url_parse(input@) == Ok::<Seq<char>, UrlParseError>(text@));
                Ok(Url { text })
            },
            Err(e) => Err(e),
        }
    }

    /// The URL's normalized text.
    pub fn as_str(&self) -> (text: &str)
        ensures
            text@ == self@,
            is_normalized(text@),
    {
        proof {
            use_type_invariant(self);
        }
        self.text.as_str()
    }
}

/// Whether `r` is what parsing `input` as an absolute URL gives.
pub open spec fn parses_to(input: Seq<char>, r: Result<Url, UrlParseError>) -> bool {
    match r {
        Ok(parsed) => url_parse(input) == Ok::<Seq<char>, UrlParseError>(parsed@),
        Err(e) => url_parse(input) == Err::<Seq<char>, UrlParseError>(e),
    }
}

impl FromEnvVar for Url {
    type Error = UrlParseError;

    open spec fn loads(
        found: Result<Seq<char>, VarError>,
        env_var: Seq<char>,
        r: Result<Self, FromEnvErr<UrlParseError>>,
    ) -> bool {
        present_or_fails(
            found,
            env_var,
            |text: Seq<char>, p: Result<Url, UrlParseError>| parses_to(text, p),
            r,
        )
    }

    fn from_env_var(env: &Env, env_var: &str) -> (r: Result<Self, FromEnvErr<UrlParseError>>) {
        parse_env_if_present(env, env_var, Url::parse)
    }
}

} // verus!
