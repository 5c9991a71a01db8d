//! The errors of authentication.

use vstd::prelude::*;
use vstd::string::StringExecFns;

verus! {

/// The parse error of `url::Url::parse`, carried through unread.
#[verifier::external_type_specification]
#[verifier::external_body]
pub struct ExUrlParseError(oauth2::url::ParseError);

/// A failure while authenticating. Failures of outside services carry their
/// description.
#[derive(Debug)]
pub enum Error {
    Reqwest(String),
    OAuth2(String),
    OAuth2Url(oauth2::url::ParseError),
    OAuthClientManager(String),
    TaskJoin(String),
    Deadpool(String),
    Diesel(String),
    DiscordEmail(String),
    AppError(String),
    /// The kind of credential that was expected and missing.
    MissingCredential(String),
}

/// The text of a URL parse error, as its `Display` writes it.
pub uninterp spec fn url_parse_error_message(e: oauth2::url::ParseError) -> Seq<char>;

/// Calls `ToString::to_string` on a URL parse error, which writes the
/// error's `Display` text. Claimed: the text is a function of the error
/// alone (`url` writes one fixed text for each kind of parse error), named
/// `url_parse_error_message`.
#[verifier::external_body]
fn url_parse_error_text(e: &oauth2::url::ParseError) -> (text: String)
    ensures
        text@ == url_parse_error_message(*e),
{
    e.to_string()
}

impl Error {
    /// The text of this failure: the description a failure of an outside
    /// service carries, the URL parser's own text for a bad URL, and
    /// "missing <kind> credential" for a missing credential.
    pub fn message(&self) -> (m: String)
        ensures
            match self {
                Error::Reqwest(t) => m@ == t@,
                Error::OAuth2(t) => m@ == t@,
                Error::OAuth2Url(e) => m@ == url_parse_error_message(*e),
                Error::OAuthClientManager(t) => m@ == t@,
                Error::TaskJoin(t) => m@ == t@,
                Error::Deadpool(t) => m@ == t@,
                Error::Diesel(t) => m@ == t@,
                Error::DiscordEmail(t) => m@ == t@,
                Error::AppError(t) => m@ == t@,
                Error::MissingCredential(k) => m@ == "missing "@ + k@ + " credential"@,
            },
    {
        match self {
            Error::Reqwest(t) => t.clone(),
            Error::OAuth2(t) => t.clone(),
            Error::OAuth2Url(e) => url_parse_error_text(e),
            Error::OAuthClientManager(t) => t.clone(),
            Error::TaskJoin(t) => t.clone(),
            Error::Deadpool(t) => t.clone(),
            Error::Diesel(t) => t.clone(),
            Error::DiscordEmail(t) => t.clone(),
            Error::AppError(t) => t.clone(),
            Error::MissingCredential(k) => "missing ".to_owned().concat(k.as_str()).concat(" credential"),
        }
    }
}

} // verus!
