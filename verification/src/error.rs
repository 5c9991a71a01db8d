//! The framework's request error: how each kind is answered (status code)
//! and what text it shows on its own and on the error page.

use vstd::prelude::*;
use vstd::string::StringExecFns;

verus! {

/// An error raised while handling a request.
#[derive(Debug)]
pub enum LowboyError {
    BadRequest,
    Unauthorized,
    Forbidden,
    NotFound,
    /// An internal failure; the text describes its cause.
    Internal(String),
}

/// The HTTP status code that answers an error.
pub open spec fn spec_status_code(e: LowboyError) -> u16 {
    match e {
        LowboyError::BadRequest => 400,
        LowboyError::Unauthorized => 401,
        LowboyError::Forbidden => 403,
        LowboyError::NotFound => 404,
        LowboyError::Internal(_) => 500,
    }
}

/// The text of an error.
pub open spec fn spec_message(e: LowboyError) -> Seq<char> {
    match e {
        LowboyError::BadRequest => "Bad Request"@,
        LowboyError::Unauthorized => "Unauthorized"@,
        LowboyError::Forbidden => "Forbidden"@,
        LowboyError::NotFound => "Not Found"@,
        LowboyError::Internal(detail) => "Internal Server Error: "@ + detail@,
    }
}

/// The text an error page shows: internal details are never shown.
pub open spec fn spec_public_message(e: LowboyError) -> Seq<char> {
    match e {
        LowboyError::Internal(_) => "Internal Server Error"@,
        _ => spec_message(e),
    }
}

impl LowboyError {
    /// The HTTP status code that answers this error.
    pub fn status_code(&self) -> (code: u16)
        ensures
            code == spec_status_code(*self),
    {
        match self {
            LowboyError::BadRequest => 400,
            LowboyError::Unauthorized => 401,
            LowboyError::Forbidden => 403,
            LowboyError::NotFound => 404,
            LowboyError::Internal(_) => 500,
        }
    }

    /// The text of this error.
    pub fn message(&self) -> (s: String)
        ensures
            s@ == spec_message(*self),
    {
        match self {
            LowboyError::BadRequest => "Bad Request".to_owned(),
            LowboyError::Unauthorized => "Unauthorized".to_owned(),
            LowboyError::Forbidden => "Forbidden".to_owned(),
            LowboyError::NotFound => "Not Found".to_owned(),
            LowboyError::Internal(detail) => "Internal Server Error: ".to_owned().concat(
                detail.as_str(),
            ),
        }
    }

    /// The text shown on the error page for this error.
    pub fn public_message(&self) -> (s: String)
        ensures
            s@ == spec_public_message(*self),
    {
        match self {
            LowboyError::Internal(_) => "Internal Server Error".to_owned(),
            _ => self.message(),
        }
    }

    /// An internal error whose cause is `prefix` followed by `detail`.
    fn internal_with(prefix: &str, detail: &str) -> (e: LowboyError)
        ensures
            e == LowboyError::Internal(e->Internal_0),
            e->Internal_0@ == prefix@ + detail@,
    {
        LowboyError::Internal(prefix.to_owned().concat(detail))
    }

    /// An internal error raised by the database.
    pub fn database(detail: &str) -> (e: LowboyError)
        ensures
            e is Internal,
            e->Internal_0@ == "database error: "@ + detail@,
    {
        Self::internal_with("database error: ", detail)
    }

    /// An internal error raised by the database connection pool.
    pub fn pool(detail: &str) -> (e: LowboyError)
        ensures
            e is Internal,
            e->Internal_0@ == "database pool error: "@ + detail@,
    {
        Self::internal_with("database pool error: ", detail)
    }

    /// An internal error raised by the session layer.
    pub fn session(detail: &str) -> (e: LowboyError)
        ensures
            e is Internal,
            e->Internal_0@ == "session error: "@ + detail@,
    {
        Self::internal_with("session error: ", detail)
    }

    /// An internal error raised while building the application context.
    pub fn context(detail: &str) -> (e: LowboyError)
        ensures
            e is Internal,
            e->Internal_0@ == "context error: "@ + detail@,
    {
        Self::internal_with("context error: ", detail)
    }
}

/// The error page never shows an internal error's cause: two internal errors
/// show the same text, whatever their causes.
pub proof fn lemma_error_page_hides_internal_cause(a: LowboyError, b: LowboyError)
    requires
        a is Internal,
        b is Internal,
    ensures
        spec_public_message(a) == spec_public_message(b),
        spec_status_code(a) == spec_status_code(b),
{
}

/// Every error other than an internal one shows its own text on the error
/// page.
pub proof fn lemma_error_page_shows_client_errors(e: LowboyError)
    requires
        !(e is Internal),
    ensures
        spec_public_message(e) == spec_message(e),
        400 <= spec_status_code(e) < 500,
{
}

/// Each error answers with its own status code: 400 for a bad request,
/// 401 when unauthorized, 403 when forbidden, 404 when not found and 500
/// for an internal error. An internal error's own text keeps its detail
/// after "Internal Server Error: ", while the page shows only "Internal
/// Server Error".
pub proof fn lemma_error_codes_and_texts(e: LowboyError)
    ensures
        spec_status_code(e) == (match e {
            LowboyError::BadRequest => 400u16,
            LowboyError::Unauthorized => 401u16,
            LowboyError::Forbidden => 403u16,
            LowboyError::NotFound => 404u16,
            LowboyError::Internal(_) => 500u16,
        }),
        (400 <= spec_status_code(e) < 500) <==> !(e is Internal),
        e matches LowboyError::Internal(d) ==> spec_message(e) == "Internal Server Error: "@ + d@
            && spec_public_message(e) == "Internal Server Error"@,
        e is BadRequest ==> spec_public_message(e) == "Bad Request"@,
        e is Unauthorized ==> spec_public_message(e) == "Unauthorized"@,
        e is Forbidden ==> spec_public_message(e) == "Forbidden"@,
        e is NotFound ==> spec_public_message(e) == "Not Found"@,
{
}

} // verus!
