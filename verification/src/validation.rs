//! Field validation rules, with the checks that the `validator` crate
//! performs behind trusted wrappers.

use vstd::prelude::*;

verus! {

/// Whether `validator` accepts a text as an e-mail address (the HTML5 rule
/// its `ValidateEmail::validate_email` implements).
pub uninterp spec fn valid_email(address: Seq<char>) -> bool;

/// Calls `validator::ValidateEmail::validate_email` on a string slice.
/// Claimed: the result is `valid_email` of the text, and an accepted text is
/// not empty and holds an `@` (the source rejects both before any regex).
#[verifier::external_body]
pub(crate) fn check_email(address: &str) -> (ok: bool)
    ensures
        ok == valid_email(address@),
        ok ==> address@.len() > 0 && address@.contains('@'),
{
    validator::ValidateEmail::validate_email(&address)
}

/// Calls `validator::ValidateLength::validate_length` on a string slice with
/// no `equal` bound. Claimed, as the source shows: the length is the number
/// of characters, and the result holds exactly when it is at least `min` and
/// at most `max`, each where given.
#[verifier::external_body]
pub(crate) fn check_length(text: &str, min: Option<u64>, max: Option<u64>) -> (ok: bool)
    ensures
        ok == ((min matches Some(m) ==> text@.len() >= m) && (max matches Some(m) ==> text@.len()
            <= m)),
{
    validator::ValidateLength::validate_length(&text, min, max, None)
}

/// A failed rule on one field of a form: the field's name and the message
/// shown to the user.
#[derive(Clone, Debug)]
pub struct FieldError {
    pub field: String,
    pub message: String,
}

/// A field error as plain text.
pub open spec fn field_error_view(e: FieldError) -> (Seq<char>, Seq<char>) {
    (e.field@, e.message@)
}

/// The field errors of a list as plain text.
pub open spec fn field_errors_view(es: Seq<FieldError>) -> Seq<(Seq<char>, Seq<char>)> {
    es.map_values(|e: FieldError| field_error_view(e))
}

/// Appends the error `message` on `field` to `errors`.
pub(crate) fn push_error(errors: &mut Vec<FieldError>, field: &str, message: &str)
    ensures
        field_errors_view(final(errors)@) == field_errors_view(old(errors)@).push(
            (field@, message@),
        ),
{
    errors.push(FieldError { field: field.to_owned(), message: message.to_owned() });
    assert(field_errors_view(final(errors)@) =~= field_errors_view(old(errors)@).push(
        (field@, message@),
    ));
}

} // verus!
