//! Addresses waiting for their owner to prove ownership with a token.

use vstd::prelude::*;
use super::token::{CreateTokenRecord, Token};

verus! {

/// Why an address could not be verified.
#[derive(Debug)]
pub enum Error {
    /// No unverified address with this text was found.
    EmailNotFound(String),
    /// The token given is not the address's token.
    TokenVerification,
    /// The database refused the verification; its description.
    VerificationQuery(String),
}

/// An address that has not been verified yet, with its token.
pub struct UnverifiedEmail {
    pub id: i32,
    pub user_id: i32,
    pub address: String,
    pub token: Token,
}

impl UnverifiedEmail {
    /// Checks the token a user presented before the address is marked
    /// verified: any text other than the token's secret is refused.
    pub fn check_token(&self, token: &str) -> (r: Result<(), Error>)
        ensures
            r is Ok <==> self.token.secret@ == token@,
            r matches Err(e) ==> e is TokenVerification,
    {
        if !self.token.verify(token) {
            return Err(Error::TokenVerification);
        }
        Ok(())
    }
}

/// How long a verification token lasts, in microseconds: one day.
pub const TOKEN_LIFETIME_MICROS: i64 = 86_400_000_000;

/// The token that proves ownership of a new address: for `user_id`, with
/// `secret`, expiring one day after `now` (microseconds since the Unix
/// epoch, UTC).
pub fn verification_token<'a>(user_id: i32, secret: &'a str, now: i64) -> (r: CreateTokenRecord<'a>)
    requires
        now + TOKEN_LIFETIME_MICROS <= i64::MAX,
    ensures
        r.user_id == user_id,
        r.secret == secret,
        r.expiration == now + TOKEN_LIFETIME_MICROS,
{
    Token::create_record(user_id, secret, now + TOKEN_LIFETIME_MICROS)
}

} // verus!
