//! E-mail verification tokens.

use vstd::prelude::*;

verus! {

/// Calls `constant_time_eq::constant_time_eq` on the UTF-8 bytes of two
/// strings. Claimed, as its source and documentation show: it returns
/// whether the two byte sequences are equal, which for UTF-8 text is
/// whether the strings are equal.
#[verifier::external_body]
fn constant_time_str_eq(a: &str, b: &str) -> (r: bool)
    ensures
        r == (a@ == b@),
{
    constant_time_eq::constant_time_eq(a.as_bytes(), b.as_bytes())
}

/// A secret sent to a user to prove that they own an address. Its
/// expiration is in microseconds since the Unix epoch, UTC.
pub struct Token {
    pub id: i32,
    pub user_id: i32,
    pub secret: String,
    pub expiration: i64,
}

impl Token {
    /// Whether `token` is this token's secret, compared in constant time.
    pub fn verify(&self, token: &str) -> (r: bool)
        ensures
            r == (self.secret@ == token@),
    {
        constant_time_str_eq(self.secret.as_str(), token)
    }
}

/// A token row as stored.
pub struct TokenRecord {
    pub id: i32,
    pub user_id: i32,
    pub secret: String,
    pub expiration: i64,
}

impl From<TokenRecord> for Token {
    fn from(value: TokenRecord) -> (t: Self) {
        Token {
            id: value.id,
            user_id: value.user_id,
            secret: value.secret,
            expiration: value.expiration,
        }
    }
}

impl vstd::std_specs::convert::FromSpecImpl<TokenRecord> for Token {
    open spec fn obeys_from_spec() -> bool {
        true
    }

    open spec fn from_spec(value: TokenRecord) -> Token {
        Token {
            id: value.id,
            user_id: value.user_id,
            secret: value.secret,
            expiration: value.expiration,
        }
    }
}

impl From<Token> for TokenRecord {
    fn from(value: Token) -> (t: Self) {
        TokenRecord {
            id: value.id,
            user_id: value.user_id,
            secret: value.secret,
            expiration: value.expiration,
        }
    }
}

impl vstd::std_specs::convert::FromSpecImpl<Token> for TokenRecord {
    open spec fn obeys_from_spec() -> bool {
        true
    }

    open spec fn from_spec(value: Token) -> TokenRecord {
        TokenRecord {
            id: value.id,
            user_id: value.user_id,
            secret: value.secret,
            expiration: value.expiration,
        }
    }
}

/// A token to be stored.
pub struct CreateTokenRecord<'a> {
    pub user_id: i32,
    pub secret: &'a str,
    pub expiration: i64,
}

impl<'a> CreateTokenRecord<'a> {
    pub fn new(user_id: i32, secret: &'a str, expiration: i64) -> (r:
        CreateTokenRecord<'a>)
        ensures
            r.user_id == user_id,
            r.secret == secret,
            r.expiration == expiration,
    {
        CreateTokenRecord { user_id, secret, expiration }
    }
}

impl TokenRecord {
    pub fn create<'a>(user_id: i32, secret: &'a str, expiration: i64) -> (r:
        CreateTokenRecord<'a>)
        ensures
            r.user_id == user_id,
            r.secret == secret,
            r.expiration == expiration,
    {
        CreateTokenRecord::new(user_id, secret, expiration)
    }
}

impl Token {
    pub fn create_record<'a>(
        user_id: i32,
        secret: &'a str,
        expiration: i64,
    ) -> (r: CreateTokenRecord<'a>)
        ensures
            r.user_id == user_id,
            r.secret == secret,
            r.expiration == expiration,
    {
        CreateTokenRecord::new(user_id, secret, expiration)
    }
}

} // verus!
