//! E-mail addresses of users.

use vstd::prelude::*;
use super::unverified_email::UnverifiedEmail;

verus! {

/// An address a user registered, and whether they proved they own it.
pub struct Email {
    pub id: i32,
    pub user_id: i32,
    pub address: String,
    pub verified: bool,
}

/// An address row as stored.
pub struct EmailRecord {
    pub id: i32,
    pub user_id: i32,
    pub address: String,
    pub verified: bool,
}

impl Email {
    /// The text an address displays as: the address itself.
    pub fn display(&self) -> (s: &str)
        ensures
            s@ == self.address@,
    {
        self.address.as_str()
    }
}

impl From<EmailRecord> for Email {
    fn from(value: EmailRecord) -> (e: Self) {
        Email {
            id: value.id,
            user_id: value.user_id,
            address: value.address,
            verified: value.verified,
        }
    }
}

impl vstd::std_specs::convert::FromSpecImpl<EmailRecord> for Email {
    open spec fn obeys_from_spec() -> bool {
        true
    }

    open spec fn from_spec(value: EmailRecord) -> Email {
        Email {
            id: value.id,
            user_id: value.user_id,
            address: value.address,
            verified: value.verified,
        }
    }
}

impl From<UnverifiedEmail> for Email {
    fn from(value: UnverifiedEmail) -> (e: Self) {
        Email { id: value.id, user_id: value.user_id, address: value.address, verified: false }
    }
}

impl vstd::std_specs::convert::FromSpecImpl<UnverifiedEmail> for Email {
    open spec fn obeys_from_spec() -> bool {
        true
    }

    open spec fn from_spec(value: UnverifiedEmail) -> Email {
        Email { id: value.id, user_id: value.user_id, address: value.address, verified: false }
    }
}

impl From<Email> for EmailRecord {
    fn from(value: Email) -> (e: Self) {
        EmailRecord {
            id: value.id,
            user_id: value.user_id,
            address: value.address,
            verified: value.verified,
        }
    }
}

impl vstd::std_specs::convert::FromSpecImpl<Email> for EmailRecord {
    open spec fn obeys_from_spec() -> bool {
        true
    }

    open spec fn from_spec(value: Email) -> EmailRecord {
        EmailRecord {
            id: value.id,
            user_id: value.user_id,
            address: value.address,
            verified: value.verified,
        }
    }
}

/// An address to be stored for a user.
pub struct CreateEmailRecord<'a> {
    pub user_id: i32,
    pub address: &'a str,
}

impl<'a> CreateEmailRecord<'a> {
    pub fn new(user_id: i32, address: &'a str) -> (r: CreateEmailRecord<'a>)
        ensures
            r.user_id == user_id,
            r.address == address,
    {
        CreateEmailRecord { user_id, address }
    }
}

/// A change to a stored address: its row, and its new verification state
/// if it changes.
pub struct UpdateEmailRecord {
    pub id: i32,
    pub verified: Option<bool>,
}

impl UpdateEmailRecord {
    pub fn new(id: i32) -> (r: Self)
        ensures
            r.id == id,
            r.verified is None,
    {
        UpdateEmailRecord { id, verified: None }
    }

    pub fn from_email(email: &Email) -> (r: Self)
        ensures
            r.id == email.id,
            r.verified == Some(email.verified),
    {
        UpdateEmailRecord { id: email.id, verified: Some(email.verified) }
    }

    pub fn from_record(record: &EmailRecord) -> (r: Self)
        ensures
            r.id == record.id,
            r.verified == Some(record.verified),
    {
        UpdateEmailRecord { id: record.id, verified: Some(record.verified) }
    }

    pub fn with_verified(self, verified: bool) -> (r: Self)
        ensures
            r.id == self.id,
            r.verified == Some(verified),
    {
        UpdateEmailRecord { verified: Some(verified), ..self }
    }
}

impl EmailRecord {
    pub fn create<'a>(user_id: i32, address: &'a str) -> (r: CreateEmailRecord<'a>)
        ensures
            r.user_id == user_id,
            r.address == address,
    {
        CreateEmailRecord::new(user_id, address)
    }

    pub fn update(&self) -> (r: UpdateEmailRecord)
        ensures
            r.id == self.id,
            r.verified == Some(self.verified),
    {
        UpdateEmailRecord::from_record(self)
    }
}

impl Email {
    pub fn create_record<'a>(user_id: i32, address: &'a str) -> (r: CreateEmailRecord<'a>)
        ensures
            r.user_id == user_id,
            r.address == address,
    {
        CreateEmailRecord::new(user_id, address)
    }

    pub fn update_record(&self) -> (r: UpdateEmailRecord)
        ensures
            r.id == self.id,
            r.verified == Some(self.verified),
    {
        UpdateEmailRecord::from_email(self)
    }
}

} // verus!
