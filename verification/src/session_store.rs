//! The decisions of the SQLite session store: how its failures are reported
//! to the session layer, and what follows an attempt to store a new
//! session.

use vstd::prelude::*;

verus! {

/// A failure of the session store, with the description of its cause.
#[derive(Debug)]
pub enum Error {
    Diesel(String),
    Pool(String),
    Interact(String),
    Encode(String),
    Decode(String),
}

/// The kinds of failure the session layer distinguishes.
#[derive(Clone, Copy, Debug, PartialEq, Eq, Structural)]
pub enum StoreErrorKind {
    Backend,
    Decode,
    Encode,
}

/// The kind a store failure is reported as: database and pool failures are
/// backend failures.
pub open spec fn spec_kind(e: Error) -> StoreErrorKind {
    match e {
        Error::Diesel(_) | Error::Pool(_) | Error::Interact(_) => StoreErrorKind::Backend,
        Error::Decode(_) => StoreErrorKind::Decode,
        Error::Encode(_) => StoreErrorKind::Encode,
    }
}

/// The description a store failure carries.
pub open spec fn spec_detail(e: Error) -> String {
    match e {
        Error::Diesel(d) | Error::Pool(d) | Error::Interact(d) | Error::Decode(d) | Error::Encode(
            d,
        ) => d,
    }
}

impl Error {
    /// How this failure is reported to the session layer: its kind and its
    /// description.
    pub fn into_store_error(self) -> (r: (StoreErrorKind, String))
        ensures
            r.0 == spec_kind(self),
            r.1 == spec_detail(self),
    {
        match self {
            Error::Diesel(d) => (StoreErrorKind::Backend, d),
            Error::Pool(d) => (StoreErrorKind::Backend, d),
            Error::Interact(d) => (StoreErrorKind::Backend, d),
            Error::Decode(d) => (StoreErrorKind::Decode, d),
            Error::Encode(d) => (StoreErrorKind::Encode, d),
        }
    }
}

/// How an attempt to insert a new session row turned out.
pub enum InsertOutcome {
    Inserted,
    /// A session with the same identifier exists.
    IdTaken,
    Failed(Error),
}

/// What follows an attempt to store a new session.
pub enum CreateStep {
    Done,
    /// Draw a new identifier and try again.
    Retry,
    Fail(Error),
}

/// Decides what follows an insert: done when inserted, another try with a
/// new identifier when the identifier is taken, failure otherwise.
pub fn after_insert(outcome: InsertOutcome) -> (r: CreateStep)
    ensures
        match outcome {
            InsertOutcome::Inserted => r is Done,
            InsertOutcome::IdTaken => r is Retry,
            InsertOutcome::Failed(e) => r == CreateStep::Fail(e),
        },
{
    match outcome {
        InsertOutcome::Inserted => CreateStep::Done,
        InsertOutcome::IdTaken => CreateStep::Retry,
        InsertOutcome::Failed(e) => CreateStep::Fail(e),
    }
}

} // verus!
