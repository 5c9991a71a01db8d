//! Optional row identifiers.

use vstd::prelude::*;
use crate::text::{decimal, i64_to_decimal};

verus! {

/// The identifier of a row, absent until the row is stored.
#[derive(Clone, Copy, Debug)]
pub struct Id(pub Option<i64>);

/// How an identifier displays: its number, or `None`.
pub open spec fn id_text(id: Id) -> Seq<char> {
    match id.0 {
        Some(n) => decimal(n as int),
        None => "None"@,
    }
}

impl Default for Id {
    fn default() -> (id: Self)
        ensures
            id.0 is None,
    {
        Id(None)
    }
}

impl From<i64> for Id {
    fn from(value: i64) -> (id: Self) {
        Id(Some(value))
    }
}

impl vstd::std_specs::convert::FromSpecImpl<i64> for Id {
    open spec fn obeys_from_spec() -> bool {
        true
    }

    open spec fn from_spec(value: i64) -> Id {
        Id(Some(value))
    }
}

impl Id {
    /// The identifier, if the row is stored.
    pub fn value(&self) -> (v: &Option<i64>)
        ensures
            *v == self.0,
    {
        &self.0
    }

    /// The text this identifier displays as.
    pub fn display(&self) -> (s: String)
        ensures
            s@ == id_text(*self),
    {
        match self.0 {
            Some(n) => i64_to_decimal(n),
            None => "None".to_owned(),
        }
    }
}

} // verus!
