//! The library's construction-time error type: everything that can go wrong
//! when a value is built, before it ever enters the tree. Once a node is
//! constructed it is guaranteed renderable; rendering itself cannot fail.
use vstd::prelude::*;

use crate::identifier;
use crate::non_empty_vec;

verus! {

/// A construction error: an invalid identifier, or an empty list where C
/// forbids one.
#[derive(Debug)]
pub enum Error {
    Identifier(identifier::Error),
    NonEmptyVec(non_empty_vec::Error),
}

impl From<identifier::Error> for Error {
    fn from(e: identifier::Error) -> (r: Error) {
        Error::Identifier(e)
    }
}

impl vstd::std_specs::convert::FromSpecImpl<identifier::Error> for Error {
    open spec fn obeys_from_spec() -> bool {
        true
    }

    open spec fn from_spec(e: identifier::Error) -> Error {
        Error::Identifier(e)
    }
}

impl From<non_empty_vec::Error> for Error {
    fn from(e: non_empty_vec::Error) -> (r: Error) {
        Error::NonEmptyVec(e)
    }
}

impl vstd::std_specs::convert::FromSpecImpl<non_empty_vec::Error> for Error {
    open spec fn obeys_from_spec() -> bool {
        true
    }

    open spec fn from_spec(e: non_empty_vec::Error) -> Error {
        Error::NonEmptyVec(e)
    }
}

} // verus!
