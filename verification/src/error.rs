//! Why an entry of a declaration list is dropped.

use vstd::prelude::*;

verus! {

/// Why an entry of a declaration list is dropped.  No error goes further than its entry: the
/// entries around it are read as if it had not been there.
#[derive(Debug, PartialEq, Eq)]
pub enum StyleParseErrorKind {
    /// The name stands for no known property.
    UnknownProperty(String),
    /// What stands where the value should be is no value of the property.
    InvalidValue,
    /// Something is left behind the value and its `!important`.
    UnexpectedInput,
}

} // verus!
