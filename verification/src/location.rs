//! Source positions.

use vstd::prelude::*;

verus! {

/// `cssparser::SourceLocation`: the line and column at which the tokenizer found a declaration.
/// Nothing here looks inside one; it is carried along for diagnostics.
#[verifier::external_type_specification]
#[verifier::external_body]
pub struct ExSourceLocation(cssparser::SourceLocation);

} // verus!
