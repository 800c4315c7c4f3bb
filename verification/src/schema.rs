//! The outside types of the `schemars` crate that the data model carries.

use vstd::prelude::*;

verus! {

/// `schemars::Schema`, a JSON schema, carried through the library unread.
#[verifier::external_type_specification]
#[verifier::external_body]
pub struct ExSchema(schemars::Schema);

} // verus!
