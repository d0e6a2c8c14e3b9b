use vstd::prelude::*;

verus! {

/// The error of the versioned encoding, which a migration may return.
#[verifier::external_type_specification]
#[verifier::external_body]
pub struct ExRevisionError(revision::Error);

} // verus!
