pub mod app_error;
pub mod error;

use vstd::prelude::*;

verus! {

#[verifier::external_type_specification]
#[verifier::external_body]
pub struct ExErrorLocation(error_location::ErrorLocation);

} // verus!
