//! Timestamps carried by the library: UTC wall-clock instants held as chrono's naive
//! date-time (the UTC offset is implied everywhere in this crate).
use vstd::prelude::*;

verus! {

#[verifier::external_type_specification]
#[verifier::external_body]
pub struct ExNaiveDateTime(chrono::NaiveDateTime);

} // verus!
