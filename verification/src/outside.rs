//! Types of other crates that the library carries without looking inside.
use vstd::prelude::*;

verus! {

/// An error of the operating system's input and output.
#[verifier::external_type_specification]
#[verifier::external_body]
pub struct ExIoError(std::io::Error);

} // verus!
