//! std types that the library carries without looking inside them.

use vstd::prelude::*;

verus! {

/// An I/O error reported by the operating system; carried unchanged to the
/// caller inside the library's error types.
#[verifier::external_type_specification]
#[verifier::external_body]
pub struct ExIoError(std::io::Error);

/// A filesystem path that could not be used as UTF-8 text; carried unchanged
/// inside the library's error types.
#[verifier::external_type_specification]
#[verifier::external_body]
pub struct ExPathBuf(std::path::PathBuf);

} // verus!
