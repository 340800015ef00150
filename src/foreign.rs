//! Types of other crates that the protocol's records carry through unread.
use vstd::prelude::*;

verus! {

/// A free-form JSON value (message payloads, entry values).
#[verifier::external_type_specification]
#[verifier::external_body]
pub struct ExJsonValue(serde_json::Value);

/// A file-system path (socket locations).
#[verifier::external_type_specification]
#[verifier::external_body]
pub struct ExPathBuf(std::path::PathBuf);

} // verus!

verus! {

/// Relies on the `Clone` that serde_json derives for `Value`.
pub assume_specification[ <serde_json::Value as Clone>::clone ](v: &serde_json::Value) -> serde_json::Value;

/// Relies on `Clone` for `std::path::PathBuf`.
pub assume_specification[ <std::path::PathBuf as Clone>::clone ](p: &std::path::PathBuf) -> std::path::PathBuf;

} // verus!
