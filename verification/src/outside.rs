//! The values of other crates that the library carries without looking inside.

use vstd::prelude::*;

verus! {

/// A JSON document of `serde_json`, carried as configuration.
#[verifier::external_type_specification]
#[verifier::external_body]
pub struct ExJsonValue(serde_json::Value);

/// A file system path of the standard library, carried as a binary's location.
#[verifier::external_type_specification]
#[verifier::external_body]
pub struct ExPathBuf(std::path::PathBuf);

/// What a JSON document holds: the compact text that `serde_json::to_string`
/// writes for it, which depends on the document alone.
pub uninterp spec fn json_text(value: serde_json::Value) -> Seq<char>;

/// `serde_json::Value::Object` over `serde_json::Map::new()`: the object
/// without members, which `serde_json::to_string` writes as an opening and a
/// closing brace with nothing between them.
#[verifier::external_body]
pub(crate) fn empty_object() -> (value: serde_json::Value)
    ensures
        json_text(value) == "{}"@,
{
    serde_json::Value::Object(serde_json::Map::new())
}

/// `Clone::clone` of `serde_json::Value`, which is derived: the copy is the
/// same document.
pub assume_specification[ <serde_json::Value as Clone>::clone ](
    value: &serde_json::Value,
) -> (copy: serde_json::Value)
    ensures
        copy == *value,
;

/// `Clone::clone` of `std::path::PathBuf`: the copy is the same path.
pub assume_specification[ <std::path::PathBuf as Clone>::clone ](
    path: &std::path::PathBuf,
) -> (copy: std::path::PathBuf)
    ensures
        copy == *path,
;

} // verus!
