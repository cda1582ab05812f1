use vstd::prelude::*;
use vstd::string::*;
use std::path::PathBuf;

verus! {

#[verifier::external_type_specification]
#[verifier::external_body]
pub struct ExPathBuf(PathBuf);

/// Relies on `Path::to_str`: the path as text when it is valid Unicode.
#[verifier::external_body]
fn path_str(path: &PathBuf) -> (r: Option<&str>) {
    path.to_str()
}

/// The text of a path, or `None` when the path is not valid Unicode.
pub fn path_to_string(path: &PathBuf) -> (r: Option<String>)
{
    match path_str(path) {
        Some(s) => Some(String::from_str(s)),
        None => None,
    }
}

} // verus!
