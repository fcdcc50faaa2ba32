use vstd::prelude::*;

verus! {

/// Errors that resolving a tileset can produce.
#[derive(Debug, Clone, PartialEq, Eq)]
pub enum Error {
    /// A required attribute is missing or has the wrong type, or a structural
    /// constraint of the tileset is broken.
    MalformedAttributes(String),
    /// The containing document's path has no parent directory.
    PathIsNotFile,
}

} // verus!
