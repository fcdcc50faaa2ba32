use vstd::prelude::*;

verus! {

/// The directory part of a path, as the platform's path rules read it; none
/// for a root or an empty path.
pub uninterp spec fn parent_of(path: Seq<char>) -> Option<Seq<char>>;

/// A relative path resolved against a directory, as the platform's path rules
/// join them.
pub uninterp spec fn joined(dir: Seq<char>, rel: Seq<char>) -> Seq<char>;

/// Relies on std::path::Path::parent: the directory that contains `path`, or
/// none where `path` has no parent.
#[verifier::external_body]
pub(crate) fn path_parent(path: &str) -> (r: Option<String>)
    ensures
        match r {
            Some(d) => parent_of(path@) == Some(d@),
            None => parent_of(path@) is None,
        },
{
    match std::path::Path::new(path).parent() {
        Some(d) => Some(d.to_string_lossy().into_owned()),
        None => None,
    }
}

/// Relies on std::path::Path::join: `rel` resolved against `dir`.
#[verifier::external_body]
pub(crate) fn path_join(dir: &str, rel: &str) -> (r: String)
    ensures
        r@ == joined(dir@, rel@),
{
    std::path::Path::new(dir).join(rel).to_string_lossy().into_owned()
}

} // verus!
