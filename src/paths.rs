use vstd::prelude::*;

verus! {

/// The path that `Path::join` makes of `base` and `name`.
pub uninterp spec fn joined_path(base: Seq<char>, name: Seq<char>) -> Seq<char>;

/// Relies on `Path::join`: `name` appended to `base` with a separator, or
/// `name` alone where it is absolute. Both inputs are UTF-8, so the result
/// reads back as text unchanged.
#[verifier::external_body]
pub(crate) fn join_path(base: &str, name: &str) -> (r: String)
    ensures
        r@ == joined_path(base@, name@),
{
    std::path::Path::new(base).join(name).to_string_lossy().into_owned()
}

} // verus!
