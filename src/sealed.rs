use vstd::prelude::*;

verus! {

/// Keeps the extension trait from being implemented on types other than
/// `std::io::Result`.
pub trait Sealed {}

impl<T> Sealed for std::io::Result<T> {}

} // verus!
