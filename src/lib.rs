//! Helpers that shorten common patterns on `std::io::Result`: reading a
//! "not found" failure as an absent value, and an "already exists" failure as
//! a successful no-op.
use vstd::prelude::*;

mod sealed;

use sealed::Sealed;

verus! {

/// `std::io::Error`, carried through unopened.
#[verifier::external_type_specification]
#[verifier::external_body]
pub struct ExIoError(std::io::Error);

/// `std::io::ErrorKind`, a plain enum without fields: its variants are read
/// so that contracts can name `NotFound` and `AlreadyExists`.
#[verifier::external_type_specification]
pub struct ExIoErrorKind(std::io::ErrorKind);

/// The kind that `std::io::Error::kind` reports for an error.
pub uninterp spec fn io_error_kind(e: std::io::Error) -> std::io::ErrorKind;

/// Relies on `std::io::Error::kind`: it reads the kind stored in the error
/// and changes nothing, so the same error always reports the same kind.
pub assume_specification[ std::io::Error::kind ](e: &std::io::Error) -> (r: std::io::ErrorKind)
    ensures
        r == io_error_kind(*e),
;

/// The error stands for an entity that does not exist.
pub open spec fn is_not_found(e: std::io::Error) -> bool {
    io_error_kind(e) == std::io::ErrorKind::NotFound
}

/// The error stands for an entity that is already there.
pub open spec fn is_already_exists(e: std::io::Error) -> bool {
    io_error_kind(e) == std::io::ErrorKind::AlreadyExists
}

/// A collection of helper methods for `std::io::Result`.
pub trait IoResultExt<T>: Sealed + Sized {
    /// Maps a "not found" failure to `Ok(None)` and a success `v` to
    /// `Ok(Some(v))`; every other failure is returned as it is.
    fn optional(self) -> std::io::Result<Option<T>>;

    /// Maps an "already exists" failure to `Ok` of the default value; a
    /// success and every other failure are returned as they are.
    fn can_exist(self) -> Self
        where
            T: Default,
    ;
}

impl<T> IoResultExt<T> for std::io::Result<T> {
    fn optional(self) -> (r: std::io::Result<Option<T>>)
        ensures
            match self {
                Ok(v) => r == Ok::<Option<T>, std::io::Error>(Some(v)),
                Err(e) => if is_not_found(e) {
                    r == Ok::<Option<T>, std::io::Error>(None)
                } else {
                    r == Err::<Option<T>, std::io::Error>(e)
                },
            },
    {
        match self {
            Ok(t) => Ok(Some(t)),
            Err(e) => match e.kind() {
                std::io::ErrorKind::NotFound => Ok(None),
                _ => Err(e),
            },
        }
    }

    fn can_exist(self) -> (r: Self)
        where
            T: Default,
        ensures
            match self {
                Ok(v) => r == Ok::<T, std::io::Error>(v),
                Err(e) => if is_already_exists(e) {
                    r matches Ok(d) && call_ensures(T::default, (), d)
                } else {
                    r == Err::<T, std::io::Error>(e)
                },
            },
    {
        match self {
            Ok(t) => Ok(t),
            Err(e) => match e.kind() {
                std::io::ErrorKind::AlreadyExists => Ok(T::default()),
                _ => Err(e),
            },
        }
    }
}

} // verus!
