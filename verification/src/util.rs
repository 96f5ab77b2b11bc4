//! Turning an optional result into a result of an option, and back.

use vstd::prelude::*;

verus! {

/// An `Option` of a `Result` that can be turned inside out.
pub trait FlipResultOption<R, E>: Sized {
    /// The value turned inside out: an absent value is a success without a
    /// value, a present failure is the failure.
    spec fn flipped(self) -> Result<Option<R>, E>;

    fn flip(self) -> (flipped: Result<Option<R>, E>)
        ensures
            flipped == self.flipped(),
    ;
}

impl<R, E> FlipResultOption<R, E> for Option<Result<R, E>> {
    open spec fn flipped(self) -> Result<Option<R>, E> {
        match self {
            Some(Ok(r)) => Ok(Some(r)),
            Some(Err(e)) => Err(e),
            None => Ok(None),
        }
    }

    fn flip(self) -> (flipped: Result<Option<R>, E>) {
        match self {
            Some(Ok(r)) => Ok(Some(r)),
            Some(Err(e)) => Err(e),
            None => Ok(None),
        }
    }
}

/// A `Result` of an `Option` that can be turned inside out.
pub trait FlipOptionResult<R, E>: Sized {
    /// The value turned inside out: a success without a value is absent, a
    /// failure is a present failure.
    spec fn flipped(self) -> Option<Result<R, E>>;

    fn flip(self) -> (flipped: Option<Result<R, E>>)
        ensures
            flipped == self.flipped(),
    ;
}

impl<R, E> FlipOptionResult<R, E> for Result<Option<R>, E> {
    open spec fn flipped(self) -> Option<Result<R, E>> {
        match self {
            Ok(Some(v)) => Some(Ok(v)),
            Ok(None) => None,
            Err(e) => Some(Err(e)),
        }
    }

    fn flip(self) -> (flipped: Option<Result<R, E>>) {
        match self {
            Ok(Some(v)) => Some(Ok(v)),
            Ok(None) => None,
            Err(e) => Some(Err(e)),
        }
    }
}

} // verus!
