//! The wrapper type and the two conversions between it and `Result`.

use crate::seal::Sealed;
use vstd::prelude::*;

verus! {

/// A `Result` marked as strict: one field and no state of its own.
///
/// Its view is the `Result` inside. [`Strict::strict`] makes one and
/// [`StrictResult::loose`] gives the `Result` back. The type is meant to live for one
/// expression, between the call that returned the `Result` and the branch on it.
#[must_use]
pub struct StrictResult<A, B>(Result<A, B>);

impl<A, B> View for StrictResult<A, B> {
    type V = Result<A, B>;

    closed spec fn view(&self) -> Result<A, B> {
        self.0
    }
}

impl<A, B> StrictResult<A, B> {
    /// The wrapper that holds `r`.
    pub closed spec fn wrap(r: Result<A, B>) -> Self {
        StrictResult(r)
    }

    /// Takes the wrapper off.
    pub fn loose(self) -> (r: Result<A, B>)
        ensures
            r == self@,
    {
        self.0
    }

    /// Taking the wrapper off a wrapped `Result` gives that `Result` back: a success stays
    /// the same success, a failure the same failure.
    pub proof fn lemma_loose_after_strict(r: Result<A, B>)
        ensures
            Self::wrap(r)@ == r,
    {
    }

    /// Wrapping what a wrapper holds gives that wrapper back.
    pub proof fn lemma_strict_after_loose(self)
        ensures
            Self::wrap(self@) == self,
    {
    }

    /// A wrapper is nothing more than the `Result` it holds: two wrappers with the same view
    /// are the same value.
    pub proof fn lemma_same_view_same_wrapper(self, other: Self)
        requires
            self@ == other@,
        ensures
            self == other,
    {
    }
}

/// Gives `Result` the method `strict`. The trait is sealed: no other type can have it.
pub trait Strict<A, B>: Sealed + Sized {
    /// The `Result` that `self` is.
    spec fn as_result(self) -> Result<A, B>;

    /// Puts the wrapper on.
    fn strict(self) -> (s: StrictResult<A, B>)
        ensures
            s == StrictResult::wrap(self.as_result()),
            s@ == self.as_result(),
    ;
}

impl<A, B> Strict<A, B> for Result<A, B> {
    open spec fn as_result(self) -> Result<A, B> {
        self
    }

    fn strict(self) -> (s: StrictResult<A, B>) {
        StrictResult(self)
    }
}

} // verus!
