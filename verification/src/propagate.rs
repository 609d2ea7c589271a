//! The early-exit protocol of a strict result: branch, then go on or rebuild.
//!
//! A caller that wants to leave early on failure branches on the value:
//!
//! ```text
//! let v = match call().strict().branch() {
//!     ControlFlow::Continue(v) => v,
//!     ControlFlow::Break(residual) => return FromResidual::from_residual(residual),
//! };
//! ```
//!
//! The residual of a [`StrictResult`] is rebuilt at its own failure type and no other, so the
//! failure type of `call()` has to be the one that the caller returns. A conversion, where
//! one is wanted, is written out before `strict()`.

use crate::strict::Strict;
use crate::strict::StrictResult;
use core::convert::Infallible;
use core::ops::ControlFlow;
use vstd::prelude::*;

verus! {

impl<A, B> StrictResult<A, B> {
    /// Whether `flow` is the outcome of branching on `self`: a success continues with its
    /// payload, a failure breaks with a residual that holds the same payload.
    pub open spec fn branches_to(self, flow: ControlFlow<StrictResult<Infallible, B>, A>) -> bool {
        match self@ {
            Ok(a) => flow == ControlFlow::<StrictResult<Infallible, B>, A>::Continue(a),
            Err(b) => flow matches ControlFlow::Break(res) && res@ == Err::<Infallible, B>(b),
        }
    }

    /// Wraps the value of an expression that ran to its end.
    pub fn from_output(a: A) -> (s: Self)
        ensures
            s == Self::wrap(Ok(a)),
            s@ == Ok::<A, B>(a),
    {
        Ok(a).strict()
    }

    /// Decides between going on and leaving early.
    pub fn branch(self) -> (flow: ControlFlow<StrictResult<Infallible, B>, A>)
        ensures
            self.branches_to(flow),
    {
        match self.loose() {
            Ok(v) => ControlFlow::Continue(v),
            Err(e) => ControlFlow::Break(Err(e).strict()),
        }
    }
}

/// Rebuilding the value that a function returns from the residual of an early exit.
///
/// A residual is a `Result` or a [`StrictResult`] whose success type is `Infallible`. That
/// type has no values, so every residual that a program holds is a failure, and the functions
/// below match on that one variant.
pub trait FromResidual<R>: Sized {
    /// Whether `out` is a value that [`from_residual`](Self::from_residual) may give for `r`.
    spec fn rebuilds(r: R, out: Self) -> bool;

    /// The value to return when an inner expression broke with `r`.
    fn from_residual(r: R) -> (out: Self)
        ensures
            Self::rebuilds(r, out),
    ;
}

/// A strict residual leaves a function that returns a strict result: the failure type is
/// the same on both sides and the payload is handed on as it is.
impl<A, B> FromResidual<StrictResult<Infallible, B>> for StrictResult<A, B> {
    open spec fn rebuilds(r: StrictResult<Infallible, B>, out: Self) -> bool {
        out@ == Err::<A, B>(r@->Err_0)
    }

    fn from_residual(r: StrictResult<Infallible, B>) -> (out: Self) {
        match r.loose() {
            Err(e) => Err(e).strict(),
        }
    }
}

/// A strict residual leaves a function that returns a plain `Result`: the failure type is
/// the same on both sides and the payload is handed on as it is.
impl<A, B> FromResidual<StrictResult<Infallible, B>> for Result<A, B> {
    open spec fn rebuilds(r: StrictResult<Infallible, B>, out: Self) -> bool {
        out == Err::<A, B>(r@->Err_0)
    }

    fn from_residual(r: StrictResult<Infallible, B>) -> (out: Self) {
        match r.loose() {
            Err(e) => Err(e),
        }
    }
}

/// The residual of a plain `Result` leaves a function that returns a strict result. This is
/// the one place where a failure is converted: the payload goes through `From`, once, as it
/// does between two plain `Result`s.
impl<A, B, B2: From<B>> FromResidual<Result<Infallible, B>> for StrictResult<A, B2> {
    open spec fn rebuilds(r: Result<Infallible, B>, out: Self) -> bool {
        &&& out@ is Err
        &&& call_ensures(B2::from, (r->Err_0,), out@->Err_0)
    }

    fn from_residual(r: Result<Infallible, B>) -> (out: Self) {
        match r {
            Err(e) => Err(e.into()).strict(),
        }
    }
}

} // verus!
