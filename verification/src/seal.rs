//! The seal that keeps [`Strict`](crate::strict::Strict) to `Result`.

use vstd::prelude::*;

verus! {

/// Implemented for `Result` alone. The module is private, so no other crate can name the
/// trait, and none can implement a trait that has it as a supertrait.
pub trait Sealed {

}

impl<A, B> Sealed for Result<A, B> {

}

} // verus!
