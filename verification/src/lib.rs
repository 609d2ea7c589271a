//! A wrapper around [`Result`] whose early-exit protocol hands the failure payload on unchanged.
//!
//! Propagating a failure out of a plain `Result` passes the payload through `From`, so that a
//! narrow error can widen on the way out. In generic code that conversion can leave the error
//! type of an inner expression undetermined. A [`StrictResult`] takes the conversion away: the
//! payload that leaves is the payload that was inside, at the same type.
//!
//! Every function here is total and free of side effects, and each carries a contract over the
//! wrapper's view, the `Result` it holds.

pub mod laws;
pub mod propagate;
mod seal;
pub mod strict;

pub use crate::propagate::FromResidual;
pub use crate::strict::Strict;
pub use crate::strict::StrictResult;
