//! What holds of the early-exit protocol as a whole, proved from the contracts.

use crate::propagate::FromResidual;
use crate::strict::StrictResult;
use core::convert::Infallible;
use core::ops::ControlFlow;
use vstd::prelude::*;
use vstd::std_specs::convert::FromSpec;

verus! {

/// Branching has one outcome.
pub proof fn lemma_branch_is_deterministic<A, B>(
    s: StrictResult<A, B>,
    first: ControlFlow<StrictResult<Infallible, B>, A>,
    second: ControlFlow<StrictResult<Infallible, B>, A>,
)
    requires
        s.branches_to(first),
        s.branches_to(second),
    ensures
        first == second,
{
    match (first, second) {
        (ControlFlow::Break(r1), ControlFlow::Break(r2)) => {
            r1.lemma_same_view_same_wrapper(r2);
        },
        _ => {},
    }
}

/// Branching on a wrapped success goes on with the payload and leaves nothing to return.
pub proof fn lemma_success_continues<A, B>(
    a: A,
    flow: ControlFlow<StrictResult<Infallible, B>, A>,
)
    requires
        StrictResult::<A, B>::wrap(Ok(a)).branches_to(flow),
    ensures
        flow == ControlFlow::<StrictResult<Infallible, B>, A>::Continue(a),
{
    StrictResult::<A, B>::lemma_loose_after_strict(Ok(a));
}

/// Branching on a wrapped failure breaks, and the residual is that failure, wrapped.
pub proof fn lemma_failure_breaks<A, B>(
    b: B,
    flow: ControlFlow<StrictResult<Infallible, B>, A>,
)
    requires
        StrictResult::<A, B>::wrap(Err(b)).branches_to(flow),
    ensures
        flow == ControlFlow::<StrictResult<Infallible, B>, A>::Break(
            StrictResult::wrap(Err(b)),
        ),
{
    StrictResult::<A, B>::lemma_loose_after_strict(Err(b));
    StrictResult::<Infallible, B>::lemma_loose_after_strict(Err(b));
    match flow {
        ControlFlow::Break(res) => {
            res.lemma_same_view_same_wrapper(StrictResult::wrap(Err(b)));
        },
        _ => {},
    }
}

/// A failure that leaves through a function returning a strict result arrives as the same
/// payload, whatever success type that function has.
pub proof fn lemma_failure_leaves_unchanged_strict<A, A2, B>(
    b: B,
    res: StrictResult<Infallible, B>,
    out: StrictResult<A2, B>,
)
    requires
        StrictResult::<A, B>::wrap(Err(b)).branches_to(ControlFlow::Break(res)),
        <StrictResult<A2, B> as FromResidual<StrictResult<Infallible, B>>>::rebuilds(res, out),
    ensures
        out@ == Err::<A2, B>(b),
        out == StrictResult::<A2, B>::wrap(Err(b)),
{
    StrictResult::<A, B>::lemma_loose_after_strict(Err(b));
    StrictResult::<A2, B>::lemma_loose_after_strict(Err(b));
    out.lemma_same_view_same_wrapper(StrictResult::wrap(Err(b)));
}

/// A failure that leaves through a function returning a plain `Result` arrives as the same
/// payload, whatever success type that function has.
pub proof fn lemma_failure_leaves_unchanged_loose<A, A2, B>(
    b: B,
    res: StrictResult<Infallible, B>,
    out: Result<A2, B>,
)
    requires
        StrictResult::<A, B>::wrap(Err(b)).branches_to(ControlFlow::Break(res)),
        <Result<A2, B> as FromResidual<StrictResult<Infallible, B>>>::rebuilds(res, out),
    ensures
        out == Err::<A2, B>(b),
{
    StrictResult::<A, B>::lemma_loose_after_strict(Err(b));
}

/// Where the failure of a plain `Result` enters a strict result, it is converted as `From`
/// says, and in no other way.
pub proof fn lemma_entering_failure_is_converted<A, B, B2: From<B>>(
    b: B,
    out: StrictResult<A, B2>,
)
    requires
        <StrictResult<A, B2> as FromResidual<Result<Infallible, B>>>::rebuilds(Err(b), out),
        B2::obeys_from_spec(),
    ensures
        out@ == Err::<A, B2>(B2::from_spec(b)),
{
}

} // verus!
