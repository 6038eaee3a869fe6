//! Combinators for event handlers that report whether they consumed an event.
//!
//! A `HandleFlow` is `Err(())` when the event was handled (propagation stops,
//! as with `?`) and `Ok(())` when it was not. A `HandleFlowResult<E>` adds a
//! third outcome, a failure carrying an `E`.

use vstd::prelude::*;

verus! {

/// `Err(())`: handled, `Ok(())`: not handled.
pub type HandleFlow = Result<(), ()>;

/// `Err(Ok(()))`: handled, `Err(Err(e))`: failed with `e`, `Ok(())`: not handled.
pub type HandleFlowResult<E> = Result<(), Result<(), E>>;

/// The outcome that the spec functions below give a `HandleFlowResult`.
pub open spec fn spec_flow_result_into_result<E>(r: HandleFlowResult<E>) -> Result<(), E> {
    match r {
        Ok(()) => Ok(()),
        Err(inner) => inner,
    }
}

/// What `into_flow_result` makes of a `HandleFlow`.
pub open spec fn spec_flow_into_flow_result<E>(f: HandleFlow) -> HandleFlowResult<E> {
    match f {
        Ok(()) => Ok(()),
        Err(()) => Err(Ok(())),
    }
}

/// What `into_handled` makes of a plain result: the event counts as handled,
/// and the result (success or failure) is carried along.
pub open spec fn spec_into_handled<E>(r: Result<(), E>) -> HandleFlowResult<E> {
    Err(r)
}

/// What `into_unhandled` makes of a plain result: success means not handled,
/// failure is passed on as a failure.
pub open spec fn spec_into_unhandled<E>(r: Result<(), E>) -> HandleFlowResult<E> {
    match r {
        Ok(()) => Ok(()),
        Err(e) => Err(Err(e)),
    }
}

pub trait HandleFlowExt: Sized {
    fn handled() -> Self;

    fn unhandled() -> Self;

    fn into_flow_result<E>(self) -> HandleFlowResult<E>;
}

impl HandleFlowExt for HandleFlow {
    fn handled() -> (r: Self)
        ensures
            r == Err::<(), ()>(()),
    {
        Err(())
    }

    fn unhandled() -> (r: Self)
        ensures
            r == Ok::<(), ()>(()),
    {
        Ok(())
    }

    fn into_flow_result<E>(self) -> (r: HandleFlowResult<E>)
        ensures
            r == spec_flow_into_flow_result::<E>(self),
    {
        match self {
            Ok(()) => Ok(()),
            Err(()) => Err(Ok(())),
        }
    }
}

pub trait HandleFlowResultExt: Sized {
    type Error;

    fn handled() -> Self;

    fn unhandled() -> Self;

    fn error(error: Self::Error) -> Self;

    fn into_result(self) -> Result<(), Self::Error>;
}

impl<E> HandleFlowResultExt for HandleFlowResult<E> {
    type Error = E;

    fn handled() -> (r: Self)
        ensures
            r == Err::<(), Result<(), E>>(Ok(())),
    {
        Err(Ok(()))
    }

    fn unhandled() -> (r: Self)
        ensures
            r == Ok::<(), Result<(), E>>(()),
    {
        Ok(())
    }

    fn error(error: E) -> (r: Self)
        ensures
            r == Err::<(), Result<(), E>>(Err(error)),
    {
        Err(Err(error))
    }

    fn into_result(self) -> (r: Result<(), E>)
        ensures
            r == spec_flow_result_into_result(self),
    {
        match self {
            Ok(()) => Ok(()),
            Err(result) => result,
        }
    }
}

pub trait ResultExt: Sized {
    type Output;

    fn into_handled(self) -> Self::Output;

    fn into_unhandled(self) -> Self::Output;
}

impl<E> ResultExt for Result<(), E> {
    type Output = HandleFlowResult<E>;

    fn into_handled(self) -> (r: HandleFlowResult<E>)
        ensures
            r == spec_into_handled(self),
    {
        Err(self)
    }

    fn into_unhandled(self) -> (r: HandleFlowResult<E>)
        ensures
            r == spec_into_unhandled(self),
    {
        match self {
            Ok(()) => Ok(()),
            Err(e) => Err(Err(e)),
        }
    }
}

/// Collapsing a handler outcome to a plain result: a handled event and an
/// unhandled one both succeed, a failure keeps its error.
pub proof fn lemma_into_result_outcomes<E>(e: E)
    ensures
        spec_flow_result_into_result::<E>(Err(Ok(()))) == Ok::<(), E>(()),
        spec_flow_result_into_result::<E>(Ok(())) == Ok::<(), E>(()),
        spec_flow_result_into_result::<E>(Err(Err(e))) == Err::<(), E>(e),
{
}

/// Marking a result as handled or as unhandled and collapsing it again gives
/// back the same result.
pub proof fn lemma_into_result_undoes_marking<E>(r: Result<(), E>)
    ensures
        spec_flow_result_into_result(spec_into_handled(r)) == r,
        spec_flow_result_into_result(spec_into_unhandled(r)) == r,
{
    match r {
        Ok(u) => assert(u == ()),
        Err(_) => {},
    }
}

/// A handled `HandleFlow` stays handled, an unhandled one stays unhandled,
/// and neither becomes a failure.
pub proof fn lemma_flow_result_keeps_handledness<E>(f: HandleFlow)
    ensures
        (spec_flow_into_flow_result::<E>(f) is Err) <==> (f is Err),
        spec_flow_result_into_result(spec_flow_into_flow_result::<E>(f)) == Ok::<(), E>(()),
{
}

/// A successful plain result marked as unhandled is the unhandled outcome,
/// and a failed one becomes the failure outcome with the same error.
pub proof fn lemma_into_unhandled_cases<E>(e: E)
    ensures
        spec_into_unhandled::<E>(Ok(())) == Ok::<(), Result<(), E>>(()),
        spec_into_unhandled::<E>(Err(e)) == Err::<(), Result<(), E>>(Err(e)),
        spec_into_handled::<E>(Ok(())) == Err::<(), Result<(), E>>(Ok(())),
{
}

} // verus!
