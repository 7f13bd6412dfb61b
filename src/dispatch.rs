use vstd::prelude::*;
use crate::error::ClientError;
use crate::response::{EnvelopeViolation, RpcError, RpcResponse};

verus! {

/// The daemon's code for "still initializing; ask again".
pub const BOOTING_CODE: i32 = -28;

/// Which exchange of a call is being judged.
#[derive(Debug, Clone, Copy, PartialEq, Eq, Structural)]
pub enum Attempt {
    First,
    Second,
}

/// The two-layer value a call hands its caller.
pub type CallResult<R> = Result<Result<R, RpcError>, ClientError>;

/// What one exchange produced: a decoded envelope, or the failure that
/// kept it from being decoded.
pub type Outcome<R> = Result<RpcResponse<R>, ClientError>;

/// What to do after an exchange.
#[derive(Debug)]
pub enum Step<R> {
    /// Issue the same request once more.
    Resend,
    /// Hand this value to the caller.
    Finish(CallResult<R>),
}

/// The value an outcome stands for when nothing more is to be done.
pub open spec fn settled<R>(outcome: Outcome<R>) -> CallResult<R> {
    match outcome {
        Err(e) => Err(e),
        Ok(resp) => match resp.resolved() {
            Err(v) => Err(ClientError::Envelope(v)),
            Ok(inner) => Ok(inner),
        },
    }
}

/// The daemon reported that it is still booting.
pub open spec fn is_booting<R>(outcome: Outcome<R>) -> bool {
    match settled(outcome) {
        Ok(Err(e)) => e.code == BOOTING_CODE,
        _ => false,
    }
}

/// The retry policy: only a booting signal on the first exchange is resent.
pub open spec fn next_step<R>(attempt: Attempt, outcome: Outcome<R>) -> Step<R> {
    if attempt == Attempt::First && is_booting(outcome) {
        Step::Resend
    } else {
        Step::Finish(settled(outcome))
    }
}

/// How many exchanges a call makes, given what its first exchange produced.
pub open spec fn exchange_count<R>(first: Outcome<R>) -> nat {
    if next_step(Attempt::First, first) is Resend {
        2
    } else {
        1
    }
}

/// What a call returns, given the outcomes its exchanges would produce.
pub open spec fn call_result<R>(first: Outcome<R>, second: Outcome<R>) -> CallResult<R> {
    if is_booting(first) {
        settled(second)
    } else {
        settled(first)
    }
}

/// Judges the outcome of one exchange of a call.
pub fn step<R>(attempt: Attempt, outcome: Outcome<R>) -> (r: Step<R>)
    ensures
        r == next_step(attempt, outcome),
{
    match outcome {
        Err(e) => Step::Finish(Err(e)),
        Ok(resp) => match resp.into_result() {
            Err(v) => Step::Finish(Err(ClientError::Envelope(v))),
            Ok(Ok(r)) => Step::Finish(Ok(Ok(r))),
            Ok(Err(e)) => {
                let booting = e.code == BOOTING_CODE;
                if booting && attempt == Attempt::First {
                    Step::Resend
                } else {
                    Step::Finish(Ok(Err(e)))
                }
            },
        },
    }
}

/// A well-formed envelope that carries a result yields that result at once,
/// whichever exchange it answers, and no further exchange follows.
pub proof fn lemma_result_needs_no_retry<R>(attempt: Attempt, resp: RpcResponse<R>)
    requires
        resp.result is Some,
        resp.error is None,
    ensures
        next_step(attempt, Ok(resp)) == Step::<R>::Finish(Ok(Ok(resp.result->Some_0))),
        exchange_count(Ok::<RpcResponse<R>, ClientError>(resp)) == 1,
{
}

/// A daemon error other than the booting code is returned as the inner layer
/// of the first exchange, with no second exchange.
pub proof fn lemma_other_error_returned<R>(resp: RpcResponse<R>)
    requires
        resp.result is None,
        resp.error is Some,
        resp.error->Some_0.code != BOOTING_CODE,
    ensures
        next_step(Attempt::First, Ok(resp)) == Step::<R>::Finish(Ok(Err(resp.error->Some_0))),
        exchange_count(Ok::<RpcResponse<R>, ClientError>(resp)) == 1,
{
}

/// A booting signal on the first exchange causes exactly one more exchange,
/// whose outcome, whatever it is, is what the call returns.
pub proof fn lemma_booting_retried_once<R>(resp: RpcResponse<R>, second: Outcome<R>)
    requires
        resp.result is None,
        resp.error is Some,
        resp.error->Some_0.code == BOOTING_CODE,
    ensures
        next_step(Attempt::First, Ok(resp)) == Step::<R>::Resend,
        exchange_count(Ok::<RpcResponse<R>, ClientError>(resp)) == 2,
        next_step(Attempt::Second, second) == Step::<R>::Finish(settled(second)),
        call_result(Ok(resp), second) == settled(second),
{
}

/// The second exchange always finishes the call: a third never happens.
pub proof fn lemma_second_attempt_finishes<R>(outcome: Outcome<R>)
    ensures
        next_step(Attempt::Second, outcome) == Step::<R>::Finish(settled(outcome)),
{
}

/// A failure to complete an exchange ends the call with that failure, on any
/// exchange: nothing is resolved and nothing is resent.
pub proof fn lemma_failure_not_retried<R>(attempt: Attempt, e: ClientError)
    ensures
        next_step(attempt, Err::<RpcResponse<R>, ClientError>(e)) == Step::<R>::Finish(Err(e)),
        exchange_count(Err::<RpcResponse<R>, ClientError>(e)) == 1,
{
}

/// An envelope with both or neither of `result` and `error` ends the call
/// with the violation it commits, never with a result or a daemon error.
pub proof fn lemma_broken_envelope_reported<R>(attempt: Attempt, resp: RpcResponse<R>)
    requires
        !resp.is_well_formed(),
    ensures
        next_step(attempt, Ok(resp)) == Step::<R>::Finish(
            Err(
                ClientError::Envelope(
                    if resp.result is Some {
                        EnvelopeViolation::BothPresent
                    } else {
                        EnvelopeViolation::NonePresent
                    },
                ),
            ),
        ),
        exchange_count(Ok::<RpcResponse<R>, ClientError>(resp)) == 1,
{
}

} // verus!
