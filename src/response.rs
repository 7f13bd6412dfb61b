use vstd::prelude::*;
use crate::text::{push_signed_decimal, signed_decimal};

verus! {

/// A failure reported by the daemon itself.
#[derive(Debug, Clone)]
pub struct RpcError {
    pub code: i32,
    pub message: String,
}

impl RpcError {
    /// `code <code>`, a newline, then `message <message>`.
    pub fn text(&self) -> (r: String)
        ensures
            r@ == "code "@ + signed_decimal(self.code as int) + "\nmessage "@ + self.message@,
    {
        let mut r = String::from_str("code ");
        push_signed_decimal(&mut r, self.code);
        r.append("\nmessage ");
        r.append(self.message.as_str());
        r
    }
}

/// The two ways a response envelope can break the rule that exactly one of
/// `result` and `error` is present.
#[derive(Debug, Clone, Copy, PartialEq, Eq, Structural)]
pub enum EnvelopeViolation {
    BothPresent,
    NonePresent,
}

/// A decoded JSON-RPC response envelope whose result is still of type `R`.
#[derive(Debug, Clone)]
pub struct RpcResponse<R> {
    pub id: String,
    pub result: Option<R>,
    pub error: Option<RpcError>,
}

impl<R> RpcResponse<R> {
    /// Exactly one of `result` and `error` is present.
    pub open spec fn is_well_formed(&self) -> bool {
        self.result.is_some() != self.error.is_some()
    }

    /// What an envelope stands for: a result, a daemon error, or a broken envelope.
    pub open spec fn resolved(self) -> Result<Result<R, RpcError>, EnvelopeViolation> {
        match self.result {
            Some(r) => match self.error {
                None => Ok(Ok(r)),
                Some(_) => Err(EnvelopeViolation::BothPresent),
            },
            None => match self.error {
                Some(e) => Ok(Err(e)),
                None => Err(EnvelopeViolation::NonePresent),
            },
        }
    }

    /// Splits an envelope into its result or its daemon error; a broken one
    /// yields the violation it commits instead of being coerced into either.
    pub fn into_result(self) -> (r: Result<Result<R, RpcError>, EnvelopeViolation>)
        ensures
            r == self.resolved(),
    {
        match self.result {
            Some(r) => match self.error {
                None => Ok(Ok(r)),
                Some(_) => Err(EnvelopeViolation::BothPresent),
            },
            None => match self.error {
                Some(e) => Ok(Err(e)),
                None => Err(EnvelopeViolation::NonePresent),
            },
        }
    }

    /// An envelope with both or neither of `result` and `error` never
    /// resolves to a result or to a daemon error, default or otherwise: it
    /// resolves to the violation it commits.
    pub proof fn lemma_broken_envelope_is_violation(self)
        requires
            !self.is_well_formed(),
        ensures
            self.resolved() is Err,
            self.result is Some ==> self.resolved() == Err::<Result<R, RpcError>, EnvelopeViolation>(
                EnvelopeViolation::BothPresent,
            ),
            self.result is None ==> self.resolved() == Err::<Result<R, RpcError>, EnvelopeViolation>(
                EnvelopeViolation::NonePresent,
            ),
    {
    }

    pub fn id(&self) -> (r: &str)
        ensures
            r@ == self.id@,
    {
        self.id.as_str()
    }
}

} // verus!
