use vstd::prelude::*;

verus! {

/// Every way a handler call can fail.
#[derive(Clone, Copy, Debug, PartialEq, Eq, Structural)]
pub enum HandlerError {
    /// A required signer or authority was missing; nothing was mutated.
    AuthorizationError,
    /// The state account's bytes do not decode as the fixed-width counter;
    /// nothing was mutated.
    MalformedStateError,
    /// The nested invocation reported failure; it is surfaced unchanged.
    ForwardedFailure,
}

/// Propagation policy for a nested invocation: success passes through,
/// failure surfaces as `ForwardedFailure`, with no retry and no recovery.
pub fn finish_forward(invocation_succeeded: bool) -> (r: Result<(), HandlerError>)
    ensures
        r is Ok <==> invocation_succeeded,
        !invocation_succeeded ==> r == Err::<(), HandlerError>(HandlerError::ForwardedFailure),
{
    if invocation_succeeded {
        Ok(())
    } else {
        Err(HandlerError::ForwardedFailure)
    }
}

} // verus!
