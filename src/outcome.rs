use vstd::prelude::*;

use crate::handle::Value;

verus! {

/// The result of a fallible engine operation: what it produced, or the value
/// that the engine threw.
pub type JSResult<T> = Result<T, Value>;

/// What a fallible engine call amounts to, given its raw result and the
/// content of its exception out-slot after the call. The slot decides: a
/// thrown value in it is the error whatever the raw result holds.
pub open spec fn outcome<T>(raw: T, exception: Value) -> Result<T, Value> {
    if exception@.is_none() {
        Ok(raw)
    } else {
        Err(exception)
    }
}

/// Turns the raw result of a fallible engine call and its exception out-slot
/// into a result. Never swallows a thrown value.
pub fn settle<T>(raw: T, exception: Value) -> (r: JSResult<T>)
    ensures
        r == outcome(raw, exception),
        r is Ok <==> exception@.is_none(),
{
    if exception.is_empty() {
        Ok(raw)
    } else {
        Err(exception)
    }
}

/// Success is decided by the exception slot alone: two calls that leave the
/// same slot behind both succeed or both fail, whatever their raw results,
/// and a failure hands back exactly the thrown value. In particular a failed
/// syntax check is an error, never a negative answer.
pub proof fn lemma_slot_decides<T>(a: T, b: T, exception: Value)
    ensures
        (outcome(a, exception) is Ok) == (outcome(b, exception) is Ok),
        exception@.is_some() ==> outcome(a, exception) == Err::<T, Value>(exception),
        exception@.is_none() ==> outcome(a, exception) == Ok::<T, Value>(a),
{
}

} // verus!
