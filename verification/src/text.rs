//! Building the short texts that cross a boundary.

use vstd::prelude::*;
use vstd::string::*;

verus! {

/// `context`, then `detail`.
pub fn prefixed(context: &str, detail: &str) -> (text: String)
    ensures
        text@ == context@ + detail@,
{
    String::from_str(context).concat(detail)
}

/// Puts `context` in front of the text of a failure and leaves a success as
/// it is.
pub fn in_context<T>(context: &str, outcome: Result<T, String>) -> (result: Result<T, String>)
    ensures
        match outcome {
            Ok(value) => result == Ok::<T, String>(value),
            Err(detail) => result is Err && result->Err_0@ == context@ + detail@,
        },
{
    match outcome {
        Ok(value) => Ok(value),
        Err(detail) => Err(prefixed(context, detail.as_str())),
    }
}

} // verus!
