//! The tool proxy's decision on each call from sandbox code: a call beyond
//! the session's limit is refused and recorded as a failure.
use vstd::prelude::*;

use crate::text::{decimal, push_decimal, push_str, to_owned};

verus! {

/// The texts of a refused call: the error recorded for it and the error
/// returned to the sandbox.
#[derive(Debug, Clone)]
pub struct LimitRefusal {
    /// The error recorded with the call.
    pub record_error: String,
    /// The error returned to the calling code.
    pub response_error: String,
}

/// Check a call against the limit: once `current_count` calls are recorded
/// and that is at least `max_tool_calls`, the call is refused.
pub fn check_tool_call_limit(current_count: usize, max_tool_calls: usize) -> (r: Option<LimitRefusal>)
    ensures
        (current_count >= max_tool_calls) == r is Some,
        r matches Some(x) ==> x.record_error@ == "Tool call limit exceeded: "@ + decimal(
            current_count as nat,
        ) + " >= "@ + decimal(max_tool_calls as nat) && x.response_error@
            == "Tool call limit exceeded ("@ + decimal(current_count as nat) + "/"@ + decimal(
            max_tool_calls as nat,
        ) + ")"@,
{
    if current_count < max_tool_calls {
        return None;
    }
    let mut record_error = to_owned("Tool call limit exceeded: ");
    push_decimal(&mut record_error, current_count as u64);
    push_str(&mut record_error, " >= ");
    push_decimal(&mut record_error, max_tool_calls as u64);
    let mut response_error = to_owned("Tool call limit exceeded (");
    push_decimal(&mut response_error, current_count as u64);
    push_str(&mut response_error, "/");
    push_decimal(&mut response_error, max_tool_calls as u64);
    push_str(&mut response_error, ")");
    Some(LimitRefusal { record_error, response_error })
}

} // verus!
