//! Text of the report logged when a presentation call fails.

use vstd::prelude::*;
use vstd::string::StringExecFns;

verus! {

/// The lines that report a failed call and its causal chain, one line per
/// message. `messages[0]` is the failing error's own message, the rest are
/// its sources, outermost first. The caller hands each line to its logger.
pub fn log_error(method_name: &str, messages: &Vec<String>) -> (lines: Vec<String>)
    ensures
        lines@.len() == messages@.len(),
        messages@.len() > 0 ==> lines@[0]@ == method_name@ + "() failed: "@ + messages@[0]@,
        forall|k: int| 1 <= k < messages@.len() ==> lines@[k]@ == "  Caused by: "@ + messages@[k]@,
{
    let mut lines: Vec<String> = Vec::new();
    let mut k: usize = 0;
    while k < messages.len()
        invariant
            k <= messages@.len(),
            lines@.len() == k as int,
            k > 0 ==> lines@[0]@ == method_name@ + "() failed: "@ + messages@[0]@,
            forall|j: int| 1 <= j < k as int ==> lines@[j]@ == "  Caused by: "@ + messages@[j]@,
        decreases messages@.len() - k,
    {
        let line: String = if k == 0 {
            String::from_str(method_name).concat("() failed: ").concat(messages[k].as_str())
        } else {
            String::from_str("  Caused by: ").concat(messages[k].as_str())
        };
        lines.push(line);
        k = k + 1;
    }
    lines
}

} // verus!
