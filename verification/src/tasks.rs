//! Long-running tasks whose interesting property is what they can *not* do:
//! one fetch that can only succeed, and one listener that can only fail. The
//! impossible side of each `Result` is [`Never`], and the contracts state the
//! possible side exactly.

use vstd::prelude::*;
use vstd::string::StringExecFns;

use crate::coroutine::Never;

verus! {

/// One poll of the data source. This stand-in source always has data ready.
pub fn try_fetch(_url: &str) -> (r: Option<String>)
    ensures
        r matches Some(data) && data@ == "data"@,
{
    Some(String::from_str("data"))
}

/// Fetch that retries until the source answers, so it cannot fail: the error
/// side of the result is `Never`.
pub fn guaranteed_fetch(url: &str) -> (r: Result<String, Never>)
    ensures
        r matches Ok(data) && data@ == "data"@,
{
    loop
        decreases 0int,
    {
        match try_fetch(url) {
            Some(result) => {
                return Ok(result);
            },
            None => {
                proof {
                    // The source's contract rules this arm out, so the loop
                    // body always returns on its first pass.
                    assert(false);
                }
            },
        }
    }
}

/// A listener that runs for a bounded number of turns and then gives up, so
/// it cannot succeed: the success side of the result is `Never`.
pub fn listener_with_errors() -> (r: Result<Never, String>)
    ensures
        r matches Err(message) && message@ == "too many iterations"@,
{
    let mut count: u32 = 0;
    loop
        invariant
            count <= 100,
        decreases 100 - count,
    {
        count = count + 1;
        if count > 100 {
            return Err(String::from_str("too many iterations"));
        }
    }
}

} // verus!
