//! How an operation on the database is retried while the database is
//! locked: the caller runs the operation, and asks here after each failure
//! whether to wait and try again.
use vstd::prelude::*;

use crate::db::error::{locked, DbError};

verus! {

/// How many times an operation is tried while the database stays locked.
pub const MAX_LOCKED_ATTEMPTS: u32 = 8;

/// What to do after an attempt failed.
#[derive(Clone, Copy, Debug, PartialEq, Eq, Structural)]
pub enum RetryStep {
    /// Wait this many milliseconds, then try again.
    Retry { delay_ms: u64 },
    /// Give up with the attempt's error.
    Fail,
}

/// After attempt number `attempt` (counted from 0) failed with `err`: a
/// locked database is retried after `50 * (attempt + 1)` ms until the
/// attempts run out; any other error, or the last attempt's, is handed out.
pub fn after_failed_attempt(attempt: u32, err: &DbError) -> (r: RetryStep)
    requires
        attempt < MAX_LOCKED_ATTEMPTS,
    ensures
        locked(*err) && attempt + 1 < MAX_LOCKED_ATTEMPTS ==> r == (RetryStep::Retry { delay_ms: (50 * (attempt + 1)) as u64 }),
        !(locked(*err) && attempt + 1 < MAX_LOCKED_ATTEMPTS) ==> r == RetryStep::Fail,
{
    if err.is_locked() && attempt + 1 < MAX_LOCKED_ATTEMPTS {
        RetryStep::Retry { delay_ms: 50 * (attempt as u64 + 1) }
    } else {
        RetryStep::Fail
    }
}

} // verus!
