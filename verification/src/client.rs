//! How a client of the hub's HTTP API reads the status code of a reply.

use vstd::prelude::*;

verus! {

/// What a reply's status code means to the client.
#[derive(Debug, Clone, Copy, PartialEq, Eq, Structural)]
pub enum ReplyOutcome {
    /// A 2xx code: the body holds the answer.
    Success,
    /// 404: the task asked about does not exist.
    NotFound,
    /// Any other code: the reply is not a valid answer.
    Invalid,
}

/// The code is in the 2xx range.
pub open spec fn is_success_code(status: u16) -> bool {
    200 <= status <= 299
}

/// Whether the status code reports success (2xx).
pub fn is_success(status: u16) -> (b: bool)
    ensures
        b == is_success_code(status),
{
    200 <= status && status <= 299
}

/// How a reply about one task reads: success, task not found (404), or invalid.
pub fn task_reply_outcome(status: u16) -> (outcome: ReplyOutcome)
    ensures
        outcome == (if is_success_code(status) {
            ReplyOutcome::Success
        } else if status == 404 {
            ReplyOutcome::NotFound
        } else {
            ReplyOutcome::Invalid
        }),
{
    if is_success(status) {
        ReplyOutcome::Success
    } else if status == 404 {
        ReplyOutcome::NotFound
    } else {
        ReplyOutcome::Invalid
    }
}

} // verus!
