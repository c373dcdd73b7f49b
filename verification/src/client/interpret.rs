//! How an answer to a claim submission is counted.
//!
//! The service's confirmation is not reliably documented. An accepted answer
//! that names no count is taken to grant every submitted item; this is an
//! approximation, kept in one place so that it can be corrected alone.

use vstd::prelude::*;

use crate::api::types::ClaimResponse;
use crate::json::{integer_member, read_integer_member};

verus! {

/// The status with which the service refuses new claims while an earlier item
/// of the session is still pending.
pub const PENDING_ITEMS_ERRNO: i32 = 10003;

/// What an answer to a claim submission amounts to.
#[derive(Debug, Clone, Copy, PartialEq, Eq, Structural)]
pub enum ClaimVerdict {
    /// The service accepted the submission and `confirmed` items count as
    /// claimed.
    Accepted { confirmed: i32 },
    /// The service refused: pending items must be resolved before more can be
    /// claimed.
    PendingItems,
    /// The service refused with another status.
    Rejected { errno: i32 },
}

impl ClaimVerdict {
    /// The number of items that count as claimed: none unless accepted.
    pub open spec fn confirmed(self) -> int {
        match self {
            ClaimVerdict::Accepted { confirmed } => confirmed as int,
            _ => 0,
        }
    }

    /// The number of items that count as claimed.
    pub fn confirmed_count(&self) -> (count: i32)
        ensures
            count == self.confirmed(),
    {
        match self {
            ClaimVerdict::Accepted { confirmed } => *confirmed,
            _ => 0,
        }
    }
}

/// The explicit count of granted items in an answer: the integer member
/// `success` of its payload, where the payload is an object that has one.
pub open spec fn success_field(response: ClaimResponse) -> Option<i64> {
    match response.data {
        Some(payload) => integer_member(payload, "success"@),
        None => None,
    }
}

/// The verdict on an answer with status `errno` and explicit count `success`
/// to a submission of `submitted` items. With a zero status the explicit
/// count is confirmed, or every submitted item where there is none; both are
/// cut to 32 bits. A non-zero status confirms nothing.
pub open spec fn verdict_of(errno: i32, success: Option<i64>, submitted: usize) -> ClaimVerdict {
    if errno == 0 {
        ClaimVerdict::Accepted {
            confirmed: match success {
                Some(count) => count as i32,
                None => submitted as i32,
            },
        }
    } else if errno == PENDING_ITEMS_ERRNO {
        ClaimVerdict::PendingItems
    } else {
        ClaimVerdict::Rejected { errno }
    }
}

/// The verdict on `response` to a submission of `submitted` items.
pub open spec fn claim_verdict(response: ClaimResponse, submitted: usize) -> ClaimVerdict {
    verdict_of(response.errno, success_field(response), submitted)
}

/// Judges the answer `response` to a submission of `submitted` items.
pub fn interpret_claim(response: &ClaimResponse, submitted: usize) -> (verdict: ClaimVerdict)
    ensures
        verdict == claim_verdict(*response, submitted),
{
    if response.errno == 0 {
        let success: Option<i64> = match &response.data {
            Some(payload) => read_integer_member(payload, "success"),
            None => None,
        };
        let confirmed: i32 = match success {
            Some(count) => #[verifier::truncate] (count as i32),
            None => #[verifier::truncate] (submitted as i32),
        };
        ClaimVerdict::Accepted { confirmed }
    } else if response.errno == PENDING_ITEMS_ERRNO {
        ClaimVerdict::PendingItems
    } else {
        ClaimVerdict::Rejected { errno: response.errno }
    }
}

/// An answer with zero status and no explicit count confirms the whole
/// batch, as far as the size of the batch fits in 32 bits.
pub proof fn accepted_answer_without_count_confirms_batch(
    response: ClaimResponse,
    submitted: usize,
)
    requires
        response.errno == 0,
        success_field(response) is None,
        submitted <= i32::MAX,
    ensures
        claim_verdict(response, submitted).confirmed() == submitted,
{
}

/// An answer with zero status and the explicit count `count` confirms
/// `count`, as far as it fits in 32 bits.
pub proof fn accepted_answer_with_count_confirms_it(
    response: ClaimResponse,
    submitted: usize,
    count: i64,
)
    requires
        response.errno == 0,
        success_field(response) == Some(count),
        i32::MIN <= count <= i32::MAX,
    ensures
        claim_verdict(response, submitted).confirmed() == count,
{
}

/// An answer with a non-zero status confirms nothing.
pub proof fn refused_answer_confirms_nothing(response: ClaimResponse, submitted: usize)
    requires
        response.errno != 0,
    ensures
        claim_verdict(response, submitted).confirmed() == 0,
{
}

} // verus!
