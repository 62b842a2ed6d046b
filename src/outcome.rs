use vstd::prelude::*;

verus! {

/// What became of one submission.
#[derive(Clone, Debug)]
pub enum SubmitOutcome {
    /// The collector answered with a 2xx status.
    Accepted(u16),
    /// The collector answered with another status, and this body.
    Rejected(u16, String),
    /// No answer came: the detail of the transport error.
    TransportFailure(String),
}

/// A 2xx status.
pub open spec fn is_success(status: u16) -> bool {
    200 <= status && status <= 299
}

/// Classifies the collector's answer: a 2xx status is accepted, any other
/// is rejected with the body that came with it.
pub fn classify_response(status: u16, body: String) -> (r: SubmitOutcome)
    ensures
        is_success(status) ==> r == SubmitOutcome::Accepted(status),
        !is_success(status) ==> r == SubmitOutcome::Rejected(status, body),
{
    if 200 <= status && status <= 299 {
        SubmitOutcome::Accepted(status)
    } else {
        SubmitOutcome::Rejected(status, body)
    }
}

impl SubmitOutcome {
    /// A failed submission, rejected or lost in transport; the next cycle
    /// goes on either way.
    pub fn is_failure(&self) -> (r: bool)
        ensures
            r == !(self is Accepted),
    {
        match self {
            SubmitOutcome::Accepted(_) => false,
            _ => true,
        }
    }
}

} // verus!
