use vstd::prelude::*;

verus! {

/// The status code that answers a forged or unverifiable request.
pub const FORBIDDEN: u16 = 403;

/// The status code for a check that ran in a state it should never see.
pub const INTERNAL_SERVER_ERROR: u16 = 500;

/// An HTTP status, by its code.
#[derive(Clone, Copy, Debug, PartialEq, Eq, Structural)]
pub struct Status {
    pub code: u16,
}

impl Status {
    /// 403 Forbidden.
    pub fn forbidden() -> (status: Self)
        ensures
            status == (Status { code: FORBIDDEN }),
    {
        Status { code: FORBIDDEN }
    }

    /// 500 Internal Server Error.
    pub fn internal_server_error() -> (status: Self)
        ensures
            status == (Status { code: INTERNAL_SERVER_ERROR }),
    {
        Status { code: INTERNAL_SERVER_ERROR }
    }
}

/// How an attempt to take something from a request ended.
///
/// `Forward` means that the attempt does not apply to this request and that
/// the host should try another handler; it is never a success.
#[derive(Debug)]
pub enum Outcome<S, E, F> {
    Success(S),
    Error(E),
    Forward(F),
}

/// What a check that runs in several steps asks of its host.
#[derive(Debug)]
pub enum Step<N, O> {
    /// Carry on with the next step, handing it this state.
    Continue(N),
    /// The check has ended with this outcome; no further step may run.
    Done(O),
}

} // verus!
