//! What a request guard hands back, and the statuses it may carry.

use vstd::prelude::*;

verus! {

/// The status of a response, by the number that stands for it on the wire.
#[derive(Clone, Copy, Debug, PartialEq, Eq, Structural)]
pub struct Status {
    pub code: u16,
}

impl Status {
    /// 200: the request is in order.
    pub fn ok() -> (status: Status)
        ensures
            status.code == 200,
    {
        Status { code: 200 }
    }

    /// 400: the request cannot belong to a login that this server began.
    pub fn bad_request() -> (status: Status)
        ensures
            status.code == 400,
    {
        Status { code: 400 }
    }

    /// 500: the identity provider failed or broke the protocol.
    pub fn internal_server_error() -> (status: Status)
        ensures
            status.code == 500,
    {
        Status { code: 500 }
    }
}

/// The three ways in which a guard ends: it yields a value, it fails the
/// request, or it leaves the request to the next handler that matches.
#[derive(Debug)]
pub enum Outcome<S, E, F> {
    /// The guard passed and yields a value.
    Success(S),
    /// The guard failed: the request is answered with an error.
    Error(E),
    /// The request is not for this guard: the next handler is tried.
    Forward(F),
}

} // verus!
