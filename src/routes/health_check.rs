//! `GET /health_check`, and the replies that the routes send.
use vstd::prelude::*;

verus! {

/// The statuses that the routes answer with.
#[derive(Clone, Copy, Debug, PartialEq, Eq, Structural)]
pub enum Status {
    Success,
    BadRequest,
    InternalServerError,
}

/// The HTTP code of a status.
pub open spec fn status_code(s: Status) -> u16 {
    match s {
        Status::Success => 200,
        Status::BadRequest => 400,
        Status::InternalServerError => 500,
    }
}

impl Status {
    pub fn code(&self) -> (r: u16)
        ensures
            r == status_code(*self),
    {
        match self {
            Status::Success => 200,
            Status::BadRequest => 400,
            Status::InternalServerError => 500,
        }
    }
}

/// A reply: a status and a body.
pub struct Reply {
    pub status: Status,
    pub body: Vec<u8>,
}

/// A reply with the status and an empty body.
pub fn empty_reply(status: Status) -> (r: Reply)
    ensures
        r.status == status,
        r.body@.len() == 0,
{
    Reply { status, body: Vec::new() }
}

/// The liveness probe: `200 OK` with an empty body, whatever the request.
pub fn health_check() -> (r: Reply)
    ensures
        r.status == Status::Success,
        status_code(r.status) == 200,
        r.body@.len() == 0,
{
    empty_reply(Status::Success)
}

} // verus!
