//! The phases that a connection goes through.
use vstd::prelude::*;

use crate::request::{Req, ReqView};
use crate::status::Status;

verus! {

/// A response that is to be written.
#[derive(Debug)]
pub enum ResEncoder<E> {
    /// A response of the server itself, which has nothing but a status.
    Error(Status),
    /// The response that a handler has given.
    Reply(E),
}

/// What a connection is about to do.
///
/// `Q` is the type of requests, `H` that of handlers, `P` that of replies in the making, and `E`
/// that of the responses of handlers.
#[derive(Debug)]
pub enum Phase<Q, H, P, E> {
    ReadRequestHead,
    DispatchRequest(Q),
    HandleRequest(H),
    PollReply(P),
    WriteResponse(ResEncoder<E>),
    Closed,
}

/// Which phase a [`Phase`] is, whatever it holds.
#[derive(Debug, Clone, Copy, PartialEq, Eq, Structural)]
pub enum PhaseKind {
    ReadRequestHead,
    DispatchRequest,
    HandleRequest,
    PollReply,
    WriteResponse,
    Closed,
}

impl<H, P, E> View for Phase<Req, H, P, E> {
    type V = Phase<ReqView, H, P, E>;

    open spec fn view(&self) -> Phase<ReqView, H, P, E> {
        match *self {
            Phase::ReadRequestHead => Phase::ReadRequestHead,
            Phase::DispatchRequest(req) => Phase::DispatchRequest(req@),
            Phase::HandleRequest(handler) => Phase::HandleRequest(handler),
            Phase::PollReply(reply) => Phase::PollReply(reply),
            Phase::WriteResponse(encoder) => Phase::WriteResponse(encoder),
            Phase::Closed => Phase::Closed,
        }
    }
}

impl<Q, H, P, E> Phase<Q, H, P, E> {
    /// Which phase this is.
    pub open spec fn spec_kind(self) -> PhaseKind {
        match self {
            Phase::ReadRequestHead => PhaseKind::ReadRequestHead,
            Phase::DispatchRequest(_) => PhaseKind::DispatchRequest,
            Phase::HandleRequest(_) => PhaseKind::HandleRequest,
            Phase::PollReply(_) => PhaseKind::PollReply,
            Phase::WriteResponse(_) => PhaseKind::WriteResponse,
            Phase::Closed => PhaseKind::Closed,
        }
    }

    /// Returns which phase this is.
    pub fn kind(&self) -> (r: PhaseKind)
        ensures
            r == self.spec_kind(),
    {
        match self {
            Phase::ReadRequestHead => PhaseKind::ReadRequestHead,
            Phase::DispatchRequest(_) => PhaseKind::DispatchRequest,
            Phase::HandleRequest(_) => PhaseKind::HandleRequest,
            Phase::PollReply(_) => PhaseKind::PollReply,
            Phase::WriteResponse(_) => PhaseKind::WriteResponse,
            Phase::Closed => PhaseKind::Closed,
        }
    }

    /// Takes the phase out, and leaves `Closed` in its place.
    pub fn take(&mut self) -> (r: Self)
        ensures
            r == *old(self),
            *final(self) == Phase::<Q, H, P, E>::Closed,
    {
        let mut taken = Phase::Closed;
        std::mem::swap(self, &mut taken);
        taken
    }

    /// Returns `true` if the phase is `Closed`, otherwise `false`.
    pub fn is_closed(&self) -> (r: bool)
        ensures
            r <==> *self is Closed,
    {
        if let Phase::Closed = *self {
            true
        } else {
            false
        }
    }
}

} // verus!
